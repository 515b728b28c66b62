//! Turning a value into the markup it stands for.

use vstd::prelude::*;

verus! {

/// A value that has a textual form in the output format.
pub trait Convert {
    /// The text that the value stands for.
    spec fn latex(&self) -> Seq<char>;

    /// Writes the value out. For an element this is the element's own line or
    /// block; what is attached below it is not included.
    fn to_latex_string(&self) -> (s: String)
        ensures
            s@ == self.latex(),
    ;
}

} // verus!
