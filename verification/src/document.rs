//! The mathematical model of a whole document: what it is made of and the
//! text that it is written out as.

use crate::latex::Class;
use crate::model::ElementView;
use crate::text::{decimal, lines};
use vstd::prelude::*;

verus! {

/// What a [`Metadata`](crate::latex::Metadata) is, as a value.
pub struct MetadataView {
    pub author: Seq<char>,
    pub title: Seq<char>,
    pub date: Seq<char>,
}

/// What a [`Latex`](crate::latex::Latex) document is, as a value.
pub struct LatexView {
    pub class: Class,
    pub font_size: Option<u8>,
    pub paper_size: Option<Seq<char>>,
    pub metadata: MetadataView,
    pub packages: Seq<Seq<char>>,
    pub elements: Seq<ElementView>,
}

/// The name of a document class as it appears in the markup.
pub open spec fn class_name(class: Class) -> Seq<char> {
    match class {
        Class::Article => "article"@,
        Class::Book => "book"@,
        Class::Report => "report"@,
        Class::Beamer => "beamer"@,
    }
}

/// The directive that opens a document. A missing font size counts as 11
/// points, a missing paper size as letter paper.
pub open spec fn class_line(
    class: Class,
    font_size: Option<u8>,
    paper_size: Option<Seq<char>>,
) -> Seq<char> {
    let points = match font_size {
        Some(f) => f,
        None => 11u8,
    };
    let paper = match paper_size {
        Some(p) => p,
        None => "letterpaper"@,
    };
    "\\documentclass["@ + decimal(points as nat) + "pt, "@ + paper + "]{"@ + class_name(class)
        + "}"@
}

/// The directive that loads the package called `name`.
pub open spec fn package_line(name: Seq<char>) -> Seq<char> {
    "\\usepackage{"@ + name + "}"@
}

/// The directives of all packages, in order.
pub open spec fn package_lines(packages: Seq<Seq<char>>) -> Seq<Seq<char>> {
    Seq::new(packages.len(), |i: int| package_line(packages[i]))
}

/// One piece per top-level element, in order: what that element puts behind
/// the metadata.
pub open spec fn meta_injections(elements: Seq<ElementView>) -> Seq<Seq<char>> {
    Seq::new(elements.len(), |i: int| elements[i].meta_injection())
}

/// One piece per top-level element, in order: what that element puts behind
/// the packages.
pub open spec fn package_injections(elements: Seq<ElementView>) -> Seq<Seq<char>> {
    Seq::new(elements.len(), |i: int| elements[i].package_injection())
}

/// The body pieces of all top-level elements, in order.
pub open spec fn body_of(elements: Seq<ElementView>) -> Seq<Seq<char>>
    decreases elements.len(),
{
    if elements.len() == 0 {
        Seq::empty()
    } else {
        body_of(elements.drop_last()) + elements.last().body_pieces()
    }
}

impl MetadataView {
    /// The three metadata lines: author, title, date.
    pub open spec fn render(self) -> Seq<char> {
        lines(
            seq![
                "\\author{"@ + self.author + "}"@,
                "\\title{"@ + self.title + "}"@,
                "\\date{"@ + self.date + "}"@,
            ],
        )
    }
}

impl LatexView {
    /// Every top-level element is well formed.
    pub open spec fn well_formed(self) -> bool {
        forall|i: int| 0 <= i < self.elements.len() ==> (#[trigger] self.elements[i]).well_formed()
    }

    /// The head of the document: class directive, metadata, and what the
    /// elements put behind the metadata.
    pub open spec fn preamble(self) -> Seq<Seq<char>> {
        seq![class_line(self.class, self.font_size, self.paper_size), self.metadata.render()]
            + meta_injections(self.elements)
    }

    /// The package directives and what the elements put behind them.
    pub open spec fn structure(self) -> Seq<Seq<char>> {
        package_lines(self.packages) + package_injections(self.elements)
    }

    /// The document body between its begin and end markers, the title page
    /// first.
    pub open spec fn body(self) -> Seq<Seq<char>> {
        seq!["\\begin{document}"@, "\\maketitle\n\\newpage"@] + body_of(self.elements)
            + seq!["\\end{document}"@]
    }

    /// All pieces of the document in the order of the output format.
    pub open spec fn document_pieces(self) -> Seq<Seq<char>> {
        self.preamble() + self.structure() + self.body()
    }

    /// The pieces of the main text of a split document: everything but the
    /// structure.
    pub open spec fn main_pieces(self) -> Seq<Seq<char>> {
        self.preamble() + self.body()
    }

    /// The document as one text.
    pub open spec fn document_text(self) -> Seq<char> {
        lines(self.document_pieces())
    }

    /// The main text of a split document.
    pub open spec fn main_text(self) -> Seq<char> {
        lines(self.main_pieces())
    }

    /// The structure text of a split document.
    pub open spec fn structure_text(self) -> Seq<char> {
        lines(self.structure())
    }
}

/// The body pieces of the first `n + 1` elements are those of the first `n`
/// followed by the pieces of element `n`.
pub proof fn lemma_body_of_step(elements: Seq<ElementView>, n: int)
    requires
        0 <= n < elements.len(),
    ensures
        body_of(elements.take(n + 1)) == body_of(elements.take(n)) + elements[n].body_pieces(),
{
    assert(elements.take(n + 1).drop_last() =~= elements.take(n));
}

} // verus!
