//! Nesting elements: the test of the child's rank and the append that follows it.

use crate::element::{
    lemma_views_push, Chapter, Element, Environment, Paragraph, Part, Section,
};
use crate::error::TexError;
use crate::laws::{lemma_attach_keeps_hierarchy, lemma_attach_keeps_well_formed};
use crate::model::ElementView;
use crate::text::lemma_texts_push;
use vstd::prelude::*;

verus! {

/// A container that elements can be attached to.
pub trait Attach: View<V = ElementView> + Sized {
    /// Appends `element` behind the children that the container already holds,
    /// provided that its rank exceeds the container's threshold. Otherwise the
    /// container stays as it was and the rank error is returned. Either way a
    /// tree that kept to the containment hierarchy, or was well formed, still
    /// does and is.
    ///
    /// A paragraph whose child slot is empty cannot take a child; it may still
    /// be offered one whose rank is too low.
    fn attach(&mut self, element: Element) -> (r: Result<(), TexError>)
        requires
            old(self)@.accepts(element@) ==> old(self)@.populated(),
        ensures
            r is Ok <==> old(self)@.accepts(element@),
            r is Err ==> r == Err::<(), TexError>(TexError::RankError),
            final(self)@ == old(self)@.attached(element@),
            old(self)@.ranked() && element@.ranked() ==> final(self)@.ranked(),
            old(self)@.well_formed() && element@.well_formed() ==> final(self)@.well_formed(),
    ;
}

impl Attach for Part {
    fn attach(&mut self, element: Element) -> (r: Result<(), TexError>) {
        proof {
            if self@.ranked() && element@.ranked() {
                lemma_attach_keeps_hierarchy(self@, element@);
            }
            if self@.well_formed() && element@.well_formed() {
                lemma_attach_keeps_well_formed(self@, element@);
            }
        }
        if element.rank() > 0 {
            proof {
                lemma_views_push(self.1@, element);
            }
            self.1.push(element);
            return Ok(());
        }
        return Err(TexError::RankError);
    }
}

impl Attach for Chapter {
    fn attach(&mut self, element: Element) -> (r: Result<(), TexError>) {
        proof {
            if self@.ranked() && element@.ranked() {
                lemma_attach_keeps_hierarchy(self@, element@);
            }
            if self@.well_formed() && element@.well_formed() {
                lemma_attach_keeps_well_formed(self@, element@);
            }
        }
        if element.rank() > 1 {
            proof {
                lemma_views_push(self.1@, element);
            }
            self.1.push(element);
            return Ok(());
        }
        return Err(TexError::RankError);
    }
}

impl Attach for Section {
    fn attach(&mut self, element: Element) -> (r: Result<(), TexError>) {
        proof {
            if self@.ranked() && element@.ranked() {
                lemma_attach_keeps_hierarchy(self@, element@);
            }
            if self@.well_formed() && element@.well_formed() {
                lemma_attach_keeps_well_formed(self@, element@);
            }
        }
        if element.rank() > 2 {
            proof {
                lemma_views_push(self.1@, element);
            }
            self.1.push(element);
            return Ok(());
        }
        return Err(TexError::RankError);
    }
}

impl Attach for Paragraph {
    fn attach(&mut self, element: Element) -> (r: Result<(), TexError>) {
        proof {
            if self@.ranked() && element@.ranked() {
                lemma_attach_keeps_hierarchy(self@, element@);
            }
            if self@.well_formed() && element@.well_formed() {
                lemma_attach_keeps_well_formed(self@, element@);
            }
        }
        if element.rank() > 3 {
            match &mut self.1 {
                Some(children) => {
                    proof {
                        lemma_views_push(children@, element);
                    }
                    children.push(element);
                },
                None => {},
            }
            return Ok(());
        }
        return Err(TexError::RankError);
    }
}

impl Attach for Environment {
    fn attach(&mut self, element: Element) -> (r: Result<(), TexError>) {
        proof {
            if self@.ranked() && element@.ranked() {
                lemma_attach_keeps_hierarchy(self@, element@);
            }
            if self@.well_formed() && element@.well_formed() {
                lemma_attach_keeps_well_formed(self@, element@);
            }
        }
        if element.rank() > 7 {
            let item = String::from(element);
            proof {
                lemma_texts_push(self.1@, item);
            }
            self.1.push(item);
            return Ok(());
        }
        return Err(TexError::RankError);
    }
}

} // verus!
