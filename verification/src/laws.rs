//! What holds of the library as a whole, stated over the models that the
//! contracts of its functions speak of.

use crate::document::{meta_injections, package_injections, LatexView};
use crate::element::{Element, Level};
use crate::model::{child_pieces, ElementView};
use crate::text::{lemma_joined_concat, lines, newline};
use vstd::prelude::*;

verus! {

/// A child whose rank is too low changes nothing: the container is the same
/// value afterwards, so it holds as many children as before.
pub proof fn lemma_rejected_attach_keeps_container(parent: ElementView, child: ElementView)
    requires
        !parent.accepts(child),
    ensures
        parent.attached(child) == parent,
        parent.attached(child).offspring() == parent.offspring(),
{
}

/// Attaching to a part, chapter, section or populated paragraph elements that
/// all exceed its threshold appends them in the order in which they were attached:
/// the children are the old ones followed by the new ones, none moved.
pub proof fn lemma_attach_keeps_order(parent: ElementView, kids: Seq<ElementView>)
    requires
        parent.offspring() is Some,
        forall|i: int| 0 <= i < kids.len() ==> parent.accepts(#[trigger] kids[i]),
    ensures
        parent.attached_all(kids).offspring() == Some(parent.offspring()->0 + kids),
        parent.attached_all(kids).offspring()->0.len() == parent.offspring()->0.len() + kids.len(),
        parent.attached_all(kids).threshold() == parent.threshold(),
    decreases kids.len(),
{
    if kids.len() == 0 {
        assert(parent.offspring()->0 + kids =~= parent.offspring()->0);
    } else {
        let front = kids.drop_last();
        lemma_attach_keeps_order(parent, front);
        assert((parent.offspring()->0 + front).push(kids.last()) =~= parent.offspring()->0 + kids);
    }
}

/// Attached to an empty container, the elements that exceed its threshold are its
/// children afterwards, in the order of attachment.
pub proof fn lemma_attach_to_empty(parent: ElementView, kids: Seq<ElementView>)
    requires
        parent.offspring() == Some(Seq::<ElementView>::empty()),
        forall|i: int| 0 <= i < kids.len() ==> parent.accepts(#[trigger] kids[i]),
    ensures
        parent.attached_all(kids).offspring() == Some(kids),
{
    lemma_attach_keeps_order(parent, kids);
    assert(Seq::<ElementView>::empty() + kids =~= kids);
}

/// An attachment keeps the containment hierarchy: where it holds in the
/// container and in the child, it holds in the container afterwards.
pub proof fn lemma_attach_keeps_hierarchy(parent: ElementView, child: ElementView)
    requires
        parent.ranked(),
        child.ranked(),
    ensures
        parent.attached(child).ranked(),
{
    let after = parent.attached(child);
    if parent.accepts(child) && parent.offspring() is Some {
        let kids = parent.offspring()->0;
        let now = after.offspring()->0;
        assert(now == kids.push(child));
        assert forall|i: int| 0 <= i < now.len() implies after.accepts(#[trigger] now[i])
            && now[i].ranked() by {
            if i < kids.len() {
                assert(parent.accepts(kids[i]) && kids[i].ranked());
            }
        }
    }
}

/// An attachment keeps a tree well formed.
pub proof fn lemma_attach_keeps_well_formed(parent: ElementView, child: ElementView)
    requires
        parent.well_formed(),
        child.well_formed(),
    ensures
        parent.attached(child).well_formed(),
{
    let after = parent.attached(child);
    if parent.accepts(child) && parent.offspring() is Some {
        let kids = parent.offspring()->0;
        let now = after.offspring()->0;
        assert(now == kids.push(child));
        assert forall|i: int| 0 <= i < now.len() implies (#[trigger] now[i]).well_formed() by {
            if i < kids.len() {
                assert(kids[i].well_formed());
            }
        }
    }
}

/// An environment takes runs of text and nothing else, and it keeps the text
/// that the run is written as: its items grow by one line, and it never has
/// child elements.
pub proof fn lemma_environment_keeps_text(env: ElementView, child: ElementView)
    requires
        env is Environment,
    ensures
        env.accepts(child) <==> child.rank() > 7,
        env.accepts(child) <==> child is Text,
        env.accepts(child) ==> env.attached(child) == (ElementView::Environment {
            name: env->name,
            items: env->Environment_items.push(child.render()),
        }),
        env.attached(child).offspring() is None,
        env.attached(child) is Environment,
{
}

/// An element without children has nothing below it.
pub proof fn lemma_flatten_childless(e: ElementView)
    requires
        e.offspring() is None || e.offspring()->0.len() == 0,
    ensures
        e.flatten() == Seq::<char>::empty(),
{
    if e.offspring() is Some {
        assert(child_pieces(e.offspring()->0) =~= Seq::<Seq<char>>::empty());
    }
}

/// Below an element with children stand, for each child in order, the child's
/// own text and then what is below that child, all joined by newlines.
pub proof fn lemma_flatten_children(e: ElementView)
    requires
        e.offspring() is Some,
    ensures
        e.flatten() == lines(child_pieces(e.offspring()->0)),
        child_pieces(e.offspring()->0).len() == 2 * e.offspring()->0.len(),
        forall|i: int|
            0 <= i < e.offspring()->0.len() ==> {
                &&& #[trigger] child_pieces(e.offspring()->0)[2 * i] == e.offspring()->0[i].render()
                &&& child_pieces(e.offspring()->0)[2 * i + 1] == e.offspring()->0[i].flatten()
            },
{
    let kids = e.offspring()->0;
    assert forall|i: int| 0 <= i < kids.len() implies {
        &&& #[trigger] child_pieces(kids)[2 * i] == kids[i].render()
        &&& child_pieces(kids)[2 * i + 1] == kids[i].flatten()
    } by {
        assert((2 * i) / 2 == i && (2 * i + 1) / 2 == i);
    }
}

/// Flattening in parallel and flattening in sequence give the same text for
/// the same tree.
pub proof fn lemma_parallel_flatten_agrees(e: Element, sequential: String, parallel: String)
    requires
        e@.well_formed(),
        call_ensures(Element::loop_through, (&e,), sequential),
        call_ensures(Element::loop_through_parallel, (&e,), parallel),
    ensures
        sequential@ == parallel@,
{
}

/// A user-defined element shows up in the one region that its level names:
/// there it contributes its content as it stands, and to each of the other two
/// it contributes the empty text.
pub proof fn lemma_user_defined_in_one_region(doc: LatexView, i: int)
    requires
        0 <= i < doc.elements.len(),
        doc.elements[i] is UserDefined,
    ensures
        meta_injections(doc.elements)[i] == if doc.elements[i]->level == Level::Meta {
            doc.elements[i]->UserDefined_content
        } else {
            Seq::<char>::empty()
        },
        package_injections(doc.elements)[i] == if doc.elements[i]->level == Level::Package {
            doc.elements[i]->UserDefined_content
        } else {
            Seq::<char>::empty()
        },
        doc.elements[i].body_pieces() == seq![
            if doc.elements[i]->level == Level::Body {
                doc.elements[i]->UserDefined_content
            } else {
                Seq::<char>::empty()
            },
        ],
{
}

/// Only a user-defined element is injected anywhere: every other element
/// contributes the empty text to the two regions ahead of the body.
pub proof fn lemma_only_user_defined_is_injected(e: ElementView)
    requires
        !(e is UserDefined),
    ensures
        e.meta_injection() == Seq::<char>::empty(),
        e.package_injection() == Seq::<char>::empty(),
        e.body_injection() == Seq::<char>::empty(),
{
}

/// The two texts of a split document hold the pieces of the whole document,
/// each piece once and in the same order: the structure is what was taken out
/// of the whole between the head and the body, and the main text is the rest.
pub proof fn lemma_split_partitions_document(doc: LatexView)
    ensures
        doc.document_pieces().len() == doc.main_pieces().len() + doc.structure().len(),
        doc.main_pieces().take(doc.preamble().len() as int) == doc.preamble(),
        doc.main_pieces().skip(doc.preamble().len() as int) == doc.body(),
        doc.document_pieces() == doc.main_pieces().take(doc.preamble().len() as int)
            + doc.structure() + doc.main_pieces().skip(doc.preamble().len() as int),
{
    let k = doc.preamble().len() as int;
    assert(doc.main_pieces().take(k) =~= doc.preamble());
    assert(doc.main_pieces().skip(k) =~= doc.body());
}

/// The texts of a split document against the text of the whole: the main text
/// is the head and the body with one newline between them, and the whole is
/// the same with the structure text set between the two, unless there is no
/// structure at all, in which case the whole is the main text.
pub proof fn lemma_split_texts(doc: LatexView)
    ensures
        doc.main_text() == lines(doc.preamble()) + newline() + lines(doc.body()),
        doc.structure().len() == 0 ==> doc.document_text() == doc.main_text(),
        doc.structure().len() > 0 ==> doc.document_text() == lines(doc.preamble()) + newline()
            + doc.structure_text() + newline() + lines(doc.body()),
{
    lemma_joined_concat(doc.preamble(), doc.body(), newline());
    lemma_joined_concat(doc.preamble(), doc.structure(), newline());
    lemma_joined_concat(doc.preamble() + doc.structure(), doc.body(), newline());
    if doc.structure().len() == 0 {
        assert(doc.preamble() + doc.structure() =~= doc.preamble());
    }
}

} // verus!
