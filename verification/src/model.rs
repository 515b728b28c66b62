//! The mathematical model of a document element: a tree whose labels and
//! contents are character sequences, together with the functions that say what
//! an element's rank is, what it may contain and what text it stands for.

use crate::element::{Level, ListMode, TextType};
use crate::text::lines;
use vstd::prelude::*;

verus! {

/// What an [`Element`](crate::element::Element) is, as a value.
pub enum ElementView {
    Part { label: Seq<char>, children: Seq<ElementView> },
    Chapter { label: Seq<char>, children: Seq<ElementView> },
    Section { label: Seq<char>, children: Seq<ElementView> },
    /// A paragraph keeps its children in a slot that a constructor always
    /// fills; an empty slot marks a value that was assembled by hand.
    Paragraph { label: Seq<char>, slot: Option<Seq<ElementView>> },
    Text { content: Seq<char>, style: TextType },
    Input { file: Seq<char> },
    /// An environment holds text items, never sub-trees.
    Environment { name: Seq<char>, items: Seq<Seq<char>> },
    UserDefined { content: Seq<char>, level: Level },
    List { mode: ListMode, items: Seq<Seq<char>> },
}

/// The name of a list mode as it appears in the markup.
pub open spec fn mode_name(mode: ListMode) -> Seq<char> {
    match mode {
        ListMode::Itemize => "itemize"@,
        ListMode::Enumerate => "enumerate"@,
    }
}

/// `content` wrapped as its style asks for.
pub open spec fn styled(content: Seq<char>, style: TextType) -> Seq<char> {
    match style {
        TextType::Normal => content,
        TextType::Bold => "\\textbf{"@ + content + "}"@,
        TextType::Italic => "\\textit{"@ + content + "}"@,
        TextType::Underline => "\\underline{"@ + content + "}"@,
        TextType::Verbatim => "\\verb!"@ + content + "!"@,
        TextType::Roman => "\\textrm{"@ + content + "}"@,
    }
}

/// The line that opens the block called `name`.
pub open spec fn begin_line(name: Seq<char>) -> Seq<char> {
    "\\begin{"@ + name + "}"@
}

/// The line that closes the block called `name`.
pub open spec fn end_line(name: Seq<char>) -> Seq<char> {
    "\\end{"@ + name + "}"@
}

/// Each item behind an item marker.
pub open spec fn item_lines(items: Seq<Seq<char>>) -> Seq<Seq<char>> {
    Seq::new(items.len(), |i: int| "\\item "@ + items[i])
}

/// A block: the opening line, the given lines, the closing line.
pub open spec fn block(name: Seq<char>, body: Seq<Seq<char>>) -> Seq<char> {
    lines(seq![begin_line(name)] + body + seq![end_line(name)])
}

/// For each child in order its own line and then its flattened subtree: two
/// pieces per child, the second one empty where the child has nothing below it.
pub open spec fn child_pieces(kids: Seq<ElementView>) -> Seq<Seq<char>>
    decreases kids,
{
    Seq::new(
        2 * kids.len(),
        |k: int|
            if 0 <= k < 2 * kids.len() {
                if k % 2 == 0 {
                    kids[k / 2].render()
                } else {
                    kids[k / 2].flatten()
                }
            } else {
                Seq::empty()
            },
    )
}

impl ElementView {
    /// The rank of an element's kind. Lower ranks are the outer levels of a
    /// document.
    pub open spec fn rank(self) -> u8 {
        match self {
            ElementView::Part { .. } => 0,
            ElementView::Chapter { .. } => 1,
            ElementView::Section { .. } => 2,
            ElementView::Paragraph { .. } => 3,
            ElementView::UserDefined { .. } => 4,
            ElementView::List { .. } => 5,
            ElementView::Environment { .. } => 6,
            ElementView::Input { .. } => 7,
            ElementView::Text { .. } => 8,
        }
    }

    /// The rank that a child must strictly exceed to be attached, for the
    /// kinds that take children at all.
    pub open spec fn threshold(self) -> Option<u8> {
        match self {
            ElementView::Part { .. } => Some(0u8),
            ElementView::Chapter { .. } => Some(1u8),
            ElementView::Section { .. } => Some(2u8),
            ElementView::Paragraph { .. } => Some(3u8),
            ElementView::Environment { .. } => Some(7u8),
            _ => None,
        }
    }

    /// Whether attaching `child` to this element succeeds.
    pub open spec fn accepts(self, child: ElementView) -> bool {
        self.threshold() matches Some(t) && child.rank() > t
    }

    /// The child elements of a structural container; `None` for every other
    /// kind and for a paragraph whose slot is empty.
    pub open spec fn offspring(self) -> Option<Seq<ElementView>> {
        match self {
            ElementView::Part { children, .. } => Some(children),
            ElementView::Chapter { children, .. } => Some(children),
            ElementView::Section { children, .. } => Some(children),
            ElementView::Paragraph { slot, .. } => slot,
            _ => None,
        }
    }

    /// A paragraph is populated when its slot is filled; every other kind
    /// always is.
    pub open spec fn populated(self) -> bool {
        !(self matches ElementView::Paragraph { slot, .. } && slot is None)
    }

    /// Every paragraph of the tree is populated.
    pub open spec fn well_formed(self) -> bool
        decreases self,
    {
        &&& self.populated()
        &&& match self.offspring() {
            Some(kids) => forall|i: int|
                0 <= i < kids.len() ==> (#[trigger] kids[i]).well_formed(),
            None => true,
        }
    }

    /// The containment hierarchy holds throughout the tree: each child's rank
    /// exceeds the threshold of the container it sits in.
    pub open spec fn ranked(self) -> bool
        decreases self,
    {
        match self.offspring() {
            Some(kids) => forall|i: int|
                0 <= i < kids.len() ==> self.accepts(#[trigger] kids[i]) && kids[i].ranked(),
            None => true,
        }
    }

    /// This element with `child` appended behind what it already holds. An
    /// environment keeps the child's rendered text, the structural containers
    /// keep the child itself. Kinds that take no children are left as they are.
    pub open spec fn with_child(self, child: ElementView) -> ElementView {
        match self {
            ElementView::Part { label, children } => ElementView::Part {
                label,
                children: children.push(child),
            },
            ElementView::Chapter { label, children } => ElementView::Chapter {
                label,
                children: children.push(child),
            },
            ElementView::Section { label, children } => ElementView::Section {
                label,
                children: children.push(child),
            },
            ElementView::Paragraph { label, slot } => ElementView::Paragraph {
                label,
                slot: match slot {
                    Some(children) => Some(children.push(child)),
                    None => None,
                },
            },
            ElementView::Environment { name, items } => ElementView::Environment {
                name,
                items: items.push(child.render()),
            },
            _ => self,
        }
    }

    /// The outcome of an attachment: the child is appended where its rank
    /// exceeds the threshold, and nothing changes where it does not.
    pub open spec fn attached(self, child: ElementView) -> ElementView {
        if self.accepts(child) {
            self.with_child(child)
        } else {
            self
        }
    }

    /// The outcome of attaching the elements of `kids` one after another.
    pub open spec fn attached_all(self, kids: Seq<ElementView>) -> ElementView
        decreases kids.len(),
    {
        if kids.len() == 0 {
            self
        } else {
            self.attached_all(kids.drop_last()).attached(kids.last())
        }
    }

    /// The text of the element itself, without anything below it.
    pub open spec fn render(self) -> Seq<char> {
        match self {
            ElementView::Part { label, .. } => "\\part{"@ + label + "}"@,
            ElementView::Chapter { label, .. } => "\\chapter{"@ + label + "}"@,
            ElementView::Section { label, .. } => "\\section{"@ + label + "}"@,
            ElementView::Paragraph { label, .. } => "\\paragraph{"@ + label + "}"@,
            ElementView::Text { content, style } => "\\par "@ + styled(content, style),
            ElementView::Input { file } => "\\input{"@ + file + "}"@,
            ElementView::Environment { name, items } => block(name, items),
            ElementView::UserDefined { content, .. } => content,
            ElementView::List { mode, items } => block(mode_name(mode), item_lines(items)),
        }
    }

    /// Everything below the element, depth first: the pieces of its children
    /// joined by newlines. Empty for an element without children.
    pub open spec fn flatten(self) -> Seq<char>
        decreases self,
    {
        match self.offspring() {
            Some(kids) => lines(child_pieces(kids)),
            None => Seq::empty(),
        }
    }

    /// What the element puts between the metadata and the packages.
    pub open spec fn meta_injection(self) -> Seq<char> {
        match self {
            ElementView::UserDefined { content, level: Level::Meta } => content,
            _ => Seq::empty(),
        }
    }

    /// What the element puts behind the packages.
    pub open spec fn package_injection(self) -> Seq<char> {
        match self {
            ElementView::UserDefined { content, level: Level::Package } => content,
            _ => Seq::empty(),
        }
    }

    /// What a user-defined element puts into the document body.
    pub open spec fn body_injection(self) -> Seq<char> {
        match self {
            ElementView::UserDefined { content, level: Level::Body } => content,
            _ => Seq::empty(),
        }
    }

    /// The pieces that a top-level element contributes to the document body:
    /// its own line and, for a structural container, the pieces of its
    /// children. A user-defined element contributes its body injection.
    pub open spec fn body_pieces(self) -> Seq<Seq<char>> {
        match self {
            ElementView::UserDefined { .. } => seq![self.body_injection()],
            _ => match self.offspring() {
                Some(kids) => seq![self.render()] + child_pieces(kids),
                None => seq![self.render()],
            },
        }
    }
}

/// A child is smaller than the element it sits in, which is what lets a
/// traversal of the tree terminate.
pub proof fn lemma_child_decreases(e: ElementView, i: int)
    requires
        e.offspring() is Some,
        0 <= i < e.offspring()->0.len(),
    ensures
        decreases_to!(e => e.offspring()->0[i]),
{
}

/// In a well-formed tree every child is well formed.
pub proof fn lemma_child_well_formed(e: ElementView, i: int)
    requires
        e.well_formed(),
        e.offspring() is Some,
        0 <= i < e.offspring()->0.len(),
    ensures
        e.offspring()->0[i].well_formed(),
{
}

/// The pieces of the first `n + 1` children are those of the first `n`
/// followed by the two pieces of child `n`.
pub proof fn lemma_child_pieces_step(kids: Seq<ElementView>, n: int)
    requires
        0 <= n < kids.len(),
    ensures
        child_pieces(kids.take(n + 1)) == child_pieces(kids.take(n)).push(kids[n].render()).push(
            kids[n].flatten(),
        ),
{
    let more = child_pieces(kids.take(n + 1));
    let less = child_pieces(kids.take(n)).push(kids[n].render()).push(kids[n].flatten());
    assert(more =~= less);
}

} // verus!
