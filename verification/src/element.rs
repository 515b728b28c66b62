//! The element kinds of a document, their constructors and the traversal that
//! turns a tree of elements into text.

use crate::convert::Convert;
use crate::model::{
    begin_line, block, child_pieces, end_line, item_lines, lemma_child_decreases,
    lemma_child_pieces_step, lemma_child_well_formed, ElementView,
};
use crate::text::{enclose, join_lines, lemma_texts_push, prefixed, texts};
use vstd::prelude::*;

verus! {

// Type aliases //
type Body = String;

type Meta = String;

type Pkg = String;

/// What a user-defined fragment puts into the body, behind the metadata and
/// behind the packages, in this order.
pub type UDTuple = (Body, Meta, Pkg);

/// An item of an environment or a list.
pub type Item = String;

// Structs //
/// A part: its label and what it contains.
#[derive(Debug)]
pub struct Part(pub String, pub Vec<Element>);

/// A chapter: its label and what it contains.
#[derive(Debug)]
pub struct Chapter(pub String, pub Vec<Element>);

/// A section: its label and what it contains.
#[derive(Debug)]
pub struct Section(pub String, pub Vec<Element>);

/// A paragraph: its label and what it contains. The constructor fills the
/// second field; a paragraph without it cannot be traversed.
#[derive(Debug)]
pub struct Paragraph(pub String, pub Option<Vec<Element>>);

/// A run of text and the way it is set.
#[derive(Debug)]
pub struct Text(pub String, pub TextType);

/// The inclusion of another file, by name.
#[derive(Debug)]
pub struct Input(pub String);

/// A named environment and the lines between its begin and end markers.
#[derive(Debug)]
pub struct Environment(pub String, pub Vec<Item>);

/// A fragment of markup that is emitted as it stands, in the region that its
/// level names.
#[derive(Debug)]
pub struct UserDefined(pub String, pub Level);

/// A list and its items.
#[derive(Debug)]
pub struct List(pub ListMode, pub Vec<Item>);

// Enums //
/// A node of the document tree.
#[derive(Debug)]
pub enum Element {
    Part(Part),
    Chapter(Chapter),
    Section(Section),
    Paragraph(Paragraph),
    Text(Text),
    Input(Input),
    Environment(Environment),
    UserDefined(UserDefined),
    List(List),
}

/// How a run of text is set.
#[derive(Debug, Clone, Copy, PartialEq, Eq, Structural)]
pub enum TextType {
    Normal,
    Bold,
    Italic,
    Underline,
    Verbatim,
    Roman,
}

/// The two kinds of list.
#[derive(Debug, Clone, Copy, PartialEq, Eq, Structural)]
pub enum ListMode {
    Itemize,
    Enumerate,
}

/// The region of the document that a user-defined fragment goes to.
#[derive(Debug, Clone, Copy, PartialEq, Eq, Structural)]
pub enum Level {
    /// Behind the metadata, before the packages.
    Meta,
    /// Inside the document body.
    Body,
    /// Behind the packages.
    Package,
}

// Views //
/// The models of a sequence of elements. (The closure is asked for indices of
/// the sequence only; what it gives elsewhere is of no account.)
pub open spec fn views(v: Seq<Element>) -> Seq<ElementView>
    decreases v,
{
    Seq::new(
        v.len(),
        |i: int|
            if 0 <= i < v.len() {
                v[i]@
            } else {
                ElementView::Input { file: Seq::empty() }
            },
    )
}

impl View for Element {
    type V = ElementView;

    open spec fn view(&self) -> ElementView
        decreases self,
    {
        match self {
            Element::Part(e) => ElementView::Part { label: e.0@, children: views(e.1@) },
            Element::Chapter(e) => ElementView::Chapter { label: e.0@, children: views(e.1@) },
            Element::Section(e) => ElementView::Section { label: e.0@, children: views(e.1@) },
            Element::Paragraph(e) => ElementView::Paragraph {
                label: e.0@,
                slot: match e.1 {
                    Some(v) => Some(views(v@)),
                    None => None,
                },
            },
            Element::Text(e) => ElementView::Text { content: e.0@, style: e.1 },
            Element::Input(e) => ElementView::Input { file: e.0@ },
            Element::Environment(e) => ElementView::Environment { name: e.0@, items: texts(e.1@) },
            Element::UserDefined(e) => ElementView::UserDefined { content: e.0@, level: e.1 },
            Element::List(e) => ElementView::List { mode: e.0, items: texts(e.1@) },
        }
    }
}

impl View for Part {
    type V = ElementView;

    open spec fn view(&self) -> ElementView {
        ElementView::Part { label: self.0@, children: views(self.1@) }
    }
}

impl View for Chapter {
    type V = ElementView;

    open spec fn view(&self) -> ElementView {
        ElementView::Chapter { label: self.0@, children: views(self.1@) }
    }
}

impl View for Section {
    type V = ElementView;

    open spec fn view(&self) -> ElementView {
        ElementView::Section { label: self.0@, children: views(self.1@) }
    }
}

impl View for Paragraph {
    type V = ElementView;

    open spec fn view(&self) -> ElementView {
        ElementView::Paragraph {
            label: self.0@,
            slot: match self.1 {
                Some(v) => Some(views(v@)),
                None => None,
            },
        }
    }
}

impl View for Text {
    type V = ElementView;

    open spec fn view(&self) -> ElementView {
        ElementView::Text { content: self.0@, style: self.1 }
    }
}

impl View for Input {
    type V = ElementView;

    open spec fn view(&self) -> ElementView {
        ElementView::Input { file: self.0@ }
    }
}

impl View for Environment {
    type V = ElementView;

    open spec fn view(&self) -> ElementView {
        ElementView::Environment { name: self.0@, items: texts(self.1@) }
    }
}

impl View for UserDefined {
    type V = ElementView;

    open spec fn view(&self) -> ElementView {
        ElementView::UserDefined { content: self.0@, level: self.1 }
    }
}

impl View for List {
    type V = ElementView;

    open spec fn view(&self) -> ElementView {
        ElementView::List { mode: self.0, items: texts(self.1@) }
    }
}

/// The models of a vector of elements after one more element was pushed.
pub proof fn lemma_views_push(v: Seq<Element>, e: Element)
    ensures
        views(v.push(e)) == views(v).push(e@),
{
}

// Copies //
/// A copy of each string of `items`.
fn clone_items(items: &Vec<Item>) -> (r: Vec<Item>)
    ensures
        texts(r@) == texts(items@),
{
    let mut out: Vec<Item> = Vec::new();
    let n: usize = items.len();
    let mut i: usize = 0;
    while i < n
        invariant
            n == items.len(),
            i <= n,
            out.len() == i,
            forall|j: int| 0 <= j < i ==> out[j]@ == items[j]@,
        decreases n - i,
    {
        out.push(items[i].clone());
        i = i + 1;
    }
    out
}

/// A copy of each element of `elements`.
pub fn clone_elements(elements: &Vec<Element>) -> (r: Vec<Element>)
    ensures
        views(r@) == views(elements@),
    decreases views(elements@),
{
    let mut out: Vec<Element> = Vec::new();
    let n: usize = elements.len();
    let mut i: usize = 0;
    while i < n
        invariant
            n == elements.len(),
            i <= n,
            out.len() == i,
            forall|j: int| 0 <= j < i ==> out[j]@ == elements[j]@,
        decreases n - i,
    {
        proof {
            assert(decreases_to!(views(elements@) => views(elements@)[i as int]));
        }
        out.push(elements[i].clone());
        i = i + 1;
    }
    out
}

impl Clone for Element {
    fn clone(&self) -> (r: Self)
        ensures
            r@ == self@,
        decreases self@,
    {
        match self {
            Element::Part(e) => {
                proof {
                    assert(decreases_to!(self@ => self@->Part_children));
                }
                Element::Part(Part(e.0.clone(), clone_elements(&e.1)))
            },
            Element::Chapter(e) => {
                proof {
                    assert(decreases_to!(self@ => self@->Chapter_children));
                }
                Element::Chapter(Chapter(e.0.clone(), clone_elements(&e.1)))
            },
            Element::Section(e) => {
                proof {
                    assert(decreases_to!(self@ => self@->Section_children));
                }
                Element::Section(Section(e.0.clone(), clone_elements(&e.1)))
            },
            Element::Paragraph(e) => match &e.1 {
                Some(v) => {
                    proof {
                        assert(decreases_to!(self@->slot => self@->slot->0));
                    }
                    Element::Paragraph(Paragraph(e.0.clone(), Some(clone_elements(v))))
                },
                None => Element::Paragraph(Paragraph(e.0.clone(), None)),
            },
            Element::Text(e) => Element::Text(Text(e.0.clone(), e.1)),
            Element::Input(e) => Element::Input(Input(e.0.clone())),
            Element::Environment(e) => Element::Environment(
                Environment(e.0.clone(), clone_items(&e.1)),
            ),
            Element::UserDefined(e) => Element::UserDefined(UserDefined(e.0.clone(), e.1)),
            Element::List(e) => Element::List(List(e.0, clone_items(&e.1))),
        }
    }
}

impl Clone for Part {
    fn clone(&self) -> (r: Self)
        ensures
            r@ == self@,
    {
        Part(self.0.clone(), clone_elements(&self.1))
    }
}

impl Clone for Chapter {
    fn clone(&self) -> (r: Self)
        ensures
            r@ == self@,
    {
        Chapter(self.0.clone(), clone_elements(&self.1))
    }
}

impl Clone for Section {
    fn clone(&self) -> (r: Self)
        ensures
            r@ == self@,
    {
        Section(self.0.clone(), clone_elements(&self.1))
    }
}

impl Clone for Paragraph {
    fn clone(&self) -> (r: Self)
        ensures
            r@ == self@,
    {
        match &self.1 {
            Some(v) => Paragraph(self.0.clone(), Some(clone_elements(v))),
            None => Paragraph(self.0.clone(), None),
        }
    }
}

impl Clone for Text {
    fn clone(&self) -> (r: Self)
        ensures
            r@ == self@,
    {
        Text(self.0.clone(), self.1)
    }
}

impl Clone for Input {
    fn clone(&self) -> (r: Self)
        ensures
            r@ == self@,
    {
        Input(self.0.clone())
    }
}

impl Clone for Environment {
    fn clone(&self) -> (r: Self)
        ensures
            r@ == self@,
    {
        Environment(self.0.clone(), clone_items(&self.1))
    }
}

impl Clone for UserDefined {
    fn clone(&self) -> (r: Self)
        ensures
            r@ == self@,
    {
        UserDefined(self.0.clone(), self.1)
    }
}

impl Clone for List {
    fn clone(&self) -> (r: Self)
        ensures
            r@ == self@,
    {
        List(self.0, clone_items(&self.1))
    }
}

// Implementations //
impl Element {
    /// The rank of the element's kind.
    pub fn rank(&self) -> (r: u8)
        ensures
            r == self@.rank(),
    {
        match self {
            Element::Part(_) => 0,
            Element::Chapter(_) => 1,
            Element::Section(_) => 2,
            Element::Paragraph(_) => 3,
            Element::UserDefined(_) => 4,
            Element::Text(_) => 8,
            Element::Input(_) => 7,
            Element::Environment(_) => 6,
            Element::List(_) => 5,
        }
    }

    /// The children of a structural container, borrowed.
    fn children(&self) -> (r: Option<&Vec<Element>>)
        requires
            self@.populated(),
        ensures
            match r {
                Some(v) => self@.offspring() == Some(views(v@)),
                None => self@.offspring() is None,
            },
    {
        match self {
            Element::Part(p) => Some(&p.1),
            Element::Chapter(c) => Some(&c.1),
            Element::Section(s) => Some(&s.1),
            Element::Paragraph(p) => p.1.as_ref(),
            Element::Text(_) => None,
            Element::Input(_) => None,
            Element::Environment(_) => None,
            Element::UserDefined(_) => None,
            Element::List(_) => None,
        }
    }

    /// Whether every paragraph of the tree has its child slot filled, which is
    /// what the traversals ask of a tree.
    pub fn is_well_formed(&self) -> (r: bool)
        ensures
            r == self@.well_formed(),
        decreases self@,
    {
        let vec = match self {
            Element::Part(p) => &p.1,
            Element::Chapter(c) => &c.1,
            Element::Section(s) => &s.1,
            Element::Paragraph(p) => match &p.1 {
                Some(v) => v,
                None => {
                    return false;
                },
            },
            _ => {
                return true;
            },
        };
        let ghost kids = views(vec@);
        let n: usize = vec.len();
        let mut i: usize = 0;
        while i < n
            invariant
                n == vec.len(),
                i <= n,
                kids == views(vec@),
                self@.offspring() == Some(kids),
                self@.populated(),
                forall|j: int| 0 <= j < i ==> (#[trigger] kids[j]).well_formed(),
            decreases n - i,
        {
            proof {
                lemma_child_decreases(self@, i as int);
            }
            if !vec[i].is_well_formed() {
                return false;
            }
            i = i + 1;
        }
        true
    }

    /// A copy of the children of a part, chapter, section or paragraph, and
    /// `None` for every other kind.
    pub fn get_vec(&self) -> (r: Option<Vec<Element>>)
        requires
            self@.populated(),
        ensures
            match r {
                Some(v) => self@.offspring() == Some(views(v@)),
                None => self@.offspring() is None,
            },
    {
        match self.children() {
            Some(v) => Some(clone_elements(v)),
            None => None,
        }
    }

    /// The text of everything below the element: for each child its own line
    /// and then, recursively, what is below that child, all joined by
    /// newlines. Empty for an element that has or takes no children.
    pub fn loop_through(&self) -> (r: String)
        requires
            self@.well_formed(),
        ensures
            r@ == self@.flatten(),
        decreases self@,
    {
        let vec = match self.children() {
            Some(a) => a,
            None => return String::new(),
        };
        let ghost kids = views(vec@);
        let mut s: Vec<String> = Vec::new();
        let n: usize = vec.len();
        let mut i: usize = 0;
        while i < n
            invariant
                n == vec.len(),
                i <= n,
                kids == views(vec@),
                self@.offspring() == Some(kids),
                self@.well_formed(),
                texts(s@) == child_pieces(kids.take(i as int)),
            decreases n - i,
        {
            proof {
                lemma_child_well_formed(self@, i as int);
                lemma_child_decreases(self@, i as int);
                lemma_child_pieces_step(kids, i as int);
            }
            let own = vec[i].to_latex_string();
            let below = vec[i].loop_through();
            proof {
                lemma_texts_push(s@, own);
                lemma_texts_push(s@.push(own), below);
            }
            s.push(own);
            s.push(below);
            i = i + 1;
        }
        proof {
            assert(kids.take(n as int) =~= kids);
        }
        join_lines(&s)
    }

    /// The same text as [`Element::loop_through`]. The line of each child and
    /// the text below that child are computed as a pair of tasks that may run
    /// side by side.
    pub fn loop_through_parallel(&self) -> (r: String)
        requires
            self@.well_formed(),
        ensures
            r@ == self@.flatten(),
    {
        let vec = match self.children() {
            Some(a) => a,
            None => return String::new(),
        };
        let ghost kids = views(vec@);
        let mut s: Vec<String> = Vec::new();
        let n: usize = vec.len();
        let mut i: usize = 0;
        while i < n
            invariant
                n == vec.len(),
                i <= n,
                kids == views(vec@),
                self@.offspring() == Some(kids),
                self@.well_formed(),
                texts(s@) == child_pieces(kids.take(i as int)),
            decreases n - i,
        {
            proof {
                lemma_child_well_formed(self@, i as int);
                lemma_child_pieces_step(kids, i as int);
            }
            let child = &vec[i];
            let own_line = || -> (a: String)
                ensures
                    a@ == child@.render(),
                { child.to_latex_string() };
            let subtree = || -> (b: String)
                ensures
                    b@ == child@.flatten(),
                { child.loop_through() };
            let r = rayon::join(own_line, subtree);
            proof {
                lemma_texts_push(s@, r.0);
                lemma_texts_push(s@.push(r.0), r.1);
            }
            s.push(r.0);
            s.push(r.1);
            i = i + 1;
        }
        proof {
            assert(kids.take(n as int) =~= kids);
        }
        join_lines(&s)
    }
}

impl Part {
    /// A part without children.
    pub fn new(text: &str) -> (r: Self)
        ensures
            r@ == (ElementView::Part { label: text@, children: Seq::empty() }),
    {
        let r = Self(text.to_owned(), Vec::new());
        assert(views(r.1@) =~= Seq::empty());
        r
    }
}

impl Chapter {
    /// A chapter without children.
    pub fn new(text: &str) -> (r: Self)
        ensures
            r@ == (ElementView::Chapter { label: text@, children: Seq::empty() }),
    {
        let r = Self(text.to_owned(), Vec::new());
        assert(views(r.1@) =~= Seq::empty());
        r
    }
}

impl Section {
    /// A section without children.
    pub fn new(text: &str) -> (r: Self)
        ensures
            r@ == (ElementView::Section { label: text@, children: Seq::empty() }),
    {
        let r = Self(text.to_owned(), Vec::new());
        assert(views(r.1@) =~= Seq::empty());
        r
    }
}

impl Paragraph {
    /// A paragraph without children, its slot filled.
    pub fn new(text: &str) -> (r: Self)
        ensures
            r@ == (ElementView::Paragraph { label: text@, slot: Some(Seq::empty()) }),
    {
        let r = Self(text.to_owned(), Some(Vec::new()));
        assert(views(r.1->0@) =~= Seq::empty());
        r
    }
}

impl Text {
    /// A run of text in the given style.
    pub fn new(text: &str, text_type: TextType) -> (r: Self)
        ensures
            r@ == (ElementView::Text { content: text@, style: text_type }),
    {
        Self(text.to_owned(), text_type)
    }
}

impl Input {
    /// The inclusion of the file called `text`.
    pub fn new(text: &str) -> (r: Self)
        ensures
            r@ == (ElementView::Input { file: text@ }),
    {
        Self(text.to_owned())
    }
}

impl Environment {
    /// An environment without items.
    pub fn new(text: &str) -> (r: Self)
        ensures
            r@ == (ElementView::Environment { name: text@, items: Seq::empty() }),
    {
        let r = Self(text.to_owned(), Vec::new());
        assert(texts(r.1@) =~= Seq::empty());
        r
    }

    /// Appends `item` as the last line of the environment. Unlike an
    /// attachment this takes the text as it stands and never fails.
    pub fn attach_string(&mut self, item: Item)
        ensures
            final(self)@ == (ElementView::Environment {
                name: old(self).0@,
                items: texts(old(self).1@).push(item@),
            }),
    {
        proof {
            lemma_texts_push(self.1@, item);
        }
        self.1.push(item);
    }
}

impl List {
    /// A list of the given kind with a copy of `items`.
    pub fn new(list_mode: ListMode, items: &Vec<Item>) -> (r: Self)
        ensures
            r@ == (ElementView::List { mode: list_mode, items: texts(items@) }),
    {
        Self(list_mode, clone_items(items))
    }
}

impl UserDefined {
    /// A fragment for the region that `level` names.
    pub fn new(text: &str, level: Level) -> (r: Self)
        ensures
            r@ == (ElementView::UserDefined { content: text@, level: level }),
    {
        Self(text.to_owned(), level)
    }

    /// The fragment sorted into its region: of the three texts returned, the
    /// one for the fragment's level is its content and the other two are empty.
    pub fn evaluate(&self) -> (r: UDTuple)
        ensures
            r.0@ == self@.body_injection(),
            r.1@ == self@.meta_injection(),
            r.2@ == self@.package_injection(),
    {
        match &self.1 {
            Level::Body => (self.0.clone(), String::new(), String::new()),
            Level::Meta => (String::new(), self.0.clone(), String::new()),
            Level::Package => (String::new(), String::new(), self.0.clone()),
        }
    }
}

/// The block called `name` around the lines of `body`.
fn block_string(name: &str, body: &Vec<String>) -> (r: String)
    ensures
        r@ == block(name@, texts(body@)),
{
    let mut s: Vec<String> = Vec::new();
    s.push(enclose("\\begin{", name, "}"));
    let n: usize = body.len();
    let mut i: usize = 0;
    while i < n
        invariant
            n == body.len(),
            i <= n,
            s.len() == i + 1,
            s[0]@ == begin_line(name@),
            forall|j: int| 0 <= j < i ==> s[j + 1]@ == body[j]@,
        decreases n - i,
    {
        s.push(body[i].clone());
        i = i + 1;
    }
    s.push(enclose("\\end{", name, "}"));
    assert(texts(s@) =~= seq![begin_line(name@)] + texts(body@) + seq![end_line(name@)]);
    join_lines(&s)
}

// Trait Implementations //
impl Convert for Part {
    open spec fn latex(&self) -> Seq<char> {
        self@.render()
    }

    fn to_latex_string(&self) -> (s: String) {
        enclose("\\part{", self.0.as_str(), "}")
    }
}

impl Convert for Chapter {
    open spec fn latex(&self) -> Seq<char> {
        self@.render()
    }

    fn to_latex_string(&self) -> (s: String) {
        enclose("\\chapter{", self.0.as_str(), "}")
    }
}

impl Convert for Section {
    open spec fn latex(&self) -> Seq<char> {
        self@.render()
    }

    fn to_latex_string(&self) -> (s: String) {
        enclose("\\section{", self.0.as_str(), "}")
    }
}

impl Convert for Paragraph {
    open spec fn latex(&self) -> Seq<char> {
        self@.render()
    }

    fn to_latex_string(&self) -> (s: String) {
        enclose("\\paragraph{", self.0.as_str(), "}")
    }
}

impl Convert for Text {
    open spec fn latex(&self) -> Seq<char> {
        self@.render()
    }

    fn to_latex_string(&self) -> (s: String) {
        let text = match &self.1 {
            TextType::Normal => self.0.clone(),
            TextType::Bold => enclose("\\textbf{", self.0.as_str(), "}"),
            TextType::Italic => enclose("\\textit{", self.0.as_str(), "}"),
            TextType::Roman => enclose("\\textrm{", self.0.as_str(), "}"),
            TextType::Underline => enclose("\\underline{", self.0.as_str(), "}"),
            TextType::Verbatim => enclose("\\verb!", self.0.as_str(), "!"),
        };
        prefixed("\\par ", text.as_str())
    }
}

impl Convert for Input {
    open spec fn latex(&self) -> Seq<char> {
        self@.render()
    }

    fn to_latex_string(&self) -> (s: String) {
        enclose("\\input{", self.0.as_str(), "}")
    }
}

impl Convert for Environment {
    open spec fn latex(&self) -> Seq<char> {
        self@.render()
    }

    fn to_latex_string(&self) -> (s: String) {
        block_string(self.0.as_str(), &self.1)
    }
}

impl Convert for UserDefined {
    open spec fn latex(&self) -> Seq<char> {
        self@.render()
    }

    fn to_latex_string(&self) -> (s: String) {
        self.0.clone()
    }
}

impl Convert for List {
    open spec fn latex(&self) -> Seq<char> {
        self@.render()
    }

    fn to_latex_string(&self) -> (s: String) {
        let mode: &str = match &self.0 {
            ListMode::Enumerate => "enumerate",
            ListMode::Itemize => "itemize",
        };
        let mut s: Vec<String> = Vec::new();
        let n: usize = self.1.len();
        let mut i: usize = 0;
        while i < n
            invariant
                n == self.1.len(),
                i <= n,
                s.len() == i,
                forall|j: int| 0 <= j < i ==> s[j]@ == item_lines(texts(self.1@))[j],
            decreases n - i,
        {
            s.push(prefixed("\\item ", self.1[i].as_str()));
            i = i + 1;
        }
        assert(texts(s@) =~= item_lines(texts(self.1@)));
        block_string(mode, &s)
    }
}

impl Convert for Element {
    open spec fn latex(&self) -> Seq<char> {
        self@.render()
    }

    fn to_latex_string(&self) -> (s: String) {
        match self {
            Element::Part(e) => e.to_latex_string(),
            Element::Chapter(e) => e.to_latex_string(),
            Element::Section(e) => e.to_latex_string(),
            Element::Paragraph(e) => e.to_latex_string(),
            Element::Text(e) => e.to_latex_string(),
            Element::Input(e) => e.to_latex_string(),
            Element::Environment(e) => e.to_latex_string(),
            Element::UserDefined(e) => e.to_latex_string(),
            Element::List(e) => e.to_latex_string(),
        }
    }
}

// Conversions //
impl From<Part> for Element {
    fn from(p: Part) -> (r: Self) {
        Element::Part(p)
    }
}

impl vstd::std_specs::convert::FromSpecImpl<Part> for Element {
    open spec fn obeys_from_spec() -> bool {
        true
    }

    open spec fn from_spec(p: Part) -> Self {
        Element::Part(p)
    }
}

impl From<Chapter> for Element {
    fn from(c: Chapter) -> (r: Self) {
        Element::Chapter(c)
    }
}

impl vstd::std_specs::convert::FromSpecImpl<Chapter> for Element {
    open spec fn obeys_from_spec() -> bool {
        true
    }

    open spec fn from_spec(c: Chapter) -> Self {
        Element::Chapter(c)
    }
}

impl From<Section> for Element {
    fn from(s: Section) -> (r: Self) {
        Element::Section(s)
    }
}

impl vstd::std_specs::convert::FromSpecImpl<Section> for Element {
    open spec fn obeys_from_spec() -> bool {
        true
    }

    open spec fn from_spec(s: Section) -> Self {
        Element::Section(s)
    }
}

impl From<Paragraph> for Element {
    fn from(p: Paragraph) -> (r: Self) {
        Element::Paragraph(p)
    }
}

impl vstd::std_specs::convert::FromSpecImpl<Paragraph> for Element {
    open spec fn obeys_from_spec() -> bool {
        true
    }

    open spec fn from_spec(p: Paragraph) -> Self {
        Element::Paragraph(p)
    }
}

impl From<Text> for Element {
    fn from(t: Text) -> (r: Self) {
        Element::Text(t)
    }
}

impl vstd::std_specs::convert::FromSpecImpl<Text> for Element {
    open spec fn obeys_from_spec() -> bool {
        true
    }

    open spec fn from_spec(t: Text) -> Self {
        Element::Text(t)
    }
}

impl From<Input> for Element {
    fn from(i: Input) -> (r: Self) {
        Element::Input(i)
    }
}

impl vstd::std_specs::convert::FromSpecImpl<Input> for Element {
    open spec fn obeys_from_spec() -> bool {
        true
    }

    open spec fn from_spec(i: Input) -> Self {
        Element::Input(i)
    }
}

impl From<Environment> for Element {
    fn from(e: Environment) -> (r: Self) {
        Element::Environment(e)
    }
}

impl vstd::std_specs::convert::FromSpecImpl<Environment> for Element {
    open spec fn obeys_from_spec() -> bool {
        true
    }

    open spec fn from_spec(e: Environment) -> Self {
        Element::Environment(e)
    }
}

impl From<UserDefined> for Element {
    fn from(u: UserDefined) -> (r: Self) {
        Element::UserDefined(u)
    }
}

impl vstd::std_specs::convert::FromSpecImpl<UserDefined> for Element {
    open spec fn obeys_from_spec() -> bool {
        true
    }

    open spec fn from_spec(u: UserDefined) -> Self {
        Element::UserDefined(u)
    }
}

impl From<List> for Element {
    fn from(l: List) -> (r: Self) {
        Element::List(l)
    }
}

impl vstd::std_specs::convert::FromSpecImpl<List> for Element {
    open spec fn obeys_from_spec() -> bool {
        true
    }

    open spec fn from_spec(l: List) -> Self {
        Element::List(l)
    }
}

/// The text of an element is its own line or block.
impl From<Element> for String {
    fn from(e: Element) -> (r: Self)
        ensures
            r@ == e@.render(),
    {
        e.to_latex_string()
    }
}

/// A string is known by its contents alone, so no single resulting value can
/// be named here; the contract of `from` above states the contents.
impl vstd::std_specs::convert::FromSpecImpl<Element> for String {
    open spec fn obeys_from_spec() -> bool {
        false
    }

    open spec fn from_spec(e: Element) -> Self {
        arbitrary()
    }
}

} // verus!
