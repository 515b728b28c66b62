//! The document: class, metadata, packages and top-level elements, and the
//! operations that write it out as text.

use crate::convert::Convert;
use crate::document::{
    body_of, class_line, class_name, lemma_body_of_step, meta_injections, package_injections,
    package_line, package_lines, LatexView, MetadataView,
};
use crate::element::{clone_elements, views, Element, UDTuple};
use crate::model::{child_pieces, lemma_child_pieces_step, lemma_child_well_formed, ElementView};
use crate::parallel::start_pool;
use crate::text::{
    decimal_string, enclose, join_lines, lemma_texts_concat, lemma_texts_push, texts,
};
use vstd::prelude::*;
use vstd::string::*;

verus! {

/// The document class with its optional font size, in points, and its
/// optional paper size.
pub type Doc = (Class, Option<u8>, Option<String>);

/// Everything that makes up a document.
#[derive(Debug)]
pub struct Latex {
    /// The class and its two options.
    pub document_class: Doc,
    /// Author, title and date.
    pub metadata: Metadata,
    /// The packages to load, in order.
    pub packages: Vec<Package>,
    /// The top-level elements, in order.
    pub document_elements: Vec<Element>,
}

/// The kinds of document.
#[derive(Debug, Clone, Copy, PartialEq, Eq, Structural)]
pub enum Class {
    Article,
    Book,
    Report,
    Beamer,
}

/// The metadata of a document.
#[derive(Debug)]
pub struct Metadata {
    pub author: String,
    pub title: String,
    pub date: String,
}

/// A package, by name.
#[derive(Debug)]
pub struct Package(pub String);

// Views //
impl View for Package {
    type V = Seq<char>;

    open spec fn view(&self) -> Seq<char> {
        self.0@
    }
}

impl View for Metadata {
    type V = MetadataView;

    open spec fn view(&self) -> MetadataView {
        MetadataView { author: self.author@, title: self.title@, date: self.date@ }
    }
}

/// The names of a sequence of packages.
pub open spec fn package_names(v: Seq<Package>) -> Seq<Seq<char>> {
    Seq::new(v.len(), |i: int| v[i]@)
}

impl View for Latex {
    type V = LatexView;

    open spec fn view(&self) -> LatexView {
        LatexView {
            class: self.document_class.0,
            font_size: self.document_class.1,
            paper_size: match self.document_class.2 {
                Some(p) => Some(p@),
                None => None,
            },
            metadata: self.metadata@,
            packages: package_names(self.packages@),
            elements: views(self.document_elements@),
        }
    }
}

/// The metadata that a new document starts with.
pub open spec fn default_metadata() -> MetadataView {
    MetadataView { author: "default author"@, title: "default title"@, date: "what day is it?"@ }
}

/// `ud` holds, for each element in order, that element's body, metadata and
/// package injection.
pub open spec fn sorted_injections(ud: Seq<UDTuple>, elements: Seq<ElementView>) -> bool {
    &&& ud.len() == elements.len()
    &&& forall|i: int|
        #![trigger ud[i]]
        0 <= i < ud.len() ==> {
            &&& ud[i].0@ == elements[i].body_injection()
            &&& ud[i].1@ == elements[i].meta_injection()
            &&& ud[i].2@ == elements[i].package_injection()
        }
}

// Copies //
impl Clone for Package {
    fn clone(&self) -> (r: Self)
        ensures
            r@ == self@,
    {
        Package(self.0.clone())
    }
}

impl Clone for Metadata {
    fn clone(&self) -> (r: Self)
        ensures
            r@ == self@,
    {
        Metadata { author: self.author.clone(), title: self.title.clone(), date: self.date.clone() }
    }
}

impl Clone for Latex {
    fn clone(&self) -> (r: Self)
        ensures
            r@ == self@,
    {
        let paper = match &self.document_class.2 {
            Some(p) => Some(p.clone()),
            None => None,
        };
        Latex {
            document_class: (self.document_class.0, self.document_class.1, paper),
            metadata: self.metadata.clone(),
            packages: clone_packages(&self.packages),
            document_elements: clone_elements(&self.document_elements),
        }
    }
}

/// A copy of each package of `packages`.
fn clone_packages(packages: &Vec<Package>) -> (r: Vec<Package>)
    ensures
        package_names(r@) == package_names(packages@),
{
    let mut out: Vec<Package> = Vec::new();
    let n: usize = packages.len();
    let mut i: usize = 0;
    while i < n
        invariant
            n == packages.len(),
            i <= n,
            out.len() == i,
            forall|j: int| 0 <= j < i ==> out[j]@ == packages[j]@,
        decreases n - i,
    {
        out.push(packages[i].clone());
        i = i + 1;
    }
    out
}

// Implementations //
impl Package {
    /// The package called `pkg`.
    pub fn new(pkg: &str) -> (r: Self)
        ensures
            r@ == pkg@,
    {
        Package(pkg.to_owned())
    }
}

impl Class {
    /// The name of the class as it appears in the markup.
    pub fn as_class_str(&self) -> (r: String)
        ensures
            r@ == class_name(*self),
    {
        match self {
            Class::Article => String::from_str("article"),
            Class::Book => String::from_str("book"),
            Class::Report => String::from_str("report"),
            Class::Beamer => String::from_str("beamer"),
        }
    }
}

impl Metadata {
    /// Metadata with the given title, author and date.
    pub fn new(title: &str, author: &str, date: &str) -> (r: Self)
        ensures
            r@ == (MetadataView { author: author@, title: title@, date: date@ }),
    {
        Self { title: title.to_owned(), author: author.to_owned(), date: date.to_owned() }
    }
}

impl Default for Metadata {
    fn default() -> (r: Self)
        ensures
            r@ == default_metadata(),
    {
        Self {
            author: String::from_str("default author"),
            title: String::from_str("default title"),
            date: String::from_str("what day is it?"),
        }
    }
}

impl Latex {
    /// An empty article in 11 points on letter paper, with the default
    /// metadata.
    pub fn new() -> (r: Self)
        ensures
            r@ == (LatexView {
                class: Class::Article,
                font_size: Some(11u8),
                paper_size: Some("letterpaper"@),
                metadata: default_metadata(),
                packages: Seq::empty(),
                elements: Seq::empty(),
            }),
    {
        let r = Self {
            document_class: (Class::Article, Some(11), Some(String::from_str("letterpaper"))),
            metadata: Metadata::default(),
            packages: Vec::new(),
            document_elements: Vec::new(),
        };
        assert(package_names(r.packages@) =~= Seq::empty());
        assert(views(r.document_elements@) =~= Seq::empty());
        r
    }

    /// Sets the class of the document.
    pub fn set_class(&mut self, class: Class)
        ensures
            final(self)@ == (LatexView { class: class, ..old(self)@ }),
    {
        self.document_class.0 = class;
    }

    /// Sets both options of the class.
    pub fn set_class_options(&mut self, font_size: u8, paper_size: &str)
        ensures
            final(self)@ == (LatexView {
                font_size: Some(font_size),
                paper_size: Some(paper_size@),
                ..old(self)@
            }),
    {
        self.document_class.1 = Some(font_size);
        self.document_class.2 = Some(paper_size.to_owned());
    }

    /// Sets the metadata of the document.
    pub fn set_metadata(&mut self, meta: Metadata)
        ensures
            final(self)@ == (LatexView { metadata: meta@, ..old(self)@ }),
    {
        self.metadata = meta;
    }

    /// Replaces the packages of the document by a copy of `packages`.
    pub fn set_packages(&mut self, packages: &Vec<Package>)
        ensures
            final(self)@ == (LatexView { packages: package_names(packages@), ..old(self)@ }),
    {
        self.packages = clone_packages(packages);
    }

    /// Adds the package called `package` behind those already there.
    pub fn add_package(&mut self, package: String)
        ensures
            final(self)@ == (LatexView {
                packages: old(self)@.packages.push(package@),
                ..old(self)@
            }),
    {
        proof {
            assert(package_names(self.packages@.push(Package(package))) =~= package_names(
                self.packages@,
            ).push(package@));
        }
        self.packages.push(Package(package));
    }

    /// Replaces the top-level elements of the document by a copy of
    /// `elements`.
    pub fn set_elements(&mut self, elements: &Vec<Element>)
        ensures
            final(self)@ == (LatexView { elements: views(elements@), ..old(self)@ }),
    {
        self.document_elements = clone_elements(elements);
    }

    /// For each top-level element in order, what it injects into the body,
    /// behind the metadata and behind the packages. Only a user-defined
    /// element injects anything, and only at its own level; every other text is
    /// empty.
    pub fn get_ud(&self) -> (v: Vec<UDTuple>)
        ensures
            sorted_injections(v@, self@.elements),
    {
        let mut v: Vec<UDTuple> = Vec::new();
        let n: usize = self.document_elements.len();
        let mut i: usize = 0;
        while i < n
            invariant
                n == self.document_elements.len(),
                i <= n,
                v.len() == i,
                sorted_injections(v@, self@.elements.take(i as int)),
            decreases n - i,
        {
            let ghost before = v@;
            match &self.document_elements[i] {
                Element::UserDefined(u) => {
                    v.push(u.evaluate());
                },
                _ => {
                    v.push((String::new(), String::new(), String::new()));
                },
            }
            proof {
                let now = self@.elements.take(i + 1);
                assert(now[i as int] == self.document_elements[i as int]@);
                assert forall|j: int| 0 <= j < v.len() implies {
                    &&& (#[trigger] v[j]).0@ == now[j].body_injection()
                    &&& v[j].1@ == now[j].meta_injection()
                    &&& v[j].2@ == now[j].package_injection()
                } by {
                    if j < i {
                        assert(v[j] == before[j]);
                        assert(now[j] == self@.elements.take(i as int)[j]);
                    }
                }
            }
            i = i + 1;
        }
        proof {
            assert(self@.elements.take(n as int) =~= self@.elements);
        }
        v
    }

    /// Whether every top-level element is well formed, which is what rendering
    /// asks of a document.
    pub fn is_well_formed(&self) -> (r: bool)
        ensures
            r == self@.well_formed(),
    {
        let n: usize = self.document_elements.len();
        let mut i: usize = 0;
        while i < n
            invariant
                n == self.document_elements.len(),
                i <= n,
                forall|j: int| 0 <= j < i ==> (#[trigger] self@.elements[j]).well_formed(),
            decreases n - i,
        {
            assert(self@.elements[i as int] == self.document_elements[i as int]@);
            if !self.document_elements[i].is_well_formed() {
                return false;
            }
            i = i + 1;
        }
        true
    }

    /// The head of the document, piece by piece.
    fn preamble_strings(&self, ud: &Vec<UDTuple>) -> (s: Vec<String>)
        requires
            sorted_injections(ud@, self@.elements),
        ensures
            texts(s@) == self@.preamble(),
    {
        let mut s: Vec<String> = Vec::new();
        s.push(self.document_class.to_latex_string());
        s.push(self.metadata.to_latex_string());
        let n: usize = ud.len();
        let mut i: usize = 0;
        while i < n
            invariant
                n == ud.len(),
                i <= n,
                sorted_injections(ud@, self@.elements),
                s.len() == i + 2,
                s[0]@ == class_line(self@.class, self@.font_size, self@.paper_size),
                s[1]@ == self@.metadata.render(),
                forall|j: int| 0 <= j < i ==> s[j + 2]@ == self@.elements[j].meta_injection(),
            decreases n - i,
        {
            s.push(ud[i].1.clone());
            i = i + 1;
        }
        assert(texts(s@) =~= self@.preamble());
        s
    }

    /// The package directives and the package-level injections, piece by
    /// piece.
    fn structure_strings(&self, ud: &Vec<UDTuple>) -> (s: Vec<String>)
        requires
            sorted_injections(ud@, self@.elements),
        ensures
            texts(s@) == self@.structure(),
    {
        let mut s: Vec<String> = Vec::new();
        let m: usize = self.packages.len();
        let mut k: usize = 0;
        while k < m
            invariant
                m == self.packages.len(),
                k <= m,
                s.len() == k,
                forall|j: int| 0 <= j < k ==> s[j]@ == package_line(self@.packages[j]),
            decreases m - k,
        {
            s.push(self.packages[k].to_latex_string());
            k = k + 1;
        }
        let n: usize = ud.len();
        let mut i: usize = 0;
        while i < n
            invariant
                m == self.packages.len(),
                n == ud.len(),
                i <= n,
                sorted_injections(ud@, self@.elements),
                s.len() == m + i,
                forall|j: int| 0 <= j < m ==> s[j]@ == package_line(self@.packages[j]),
                forall|j: int| 0 <= j < i ==> s[m + j]@ == self@.elements[j].package_injection(),
            decreases n - i,
        {
            s.push(ud[i].2.clone());
            i = i + 1;
        }
        assert(texts(s@) =~= self@.structure());
        s
    }

    /// The document body, piece by piece. With a pool, what lies below the
    /// children of each top-level element is flattened inside that pool.
    fn body_strings(&self, pool: Option<&rayon::ThreadPool>) -> (s: Vec<String>)
        requires
            self@.well_formed(),
        ensures
            texts(s@) == self@.body(),
    {
        let mut s: Vec<String> = Vec::new();
        s.push(String::from_str("\\begin{document}"));
        s.push(String::from_str("\\maketitle\n\\newpage"));
        let ghost head = texts(s@);
        let ghost elements = self@.elements;
        let n: usize = self.document_elements.len();
        let mut i: usize = 0;
        while i < n
            invariant
                n == self.document_elements.len(),
                i <= n,
                elements == self@.elements,
                self@.well_formed(),
                head == seq!["\\begin{document}"@, "\\maketitle\n\\newpage"@],
                texts(s@) == head + body_of(elements.take(i as int)),
            decreases n - i,
        {
            proof {
                assert(elements[i as int] == self.document_elements[i as int]@);
                lemma_body_of_step(elements, i as int);
            }
            let mut pieces = element_strings(&self.document_elements[i], pool);
            proof {
                lemma_texts_concat(s@, pieces@);
            }
            s.append(&mut pieces);
            i = i + 1;
        }
        let tail = String::from_str("\\end{document}");
        proof {
            assert(elements.take(n as int) =~= elements);
            lemma_texts_push(s@, tail);
        }
        s.push(tail);
        assert(texts(s@) =~= self@.body());
        s
    }

    /// The document as one text, in the fixed order of the output format:
    /// class directive, metadata, metadata-level injections, package
    /// directives, package-level injections, then the body between its
    /// markers.
    pub fn render(&self) -> (r: String)
        requires
            self@.well_formed(),
        ensures
            r@ == self@.document_text(),
    {
        let ud_vec = self.get_ud();
        let mut s = self.preamble_strings(&ud_vec);
        let mut structure = self.structure_strings(&ud_vec);
        let mut body = self.body_strings(None);
        proof {
            lemma_texts_concat(s@, structure@);
            lemma_texts_concat(s@ + structure@, body@);
        }
        s.append(&mut structure);
        s.append(&mut body);
        join_lines(&s)
    }

    /// The same text as [`Latex::render`]. The subtrees below the children of
    /// the top-level elements are flattened inside the given pool, each child's
    /// line and subtree as a pair of tasks.
    pub fn render_in(&self, pool: &rayon::ThreadPool) -> (r: String)
        requires
            self@.well_formed(),
        ensures
            r@ == self@.document_text(),
    {
        let ud_vec = self.get_ud();
        let mut s = self.preamble_strings(&ud_vec);
        let mut structure = self.structure_strings(&ud_vec);
        let mut body = self.body_strings(Some(pool));
        proof {
            lemma_texts_concat(s@, structure@);
            lemma_texts_concat(s@ + structure@, body@);
        }
        s.append(&mut structure);
        s.append(&mut body);
        join_lines(&s)
    }

    /// The same text as [`Latex::render`], computed inside a pool of four
    /// worker threads. Where the machine does not start the pool, the text is
    /// computed on the calling thread instead.
    pub fn render_parallel(&self) -> (r: String)
        requires
            self@.well_formed(),
        ensures
            r@ == self@.document_text(),
    {
        match start_pool(4) {
            Ok(pool) => self.render_in(&pool),
            Err(_) => self.render(),
        }
    }

    /// The document in two texts: first the main text, which holds everything
    /// but the structure, then the structure text, which holds the package
    /// directives and the package-level injections.
    pub fn render_split(&self) -> (r: (String, String))
        requires
            self@.well_formed(),
        ensures
            r.0@ == self@.main_text(),
            r.1@ == self@.structure_text(),
    {
        let ud_vec = self.get_ud();
        let mut s = self.preamble_strings(&ud_vec);
        let struct_s = self.structure_strings(&ud_vec);
        let mut body = self.body_strings(None);
        proof {
            lemma_texts_concat(s@, body@);
        }
        s.append(&mut body);
        (join_lines(&s), join_lines(&struct_s))
    }
}

/// What lies below `e`, flattened inside the pool where one is given.
fn flatten_with(e: &Element, pool: Option<&rayon::ThreadPool>) -> (r: String)
    requires
        e@.well_formed(),
    ensures
        r@ == e@.flatten(),
{
    match pool {
        Some(p) => {
            let task = || -> (t: String)
                ensures
                    t@ == e@.flatten(),
                { e.loop_through_parallel() };
            p.install(task)
        },
        None => e.loop_through(),
    }
}

/// The body pieces of one top-level element.
fn element_strings(e: &Element, pool: Option<&rayon::ThreadPool>) -> (s: Vec<String>)
    requires
        e@.well_formed(),
    ensures
        texts(s@) == e@.body_pieces(),
{
    let mut s: Vec<String> = Vec::new();
    let children = match e {
        Element::Part(p) => &p.1,
        Element::Chapter(c) => &c.1,
        Element::Section(c) => &c.1,
        Element::Paragraph(p) => match &p.1 {
            Some(v) => v,
            None => {
                return s;
            },
        },
        Element::UserDefined(u) => {
            let ud = u.evaluate();
            s.push(ud.0);
            return s;
        },
        _ => {
            s.push(e.to_latex_string());
            return s;
        },
    };
    let ghost kids = views(children@);
    s.push(e.to_latex_string());
    let ghost own = texts(s@);
    let n: usize = children.len();
    let mut i: usize = 0;
    while i < n
        invariant
            n == children.len(),
            i <= n,
            kids == views(children@),
            e@.offspring() == Some(kids),
            e@.well_formed(),
            own == seq![e@.render()],
            texts(s@) == own + child_pieces(kids.take(i as int)),
        decreases n - i,
    {
        proof {
            assert(kids[i as int] == children[i as int]@);
            lemma_child_well_formed(e@, i as int);
            lemma_child_pieces_step(kids, i as int);
        }
        let line = children[i].to_latex_string();
        let below = flatten_with(&children[i], pool);
        proof {
            lemma_texts_push(s@, line);
            lemma_texts_push(s@.push(line), below);
            assert(own + child_pieces(kids.take(i as int)).push(line@).push(below@) =~= (own
                + child_pieces(kids.take(i as int))).push(line@).push(below@));
        }
        s.push(line);
        s.push(below);
        i = i + 1;
    }
    proof {
        assert(kids.take(n as int) =~= kids);
    }
    s
}

// Trait Implementations //
impl Convert for Doc {
    open spec fn latex(&self) -> Seq<char> {
        class_line(
            self.0,
            self.1,
            match self.2 {
                Some(p) => Some(p@),
                None => None,
            },
        )
    }

    fn to_latex_string(&self) -> (s: String) {
        let fs = match self.1 {
            Some(f) => decimal_string(f),
            None => decimal_string(11),
        };
        let paper = match &self.2 {
            Some(a) => a.clone(),
            None => String::from_str("letterpaper"),
        };
        let mut out = String::from_str("\\documentclass[");
        out.append(fs.as_str());
        out.append("pt, ");
        out.append(paper.as_str());
        out.append("]{");
        out.append(self.0.as_class_str().as_str());
        out.append("}");
        out
    }
}

/// A class on its own stands for its directive with both options at their
/// defaults.
impl Convert for Class {
    open spec fn latex(&self) -> Seq<char> {
        class_line(*self, None, None)
    }

    fn to_latex_string(&self) -> (s: String) {
        (*self, None, None).to_latex_string()
    }
}

impl Convert for Metadata {
    open spec fn latex(&self) -> Seq<char> {
        self@.render()
    }

    fn to_latex_string(&self) -> (s: String) {
        let mut v: Vec<String> = Vec::new();
        v.push(enclose("\\author{", self.author.as_str(), "}"));
        v.push(enclose("\\title{", self.title.as_str(), "}"));
        v.push(enclose("\\date{", self.date.as_str(), "}"));
        assert(texts(v@) =~= seq![
            "\\author{"@ + self@.author + "}"@,
            "\\title{"@ + self@.title + "}"@,
            "\\date{"@ + self@.date + "}"@,
        ]);
        join_lines(&v)
    }
}

impl Convert for Package {
    open spec fn latex(&self) -> Seq<char> {
        package_line(self@)
    }

    fn to_latex_string(&self) -> (s: String) {
        enclose("\\usepackage{", self.0.as_str(), "}")
    }
}

} // verus!
