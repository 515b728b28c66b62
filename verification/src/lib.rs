//! Builds a document as a tree of typed elements and writes it out as LaTeX.
//!
//! Elements are made on their own, nested with [`Attach::attach`], which lets
//! a child in only where its rank exceeds the container's threshold, and handed
//! to a [`Latex`] document, which renders them in a fixed order.

pub mod attach;
pub mod convert;
pub mod document;
pub mod element;
pub mod error;
pub mod latex;
pub mod laws;
pub mod model;
pub mod parallel;
pub mod text;

pub use attach::Attach;
pub use convert::Convert;
pub use element::{
    Chapter, Element, Environment, Input, Item, Level, List, ListMode, Paragraph, Part, Section,
    Text, TextType, UDTuple, UserDefined,
};
pub use error::TexError;
pub use latex::{Class, Doc, Latex, Metadata, Package};
