//! Turns a changelog page into an Atom feed: extraction of announcement
//! records from markup, and serialization of feed records to XML text.

pub mod article;
pub mod assemble;
pub mod clock;
pub mod dom;
pub mod escape;
pub mod feed;
pub mod link;
pub mod markup;
pub mod parser;
pub mod row;
pub mod stamp;
pub mod text;
