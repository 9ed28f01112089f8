//! Data model of a document-database client: revision tokens, documents and
//! the construction of document addresses.

pub mod document;
pub mod revision;
pub mod uri;
