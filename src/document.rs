//! Documents and the two kinds of document a database holds.

use crate::revision::Revision;
use vstd::prelude::*;

verus! {

/// What a path component contributes to a document's address, as text.
pub open spec fn component_text(c: Option<&'static str>) -> Option<Seq<char>> {
    match c {
        Some(s) => Some(s@),
        None => None,
    }
}

/// A kind of document, which may add one segment to the document's address
/// between the database name and the document id.
pub trait DocumentType {
    /// The segment this kind adds, if any.
    spec fn spec_uri_path_component() -> Option<Seq<char>>;

    fn uri_path_component() -> (r: Option<&'static str>)
        ensures
            component_text(r) == Self::spec_uri_path_component(),
    ;
}

/// An ordinary document: its address adds no segment.
pub struct NormalDocumentType;

impl DocumentType for NormalDocumentType {
    open spec fn spec_uri_path_component() -> Option<Seq<char>> {
        None
    }

    fn uri_path_component() -> (r: Option<&'static str>) {
        None
    }
}

/// A design document: its address adds the segment `_design`.
pub struct DesignDocumentType;

impl DocumentType for DesignDocumentType {
    open spec fn spec_uri_path_component() -> Option<Seq<char>> {
        Some("_design"@)
    }

    fn uri_path_component() -> (r: Option<&'static str>) {
        Some("_design")
    }
}

/// A stored version of a document: its id, its revision and its content.
pub struct Document<T> {
    pub id: String,
    pub revision: Revision,
    pub content: T,
}

} // verus!
