//! Addresses of documents on a database server.

use crate::document::DocumentType;
use vstd::prelude::*;

verus! {

/// An absolute address, held as its components.
///
/// Path segments are kept as given: nothing here escapes or checks their
/// characters.
pub struct Uri {
    pub scheme: String,
    pub username: String,
    pub password: Option<String>,
    pub host: Option<String>,
    pub port: Option<u16>,
    pub path: Vec<String>,
    pub query: Option<String>,
    pub fragment: Option<String>,
}

/// The texts of a sequence of path segments.
pub open spec fn segment_texts(segments: Seq<String>) -> Seq<Seq<char>> {
    segments.map_values(|s: String| s@)
}

/// The path of a document's address: the database name, the kind's segment
/// if it has one, then the document id.
pub open spec fn document_path(
    db_name: Seq<char>,
    component: Option<Seq<char>>,
    doc_id: Seq<char>,
) -> Seq<Seq<char>> {
    match component {
        Some(c) => seq![db_name, c, doc_id],
        None => seq![db_name, doc_id],
    }
}

fn copy_text(o: &Option<String>) -> (r: Option<String>)
    ensures
        r == *o,
{
    match o {
        Some(s) => Some(s.clone()),
        None => None,
    }
}

/// The address of document `doc_id` of kind `D` in database `db_name`.
///
/// The path of `base_uri` is replaced whole; every other component is
/// carried over unchanged, and `base_uri` itself is left as it is.
pub fn new_uri<D: DocumentType>(base_uri: &Uri, db_name: &str, doc_id: &str) -> (r: Uri)
    ensures
        segment_texts(r.path@) == document_path(
            db_name@,
            D::spec_uri_path_component(),
            doc_id@,
        ),
        r.scheme == base_uri.scheme,
        r.username == base_uri.username,
        r.password == base_uri.password,
        r.host == base_uri.host,
        r.port == base_uri.port,
        r.query == base_uri.query,
        r.fragment == base_uri.fragment,
{
    let mut path: Vec<String> = Vec::new();
    path.push(db_name.to_owned());
    match D::uri_path_component() {
        Some(c) => path.push(c.to_owned()),
        None => {},
    }
    path.push(doc_id.to_owned());
    proof {
        assert(segment_texts(path@) =~= document_path(
            db_name@,
            D::spec_uri_path_component(),
            doc_id@,
        ));
    }
    Uri {
        scheme: base_uri.scheme.clone(),
        username: base_uri.username.clone(),
        password: copy_text(&base_uri.password),
        host: copy_text(&base_uri.host),
        port: base_uri.port,
        path,
        query: copy_text(&base_uri.query),
        fragment: copy_text(&base_uri.fragment),
    }
}

} // verus!
