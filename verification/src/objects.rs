//! The values that travel between a caller and a backend.

use vstd::prelude::*;

verus! {

/// How a backend is to treat the object that a reference names.
#[derive(Debug, Clone, Copy, PartialEq, Eq, Structural)]
pub enum ContentKind {
    /// A folder.
    Directory,
    /// A file of plain text.
    PlainText,
}

/// A reference to one object of a backend: a path or identifier, which only
/// that backend can read, and how to treat what it names.
#[derive(Debug, PartialEq, Eq)]
pub struct ObjectId {
    pub path: String,
    pub kind: ContentKind,
}

impl ObjectId {
    /// A reference to the folder at `path`.
    pub fn directory(path: String) -> (r: ObjectId)
        ensures
            r.path == path,
            r.kind == ContentKind::Directory,
    {
        ObjectId { path, kind: ContentKind::Directory }
    }

    /// A reference to the plain-text file at `path`.
    pub fn plain_text(path: String) -> (r: ObjectId)
        ensures
            r.path == path,
            r.kind == ContentKind::PlainText,
    {
        ObjectId { path, kind: ContentKind::PlainText }
    }

    /// The path or identifier, as the backend wrote it.
    pub fn as_str(&self) -> (r: &str)
        ensures
            r@ == self.path@,
    {
        self.path.as_str()
    }
}

/// One entry of a backend: a file or a folder.
#[derive(Debug, PartialEq, Eq)]
pub struct File {
    pub id: ObjectId,
    pub name: String,
    pub mime_type: Option<String>,
}

impl Clone for ObjectId {
    fn clone(&self) -> (r: Self)
        ensures
            r == *self,
    {
        ObjectId { path: self.path.clone(), kind: self.kind }
    }
}

impl Clone for File {
    fn clone(&self) -> (r: Self)
        ensures
            r == *self,
    {
        let mime_type = match &self.mime_type {
            Some(m) => Some(m.clone()),
            None => None,
        };
        File { id: self.id.clone(), name: self.name.clone(), mime_type }
    }
}

} // verus!
