//! The one type that stands for a vertex of any kind.

use crate::schema::VertexKind;
use crate::types::{Branch, Commit, RepositoryInfo, Tag};
use vstd::prelude::*;

verus! {

/// A vertex of the graph: exactly one of the four entity kinds.
#[derive(Debug, Clone, PartialEq, Eq)]
pub enum Vertex {
    Repository(RepositoryInfo),
    Commit(Commit),
    Branch(Branch),
    Tag(Tag),
}

impl Vertex {
    /// The kind of this vertex.
    pub open spec fn spec_kind(&self) -> VertexKind {
        match self {
            Vertex::Repository(_) => VertexKind::Repository,
            Vertex::Commit(_) => VertexKind::Commit,
            Vertex::Branch(_) => VertexKind::Branch,
            Vertex::Tag(_) => VertexKind::Tag,
        }
    }

    /// The kind of this vertex.
    pub fn kind(&self) -> (kind: VertexKind)
        ensures
            kind == self.spec_kind(),
    {
        match self {
            Vertex::Repository(_) => VertexKind::Repository,
            Vertex::Commit(_) => VertexKind::Commit,
            Vertex::Branch(_) => VertexKind::Branch,
            Vertex::Tag(_) => VertexKind::Tag,
        }
    }

    /// The schema's name for the type of this vertex.
    pub open spec fn spec_typename(&self) -> Seq<char> {
        match self {
            Vertex::Repository(_) => "Repository"@,
            Vertex::Commit(_) => "Commit"@,
            Vertex::Branch(_) => "Branch"@,
            Vertex::Tag(_) => "Tag"@,
        }
    }

    /// The schema's name for the type of this vertex.
    pub fn typename(&self) -> (name: &'static str)
        ensures
            name@ == self.spec_typename(),
    {
        match self {
            Vertex::Repository(_) => "Repository",
            Vertex::Commit(_) => "Commit",
            Vertex::Branch(_) => "Branch",
            Vertex::Tag(_) => "Tag",
        }
    }

    /// The repository, if this vertex is one.
    pub fn as_repository(&self) -> (repository: Option<&RepositoryInfo>)
        ensures
            repository == (match self {
                Vertex::Repository(r) => Some(r),
                _ => None,
            }),
    {
        match self {
            Vertex::Repository(r) => Some(r),
            _ => None,
        }
    }

    /// The commit, if this vertex is one.
    pub fn as_commit(&self) -> (commit: Option<&Commit>)
        ensures
            commit == (match self {
                Vertex::Commit(c) => Some(c),
                _ => None,
            }),
    {
        match self {
            Vertex::Commit(c) => Some(c),
            _ => None,
        }
    }

    /// The branch, if this vertex is one.
    pub fn as_branch(&self) -> (branch: Option<&Branch>)
        ensures
            branch == (match self {
                Vertex::Branch(b) => Some(b),
                _ => None,
            }),
    {
        match self {
            Vertex::Branch(b) => Some(b),
            _ => None,
        }
    }

    /// The tag, if this vertex is one.
    pub fn as_tag(&self) -> (tag: Option<&Tag>)
        ensures
            tag == (match self {
                Vertex::Tag(t) => Some(t),
                _ => None,
            }),
    {
        match self {
            Vertex::Tag(t) => Some(t),
            _ => None,
        }
    }
}

} // verus!
