//! The neighbors of a vertex along one edge, handed out one at a time.
//!
//! Nothing is read before it is asked for: a stream that is dropped early
//! leaves the rest of the repository unvisited.

pub mod branches;
pub mod commits;
pub mod tags;

pub use branches::{readable, BranchList};
pub use commits::{
    admits, admitted, commit_view, emitted, first_of, found, left_of, let_through,
    limit_from_value, limit_in, limit_of, one_fewer, CommitWalk,
};
pub use tags::{in_order, TagList};

use crate::vertex::Vertex;
use vstd::prelude::*;

verus! {

/// The neighbors of one vertex along one edge.
pub enum Neighbors<'a> {
    /// At most one vertex; none once it has been handed out.
    Single(Option<Vertex>),
    /// The commits of a walk.
    Commits(CommitWalk<'a>),
    /// The local branches.
    Branches(BranchList<'a>),
    /// The tags.
    Tags(TagList<'a>),
}

impl<'a> Neighbors<'a> {
    /// What one call of `next_vertex` does, edge by edge.
    pub open spec fn stepped(before: Self, after: Self, next: Option<Vertex>) -> bool {
        match before {
            Neighbors::Single(vertex) => next == vertex && after == Neighbors::<'a>::Single(None),
            Neighbors::Commits(walk) => {
                &&& after is Commits
                &&& match next {
                    Some(vertex) => vertex is Commit && CommitWalk::stepped(
                        walk,
                        after->Commits_0,
                        Some(vertex->Commit_0),
                    ),
                    None => CommitWalk::stepped(walk, after->Commits_0, None),
                }
            },
            Neighbors::Branches(list) => {
                &&& after is Branches
                &&& match next {
                    Some(vertex) => vertex is Branch && BranchList::stepped(
                        list,
                        after->Branches_0,
                        Some(vertex->Branch_0),
                    ),
                    None => BranchList::stepped(list, after->Branches_0, None),
                }
            },
            Neighbors::Tags(list) => {
                &&& after is Tags
                &&& match next {
                    Some(vertex) => vertex is Tag && TagList::stepped(
                        list,
                        after->Tags_0,
                        Some(vertex->Tag_0),
                    ),
                    None => TagList::stepped(list, after->Tags_0, None),
                }
            },
        }
    }

    /// The stream without any vertex.
    pub fn none() -> (neighbors: Self)
        ensures
            neighbors == Neighbors::<'a>::Single(None),
    {
        Neighbors::Single(None)
    }

    /// The next neighbor, if one is left.
    pub fn next_vertex(&mut self) -> (next: Option<Vertex>)
        ensures
            Self::stepped(*old(self), *final(self), next),
    {
        match self {
            Neighbors::Single(vertex) => vertex.take(),
            Neighbors::Commits(walk) => match walk.next_commit() {
                Some(commit) => Some(Vertex::Commit(commit)),
                None => None,
            },
            Neighbors::Branches(list) => match list.next_branch() {
                Some(branch) => Some(Vertex::Branch(branch)),
                None => None,
            },
            Neighbors::Tags(list) => match list.next_tag() {
                Some(tag) => Some(Vertex::Tag(tag)),
                None => None,
            },
        }
    }
}

} // verus!
