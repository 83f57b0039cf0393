//! Edge resolution: from a vertex and an edge's name to its neighbors.

use crate::adapter::GitAdapter;
use crate::backend::{branch_target, lookup_commit, BranchScope};
use crate::neighbors::{limit_of, BranchList, CommitWalk, Neighbors, TagList};
use crate::schema::{edge_named, lookup_edge, Edge, VertexKind};
use crate::text::same_text;
use crate::types::{Commit, CommitRecord};
use crate::vertex::Vertex;
use vstd::prelude::*;

verus! {

/// The stream that holds the commit found by a lookup, or nothing where
/// none was found.
pub fn single_commit<'a>(found: Option<CommitRecord>) -> (neighbors: Neighbors<'a>)
    ensures
        neighbors is Single,
        match found {
            Some(record) => {
                &&& neighbors->Single_0 is Some
                &&& neighbors->Single_0->0 is Commit
                &&& neighbors->Single_0->0->Commit_0@ == record@
            },
            None => neighbors->Single_0 is None,
        },
{
    match found {
        Some(record) => Neighbors::Single(Some(Vertex::Commit(Commit::new(record)))),
        None => Neighbors::none(),
    }
}

/// The neighbors of the repository along `commits`, `branches` or `tags`.
///
/// `commits` walks the history of `HEAD` and emits at most `limit` commits;
/// `branches` lists the local branches; `tags` lists the tags that lead to
/// a commit. Each stream starts untouched.
pub fn resolve_repository_edge<'a>(
    adapter: &GitAdapter<'a>,
    edge_name: &str,
    limit: Option<i64>,
) -> (neighbors: Neighbors<'a>)
    requires
        edge_named(VertexKind::Repository, edge_name@) is Some,
    ensures
        match edge_named(VertexKind::Repository, edge_name@) {
            Some(Edge::RepositoryCommits) => neighbors is Commits
                && neighbors->Commits_0.remaining() == limit_of(limit),
            Some(Edge::RepositoryBranches) => neighbors is Branches,
            _ => neighbors is Tags && neighbors->Tags_0.position() == 0,
        },
{
    if same_text(edge_name, "commits") {
        Neighbors::Commits(CommitWalk::start(adapter.repo(), limit))
    } else if same_text(edge_name, "branches") {
        Neighbors::Branches(BranchList::open(adapter.repo()))
    } else {
        Neighbors::Tags(TagList::open(adapter.repo()))
    }
}

/// The neighbor of a branch along `commit`: the commit that the branch
/// points at now.
///
/// The branch is looked up again by its name each time. There is no
/// neighbor where the branch has no name, is gone, or points at nothing that
/// can be read as a commit.
pub fn resolve_branch_edge<'a>(adapter: &GitAdapter<'a>, vertex: &Vertex, edge_name: &str) -> (neighbors:
    Neighbors<'a>)
    requires
        vertex is Branch,
        edge_named(VertexKind::Branch, edge_name@) is Some,
    ensures
        neighbors is Single,
        neighbors->Single_0 is Some ==> neighbors->Single_0->0 is Commit,
        vertex->Branch_0@ is None ==> neighbors->Single_0 is None,
{
    match vertex {
        Vertex::Branch(branch) => match &branch.inner().name {
            Some(name) => match branch_target(adapter.repo(), name.as_str(), BranchScope::Local) {
                Some(target) => single_commit(lookup_commit(adapter.repo(), &target)),
                None => Neighbors::none(),
            },
            None => Neighbors::none(),
        },
        _ => Neighbors::none(),
    }
}

/// The neighbor of a tag along `commit`: the commit stored under the tag's
/// target, or none where it is no longer there.
pub fn resolve_tag_edge<'a>(adapter: &GitAdapter<'a>, vertex: &Vertex, edge_name: &str) -> (neighbors:
    Neighbors<'a>)
    requires
        vertex is Tag,
        edge_named(VertexKind::Tag, edge_name@) is Some,
    ensures
        neighbors is Single,
        neighbors->Single_0 is Some ==> {
            &&& neighbors->Single_0->0 is Commit
            &&& neighbors->Single_0->0->Commit_0@.id == vertex->Tag_0@.target_oid
        },
{
    match vertex {
        Vertex::Tag(tag) => {
            let target = tag.target_oid();
            single_commit(lookup_commit(adapter.repo(), &target))
        },
        _ => Neighbors::none(),
    }
}

/// What the neighbors of a vertex along an edge are when they are first
/// handed over.
pub open spec fn is_opened(
    vertex: Vertex,
    edge: Edge,
    limit: Option<i64>,
    neighbors: Neighbors,
) -> bool {
    match edge {
        Edge::RepositoryCommits => neighbors is Commits && neighbors->Commits_0.remaining()
            == limit_of(limit),
        Edge::RepositoryBranches => neighbors is Branches,
        Edge::RepositoryTags => neighbors is Tags && neighbors->Tags_0.position() == 0,
        Edge::BranchCommit => {
            &&& neighbors is Single
            &&& neighbors->Single_0 is Some ==> neighbors->Single_0->0 is Commit
            &&& vertex->Branch_0@ is None ==> neighbors->Single_0 is None
        },
        Edge::TagCommit => {
            &&& neighbors is Single
            &&& neighbors->Single_0 is Some ==> {
                &&& neighbors->Single_0->0 is Commit
                &&& neighbors->Single_0->0->Commit_0@.id == vertex->Tag_0@.target_oid
            }
        },
    }
}

/// The neighbors of a vertex of any kind along the edge `edge_name`.
pub fn resolve_vertex_edge<'a>(
    adapter: &GitAdapter<'a>,
    vertex: &Vertex,
    edge_name: &str,
    limit: Option<i64>,
) -> (neighbors: Neighbors<'a>)
    requires
        edge_named(vertex.spec_kind(), edge_name@) is Some,
    ensures
        is_opened(*vertex, edge_named(vertex.spec_kind(), edge_name@)->0, limit, neighbors),
{
    match vertex {
        Vertex::Repository(_) => resolve_repository_edge(adapter, edge_name, limit),
        Vertex::Branch(_) => resolve_branch_edge(adapter, vertex, edge_name),
        Vertex::Tag(_) => resolve_tag_edge(adapter, vertex, edge_name),
        Vertex::Commit(_) => Neighbors::none(),
    }
}

/// The neighbors of a vertex along the edge `edge_name`, or nothing where
/// the schema declares no edge of that name for a vertex of its kind.
pub fn neighbors_of<'a>(
    adapter: &GitAdapter<'a>,
    vertex: &Vertex,
    edge_name: &str,
    limit: Option<i64>,
) -> (neighbors: Option<Neighbors<'a>>)
    ensures
        neighbors is Some == edge_named(vertex.spec_kind(), edge_name@) is Some,
        neighbors is Some ==> is_opened(
            *vertex,
            edge_named(vertex.spec_kind(), edge_name@)->0,
            limit,
            neighbors->0,
        ),
{
    match lookup_edge(vertex.kind(), edge_name) {
        Some(_) => Some(resolve_vertex_edge(adapter, vertex, edge_name, limit)),
        None => None,
    }
}

} // verus!
