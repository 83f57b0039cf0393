//! The schema of the graph: its vertex types, their properties and edges.
//!
//! The schema is fixed. The engine asks only for names that it declares, and
//! the tables below say, name by name, which resolver answers.

use crate::backend::schema_accepted;
use crate::text::same_text;
use vstd::prelude::*;

verus! {

/// The schema in the engine's own notation.
pub const SCHEMA_TEXT: &'static str = "schema {
    query: RootSchemaQuery
}
directive @filter(op: String!, value: [String!]) repeatable on FIELD | INLINE_FRAGMENT
directive @tag(name: String) on FIELD
directive @output(name: String) on FIELD
directive @optional on FIELD
directive @recurse(depth: Int!) on FIELD
directive @fold on FIELD
directive @transform(op: String!) on FIELD

type RootSchemaQuery {
    repository: Repository!
}

type Repository {
    name: String!
    commits(limit: Int): [Commit!]!
    branches: [Branch!]!
    tags: [Tag!]!
}

type Commit {
    hash: String!
    message: String
    author: String
    author_email: String
    committer: String
    committer_email: String
    date: String
}

type Branch {
    name: String
    commit: Commit
}

type Tag {
    name: String!
    message: String
    tagger_name: String
    tagger_email: String
    commit: Commit
}
";

/// The four kinds of vertex.
#[derive(Debug, Clone, Copy, PartialEq, Eq, Structural)]
pub enum VertexKind {
    Repository,
    Commit,
    Branch,
    Tag,
}

/// The scalar properties, each with the type that has it.
#[derive(Debug, Clone, Copy, PartialEq, Eq, Structural)]
pub enum Property {
    RepositoryName,
    CommitHash,
    CommitMessage,
    CommitAuthor,
    CommitAuthorEmail,
    CommitCommitter,
    CommitCommitterEmail,
    CommitDate,
    BranchName,
    TagName,
    TagMessage,
    TagTaggerName,
    TagTaggerEmail,
}

/// The edges, each with the type that it leaves.
#[derive(Debug, Clone, Copy, PartialEq, Eq, Structural)]
pub enum Edge {
    RepositoryCommits,
    RepositoryBranches,
    RepositoryTags,
    BranchCommit,
    TagCommit,
}

/// The vertex kind that the schema declares under `name`.
pub open spec fn kind_named(name: Seq<char>) -> Option<VertexKind> {
    if name == "Repository"@ {
        Some(VertexKind::Repository)
    } else if name == "Commit"@ {
        Some(VertexKind::Commit)
    } else if name == "Branch"@ {
        Some(VertexKind::Branch)
    } else if name == "Tag"@ {
        Some(VertexKind::Tag)
    } else {
        None
    }
}

/// The property that the schema declares for a kind under `name`.
pub open spec fn property_named(kind: VertexKind, name: Seq<char>) -> Option<Property> {
    match kind {
        VertexKind::Repository => if name == "name"@ {
            Some(Property::RepositoryName)
        } else {
            None
        },
        VertexKind::Commit => if name == "hash"@ {
            Some(Property::CommitHash)
        } else if name == "message"@ {
            Some(Property::CommitMessage)
        } else if name == "author"@ {
            Some(Property::CommitAuthor)
        } else if name == "author_email"@ {
            Some(Property::CommitAuthorEmail)
        } else if name == "committer"@ {
            Some(Property::CommitCommitter)
        } else if name == "committer_email"@ {
            Some(Property::CommitCommitterEmail)
        } else if name == "date"@ {
            Some(Property::CommitDate)
        } else {
            None
        },
        VertexKind::Branch => if name == "name"@ {
            Some(Property::BranchName)
        } else {
            None
        },
        VertexKind::Tag => if name == "name"@ {
            Some(Property::TagName)
        } else if name == "message"@ {
            Some(Property::TagMessage)
        } else if name == "tagger_name"@ {
            Some(Property::TagTaggerName)
        } else if name == "tagger_email"@ {
            Some(Property::TagTaggerEmail)
        } else {
            None
        },
    }
}

/// The edge that the schema declares for a kind under `name`.
pub open spec fn edge_named(kind: VertexKind, name: Seq<char>) -> Option<Edge> {
    match kind {
        VertexKind::Repository => if name == "commits"@ {
            Some(Edge::RepositoryCommits)
        } else if name == "branches"@ {
            Some(Edge::RepositoryBranches)
        } else if name == "tags"@ {
            Some(Edge::RepositoryTags)
        } else {
            None
        },
        VertexKind::Commit => None,
        VertexKind::Branch => if name == "commit"@ {
            Some(Edge::BranchCommit)
        } else {
            None
        },
        VertexKind::Tag => if name == "commit"@ {
            Some(Edge::TagCommit)
        } else {
            None
        },
    }
}

/// Each name that the schema declares leads to its own entry of the tables.
pub proof fn lemma_declared_names()
    ensures
        kind_named("Repository"@) == Some(VertexKind::Repository),
        kind_named("Commit"@) == Some(VertexKind::Commit),
        kind_named("Branch"@) == Some(VertexKind::Branch),
        kind_named("Tag"@) == Some(VertexKind::Tag),
        property_named(VertexKind::Repository, "name"@) == Some(Property::RepositoryName),
        property_named(VertexKind::Commit, "hash"@) == Some(Property::CommitHash),
        property_named(VertexKind::Commit, "message"@) == Some(Property::CommitMessage),
        property_named(VertexKind::Commit, "author"@) == Some(Property::CommitAuthor),
        property_named(VertexKind::Commit, "author_email"@) == Some(Property::CommitAuthorEmail),
        property_named(VertexKind::Commit, "committer"@) == Some(Property::CommitCommitter),
        property_named(VertexKind::Commit, "committer_email"@) == Some(
            Property::CommitCommitterEmail,
        ),
        property_named(VertexKind::Commit, "date"@) == Some(Property::CommitDate),
        property_named(VertexKind::Branch, "name"@) == Some(Property::BranchName),
        property_named(VertexKind::Tag, "name"@) == Some(Property::TagName),
        property_named(VertexKind::Tag, "message"@) == Some(Property::TagMessage),
        property_named(VertexKind::Tag, "tagger_name"@) == Some(Property::TagTaggerName),
        property_named(VertexKind::Tag, "tagger_email"@) == Some(Property::TagTaggerEmail),
        edge_named(VertexKind::Repository, "commits"@) == Some(Edge::RepositoryCommits),
        edge_named(VertexKind::Repository, "branches"@) == Some(Edge::RepositoryBranches),
        edge_named(VertexKind::Repository, "tags"@) == Some(Edge::RepositoryTags),
        edge_named(VertexKind::Branch, "commit"@) == Some(Edge::BranchCommit),
        edge_named(VertexKind::Tag, "commit"@) == Some(Edge::TagCommit),
{
    reveal_strlit("Repository");
    reveal_strlit("Commit");
    reveal_strlit("Branch");
    reveal_strlit("Tag");
    reveal_strlit("name");
    reveal_strlit("hash");
    reveal_strlit("message");
    reveal_strlit("author");
    reveal_strlit("author_email");
    reveal_strlit("committer");
    reveal_strlit("committer_email");
    reveal_strlit("date");
    reveal_strlit("tagger_name");
    reveal_strlit("tagger_email");
    reveal_strlit("commits");
    reveal_strlit("branches");
    reveal_strlit("tags");
    reveal_strlit("commit");
    assert("Commit"@[0] != "Branch"@[0]);
    assert("hash"@[0] != "date"@[0]);
    assert("Repository"@.len() == 10 && "Commit"@.len() == 6 && "Tag"@.len() == 3);
    assert("message"@.len() == 7 && "author"@.len() == 6 && "author_email"@.len() == 12);
    assert("committer"@.len() == 9 && "committer_email"@.len() == 15 && "date"@.len() == 4);
    assert("name"@.len() == 4 && "tagger_name"@.len() == 11 && "tagger_email"@.len() == 12);
    assert("commits"@.len() == 7 && "branches"@.len() == 8 && "tags"@.len() == 4);
}

/// The vertex kind that the schema declares under `name`, if any.
pub fn lookup_kind(name: &str) -> (kind: Option<VertexKind>)
    ensures
        kind == kind_named(name@),
{
    if same_text(name, "Repository") {
        Some(VertexKind::Repository)
    } else if same_text(name, "Commit") {
        Some(VertexKind::Commit)
    } else if same_text(name, "Branch") {
        Some(VertexKind::Branch)
    } else if same_text(name, "Tag") {
        Some(VertexKind::Tag)
    } else {
        None
    }
}

/// The property that the schema declares for a kind under `name`, if any.
pub fn lookup_property(kind: VertexKind, name: &str) -> (property: Option<Property>)
    ensures
        property == property_named(kind, name@),
{
    match kind {
        VertexKind::Repository => if same_text(name, "name") {
            Some(Property::RepositoryName)
        } else {
            None
        },
        VertexKind::Commit => if same_text(name, "hash") {
            Some(Property::CommitHash)
        } else if same_text(name, "message") {
            Some(Property::CommitMessage)
        } else if same_text(name, "author") {
            Some(Property::CommitAuthor)
        } else if same_text(name, "author_email") {
            Some(Property::CommitAuthorEmail)
        } else if same_text(name, "committer") {
            Some(Property::CommitCommitter)
        } else if same_text(name, "committer_email") {
            Some(Property::CommitCommitterEmail)
        } else if same_text(name, "date") {
            Some(Property::CommitDate)
        } else {
            None
        },
        VertexKind::Branch => if same_text(name, "name") {
            Some(Property::BranchName)
        } else {
            None
        },
        VertexKind::Tag => if same_text(name, "name") {
            Some(Property::TagName)
        } else if same_text(name, "message") {
            Some(Property::TagMessage)
        } else if same_text(name, "tagger_name") {
            Some(Property::TagTaggerName)
        } else if same_text(name, "tagger_email") {
            Some(Property::TagTaggerEmail)
        } else {
            None
        },
    }
}

/// The edge that the schema declares for a kind under `name`, if any.
pub fn lookup_edge(kind: VertexKind, name: &str) -> (edge: Option<Edge>)
    ensures
        edge == edge_named(kind, name@),
{
    match kind {
        VertexKind::Repository => if same_text(name, "commits") {
            Some(Edge::RepositoryCommits)
        } else if same_text(name, "branches") {
            Some(Edge::RepositoryBranches)
        } else if same_text(name, "tags") {
            Some(Edge::RepositoryTags)
        } else {
            None
        },
        VertexKind::Commit => None,
        VertexKind::Branch => if same_text(name, "commit") {
            Some(Edge::BranchCommit)
        } else {
            None
        },
        VertexKind::Tag => if same_text(name, "commit") {
            Some(Edge::TagCommit)
        } else {
            None
        },
    }
}

/// The schema as the engine holds it: there is one exactly when the engine
/// accepts `SCHEMA_TEXT`, so every call succeeds or none does.
pub fn parse_schema() -> (schema: Option<trustfall::Schema>)
    ensures
        schema is Some == schema_accepted(SCHEMA_TEXT@),
{
    crate::backend::parse_schema(SCHEMA_TEXT)
}

} // verus!
