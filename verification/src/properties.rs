//! Property resolution: from a vertex and a property's name to a value.

use crate::backend::local_offset;
use crate::date::{date_text, is_date_text, is_offset, lemma_date_text_unique};
use crate::object_id::{hex, is_lower_hex, lemma_hex_is_lowercase};
use crate::types::{Commit, CommitView};
use crate::schema::{lookup_property, property_named, VertexKind};
use crate::text::{copy_opt_text, same_text};
use crate::value::{Value, ValueView};
use crate::vertex::Vertex;
use vstd::prelude::*;

verus! {

/// The `name` of a repository: always text.
pub fn resolve_repository_property(vertex: &Vertex, property_name: &str) -> (value: Value)
    requires
        vertex is Repository,
        property_named(VertexKind::Repository, property_name@) is Some,
    ensures
        value@ == ValueView::String(vertex->Repository_0@),
{
    match vertex {
        Vertex::Repository(repository) => Value::String(repository.name().to_owned()),
        _ => Value::Null,
    }
}

/// The `name` of a branch: null where the branch cannot report one.
pub fn resolve_branch_property(vertex: &Vertex, property_name: &str) -> (value: Value)
    requires
        vertex is Branch,
        property_named(VertexKind::Branch, property_name@) is Some,
    ensures
        value@ == Value::of_text(vertex->Branch_0@),
{
    match vertex {
        Vertex::Branch(branch) => Value::from_text(copy_opt_text(&branch.inner().name)),
        _ => Value::Null,
    }
}

/// What a tag's property `name` is.
pub open spec fn tag_property(tag: crate::types::TagView, name: Seq<char>) -> ValueView {
    if name == "name"@ {
        ValueView::String(tag.name)
    } else if name == "message"@ {
        Value::of_text(tag.message)
    } else if name == "tagger_name"@ {
        Value::of_text(tag.tagger_name)
    } else {
        Value::of_text(tag.tagger_email)
    }
}

/// A property of a tag. The message and the tagger are null on a lightweight
/// tag.
pub fn resolve_tag_property(vertex: &Vertex, property_name: &str) -> (value: Value)
    requires
        vertex is Tag,
        property_named(VertexKind::Tag, property_name@) is Some,
    ensures
        value@ == tag_property(vertex->Tag_0@, property_name@),
{
    match vertex {
        Vertex::Tag(tag) => {
            if same_text(property_name, "name") {
                Value::String(tag.name().to_owned())
            } else if same_text(property_name, "message") {
                from_opt_str(tag.message())
            } else if same_text(property_name, "tagger_name") {
                from_opt_str(tag.tagger_name())
            } else {
                from_opt_str(tag.tagger_email())
            }
        },
        _ => Value::Null,
    }
}

fn from_opt_str(text: Option<&str>) -> (value: Value)
    ensures
        value@ == Value::of_text(
            match text {
                Some(s) => Some(s@),
                None => None,
            },
        ),
{
    match text {
        Some(s) => Value::String(s.to_owned()),
        None => Value::Null,
    }
}

/// What a commit's property `name` is, the date apart.
pub open spec fn commit_property(commit: crate::types::CommitView, name: Seq<char>) -> ValueView {
    if name == "hash"@ {
        ValueView::String(hex(commit.id))
    } else if name == "message"@ {
        Value::of_text(commit.message)
    } else if name == "author"@ {
        Value::of_text(commit.author_name)
    } else if name == "author_email"@ {
        Value::of_text(commit.author_email)
    } else if name == "committer"@ {
        Value::of_text(commit.committer_name)
    } else {
        Value::of_text(commit.committer_email)
    }
}

/// What a commit's `date` is where local time is `offset` seconds ahead of
/// UTC: the text of the commit time as local clocks show it, or null where
/// the local year does not have four digits or the offset is a day or more.
pub open spec fn is_commit_date(commit: CommitView, offset: int, value: ValueView) -> bool {
    match value {
        ValueView::String(text) => is_date_text(commit.seconds, offset, Some(text)),
        ValueView::Null => is_date_text(commit.seconds, offset, None),
        _ => false,
    }
}

/// The `date` of a commit where local time is `offset_seconds` ahead of UTC
/// at the commit time.
pub fn commit_date(commit: &Commit, offset_seconds: i32) -> (value: Value)
    ensures
        is_commit_date(commit@, offset_seconds as int, value@),
{
    Value::from_text(date_text(commit.inner().seconds, offset_seconds))
}

/// A property of a commit.
///
/// The `hash` is the identifier in 40 hexadecimal characters. The message,
/// the names and the addresses are null where the commit has none that can
/// be read. The `date` is the commit time as clocks show it some offset
/// ahead of UTC, the one of this process's time zone; it is null only where
/// the year shown does not have four digits.
pub fn resolve_commit_property(vertex: &Vertex, property_name: &str) -> (value: Value)
    requires
        vertex is Commit,
        property_named(VertexKind::Commit, property_name@) is Some,
    ensures
        property_name@ != "date"@ ==> value@ == commit_property(
            vertex->Commit_0@,
            property_name@,
        ),
        property_name@ == "date"@ ==> exists|offset: int|
            is_offset(offset) && #[trigger] is_commit_date(vertex->Commit_0@, offset, value@),
{
    match vertex {
        Vertex::Commit(commit) => {
            let record = commit.inner();
            if same_text(property_name, "date") {
                match local_offset(record.seconds) {
                    Some(offset) => {
                        let value = commit_date(commit, offset);
                        assert(is_offset(offset as int) && is_commit_date(
                            commit@,
                            offset as int,
                            value@,
                        ));
                        value
                    },
                    None => {
                        assert(is_offset(0) && is_commit_date(commit@, 0, ValueView::Null));
                        Value::Null
                    },
                }
            } else if same_text(property_name, "hash") {
                Value::String(record.id.to_hex())
            } else if same_text(property_name, "message") {
                Value::from_text(copy_opt_text(&record.message))
            } else if same_text(property_name, "author") {
                Value::from_text(copy_opt_text(&record.author_name))
            } else if same_text(property_name, "author_email") {
                Value::from_text(copy_opt_text(&record.author_email))
            } else if same_text(property_name, "committer") {
                Value::from_text(copy_opt_text(&record.committer_name))
            } else {
                Value::from_text(copy_opt_text(&record.committer_email))
            }
        },
        _ => Value::Null,
    }
}

/// What the property `name` of a vertex may be: for all but a commit's
/// date, the one value that the vertex holds under that name.
pub open spec fn is_property_value(vertex: Vertex, name: Seq<char>, value: ValueView) -> bool {
    match vertex {
        Vertex::Repository(repository) => value == ValueView::String(repository@),
        Vertex::Branch(branch) => value == Value::of_text(branch@),
        Vertex::Tag(tag) => value == tag_property(tag@, name),
        Vertex::Commit(commit) => if name == "date"@ {
            exists|offset: int| is_offset(offset) && #[trigger] is_commit_date(commit@, offset, value)
        } else {
            value == commit_property(commit@, name)
        },
    }
}

/// The property `property_name` of a vertex of any kind.
pub fn resolve_vertex_property(vertex: &Vertex, property_name: &str) -> (value: Value)
    requires
        property_named(vertex.spec_kind(), property_name@) is Some,
    ensures
        is_property_value(*vertex, property_name@, value@),
{
    match vertex {
        Vertex::Repository(_) => resolve_repository_property(vertex, property_name),
        Vertex::Commit(_) => resolve_commit_property(vertex, property_name),
        Vertex::Branch(_) => resolve_branch_property(vertex, property_name),
        Vertex::Tag(_) => resolve_tag_property(vertex, property_name),
    }
}

/// The property `property_name` of a vertex, or nothing where the schema
/// declares no property of that name for a vertex of its kind.
pub fn property_of(vertex: &Vertex, property_name: &str) -> (value: Option<Value>)
    ensures
        value is Some == property_named(vertex.spec_kind(), property_name@) is Some,
        value is Some ==> is_property_value(*vertex, property_name@, value->0@),
{
    match lookup_property(vertex.kind(), property_name) {
        Some(_) => Some(resolve_vertex_property(vertex, property_name)),
        None => None,
    }
}

/// The `hash` of every commit is text of exactly 40 characters, each of them
/// a digit or a letter from `a` to `f`.
pub proof fn lemma_commit_hash_shape(commit: Commit)
    ensures
        commit_property(commit@, "hash"@) == ValueView::String(hex(commit@.id)),
        hex(commit@.id).len() == 40,
        forall|i: int| 0 <= i < 40 ==> is_lower_hex(#[trigger] hex(commit@.id)[i]),
{
    commit.lemma_id_len();
    lemma_hex_is_lowercase(commit@.id);
}

/// Where local time is a given number of seconds ahead of UTC, a commit has
/// one date: commits of the same instant show the same text.
pub proof fn lemma_commit_date_unique(
    commit: CommitView,
    other: CommitView,
    offset: int,
    one: ValueView,
    two: ValueView,
)
    requires
        commit.seconds == other.seconds,
        is_commit_date(commit, offset, one),
        is_commit_date(other, offset, two),
    ensures
        one == two,
{
    let a = match one {
        ValueView::String(text) => Some(text),
        _ => None,
    };
    let b = match two {
        ValueView::String(text) => Some(text),
        _ => None,
    };
    lemma_date_text_unique(commit.seconds, offset, a, b);
}

/// A vertex has one value under each property's name, a commit's date
/// apart: asking twice gives the same answer.
pub proof fn lemma_property_value_unique(
    vertex: Vertex,
    name: Seq<char>,
    one: ValueView,
    two: ValueView,
)
    requires
        !(vertex is Commit && name == "date"@),
        is_property_value(vertex, name, one),
        is_property_value(vertex, name, two),
    ensures
        one == two,
{
}

} // verus!
