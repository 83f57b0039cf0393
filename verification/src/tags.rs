//! How a tag's name becomes a tag vertex.

use crate::backend::{annotated_tag, find_reference, reference_commit, TagObject};
use crate::object_id::ObjectId;
use crate::text::opt_text;
use crate::types::{Tag, TagView};
use vstd::prelude::*;
use vstd::string::StringExecFns;

verus! {

/// What the repository holds under a tag's reference.
pub enum TagLookup {
    /// An annotated tag: a tag object of its own.
    Annotated(TagObject),
    /// A lightweight tag: the commit that the reference leads to, if it
    /// leads to one.
    Lightweight(Option<ObjectId>),
}

/// The tag that a lookup gives.
///
/// An annotated tag carries the message and the tagger of its object, a
/// lightweight tag neither. Either way there is no tag where the target is
/// no commit.
pub open spec fn tag_of(name: Seq<char>, lookup: TagLookup) -> Option<TagView> {
    match lookup {
        TagLookup::Annotated(object) => match object.target {
            Some(target) => Some(
                TagView {
                    name,
                    target_oid: target@,
                    message: opt_text(object.message),
                    tagger_name: opt_text(object.tagger_name),
                    tagger_email: opt_text(object.tagger_email),
                },
            ),
            None => None,
        },
        TagLookup::Lightweight(commit) => match commit {
            Some(target) => Some(
                TagView {
                    name,
                    target_oid: target@,
                    message: None,
                    tagger_name: None,
                    tagger_email: None,
                },
            ),
            None => None,
        },
    }
}

/// What was found under a tag's reference, given what reading it as an
/// annotated tag gave and what reading it as a lightweight one gave: the
/// tag object where there is one, and only else the commit.
pub open spec fn found_under(object: Option<TagObject>, commit: Option<ObjectId>) -> TagLookup {
    match object {
        Some(object) => TagLookup::Annotated(object),
        None => TagLookup::Lightweight(commit),
    }
}

/// Chooses between the two readings of a tag's reference: it is an
/// annotated tag where there is a tag object, a lightweight one else.
pub fn lookup_of(object: Option<TagObject>, commit: Option<ObjectId>) -> (lookup: TagLookup)
    ensures
        lookup == found_under(object, commit),
{
    match object {
        Some(object) => TagLookup::Annotated(object),
        None => TagLookup::Lightweight(commit),
    }
}

/// Whether `tag` is a tag that some lookup under `name` gives.
pub open spec fn is_tag_named(name: Seq<char>, tag: TagView) -> bool {
    exists|lookup: TagLookup| #[trigger] tag_of(name, lookup) == Some(tag)
}

/// The full name of the reference behind a tag.
pub open spec fn reference_name(tag_name: Seq<char>) -> Seq<char> {
    "refs/tags/"@ + tag_name
}

/// The full name of the reference behind a tag.
pub fn tag_reference(tag_name: &str) -> (full: String)
    ensures
        full@ == reference_name(tag_name@),
{
    String::from_str("refs/tags/").concat(tag_name)
}

/// The tag vertex for a name and what was found under it, if the tag leads
/// to a commit.
pub fn tag_from_lookup(name: String, lookup: TagLookup) -> (tag: Option<Tag>)
    ensures
        match tag {
            Some(tag) => Some(tag@),
            None => None,
        } == tag_of(name@, lookup),
{
    match lookup {
        TagLookup::Annotated(object) => match object.target {
            Some(target) => Some(
                Tag::new(name, target, object.message, object.tagger_name, object.tagger_email),
            ),
            None => None,
        },
        TagLookup::Lightweight(commit) => match commit {
            Some(target) => Some(Tag::new(name, target, None, None, None)),
            None => None,
        },
    }
}

/// Looks a tag up by its name.
///
/// The reference is first taken for an annotated tag; only where it leads to
/// no tag object is it read as a lightweight one. There is no tag where the
/// reference is missing or leads to no commit.
pub fn read_tag(repo: &git2::Repository, name: String) -> (tag: Option<Tag>)
    ensures
        tag is Some ==> tag->0@.name == name@,
        tag is Some ==> is_tag_named(name@, tag->0@),
{
    let full = tag_reference(name.as_str());
    match find_reference(repo, full.as_str()) {
        Some(reference) => {
            let object = annotated_tag(&reference);
            let commit = match &object {
                Some(_) => None,
                None => reference_commit(&reference),
            };
            let lookup = lookup_of(object, commit);
            let ghost bare = name@;
            let tag = tag_from_lookup(name, lookup);
            assert(tag is Some ==> tag_of(bare, lookup) == Some(tag->0@));
            tag
        },
        None => None,
    }
}

} // verus!
