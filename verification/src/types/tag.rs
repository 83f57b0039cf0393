use crate::object_id::ObjectId;
use crate::text::{opt_str, opt_text};
use vstd::prelude::*;

verus! {

/// A tag vertex, annotated or lightweight.
///
/// `target_oid` names the commit that the tag leads to. The message and the
/// tagger are those of an annotated tag's own object; a lightweight tag has
/// none.
#[derive(Debug, Clone, PartialEq, Eq)]
pub struct Tag {
    name: String,
    target_oid: ObjectId,
    message: Option<String>,
    tagger_name: Option<String>,
    tagger_email: Option<String>,
}

/// A tag as a mathematical value.
pub struct TagView {
    pub name: Seq<char>,
    pub target_oid: Seq<u8>,
    pub message: Option<Seq<char>>,
    pub tagger_name: Option<Seq<char>>,
    pub tagger_email: Option<Seq<char>>,
}

impl View for Tag {
    type V = TagView;

    closed spec fn view(&self) -> TagView {
        TagView {
            name: self.name@,
            target_oid: self.target_oid@,
            message: opt_text(self.message),
            tagger_name: opt_text(self.tagger_name),
            tagger_email: opt_text(self.tagger_email),
        }
    }
}

impl Tag {
    pub fn new(
        name: String,
        target_oid: ObjectId,
        message: Option<String>,
        tagger_name: Option<String>,
        tagger_email: Option<String>,
    ) -> (tag: Self)
        ensures
            tag@ == (TagView {
                name: name@,
                target_oid: target_oid@,
                message: opt_text(message),
                tagger_name: opt_text(tagger_name),
                tagger_email: opt_text(tagger_email),
            }),
    {
        Self { name, target_oid, message, tagger_name, tagger_email }
    }

    pub fn name(&self) -> (name: &str)
        ensures
            name@ == self@.name,
    {
        self.name.as_str()
    }

    pub fn target_oid(&self) -> (id: ObjectId)
        ensures
            id@ == self@.target_oid,
    {
        self.target_oid
    }

    pub fn message(&self) -> (message: Option<&str>)
        ensures
            message is Some == self@.message is Some,
            message is Some ==> message->0@ == self@.message->0,
    {
        opt_str(&self.message)
    }

    pub fn tagger_name(&self) -> (name: Option<&str>)
        ensures
            name is Some == self@.tagger_name is Some,
            name is Some ==> name->0@ == self@.tagger_name->0,
    {
        opt_str(&self.tagger_name)
    }

    pub fn tagger_email(&self) -> (email: Option<&str>)
        ensures
            email is Some == self@.tagger_email is Some,
            email is Some ==> email->0@ == self@.tagger_email->0,
    {
        opt_str(&self.tagger_email)
    }
}

} // verus!
