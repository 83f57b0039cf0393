use crate::object_id::ObjectId;
use crate::text::opt_text;
use vstd::prelude::*;

verus! {

/// What the store holds of one commit.
///
/// A name, an address or the message is absent where the stored bytes are
/// not valid UTF-8.
#[derive(Debug, Clone, PartialEq, Eq)]
pub struct CommitRecord {
    pub id: ObjectId,
    pub message: Option<String>,
    pub author_name: Option<String>,
    pub author_email: Option<String>,
    pub committer_name: Option<String>,
    pub committer_email: Option<String>,
    /// Commit time in seconds since the Unix epoch.
    pub seconds: i64,
    /// The committer's offset from UTC in minutes.
    pub offset_minutes: i32,
}

/// A commit as a mathematical value.
pub struct CommitView {
    pub id: Seq<u8>,
    pub message: Option<Seq<char>>,
    pub author_name: Option<Seq<char>>,
    pub author_email: Option<Seq<char>>,
    pub committer_name: Option<Seq<char>>,
    pub committer_email: Option<Seq<char>>,
    pub seconds: int,
    pub offset_minutes: int,
}

impl View for CommitRecord {
    type V = CommitView;

    open spec fn view(&self) -> CommitView {
        CommitView {
            id: self.id@,
            message: opt_text(self.message),
            author_name: opt_text(self.author_name),
            author_email: opt_text(self.author_email),
            committer_name: opt_text(self.committer_name),
            committer_email: opt_text(self.committer_email),
            seconds: self.seconds as int,
            offset_minutes: self.offset_minutes as int,
        }
    }
}

/// A commit vertex. It is a read-only copy of the stored commit.
#[derive(Debug, Clone, PartialEq, Eq)]
pub struct Commit {
    commit: CommitRecord,
}

impl View for Commit {
    type V = CommitView;

    closed spec fn view(&self) -> CommitView {
        self.commit@
    }
}

impl Commit {
    pub fn new(commit: CommitRecord) -> (vertex: Self)
        ensures
            vertex@ == commit@,
    {
        Commit { commit }
    }

    /// The identifier of every commit has 20 bytes.
    pub proof fn lemma_id_len(self)
        ensures
            self@.id.len() == 20,
    {
        self.commit.id.lemma_len();
    }

    pub fn inner(&self) -> (commit: &CommitRecord)
        ensures
            commit@ == self@,
    {
        &self.commit
    }
}

} // verus!
