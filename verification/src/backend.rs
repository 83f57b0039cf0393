//! The boundary to the repository-access library.
//!
//! Each function here makes one lookup in the repository, or one step of an
//! iterator over it, and hands the result on as plain values. Verus does not
//! read their bodies: what their contracts say is assumed, and it is little,
//! because what a lookup finds depends on the repository on disk. What is
//! said of an iterator is said of that iterator alone, as it stands.

use crate::object_id::ObjectId;
use crate::text::opt_text;
use crate::types::{BranchRecord, CommitRecord, CommitView};
use vstd::prelude::*;

verus! {

/// `git2::Repository`: an open repository. Nothing is known of its contents.
#[verifier::external_type_specification]
#[verifier::external_body]
pub struct ExRepository(git2::Repository);

/// `git2::Revwalk`: a traversal of the commit graph.
#[verifier::external_type_specification]
#[verifier::external_body]
pub struct ExRevwalk<'repo>(git2::Revwalk<'repo>);

/// `git2::Error`: the errors of the library. Nothing is read off one.
#[verifier::external_type_specification]
#[verifier::external_body]
pub struct ExError(git2::Error);

/// `git2::Oid`: an object identifier as a traversal yields it. No verified
/// function holds one; the declaration is here because `Revwalk` is an
/// iterator whose items have this type, and Verus wants the item types of a
/// declared iterator declared too.
#[verifier::external_type_specification]
#[verifier::external_body]
pub struct ExOid(git2::Oid);

/// `git2::Reference`: a reference that was looked up by name.
#[verifier::external_type_specification]
#[verifier::external_body]
pub struct ExReference<'repo>(git2::Reference<'repo>);

/// `git2::string_array::StringArray`: a list of names held in memory.
#[verifier::external_type_specification]
#[verifier::external_body]
pub struct ExStringArray(git2::string_array::StringArray);

/// `std::path::PathBuf`: a file-system path.
#[verifier::external_type_specification]
#[verifier::external_body]
pub struct ExPathBuf(std::path::PathBuf);

/// `trustfall::Schema`: a schema as the query engine holds it.
#[verifier::external_type_specification]
#[verifier::external_body]
pub struct ExSchema(trustfall::Schema);

/// `git2::Branches`: the iterator over a repository's branches.
///
/// It is held here because its items are pairs with the library's branch
/// handle, a type that cannot be declared beside this crate's own `Branch`.
#[verifier::external_body]
pub struct BranchCursor<'repo> {
    branches: git2::Branches<'repo>,
}

/// The entries that a traversal has yet to yield when its commits are read
/// from a repository, in order, up to its end or its first failure: the
/// commit that the repository holds under the identifier yielded, or nothing
/// where none can be read under it.
///
/// This speaks of one traversal as it stands: nothing relates two
/// traversals of the same repository.
pub uninterp spec fn walk_pending(walk: git2::Revwalk, repo: git2::Repository) -> Seq<
    Option<CommitView>,
>;

/// The entries that a branch iterator has yet to yield, in order: the name
/// that the branch reports, if any, or nothing at all where the iterator
/// fails to produce a handle.
///
/// This speaks of one iterator as it stands: nothing relates two iterators
/// over the same repository.
pub uninterp spec fn branches_pending(cursor: BranchCursor) -> Seq<Option<Option<Seq<char>>>>;

/// The scope that a branch iterator was made with: it yields the branches
/// of that scope and no others.
pub uninterp spec fn cursor_scope(cursor: BranchCursor) -> BranchScope;

/// The names that a list holds, in order; an entry is absent where the name
/// is not valid UTF-8.
pub uninterp spec fn listed_names(names: git2::string_array::StringArray) -> Seq<
    Option<Seq<char>>,
>;

/// Where a repository keeps its metadata: what `Repository::path` reads off
/// the handle, which stays the same for as long as the handle lives. There
/// is no such place for a repository that was wrapped around an object
/// database and has none on disk.
pub uninterp spec fn location(repo: git2::Repository) -> Option<std::path::PathBuf>;

/// The path without its last component, if it has one: what `Path::parent`
/// gives, which depends on the path alone.
pub uninterp spec fn path_parent(path: std::path::PathBuf) -> Option<std::path::PathBuf>;

/// The last component of a path as text, if it is a file or directory name
/// made of valid UTF-8: what `Path::file_name` gives, which depends on the
/// path alone.
pub uninterp spec fn path_file_name(path: std::path::PathBuf) -> Option<Seq<char>>;

/// The names of the types that a schema declares to be of the type `name`,
/// that type itself among them, in the order of the names; nothing where
/// the schema declares no type of that name. It is what `Schema::subtypes`
/// yields, which depends on the schema and the name alone.
pub uninterp spec fn declared_subtypes(schema: trustfall::Schema, name: Seq<char>) -> Option<
    Seq<Seq<char>>,
>;

/// Whether the query engine accepts a text as a schema: what `Schema::parse`
/// decides, which depends on the text alone.
pub uninterp spec fn schema_accepted(text: Seq<char>) -> bool;

/// What was read, as a mathematical value.
pub open spec fn read_view(read: Option<CommitRecord>) -> Option<CommitView> {
    match read {
        Some(commit) => Some(commit@),
        None => None,
    }
}

/// Which branches are meant: those of the repository itself, or those that
/// follow a remote.
#[derive(Debug, Clone, Copy, PartialEq, Eq, Structural)]
pub enum BranchScope {
    Local,
    Remote,
}

/// What an annotated tag's own object holds.
pub struct TagObject {
    pub message: Option<String>,
    pub tagger_name: Option<String>,
    pub tagger_email: Option<String>,
    /// The commit that the tagged object peels to, if it does.
    pub target: Option<ObjectId>,
}

/// `Repository::find_remote`, then `Remote::url`: the URL of the remote of
/// that name, if there is such a remote and its URL is valid UTF-8. A
/// remote without a URL reports an empty one.
#[verifier::external_body]
pub(crate) fn remote_url(repo: &git2::Repository, name: &str) -> (url: Option<String>) {
    repo.find_remote(name).ok().and_then(|remote| remote.url().ok().map(String::from))
}

/// `Repository::path`: where the repository keeps its metadata. The call
/// does not return for a repository without such a place, so that one is
/// left out.
#[verifier::external_body]
pub(crate) fn metadata_path(repo: &git2::Repository) -> (path: std::path::PathBuf)
    requires
        location(*repo) is Some,
    ensures
        location(*repo) == Some(path),
{
    repo.path().to_path_buf()
}

/// `Path::parent`: the path without its last component, if it has one.
#[verifier::external_body]
pub(crate) fn parent_of(path: &std::path::PathBuf) -> (parent: Option<std::path::PathBuf>)
    ensures
        parent == path_parent(*path),
{
    path.parent().map(|parent| parent.to_path_buf())
}

/// `Path::file_name`: the last component of the path as text, if it is a
/// file or directory name made of valid UTF-8.
#[verifier::external_body]
pub(crate) fn file_name_of(path: &std::path::PathBuf) -> (name: Option<String>)
    ensures
        opt_text(name) == path_file_name(*path),
{
    path.file_name().and_then(|name| name.to_str()).map(String::from)
}

/// `Repository::revwalk`: a new traversal with nothing to visit yet.
#[verifier::external_body]
pub(crate) fn new_walk<'repo>(repo: &'repo git2::Repository) -> (walk: Option<
    git2::Revwalk<'repo>,
>) {
    repo.revwalk().ok()
}

/// `Revwalk::push_head`: makes the traversal start at `HEAD`; tells whether
/// that worked.
#[verifier::external_body]
pub(crate) fn push_head(walk: &mut git2::Revwalk) -> (pushed: bool) {
    walk.push_head().is_ok()
}

/// `Revwalk::next`, then `Repository::find_commit` on what it yields: takes
/// the first entry off what the traversal has yet to yield. Where the step
/// gives no identifier, because the traversal is over or reports an error,
/// none was left to yield: that is where the sequence ends.
#[verifier::external_body]
pub(crate) fn walk_next(walk: &mut git2::Revwalk, repo: &git2::Repository) -> (step: Option<
    Result<Option<CommitRecord>, git2::Error>,
>)
    ensures
        match step {
            Some(Ok(read)) => {
                &&& walk_pending(*old(walk), *repo).len() > 0
                &&& walk_pending(*old(walk), *repo)[0] == read_view(read)
                &&& walk_pending(*final(walk), *repo) == walk_pending(*old(walk), *repo).skip(1)
            },
            _ => walk_pending(*old(walk), *repo).len() == 0,
        },
{
    let text = |s: Result<&str, git2::Error>| s.ok().map(String::from);
    Some(walk.next()?.map(|id| repo.find_commit(id).ok().and_then(|commit| {
        let (author, committer, time) = (commit.author(), commit.committer(), commit.time());
        Some(CommitRecord {
            id: ObjectId { bytes: id.as_bytes().try_into().ok()? },
            message: text(commit.message()),
            author_name: text(author.name()),
            author_email: text(author.email()),
            committer_name: text(committer.name()),
            committer_email: text(committer.email()),
            seconds: time.seconds(),
            offset_minutes: time.offset_minutes(),
        })
    })))
}

/// `Repository::find_commit`: the commit stored under `id`, if there is
/// one, with the fields that `Commit` reports of it.
#[verifier::external_body]
pub(crate) fn lookup_commit(repo: &git2::Repository, id: &ObjectId) -> (found: Option<
    CommitRecord,
>)
    ensures
        found is Some ==> found->0.id == *id,
{
    let commit = repo.find_commit(git2::Oid::from_bytes(&id.bytes).ok()?).ok()?;
    let text = |s: Result<&str, git2::Error>| s.ok().map(String::from);
    let (author, committer, time) = (commit.author(), commit.committer(), commit.time());
    Some(CommitRecord {
        id: *id,
        message: text(commit.message()),
        author_name: text(author.name()),
        author_email: text(author.email()),
        committer_name: text(committer.name()),
        committer_email: text(committer.email()),
        seconds: time.seconds(),
        offset_minutes: time.offset_minutes(),
    })
}

/// `Repository::branches` with a filter: an iterator over the branches of
/// that scope.
#[verifier::external_body]
pub(crate) fn branches_in<'repo>(repo: &'repo git2::Repository, scope: BranchScope) -> (cursor:
    Option<BranchCursor<'repo>>)
    ensures
        cursor is Some ==> cursor_scope(cursor->0) == scope,
{
    let filter = match scope {
        BranchScope::Local => git2::BranchType::Local,
        BranchScope::Remote => git2::BranchType::Remote,
    };
    repo.branches(Some(filter)).ok().map(|branches| BranchCursor { branches })
}

/// `Branches::next`, then `Branch::name`: takes the first entry off what the
/// iterator has yet to yield.
#[verifier::external_body]
pub(crate) fn next_branch(cursor: &mut BranchCursor) -> (entry: Option<Option<BranchRecord>>)
    ensures
        match entry {
            Some(read) => {
                &&& branches_pending(*old(cursor)).len() > 0
                &&& branches_pending(*old(cursor))[0] == match read {
                    Some(branch) => Some(branch@),
                    None => None,
                }
                &&& branches_pending(*final(cursor)) == branches_pending(*old(cursor)).skip(1)
            },
            None => branches_pending(*old(cursor)).len() == 0,
        },
        cursor_scope(*final(cursor)) == cursor_scope(*old(cursor)),
{
    cursor.branches.next().map(
        |entry|
            entry.ok().map(
                |(branch, _)| BranchRecord { name: branch.name().ok().flatten().map(String::from) },
            ),
    )
}

/// `Repository::find_branch` among the branches of a scope, then
/// `Reference::target`: the identifier that the branch of that name points
/// at, if there is such a branch and it points at an object directly.
#[verifier::external_body]
pub(crate) fn branch_target(repo: &git2::Repository, name: &str, scope: BranchScope) -> (target:
    Option<ObjectId>) {
    let filter = match scope {
        BranchScope::Local => git2::BranchType::Local,
        BranchScope::Remote => git2::BranchType::Remote,
    };
    let bytes = repo.find_branch(name, filter).ok()?.get().target()?.as_bytes().try_into().ok()?;
    Some(ObjectId { bytes })
}

/// `Repository::tag_names` without a pattern: the names of all tags.
#[verifier::external_body]
pub(crate) fn tag_names(repo: &git2::Repository) -> (names: Option<
    git2::string_array::StringArray,
>) {
    repo.tag_names(None).ok()
}

/// `StringArray::len`: how many names the list holds.
#[verifier::external_body]
pub(crate) fn names_len(names: &git2::string_array::StringArray) -> (len: usize)
    ensures
        len == listed_names(*names).len(),
{
    names.len()
}

/// `StringArray::get`: the name at `index`.
#[verifier::external_body]
pub(crate) fn name_at(names: &git2::string_array::StringArray, index: usize) -> (name: Option<
    String,
>)
    requires
        index < listed_names(*names).len(),
    ensures
        opt_text(name) == listed_names(*names)[index as int],
{
    names.get(index).ok().flatten().map(String::from)
}

/// `Repository::find_reference`: the reference of that full name.
#[verifier::external_body]
pub(crate) fn find_reference<'repo>(repo: &'repo git2::Repository, name: &str) -> (found: Option<
    git2::Reference<'repo>,
>) {
    repo.find_reference(name).ok()
}

/// `Reference::peel_to_tag`, then the accessors of `Tag`: the annotated tag
/// object that the reference leads to, if there is one, with its message,
/// its tagger and the commit that `Tag::target` peels to.
#[verifier::external_body]
pub(crate) fn annotated_tag(reference: &git2::Reference) -> (object: Option<TagObject>) {
    let tag = reference.peel_to_tag().ok()?;
    let tagger = tag.tagger();
    let commit = tag.target().ok().and_then(|target| target.peel_to_commit().ok());
    Some(TagObject {
        message: tag.message().ok().flatten().map(String::from),
        tagger_name: tagger.as_ref().and_then(|t| t.name().ok()).map(String::from),
        tagger_email: tagger.as_ref().and_then(|t| t.email().ok()).map(String::from),
        target: commit.and_then(|c| c.id().as_bytes().try_into().ok()).map(
            |bytes| ObjectId { bytes },
        ),
    })
}

/// `Reference::peel_to_commit`: the identifier of the commit that the
/// reference leads to, if it leads to one.
#[verifier::external_body]
pub(crate) fn reference_commit(reference: &git2::Reference) -> (commit: Option<ObjectId>) {
    let bytes = reference.peel_to_commit().ok()?.id().as_bytes().try_into().ok()?;
    Some(ObjectId { bytes })
}

/// `Schema::parse` on the schema of this crate, the one text it is ever
/// given: the parsed schema where the engine accepts the text, nothing where
/// it rejects it. Nothing is claimed of what the parsed schema holds.
#[verifier::external_body]
pub(crate) fn parse_schema(text: &str) -> (schema: Option<trustfall::Schema>)
    requires
        text@ == crate::schema::SCHEMA_TEXT@,
    ensures
        schema is Some == schema_accepted(text@),
{
    trustfall::Schema::parse(text).ok()
}

/// `Schema::subtypes`: the names of the types that the schema declares to be
/// of the type `name`, or nothing where it declares no type of that name.
#[verifier::external_body]
pub(crate) fn subtypes_of(schema: &trustfall::Schema, name: &str) -> (names: Option<Vec<String>>)
    ensures
        match names {
            Some(found) => declared_subtypes(*schema, name@) == Some(
                found@.map_values(|s: String| s@),
            ),
            None => declared_subtypes(*schema, name@) is None,
        },
{
    schema.subtypes(name).map(|names| names.map(String::from).collect())
}

/// `chrono::Local`'s offset at an instant: how many seconds local time is
/// ahead of UTC there, which is less than a day either way. There is none
/// only where the instant is beyond what the calendar library covers, and
/// it covers far more than the years 1 to 9999.
#[verifier::external_body]
pub(crate) fn local_offset(seconds: i64) -> (offset: Option<i32>)
    ensures
        match offset {
            Some(ahead) => -86_400 < ahead < 86_400,
            None => seconds < crate::date::FIRST_SECOND - 86_400 || crate::date::LAST_SECOND
                + 86_400 < seconds,
        },
{
    chrono::TimeZone::timestamp_opt(&chrono::Local, seconds, 0).single().map(
        |time| chrono::Offset::fix(time.offset()).local_minus_utc(),
    )
}

} // verus!
