//! The `commits` edge: a walk through the history of `HEAD`, with a limit.

use crate::backend::{new_walk, push_head, walk_next, walk_pending};
use crate::types::{Commit, CommitView};
use crate::value::{Value, ValueView};
use vstd::prelude::*;

verus! {

/// How many commits a limit admits: as many as it says, none where it is
/// negative, any number where there is no limit.
pub open spec fn limit_of(limit: Option<i64>) -> Option<nat> {
    match limit {
        Some(k) => Some(
            if k < 0 {
                0nat
            } else {
                k as nat
            },
        ),
        None => None,
    }
}

/// The limit that an edge parameter asks for: the number where it is one,
/// cut down to the largest signed 64-bit number; none for any other value.
pub open spec fn limit_in(parameter: ValueView) -> Option<i64> {
    match parameter {
        ValueView::Int64(k) => Some(k),
        ValueView::Uint64(k) => Some(
            if k > i64::MAX {
                i64::MAX
            } else {
                k as i64
            },
        ),
        _ => None,
    }
}

/// The limit that an edge parameter asks for.
pub fn limit_from_value(parameter: &Value) -> (limit: Option<i64>)
    ensures
        limit == limit_in(parameter@),
{
    match parameter {
        Value::Int64(k) => Some(*k),
        Value::Uint64(k) => Some(
            if *k > i64::MAX as u64 {
                i64::MAX
            } else {
                *k as i64
            },
        ),
        _ => None,
    }
}

/// One fewer, where there is a limit at all.
pub open spec fn one_fewer(remaining: Option<nat>) -> Option<nat> {
    match remaining {
        Some(k) => Some((k - 1) as nat),
        None => None,
    }
}

/// The commits among the entries of a walk, in the order of the walk: an
/// entry is absent where nothing could be read under the identifier.
pub open spec fn found(entries: Seq<Option<CommitView>>) -> Seq<CommitView>
    decreases entries.len(),
{
    if entries.len() == 0 {
        Seq::empty()
    } else {
        match entries[0] {
            Some(commit) => seq![commit] + found(entries.skip(1)),
            None => found(entries.skip(1)),
        }
    }
}

/// As many of `commits` as a limit admits, from the front.
pub open spec fn first_of(commits: Seq<CommitView>, limit: Option<nat>) -> Seq<CommitView> {
    match limit {
        Some(k) => if k < commits.len() {
            commits.take(k as int)
        } else {
            commits
        },
        None => commits,
    }
}

/// What a walk over `entries` emits under a limit: the commits found, as
/// far as the limit admits them.
pub open spec fn emitted(entries: Seq<Option<CommitView>>, limit: Option<nat>) -> Seq<CommitView> {
    first_of(found(entries), limit)
}

/// How many more commits a counter admits; `None` where there is no limit.
pub open spec fn admits(remaining: Option<u64>) -> Option<nat> {
    match remaining {
        Some(k) => Some(k as nat),
        None => None,
    }
}

/// What a limit admits after `count` commits were emitted under it.
pub open spec fn left_of(limit: Option<nat>, count: nat) -> Option<nat> {
    match limit {
        Some(k) => Some((k - count) as nat),
        None => None,
    }
}

/// The commit, if there is one, as a mathematical value.
pub open spec fn commit_view(commit: Option<Commit>) -> Option<CommitView> {
    match commit {
        Some(commit) => Some(commit@),
        None => None,
    }
}

/// What becomes of one entry of a walk under a limit that admits
/// `remaining` more commits: what the limit admits afterwards, and the
/// commit to emit.
///
/// A commit that was read is emitted and counts against the limit. Nothing
/// is emitted, and nothing counts, where nothing was read or the limit is
/// used up.
pub open spec fn admitted(remaining: Option<nat>, read: Option<CommitView>) -> (
    Option<nat>,
    Option<CommitView>,
) {
    if remaining == Some(0nat) {
        (remaining, None)
    } else {
        match read {
            Some(commit) => (one_fewer(remaining), Some(commit)),
            None => (remaining, None),
        }
    }
}

/// Decides what becomes of one entry of a walk: whether to emit the commit
/// that was read, and what the limit admits afterwards.
pub fn let_through(remaining: Option<u64>, read: Option<Commit>) -> (outcome: (
    Option<u64>,
    Option<Commit>,
))
    ensures
        (admits(outcome.0), commit_view(outcome.1)) == admitted(
            admits(remaining),
            commit_view(read),
        ),
        outcome.1 is Some ==> outcome.1 == read,
{
    match remaining {
        Some(k) => {
            if k == 0 {
                (remaining, None)
            } else {
                match read {
                    Some(commit) => (Some(k - 1), Some(commit)),
                    None => (remaining, None),
                }
            }
        },
        None => (None, read),
    }
}

/// What is found in a walk is what is found in its first part, followed by
/// what is found in the rest.
pub proof fn lemma_found_appends(entries: Seq<Option<CommitView>>, more: Seq<Option<CommitView>>)
    ensures
        found(entries + more) == found(entries) + found(more),
    decreases entries.len(),
{
    if entries.len() == 0 {
        assert(entries + more =~= more);
        assert(Seq::<CommitView>::empty() + found(more) =~= found(more));
    } else {
        lemma_found_appends(entries.skip(1), more);
        assert((entries + more).skip(1) =~= entries.skip(1) + more);
        assert((entries + more)[0] == entries[0]);
        match entries[0] {
            Some(commit) => {
                assert(seq![commit] + (found(entries.skip(1)) + found(more)) =~= (seq![commit]
                    + found(entries.skip(1))) + found(more));
            },
            None => {},
        }
    }
}

/// A walk limited to `k` commits emits `k` of them, or all that there are
/// where those are fewer; and they are the first that the same walk emits
/// without a limit.
pub proof fn lemma_limit_emits_prefix(entries: Seq<Option<CommitView>>, k: nat)
    ensures
        emitted(entries, Some(k)).len() == if k < emitted(entries, None).len() {
            k
        } else {
            emitted(entries, None).len()
        },
        emitted(entries, Some(k)) == emitted(entries, None).take(
            emitted(entries, Some(k)).len() as int,
        ),
{
    let all = found(entries);
    assert(all.take(all.len() as int) =~= all);
}

/// A smaller limit emits the first commits of what a larger limit emits.
pub proof fn lemma_limits_agree(entries: Seq<Option<CommitView>>, smaller: nat, larger: nat)
    requires
        smaller <= larger,
    ensures
        emitted(entries, Some(smaller)) == emitted(entries, Some(larger)).take(
            emitted(entries, Some(smaller)).len() as int,
        ),
{
    let all = found(entries);
    assert(all.take(all.len() as int) =~= all);
    if larger < all.len() {
        assert(all.take(larger as int).take(smaller as int) =~= all.take(smaller as int));
        assert(all.take(larger as int).take(larger as int) =~= all.take(larger as int));
    }
}

/// Once a limit is reached, nothing that the walk would visit later changes
/// what it emits: a limited walk need not visit the rest of the history.
pub proof fn lemma_limit_ignores_the_rest(
    entries: Seq<Option<CommitView>>,
    more: Seq<Option<CommitView>>,
    k: nat,
)
    requires
        found(entries).len() >= k,
    ensures
        emitted(entries + more, Some(k)) == emitted(entries, Some(k)),
{
    lemma_found_appends(entries, more);
    let short = found(entries);
    let long = short + found(more);
    assert(long.take(k as int) =~= short.take(k as int));
    assert(short.take(short.len() as int) =~= short);
    assert(long.take(long.len() as int) =~= long);
}

/// What a walk emits is what `admitted` lets through, entry by entry: one
/// more entry adds the commit that it lets through, if any, to what was
/// emitted before.
pub proof fn lemma_emitted_by_steps(
    entries: Seq<Option<CommitView>>,
    read: Option<CommitView>,
    limit: Option<nat>,
)
    ensures
        limit is Some ==> emitted(entries, limit).len() <= limit->0,
        emitted(entries.push(read), limit) == match admitted(
            left_of(limit, emitted(entries, limit).len()),
            read,
        ).1 {
            Some(commit) => emitted(entries, limit).push(commit),
            None => emitted(entries, limit),
        },
{
    let before = found(entries);
    lemma_found_appends(entries, seq![read]);
    assert(entries.push(read) =~= entries + seq![read]);
    assert(seq![read].skip(1) =~= Seq::<Option<CommitView>>::empty());
    assert(found(seq![read].skip(1)) =~= Seq::<CommitView>::empty());
    assert(before.take(before.len() as int) =~= before);
    match read {
        Some(commit) => {
            assert(found(seq![read]) =~= seq![commit]);
            assert(before + seq![commit] =~= before.push(commit));
            match limit {
                Some(k) => {
                    if k <= before.len() {
                        assert(before.push(commit).take(k as int) =~= before.take(k as int));
                    }
                },
                None => {},
            }
        },
        None => {
            assert(found(seq![read]) =~= Seq::<CommitView>::empty());
            assert(before + Seq::<CommitView>::empty() =~= before);
        },
    }
}

/// The history of `HEAD`, newest first, as far as it has not been visited.
pub struct CommitWalk<'a> {
    repo: &'a git2::Repository,
    walk: Option<git2::Revwalk<'a>>,
    remaining: Option<u64>,
}

impl<'a> CommitWalk<'a> {
    /// The entries that the walk has yet to visit, in the order of the
    /// traversal: the commit read under each identifier, or nothing where
    /// none can be read under it.
    pub closed spec fn pending(&self) -> Seq<Option<CommitView>> {
        match self.walk {
            Some(walk) => walk_pending(walk, *self.repo),
            None => Seq::empty(),
        }
    }

    /// How many more commits the limit admits; `None` where there is no
    /// limit.
    pub closed spec fn remaining(&self) -> Option<nat> {
        admits(self.remaining)
    }

    /// Whether the limit has been used up.
    pub open spec fn spent(&self) -> bool {
        self.remaining() == Some(0nat)
    }

    /// What one call of `next_commit` does.
    ///
    /// Once the limit is used up, nothing is emitted and nothing is visited.
    /// Otherwise the commit emitted is the first that is found among the
    /// pending entries; the rest of what is found is still to come, and the
    /// limit admits one fewer. Nothing is emitted only where no commit is
    /// found among the pending entries; nothing is pending afterwards.
    pub open spec fn stepped(before: Self, after: Self, next: Option<Commit>) -> bool {
        if before.spent() {
            next is None && after == before
        } else {
            match next {
                Some(commit) => {
                    &&& found(before.pending()) == seq![commit@] + found(after.pending())
                    &&& after.remaining() == one_fewer(before.remaining())
                },
                None => {
                    &&& found(before.pending()).len() == 0
                    &&& after.pending().len() == 0
                    &&& after.remaining() == before.remaining()
                },
            }
        }
    }

    /// The walk over a traversal of `repo`, if there is one, that emits at
    /// most `limit` commits.
    ///
    /// What the traversal has yet to yield is pending where it was made to
    /// start at `HEAD`. Nothing is pending where there is no traversal or
    /// `HEAD` could not be resolved.
    pub fn over(
        repo: &'a git2::Repository,
        traversal: Option<git2::Revwalk<'a>>,
        at_head: bool,
        limit: Option<i64>,
    ) -> (walk: Self)
        ensures
            walk.remaining() == limit_of(limit),
            walk.pending() == if at_head && traversal is Some {
                walk_pending(traversal->0, *repo)
            } else {
                Seq::empty()
            },
    {
        let remaining: Option<u64> = match limit {
            Some(k) => Some(
                if k < 0 {
                    0u64
                } else {
                    k as u64
                },
            ),
            None => None,
        };
        let walk = if at_head {
            traversal
        } else {
            None
        };
        CommitWalk { repo, walk, remaining }
    }

    /// Starts a walk at `HEAD` that emits at most `limit` commits.
    ///
    /// Where `HEAD` cannot be resolved or the walk cannot start, nothing is
    /// pending.
    pub fn start(repo: &'a git2::Repository, limit: Option<i64>) -> (walk: Self)
        ensures
            walk.remaining() == limit_of(limit),
    {
        let mut traversal = new_walk(repo);
        let at_head = match &mut traversal {
            Some(walk) => push_head(walk),
            None => false,
        };
        Self::over(repo, traversal, at_head, limit)
    }

    /// The next commit of the walk, if the limit admits one and one is left.
    ///
    /// An identifier whose commit cannot be read is passed over. An error of
    /// the traversal itself ends the walk.
    pub fn next_commit(&mut self) -> (next: Option<Commit>)
        ensures
            Self::stepped(*old(self), *final(self), next),
    {
        match self.remaining {
            Some(k) => {
                if k == 0 {
                    return None;
                }
            },
            None => {},
        }
        loop
            invariant
                !old(self).spent(),
                self.remaining() == old(self).remaining(),
                found(self.pending()) == found(old(self).pending()),
            decreases self.pending().len(),
        {
            let repo = self.repo;
            let step = match &mut self.walk {
                Some(walk) => walk_next(walk, repo),
                None => None,
            };
            match step {
                Some(Ok(read)) => {
                    let read = match read {
                        Some(record) => Some(Commit::new(record)),
                        None => None,
                    };
                    let (remaining, emit) = let_through(self.remaining, read);
                    self.remaining = remaining;
                    match emit {
                        Some(commit) => {
                            return Some(commit);
                        },
                        None => {},
                    }
                },
                Some(Err(_)) => {
                    // The traversal reports an error: it may do so at every
                    // further step, so the walk ends here.
                    self.walk = None;
                    return None;
                },
                None => {
                    self.walk = None;
                    return None;
                },
            }
        }
    }

    /// All commits that the walk still emits, in order: the commits found
    /// among the pending entries, as far as the limit admits them.
    ///
    /// The walk stops at the limit; what it has not visited then is still
    /// pending.
    pub fn collect(&mut self) -> (commits: Vec<Commit>)
        ensures
            commits@.map_values(|commit: Commit| commit@) == emitted(
                old(self).pending(),
                old(self).remaining(),
            ),
            found(old(self).pending()) == commits@.map_values(|commit: Commit| commit@) + found(
                final(self).pending(),
            ),
            final(self).remaining() == left_of(old(self).remaining(), commits@.len()),
            final(self).spent() || final(self).pending().len() == 0,
    {
        let mut commits: Vec<Commit> = Vec::new();
        assert(commits@.map_values(|commit: Commit| commit@) =~= Seq::empty());
        assert(Seq::<CommitView>::empty() + found(self.pending()) =~= found(self.pending()));
        loop
            invariant_except_break
                found(old(self).pending()) == commits@.map_values(|commit: Commit| commit@)
                    + found(self.pending()),
                self.remaining() == left_of(old(self).remaining(), commits@.len()),
                old(self).remaining() is Some ==> commits@.len() <= old(self).remaining()->0,
            ensures
                commits@.map_values(|commit: Commit| commit@) == emitted(
                    old(self).pending(),
                    old(self).remaining(),
                ),
                found(old(self).pending()) == commits@.map_values(|commit: Commit| commit@)
                    + found(self.pending()),
                self.remaining() == left_of(old(self).remaining(), commits@.len()),
                self.spent() || self.pending().len() == 0,
            decreases found(self.pending()).len(),
        {
            let ghost so_far = commits@.map_values(|commit: Commit| commit@);
            let ghost before = *self;
            match self.next_commit() {
                Some(commit) => {
                    commits.push(commit);
                    assert(commits@.map_values(|commit: Commit| commit@) =~= so_far.push(
                        commit@,
                    ));
                    assert(so_far.push(commit@) + found(self.pending()) =~= so_far + (
                    seq![commit@] + found(self.pending())));
                },
                None => {
                    proof {
                        let all = found(old(self).pending());
                        if before.spent() {
                            assert(so_far.len() == old(self).remaining()->0);
                            assert(all.take(so_far.len() as int) =~= so_far);
                        } else {
                            assert(so_far + Seq::<CommitView>::empty() =~= so_far);
                        }
                    }
                    break ;
                },
            }
        }
        commits
    }
}

} // verus!
