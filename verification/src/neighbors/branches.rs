//! The `branches` edge: the local branches.

use crate::backend::{
    branches_in, branches_pending, cursor_scope, next_branch, BranchCursor, BranchScope,
};
use crate::types::Branch;
use vstd::prelude::*;

verus! {

/// The branches among `entries`, in order: the entries that were read, each
/// by its name.
pub open spec fn readable(entries: Seq<Option<Option<Seq<char>>>>) -> Seq<Option<Seq<char>>>
    decreases entries.len(),
{
    if entries.len() == 0 {
        Seq::empty()
    } else {
        match entries[0] {
            Some(branch) => seq![branch] + readable(entries.skip(1)),
            None => readable(entries.skip(1)),
        }
    }
}

/// The local branches of the repository, as far as they have not been
/// handed out.
pub struct BranchList<'a> {
    cursor: Option<BranchCursor<'a>>,
}

impl<'a> BranchList<'a> {
    /// The entries that the list has yet to read: a branch by its name, or
    /// nothing where a reference yields no usable handle.
    pub closed spec fn pending(&self) -> Seq<Option<Option<Seq<char>>>> {
        match self.cursor {
            Some(cursor) => branches_pending(cursor),
            None => Seq::empty(),
        }
    }

    /// The scope of the branches that the list holds; none for a list that
    /// could not be opened or is at its end, which holds no branches.
    pub closed spec fn scope(&self) -> Option<BranchScope> {
        match self.cursor {
            Some(cursor) => Some(cursor_scope(cursor)),
            None => None,
        }
    }

    /// What one call of `next_branch` does: the branches handed out are the
    /// readable entries, one after the other, and nothing else. The scope
    /// of the list stays what it was.
    pub open spec fn stepped(before: Self, after: Self, next: Option<Branch>) -> bool {
        &&& after.scope() is Some ==> after.scope() == before.scope()
        &&& match next {
            Some(branch) => readable(before.pending()) == seq![branch@] + readable(
                after.pending(),
            ),
            None => readable(before.pending()).len() == 0 && after.pending().len() == 0,
        }
    }

    /// Opens the list of local branches: branches that follow a remote are
    /// not in it. Where the repository cannot list them, nothing is pending.
    pub fn open(repo: &'a git2::Repository) -> (list: Self)
        ensures
            list.scope() is Some ==> list.scope() == Some(BranchScope::Local),
            list.scope() is None ==> list.pending().len() == 0,
    {
        BranchList { cursor: branches_in(repo, BranchScope::Local) }
    }

    /// The next local branch, if one is left. An entry that cannot be read
    /// is passed over.
    pub fn next_branch(&mut self) -> (next: Option<Branch>)
        ensures
            Self::stepped(*old(self), *final(self), next),
    {
        loop
            invariant
                readable(self.pending()) == readable(old(self).pending()),
                self.scope() is Some ==> self.scope() == old(self).scope(),
            decreases self.pending().len(),
        {
            let ghost before = self.pending();
            let entry = match &mut self.cursor {
                Some(cursor) => next_branch(cursor),
                None => None,
            };
            match entry {
                Some(Some(record)) => {
                    return Some(Branch::new(record));
                },
                Some(None) => {},
                None => {
                    self.cursor = None;
                    return None;
                },
            }
        }
    }

    /// All branches that the list still holds, in order: the readable
    /// entries, and nothing else.
    pub fn collect(&mut self) -> (branches: Vec<Branch>)
        ensures
            branches@.map_values(|branch: Branch| branch@) == readable(old(self).pending()),
            final(self).pending().len() == 0,
    {
        let mut branches: Vec<Branch> = Vec::new();
        assert(branches@.map_values(|branch: Branch| branch@) =~= Seq::empty());
        loop
            invariant_except_break
                readable(old(self).pending()) == branches@.map_values(|branch: Branch| branch@)
                    + readable(self.pending()),
            ensures
                branches@.map_values(|branch: Branch| branch@) == readable(old(self).pending()),
                self.pending().len() == 0,
            decreases readable(self.pending()).len(),
        {
            let ghost so_far = branches@.map_values(|branch: Branch| branch@);
            match self.next_branch() {
                Some(branch) => {
                    branches.push(branch);
                    assert(branches@.map_values(|branch: Branch| branch@) =~= so_far.push(
                        branch@,
                    ));
                    assert(so_far.push(branch@) + readable(self.pending()) =~= so_far + (
                    seq![branch@] + readable(self.pending())));
                },
                None => {
                    assert(so_far + Seq::empty() =~= so_far);
                    break ;
                },
            }
        }
        branches
    }
}

} // verus!
