use crate::text::{copy_opt_text, opt_text};
use vstd::prelude::*;

verus! {

/// What the store holds of one branch reference: its short name, absent where
/// the reference cannot report one.
#[derive(Debug, Clone, PartialEq, Eq)]
pub struct BranchRecord {
    pub name: Option<String>,
}

impl View for BranchRecord {
    type V = Option<Seq<char>>;

    open spec fn view(&self) -> Option<Seq<char>> {
        opt_text(self.name)
    }
}

/// A branch vertex. Its view is its name, if it has one.
///
/// The vertex does not remember where the branch points: the `commit` edge
/// looks the branch up again whenever it is followed.
#[derive(Debug, Clone, PartialEq, Eq)]
pub struct Branch {
    branch: BranchRecord,
}

impl View for Branch {
    type V = Option<Seq<char>>;

    closed spec fn view(&self) -> Option<Seq<char>> {
        self.branch@
    }
}

/// What an unnamed branch is called when it is shown.
pub open spec fn unnamed() -> Seq<char> {
    "<unnamed>"@
}

impl Branch {
    pub fn new(branch: BranchRecord) -> (vertex: Self)
        ensures
            vertex@ == branch@,
    {
        Branch { branch }
    }

    pub fn inner(&self) -> (branch: &BranchRecord)
        ensures
            branch@ == self@,
    {
        &self.branch
    }

    /// The name to show for this branch: its own, or `<unnamed>`.
    pub fn display_name(&self) -> (shown: String)
        ensures
            shown@ == match self@ {
                Some(name) => name,
                None => unnamed(),
            },
    {
        match copy_opt_text(&self.branch.name) {
            Some(name) => name,
            None => "<unnamed>".to_owned(),
        }
    }
}

} // verus!
