use vstd::prelude::*;

verus! {

/// The root of the graph: the repository that a query runs against.
///
/// Its view is its name.
#[derive(Debug, Clone, PartialEq, Eq)]
pub struct RepositoryInfo {
    name: String,
}

impl View for RepositoryInfo {
    type V = Seq<char>;

    closed spec fn view(&self) -> Seq<char> {
        self.name@
    }
}

impl RepositoryInfo {
    pub fn new(name: String) -> (repository: Self)
        ensures
            repository@ == name@,
    {
        RepositoryInfo { name }
    }

    pub fn name(&self) -> (name: &str)
        ensures
            name@ == self@,
    {
        self.name.as_str()
    }
}

} // verus!
