//! The entities that the graph is made of.

pub mod branch;
pub mod commit;
pub mod repository;
pub mod tag;

pub use branch::{Branch, BranchRecord};
pub use commit::{Commit, CommitRecord, CommitView};
pub use repository::RepositoryInfo;
pub use tag::{Tag, TagView};
