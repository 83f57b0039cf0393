//! A git repository as a graph of vertices for a schema-driven query engine.
//!
//! The repository is the root vertex; its `commits`, `branches` and `tags`
//! edges lead to the other vertex kinds, each with scalar properties and, for
//! branches and tags, a `commit` edge of their own.
//!
//! Everything that reads the repository goes through the small functions of
//! [`backend`], whose contracts are assumed; the rest is proved.

pub mod adapter;
pub mod backend;
pub mod date;
pub mod edges;
pub mod naming;
pub mod neighbors;
pub mod object_id;
pub mod presets;
pub mod properties;
pub mod query_input;
pub mod schema;
pub mod tags;
pub mod text;
pub mod types;
pub mod value;
pub mod vertex;

pub use adapter::GitAdapter;
pub use neighbors::Neighbors;
pub use object_id::ObjectId;
pub use types::{Branch, BranchRecord, Commit, CommitRecord, RepositoryInfo, Tag};
pub use value::Value;
pub use vertex::Vertex;
