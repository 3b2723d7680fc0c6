//! A typed graph over the dependency tree of a project, enriched with
//! repository metadata, security advisories and unsafe-code statistics.
//!
//! The graph is read through the four operations of [`adapter`]: resolving
//! the vertices that a query starts from, the properties of vertices, their
//! neighbours along an edge, and their narrowing to a type. The dependency
//! structure comes from [`index`], which checks a snapshot once and answers
//! lookups from then on. What needs the network or the file system stays
//! outside: the adapter says which question is to be asked, and makes the
//! vertices of the answer.

pub mod adapter;
pub mod advisory;
pub mod cargo_dirs;
pub mod client;
pub mod edge;
pub mod geiger;
pub mod index;
pub mod laws;
pub mod neighbors;
pub mod package;
pub mod parameters;
pub mod property;
pub mod repository;
pub mod text;
pub mod text_map;
pub mod value;
pub mod vertex;
