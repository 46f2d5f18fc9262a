//! Cross-reference indexing core: identities, signatures, and the graph
//! entries that describe every declaration and use in a compilation unit.

pub mod project;
pub mod text;
pub mod vname;
pub mod uri;
pub mod rules;
pub mod samples;
pub mod entity;
pub mod signature;
pub mod docs;
pub mod emit;
pub mod indexer;
pub mod marked;
pub mod laws;
pub mod kzip;
