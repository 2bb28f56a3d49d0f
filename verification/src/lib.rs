//! Errors of a cover tree over a point cloud: what can go wrong while the tree
//! is loading, working or saving, and how a failure of a lower layer is carried
//! upward without losing what it was.

pub mod errors;
pub mod foreign;
pub mod laws;
pub mod parsing;
pub mod raw_io;
