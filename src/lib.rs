//! An in-memory registry of network peers: an ordered list of peer records
//! that grows by appending and is read back as a copy.

pub mod peer;
pub mod registry;
pub mod laws;
