//! Verified core of a component-persistence engine: a key codec, a partition
//! namer, and a synchronization engine that decides, for each cycle, which
//! objects to load, save or remove from a key-value store, without ever
//! re-saving a value it just loaded and without duplicating objects whose
//! records are spread over several partitions.

pub mod config;
pub mod engine;
pub mod keys;
pub mod laws;
pub mod naming;
