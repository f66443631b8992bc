//! The shapes of what the tracker's GraphQL interface sends and takes.

pub mod structs;
