//! The parts of the client that deal with one kind of resource each.

pub mod albums;
