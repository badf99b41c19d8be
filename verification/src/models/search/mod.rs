//! Records as searches list them.

pub mod albums;
