//! The guest's side of the shared folder.

pub mod attr;
pub mod codec;
pub mod inode;
pub mod laws;
pub mod model;
pub mod operations;
pub mod protocol;
pub mod session;
