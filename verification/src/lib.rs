//! A shared folder and a screen for a virtual machine.
//!
//! `fuse` is the guest's side of the shared folder: it answers the kernel's file system requests
//! by asking the host, one remote call at a time. `host` is the host's side of the screen: the
//! surfaces that frames are drawn to and shown from, and the input events that go back.
//!
//! Neither does input or output. Each operation says what to do next and is handed what came of
//! it.

pub mod fuse;
pub mod host;
