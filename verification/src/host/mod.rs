//! The host's side of the screen: frames that come from the virtual machine, and input that goes
//! to it.

pub mod capture;
pub mod display;
pub mod effects;
pub mod input;
pub mod laws;
pub mod view;
