//! Verified core of a shell-texturing renderer.
//!
//! The crate holds what a host program decides between window events and
//! graphics calls: when a frame may be drawn and with which parameters, how
//! the render target follows the window's size, how vertex and uniform data
//! are laid out, and which fragments each fur shell keeps, stated and
//! computed over exact fractions.

pub mod bindings;
pub mod failure;
pub mod frame;
pub mod layout;
pub mod mesh;
pub mod noise;
pub mod ratio;
pub mod rotation;
pub mod shell;
pub mod target;
pub mod texture;
pub mod wide;
