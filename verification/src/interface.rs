//! What is shown of a ROM.

pub mod windows;
