//! What the sound of the console is made of.

pub mod pa_types;
