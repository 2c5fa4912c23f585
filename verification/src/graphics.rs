//! What the picture of the console is shown in.

pub mod opengl;
