//! The window that shows the screen.

use vstd::prelude::*;

verus! {

/// A window: its title and its size in pixels.
#[derive(Debug)]
pub struct GlWindow {
    pub title: String,
    pub width: usize,
    pub height: usize,
}

} // verus!
