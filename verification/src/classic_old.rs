//! A second model of the console, with one flat memory: the CPU works on
//! whole registers by name, and the picture and the palettes are modelled
//! too.

pub mod utils;
pub mod gb_types;
pub mod cpu;
