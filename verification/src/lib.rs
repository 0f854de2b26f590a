//! A minimal interactive 3D function plotter's core: sampling a user-supplied
//! parametric function into an ordered point buffer.

pub mod vector;
