//! Integer decisions of a small ray-traced background renderer: how tall an
//! image of a given width and aspect ratio is, and how a scaled colour
//! channel becomes an 8-bit pixel channel.

pub mod camera;
pub mod pixel;
