//! A fixed terminal layout: the screen is cut into columns and bands, each
//! filled with a flat colour, with a key hint on wide screens.

pub mod cut;
pub mod geometry;
pub mod layout;
pub mod render;
pub mod session;
