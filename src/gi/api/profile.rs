//! Records of a site account and the game accounts linked to it.
pub mod info;
pub mod hoyo;
