//! Verified core of a free-look mesh viewer with a two-pass renderer.

pub mod controller;
pub mod driver;
pub mod input;
pub mod layout;
pub mod model;
pub mod targets;
