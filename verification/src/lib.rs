//! Output options for a renderer of differences between two values, with
//! the colours and styles they are made of.

pub mod config;
pub mod laws;
pub mod style;
pub mod text;

pub use crate::config::{Config, DiffStyle};
pub use crate::style::{Color, Style};
