//! Styled-text viewport rendering and navigation for a list of ranked stories.

pub mod app;
pub mod client;
pub mod error;
pub mod format;
pub mod models;
pub mod nav;
pub mod render;
pub mod term;
pub mod text;
pub mod theme;
pub mod time;
pub mod util;
pub mod viewport;
pub mod widths;
