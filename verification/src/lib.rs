//! The conversation core of an interactive terminal client for a
//! tool-calling language-model backend.

pub mod content;
pub mod error;
pub mod json;
pub mod prompt;
pub mod provider;
pub mod render;
pub mod session;
pub mod text;
pub mod tool;
