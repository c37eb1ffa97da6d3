//! Dependency map of a source tree: which files import which, and where each
//! file sits on a two-dimensional layout of the resulting graph.

pub mod file;
pub mod scanner;
pub mod text;
pub mod syntax;
pub mod resolver;
pub mod graph;
pub mod camera;
pub mod descriptor;
pub mod layout;
pub mod state;
pub mod cursor;
