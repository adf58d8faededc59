//! Workflow automation for a terminal: command templates with declared
//! arguments, their validation, shell-safe resolution, ranking and usage
//! statistics, together with the application's preference model and the
//! plain data of its blocks, its command line and its themes.

pub mod block;
pub mod config;
pub mod files;
pub mod input;
pub mod names;
pub mod outside;
pub mod renderer;
pub mod settings;
pub mod state;
pub mod text;
pub mod time;
pub mod workflows;
