use vstd::prelude::*;

pub mod text;
pub mod paths;
pub mod config;
pub mod provider;
pub mod formatter;
pub mod inject;
pub mod segment;
pub mod session;
pub mod models;
pub mod cli;
pub mod bench;
pub mod speech;
pub mod indicator;
pub mod audio;
pub mod daemon;
