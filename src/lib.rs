use vstd::prelude::*;

pub mod bridge;
pub mod engine;
pub mod error;
pub mod host;
pub mod names;
pub mod namespace;
pub mod scene;
pub mod script;
