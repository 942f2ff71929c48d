//! Builds the tasks of a project from its own task configurations and from the
//! globally inherited ones: inheritance filters, `extends` chains, merge
//! strategies and the defaults that a finished task receives.

pub mod items;
pub mod merge;
pub mod id_map;
pub mod target;
pub mod paths;
pub mod config;
pub mod task;
pub mod error;
pub mod args;
pub mod inherit;
pub mod builder_spec;
pub mod builder;
pub mod task_build;
pub mod laws;
pub mod fixtures;
