//! Line counting over a project's source files: which files count, how many
//! lines each holds under a blank-line policy, and the totals overall and per
//! extension.

pub mod aggregate;
pub mod colorizer;
pub mod config;
pub mod counter;
pub mod extension;
pub mod lines;
pub mod output_adapters;
pub mod select;
