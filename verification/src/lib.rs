//! Source-code metrics over syntax trees: scope detection, per-scope
//! statistics and their aggregation for five languages.

pub mod checker;
pub mod concurrent_files;
pub mod ci;
pub mod diff;
pub mod extremes;
pub mod function;
pub mod getter;
pub mod git;
pub mod langs;
pub mod languages;
pub mod metrics;
pub mod node;
pub mod output;
pub mod preproc;
pub mod spaces;
pub mod sums;
pub mod tools;
