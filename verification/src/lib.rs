//! Reporting on the version-controlled working directories beneath a root:
//! how a repository's path is displayed, what is said of each repository,
//! and how the lines of the report are aligned and joined.

pub mod args;
pub mod discovery;
pub mod emphasis;
pub mod info;
pub mod mapper;
pub mod outcome;
pub mod parser;
pub mod path_display;
pub mod permutation;
pub mod planner;
pub mod report;
pub mod repository;
pub mod text;
