//! Workspace management for isolated Chrome profiles: the settings model,
//! the environment list and its edits, profile naming, the path decisions
//! made around profile directories, and the Chrome command line.
pub mod text;
pub mod model;
pub mod settings;
pub mod clock;
pub mod naming;
pub mod environments;
pub mod paths;
pub mod launch;
pub mod laws;
