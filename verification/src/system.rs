//! What the bridge takes from its surroundings: the environment and paths.

pub mod environment;
pub mod paths;

pub use environment::EnvironmentManager;
pub use paths::PathUtils;
