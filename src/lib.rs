//! Loading of the client configuration from environment values, construction
//! of an authenticated octocrab client, and the decisions of one run that lists
//! the commits of a repository.

pub mod env;
pub mod github;
pub mod runner;
