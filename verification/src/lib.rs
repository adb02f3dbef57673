//! Decision logic of `se`, a wrapper that drives the package manager of the
//! running distribution: how arguments are read, which shell command each
//! request becomes, how the configured package manager is stored and read
//! back, and how the first-run setup chooses one.
pub mod text;
pub mod config;
pub mod backends;
pub mod setup;
pub mod request;
pub mod plans;
pub mod paths;
pub mod lang;
pub mod laws;
