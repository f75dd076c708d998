//! Builds the argument vector that the `azureauth` helper process receives
//! for a request to acquire or to clear a cached token.

pub mod command;
pub mod laws;
pub mod translator;
