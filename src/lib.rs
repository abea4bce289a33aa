//! Update detection and source synchronisation for packages of a community
//! package repository.
//!
//! - `fetch`: the repository's page addresses and what a response yields.
//! - `version`: the published version in a details page, and the comparison.
//! - `package`: a package as known locally.
//! - `sync`: checking a batch of packages and collecting the outdated ones.
//! - `cache`: the one path computation for package sources on disk.
//! - `builder`: commands of the version-control and build tools, and what
//!   their exit statuses mean.
//! - `config`: the user's settings.
//! - `select`: reading the user's answers.
//! - `install`: the install or update of one package as a state machine.

pub mod version;
pub mod package;
pub mod cache;
pub mod fetch;
pub mod builder;
pub mod config;
pub mod sync;
pub mod select;
pub mod install;
