//! Discovers the update source of installed plugin packages, decides whether a
//! newer release should be fetched, and plans the installation that replaces a
//! package directory while keeping a backup and the user's configuration.
pub mod text;
pub mod error;
pub mod source;
pub mod install;
pub mod manifest;
pub mod outcome;
pub mod release;
pub mod compat;
pub mod modsite;
pub mod update;
pub mod transaction;
