//! Transactional deployment of a database snapshot to a single remote host.
//!
//! The library decides; a driver performs. [`deploy::Deploy`] is the state
//! machine of one deploy attempt: it names the step to perform next, takes
//! the report of how that step went, and ends in an [`deploy::Outcome`].
//! [`model`] states what the protocol guarantees of the remote files.
//! [`clock`], [`tag`] and [`plan`] name the files of an attempt, [`config`]
//! checks the settings, [`report`] words the outcome, and [`transfer`] and
//! [`command`] serve the plain uploads and downloads and the menu around them.

pub mod clock;
pub mod command;
pub mod config;
pub mod deploy;
pub mod model;
pub mod plan;
pub mod report;
pub mod tag;
pub mod text;
pub mod transfer;
