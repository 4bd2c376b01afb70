//! Reconciliation of podcast feeds against a local directory of episode files.
//!
//! The library decides which episodes of a feed are already present, which are
//! missing or stale, and in which order the work of fetching, transcoding and
//! stamping them is handed to the caller. It performs no input or output of its
//! own: the caller carries out each requested action and reports how it ended.

pub mod command;
pub mod config;
pub mod error;
pub mod feed;
pub mod local;
pub mod reconcile;
pub mod run;
pub mod sanitize;
