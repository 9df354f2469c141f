//! Core of a desktop package manager: the package catalog model, the
//! search filter over it, and the decision rules for install status and
//! install/remove/update actions. The GUI shell, icon fetching and the
//! actual process spawning live outside this library.

pub mod app;
pub mod command;
pub mod package;
pub mod search;
