//! An interactive package-manager front end: a main menu dispatching to
//! install / list / remove / update actions, a parser for the package
//! manager's list output, and the selection logic for the prompts.
//!
//! Everything that decides or computes lives here, verified; the terminal
//! prompts and the subprocess invocations themselves are driven by the
//! surrounding binary.

pub mod commands;
pub mod menu;
pub mod messages;
pub mod parser;
