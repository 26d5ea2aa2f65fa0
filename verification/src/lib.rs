//! Git-flow style branch lifecycles and coordinated semantic-version bumps.
//!
//! The crate holds the decisions of the tool: how the next version is
//! resolved, which branch and tag names are used, and in which order the
//! steps of each operation ask the repository to act. Everything that
//! touches the repository, the file system or the terminal is asked for
//! through [`flow::Request`] values and answered with [`flow::Reply`] values,
//! so each operation is a resumable state machine whose transitions are
//! verified. What holds of the operations whatever they are answered is
//! stated in [`flow::laws`], against the model of a repository in
//! [`repository`].

pub mod cleanup;
pub mod commands;
pub mod config;
pub mod dispatch;
pub mod exit_stack;
pub mod flow;
pub mod git;
pub mod object_kind;
pub mod pargit;
pub mod project_types;
pub mod release;
pub mod repository;
pub mod text;
pub mod version;
pub mod version_file;
pub mod views;
