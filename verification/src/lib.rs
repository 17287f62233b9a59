//! The decisions of a dual-panel file manager, apart from everything that
//! touches the disk, a child process or the network.
//!
//! The heart of it is the engine that runs file operations in the
//! background: the events that a job sends while it works, the books of a
//! batch with its partial failures, cancellation, the steps of making and
//! unpacking archives, the choice of a transport for a remote transfer and
//! the staging of a transfer between two remote hosts, the resolution of
//! clashes at the destination, and the check of links that lead out of the
//! tree. Each job is a state machine: the caller does what a step asks for
//! and reports what came of it.
//!
//! Around the engine stand the workspace with its two panels and its
//! dialogs, the comparison of two files, the texts of the messenger bot,
//! and the formatting of sizes, permissions and widths.

// the engine
pub mod progress;
pub mod cancel;
pub mod batch;
pub mod copying;
pub mod local;
pub mod paste;
pub mod validate;
pub mod command;
pub mod archive;
pub mod archive_job;
pub mod transfer;
pub mod transfer_job;
pub mod staged_job;
pub mod tree_carry;

// the workspace
pub mod state;
pub mod listing;
pub mod panel;
pub mod workspace;
pub mod actions;
pub mod operations;
pub mod jobs;
pub mod navigate;
pub mod settings;
pub mod bars;

// the comparison of two files
pub mod diff;
pub mod diff_render;

// the messenger bot and the command line
pub mod bot;
pub mod tools;
pub mod markup;
pub mod message;
pub mod queue;
pub mod schedule;
pub mod random;
pub mod cli;

// texts
pub mod text;
pub mod format;
