//! The core of a pseudo-terminal session manager.
//!
//! A session is a shell on a pseudo-terminal, known by an identifier. This crate holds what
//! the manager decides and keeps: the registry of live sessions, the plan of a new session,
//! what each operation hands to the operating system and what the caller is told once the
//! operating system has answered, and the reader pump that turns what is read from a
//! pseudo-terminal into the events of its session. It opens no pseudo-terminal and starts no
//! thread itself: the program around it does, on handles of its own, which the registry
//! carries as the session type `S`.
//!
//! - [`registry`]: the map from identifiers to sessions.
//! - [`control`]: create, write, resize and kill.
//! - [`pump`]: from reads to events.
//! - [`shell`]: the default shell of a host.
//! - [`ident`]: the shape of an identifier.
//! - [`error`]: the kinds of failure and their messages.
//! - [`lifecycle`]: what holds of sessions over a history of operations.

pub mod control;
pub mod error;
pub mod ident;
pub mod lifecycle;
pub mod pump;
pub mod registry;
pub mod shell;

pub use control::{
    plan_session, plan_session_as, pty_size, settle, terminal_create, terminal_kill,
    terminal_resize, terminal_write, CreateFailure, CreateStep, IoStep, PtySize, SessionPlan,
};
pub use error::TerminalError;
pub use pump::{Chunk, Pump, ReadOutcome, TerminalEvent, CHUNK_SIZE};
pub use registry::TerminalState;
pub use shell::{default_shell_command, Platform, ShellCommand};
