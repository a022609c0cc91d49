//! A transparent process launcher.
//!
//! The launcher locates a sibling binary named `uv` in its own directory,
//! hands it the full argument vector unchanged, and terminates with the
//! target's exit status. It parses nothing, configures nothing and keeps no
//! state: it is a pure relay around three decisions, each of which lives
//! here with its contract.
//!
//! * [`locator`] derives the target's path from the launcher's own location
//!   and decides what a best-effort existence probe means.
//! * [`driver`] forwards the argument vector and maps the target's exit
//!   status, or a failure, to the launcher's own exit code.
//! * [`error`] names the ways a launch can fail and renders each as the one
//!   diagnostic line the launcher ever prints.
//!
//! The process work itself, querying the executable's path, probing the
//! file system and spawning or replacing the process image, happens outside
//! this crate; every value that crosses back in is plain data, so every
//! decision made on it is verified.

pub mod driver;
pub mod error;
pub mod locator;
