//! Verified core of an SSH connectivity probe.
//!
//! The library builds the argument list for one invocation of the system
//! `ssh` client and classifies what the child process produced into a
//! success message or a descriptive failure. Spawning the process itself
//! is I/O and stays with the caller; everything that decides something is
//! verified here.

pub mod invocation;
pub mod outcome;
pub mod request;
pub mod text;

pub use invocation::build_ssh_args;
pub use invocation::ssh_program;
pub use invocation::DEFAULT_PORT;
pub use invocation::DEFAULT_TIMEOUT_SECS;
pub use outcome::classify_outcome;
pub use outcome::respond;
pub use outcome::SpawnOutcome;
pub use outcome::SshError;
pub use request::TestConnectionRequest;
pub use request::TestConnectionResponse;
pub use text::dec_string;
pub use text::trim;
