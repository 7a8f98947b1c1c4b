//! Host-platform resolution and a typed error taxonomy for a
//! developer-tooling CLI's self-update and remote-execution features.
//!
//! The platform resolver enumerates the supported OS/architecture/libc
//! combinations and derives the artifact-naming tag for each of three build
//! channels (CLI binary, headless server, web variant). The error taxonomy
//! gives every failure site a typed value to return instead of a raw
//! OS-level failure.

mod platform;
mod errors;

pub use platform::HostArch;
pub use platform::HostOs;
pub use platform::Platform;
pub use errors::launch_failure;
pub use errors::CodeError;
