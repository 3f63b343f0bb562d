//! Host-side core of a runtime binding to a speech-to-text engine that is
//! shipped as a platform-specific shared library.
//!
//! This crate holds everything about the binding that can be stated and
//! checked as plain logic: the structured error model, translation of native
//! status codes and diagnostic stacks into errors, validation of builder
//! configuration before any native call, gating of audio input, the audio
//! file extension fallback rules, and models of the handle-lifecycle and
//! native-buffer protocols that the surrounding foreign-function layer
//! follows.  The foreign-function layer itself (dynamic loading, symbol
//! resolution, raw pointer marshaling) is unsafe code and lives outside this
//! crate; it hands plain values in and takes plain values back.

pub mod audio_path;
pub mod builder;
pub mod engine;
pub mod error;
pub mod lifecycle;
pub mod status;
pub mod text;

pub use builder::LeopardBuilder;
pub use error::LeopardError;
pub use error::LeopardErrorStatus;
pub use status::PvStatus;

use vstd::prelude::*;

verus! {

} // verus!
