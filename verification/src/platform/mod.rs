//! The system media controls of each platform.
//!
//! Each adapter here holds what its platform's controls need to decide, and
//! answers with the calls to make; the calls themselves are made by the
//! platform drivers around the library.
pub mod linux;
pub mod macos;
pub mod noop;
pub mod windows;

use vstd::prelude::*;

verus! {

/// Why a call on the media controls failed.
#[derive(Debug)]
pub struct PlatformError {
    pub message: String,
}

} // verus!
