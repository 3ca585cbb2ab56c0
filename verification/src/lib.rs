//! Discovery of Python interpreters and construction of virtual environments.
//!
//! The crate models the resolution pipeline of a Python project manager:
//! a textual request is parsed into a structured form, candidate
//! interpreters are enumerated from precedence-ordered sources, probed
//! metadata is matched against the request and against `requires-python`
//! constraints, and the winning interpreter is materialized into a
//! virtual environment directory.

pub mod constraints;
pub mod discovery;
pub mod pin;
pub mod python_version;
pub mod request;
pub mod strutil;
pub mod venv;
pub mod version;

use vstd::prelude::*;

verus! {

/// A Python version component fits the marker range when it is at most `u8::MAX`.
pub open spec fn fits_marker(n: u64) -> bool {
    n <= 255
}

} // verus!
