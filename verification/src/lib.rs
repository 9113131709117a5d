//! An embedded, persistent key-value store behind a narrow, safe handle.
//!
//! The crate translates an open-ended set of named tuning options into a
//! validated engine configuration, models the contents of one open store as
//! a map from byte-string keys to byte-string values, and defines the
//! lifecycle and the exact outcome of every open, close, read, write,
//! destroy and repair operation on a handle, whose data operations are
//! serialized by a single reader/writer lock. The embedded engine's own
//! blocking I/O runs outside this crate and hands each reply back in.

use vstd::prelude::*;

pub mod config;
pub mod errors;
pub mod model;
pub mod store;

verus! {

/// Version identifier of this library's operation surface.
pub fn lxcode() -> (r: &'static str)
    ensures
        r@ == "vn1"@,
{
    "vn1"
}

} // verus!
