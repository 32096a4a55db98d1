//! Detection, validation and patching of the two assets that decide how the
//! game renders its glow: the game executable and the UHD texture atlas.
//!
//! Everything here works on plain values that the caller read from disk:
//! whether a file exists, its bytes or its length. The caller writes back
//! what the patch operations produce.

pub mod err;
pub mod classify;
pub mod patch;
pub mod status;
