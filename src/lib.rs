//! Capture of live audio into uncompressed PCM files: the stream settings and
//! the header they determine, the single-slot sink that hands captured buffers
//! to an encoder, the stop signals, and the controller that sequences each
//! recorded segment.
use vstd::prelude::*;

pub mod controller;
pub mod format;
pub mod signals;
pub mod sink;

verus! {

} // verus!
