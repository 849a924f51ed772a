//! A per-frame GPU work scheduler (render graph) for an explicitly
//! synchronized graphics API, with the synchronization logic verified.
//!
//! The library sequences a caller-declared list of rendering and compute
//! passes against a fixed-latency GPU, pipelining `FRAMES_IN_FLIGHT` frames.
//! It owns the mapping from logical resource handles to physical resources,
//! diffs each pass's declared resource uses against the recorded resource
//! state to synthesize the minimal batch of barriers, derives rendering-scope
//! attachment descriptors from declared pass outputs, and drives the
//! per-frame-slot lifecycle. The device, the presentation surface and the
//! window system are collaborators: the surrounding program performs their
//! calls and feeds the outcomes (an acquired image, a staleness report) back
//! into the scheduler, whose decisions are verified here.

use vstd::prelude::*;

pub mod entity;
pub mod graph;
pub mod pass;
pub mod resource;
pub mod sparse_set;
pub mod storage;
pub mod streaming;
pub mod sync;

verus! {

/// Number of frames whose CPU recording and GPU execution may overlap.
/// This is the modulus for every per-frame index computation.
pub const FRAMES_IN_FLIGHT: usize = 2;

} // verus!
