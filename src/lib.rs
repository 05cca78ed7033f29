//! Per-session voice capture: routes transport events into a capture state,
//! keeps the audio of one chosen participant, and encodes it as a WAV file.
use vstd::prelude::*;

pub mod capture;
pub mod latency;
pub mod naming;
pub mod presence;
pub mod registry;
pub mod wave;

verus! {

} // verus!
