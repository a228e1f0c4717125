use vstd::prelude::*;

verus! {

/// The host-engine plugin under which the frame pacer is installed. The
/// executable plugin behaviour — registering schedules, creating the device
/// and queue, inserting the pacer — belongs to the host adapter, which
/// carries the host engine's own traits on its copy of this type; the
/// library holds the bare marker so that signatures and tests can name it.
pub struct BevyDirectXPlugin;

/// Label for the host schedule stage in which the frame cycle's recording,
/// submission and presentation run, after the host's own update stages.
pub struct Render;

} // verus!
