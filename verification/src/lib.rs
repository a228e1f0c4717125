//! Frame-lifecycle synchronization for a ring of presentation back buffers.
//!
//! A CPU thread records rendering work one frame at a time while an
//! asynchronous execution engine drains earlier frames. This crate holds the
//! bookkeeping that keeps the two sides safe with respect to each other: a
//! monotonic completion fence ([`fence::FrameFence`]) and a pacer
//! ([`pacer::FramePacer`]) that hands out per-frame resource sets only once
//! their previous use on the engine timeline is known to be finished.
//!
//! The crate decides; it performs no waiting and issues no device calls. The
//! host performs the waits and submissions its outcomes ask for and reports
//! observed completion values back.

pub mod fence;
pub mod host;
pub mod pacer;
