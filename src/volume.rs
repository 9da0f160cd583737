use std::sync::atomic::{AtomicU8, Ordering};
use std::sync::Arc;
use vstd::prelude::*;

verus! {

/// The loudest level: samples pass through at unity gain.
pub const MAX_VOLUME: u8 = 100;

/// A requested level, clamped into `0..=MAX_VOLUME`.
pub open spec fn clamped(level: int) -> int {
    if level > MAX_VOLUME as int {
        MAX_VOLUME as int
    } else {
        level
    }
}

/// Clamps a requested level into `0..=MAX_VOLUME`.
pub fn clamp_volume(level: u8) -> (r: u8)
    ensures
        r as int == clamped(level as int),
{
    if level > MAX_VOLUME {
        MAX_VOLUME
    } else {
        level
    }
}

/// The master volume, as the control side holds it: the level it last
/// stored, and the shared cell that the output callback reads through a
/// `VolumeReader`. Reads and writes of the cell are single atomic
/// operations, so neither side ever waits for the other.
pub struct Volume {
    level: u8,
    shared: Arc<AtomicU8>,
}

impl Volume {
    #[verifier::type_invariant]
    closed spec fn wf(&self) -> bool {
        self.level <= MAX_VOLUME
    }

    /// The level last stored.
    pub closed spec fn level(&self) -> u8 {
        self.level
    }

    /// A new shared volume, starting muted.
    pub fn new() -> (r: Volume)
        ensures
            r.level() == 0,
    {
        Volume { level: 0, shared: Arc::new(AtomicU8::new(0)) }
    }

    /// A handle for the output callback, reading the same shared cell.
    pub fn reader(&self) -> (r: VolumeReader) {
        VolumeReader { shared: self.shared.clone() }
    }

    /// Stores `level`, clamped into `0..=MAX_VOLUME`, and returns the level
    /// stored.
    pub fn set(&mut self, level: u8) -> (r: u8)
        ensures
            r as int == clamped(level as int),
            final(self).level() == r,
    {
        let stored = clamp_volume(level);
        self.shared.store(stored, Ordering::Relaxed);
        self.level = stored;
        stored
    }

    /// The level last stored.
    pub fn get(&self) -> (r: u8)
        ensures
            r == self.level(),
            r <= MAX_VOLUME,
    {
        proof {
            use_type_invariant(self);
        }
        self.level
    }
}

/// The output callback's handle on the master volume.
pub struct VolumeReader {
    shared: Arc<AtomicU8>,
}

impl VolumeReader {
    /// The level in the shared cell. Whatever the control side stored last,
    /// the result is a valid level.
    pub fn get(&self) -> (r: u8)
        ensures
            r <= MAX_VOLUME,
    {
        clamp_volume(self.shared.load(Ordering::Relaxed))
    }
}

} // verus!
