use std::sync::atomic::AtomicU32;
use std::sync::atomic::Ordering;
use vstd::prelude::*;

verus! {

/// Counts the audio frames that the output stream has consumed. The count is
/// shared between the audio callback thread and the thread that fills the
/// sample buffer, so it lives in an atomic.
pub struct AudioClock {
    elapsed_samples: AtomicU32,
}

impl AudioClock {
    /// A clock that starts at zero elapsed samples.
    ///
    /// The count lives in an atomic that other threads advance, so no
    /// contract here can speak of its value.
    pub fn new() -> (clock: Self) {
        Self { elapsed_samples: AtomicU32::new(0) }
    }

    /// Advances the clock by one frame (wrapping on overflow, as
    /// `fetch_add` does).
    pub fn update(&self) {
        let _ = self.elapsed_samples.fetch_add(1, Ordering::Release);
    }

    /// The number of frames counted so far, as another thread may have
    /// left it at the time of the read.
    pub fn get_elapsed_samples(&self) -> (n: u32) {
        self.elapsed_samples.load(Ordering::Acquire)
    }
}

} // verus!
