use vstd::prelude::*;

verus! {

/// A frame number of the simulation.
pub type Frame = u64;

/// The seconds since the Unix epoch, by the system clock (std's `SystemTime::now` measured from `UNIX_EPOCH`
/// with `duration_since`), or `None` when the clock reads a time before the epoch.
/// Trusted: nothing is stated of the value, which depends on the clock.
#[verifier::external_body]
fn unix_now_secs() -> (r: Option<u64>) {
    match std::time::SystemTime::now().duration_since(std::time::UNIX_EPOCH) {
        Ok(d) => Some(d.as_secs()),
        Err(_) => None,
    }
}

/// The current frame of the simulation and the time at which it began.
#[derive(Clone, Debug)]
pub struct TimeFrame {
    frame: Frame,
    timestamp: u64,
}

impl TimeFrame {
    pub closed spec fn spec_frame(self) -> Frame {
        self.frame
    }

    pub closed spec fn spec_timestamp(self) -> u64 {
        self.timestamp
    }

    pub fn new(frame: Frame, timestamp: u64) -> (r: Self)
        ensures
            r.spec_frame() == frame,
            r.spec_timestamp() == timestamp,
    {
        Self { frame, timestamp }
    }

    /// Advances to the next frame, stamped with the current time of the system clock; when the clock reads a
    /// time before the Unix epoch, the frame keeps its previous timestamp.
    pub fn tick(&mut self)
        requires
            old(self).spec_frame() < u64::MAX,
        ensures
            final(self).spec_frame() == old(self).spec_frame() + 1,
    {
        let now = match unix_now_secs() {
            Some(now) => now,
            None => self.timestamp,
        };
        self.tick_at(now);
    }

    /// Advances to the next frame, stamped with the time `now` (in seconds since the Unix epoch).
    pub fn tick_at(&mut self, now: u64)
        requires
            old(self).spec_frame() < u64::MAX,
        ensures
            final(self).spec_frame() == old(self).spec_frame() + 1,
            final(self).spec_timestamp() == now,
    {
        self.frame = self.frame + 1;
        self.timestamp = now;
    }

    pub fn frame(&self) -> (r: Frame)
        ensures
            r == self.spec_frame(),
    {
        self.frame
    }
}

} // verus!
