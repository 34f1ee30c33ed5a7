//! The tone-and-timing surface that playback drives.
//!
//! Playback needs exactly three operations from its host: switch the tone
//! on, switch it off, and wait a number of milliseconds. The
//! [`MorsePlayer`] trait captures them, together with a ghost history of
//! every operation performed, so that contracts can state the exact
//! sequence of tone activity a call produces. [`Recorder`] is an
//! implementation that only records the history; a host replays the
//! recorded events on its real hardware.

use vstd::prelude::*;

verus! {

/// One operation performed at the tone-and-timing surface.
#[derive(PartialEq, Eq, Structural, Copy, Clone, Debug)]
pub enum Event {
    /// The tone output was switched on.
    ToneOn,
    /// The tone output was switched off.
    ToneOff,
    /// Playback held for this many milliseconds.
    Wait(u32),
}

/// A tone output together with a blocking millisecond delay.
///
/// Each method appends exactly one [`Event`] to the abstract history, so a
/// caller's contract can pin down the whole sequence of operations it
/// performs.
pub trait MorsePlayer {
    /// The sequence of operations performed on this player so far.
    spec fn history(&self) -> Seq<Event>;

    /// Switch the tone output on.
    fn tone_on(&mut self)
        ensures
            final(self).history() == old(self).history().push(Event::ToneOn),
    ;

    /// Switch the tone output off.
    fn tone_off(&mut self)
        ensures
            final(self).history() == old(self).history().push(Event::ToneOff),
    ;

    /// Hold for `ms` milliseconds, leaving the tone output as it is.
    fn wait_ms(&mut self, ms: u32)
        ensures
            final(self).history() == old(self).history().push(Event::Wait(ms)),
    ;
}

/// A player that performs nothing and keeps the event list instead.
///
/// Its history is exactly the recorded vector, so a host can run a
/// playback call against a `Recorder` and then perform the events on real
/// hardware, and a test can compare the vector against the expected
/// tone activity.
pub struct Recorder {
    /// The events recorded so far, oldest first.
    pub events: Vec<Event>,
}

impl Recorder {
    /// An empty recorder.
    pub fn new() -> (r: Recorder)
        ensures
            r.history() == Seq::<Event>::empty(),
    {
        Recorder { events: Vec::new() }
    }
}

impl MorsePlayer for Recorder {
    open spec fn history(&self) -> Seq<Event> {
        self.events@
    }

    fn tone_on(&mut self) {
        self.events.push(Event::ToneOn);
    }

    fn tone_off(&mut self) {
        self.events.push(Event::ToneOff);
    }

    fn wait_ms(&mut self, ms: u32) {
        self.events.push(Event::Wait(ms));
    }
}

} // verus!
