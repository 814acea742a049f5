//! Transport controls: the state shared between the facade and one decode
//! worker for the lifetime of a single playback session.
//!
//! One instance exists per session.  The facade writes the pause flag, the
//! seek target and the stop request; the worker writes the position and the
//! finished flag.  The surrounding program mirrors this record onto its
//! thread-shared cells (atomics plus a wake primitive); every transition of
//! the record itself is verified here.

use vstd::prelude::*;

verus! {

/// Shared transport state for one playback session.
pub struct TransportControls {
    /// Elapsed seconds, written by the decode worker at most once per second,
    /// and optimistically by the facade on a seek.
    pub position: u64,
    /// True while playback is paused; the worker blocks while this holds.
    pub paused: bool,
    /// Pending seek target in seconds; set by the facade, consumed (reset to
    /// `None`) by the worker on its next loop iteration.
    pub seek_to: Option<u64>,
    /// Set exactly once, by the worker, when its session has fully drained.
    pub finished: bool,
    /// Set by the facade when this session is superseded; tells the worker to
    /// exit even while it is blocked on the pause wake primitive.
    pub stop_requested: bool,
}

impl TransportControls {
    /// The state a fresh session starts in.
    pub open spec fn initial() -> TransportControls {
        TransportControls {
            position: 0,
            paused: false,
            seek_to: None,
            finished: false,
            stop_requested: false,
        }
    }

    /// Creates the controls for a brand-new session: position zero, playing,
    /// no pending seek, not finished, not stopped.
    pub fn new() -> (c: TransportControls)
        ensures
            c == TransportControls::initial(),
    {
        TransportControls {
            position: 0,
            paused: false,
            seek_to: None,
            finished: false,
            stop_requested: false,
        }
    }

    /// Pauses playback.  Idempotent; touches nothing but the pause flag, so
    /// in particular the position is frozen exactly where it was.
    pub fn pause(&mut self)
        ensures
            *final(self) == (TransportControls { paused: true, ..*old(self) }),
    {
        self.paused = true;
    }

    /// Resumes playback.  Idempotent; the position is left exactly where it
    /// was, so resuming never restarts the track.
    pub fn resume(&mut self)
        ensures
            *final(self) == (TransportControls { paused: false, ..*old(self) }),
    {
        self.paused = false;
    }

    /// Toggles between paused and playing; everything else is untouched.
    pub fn toggle_paused(&mut self)
        ensures
            *final(self) == (TransportControls { paused: !old(self).paused, ..*old(self) }),
    {
        self.paused = !self.paused;
    }

    /// Requests a seek to `target` seconds and optimistically moves the
    /// position there, so a progress poll reports the target immediately,
    /// ahead of the worker actually re-seeking the decoder.
    pub fn request_seek(&mut self, target: u64)
        ensures
            *final(self) == (TransportControls {
                position: target,
                seek_to: Some(target),
                ..*old(self)
            }),
    {
        self.position = target;
        self.seek_to = Some(target);
    }

    /// Consumes the pending seek target, if any: the worker calls this once
    /// per loop iteration, and a target is acted on exactly once.
    pub fn take_seek(&mut self) -> (t: Option<u64>)
        ensures
            t == old(self).seek_to,
            *final(self) == (TransportControls { seek_to: None, ..*old(self) }),
    {
        let t = self.seek_to;
        self.seek_to = None;
        t
    }

    /// Stores the worker's current play position in whole seconds.
    pub fn store_position(&mut self, seconds: u64)
        ensures
            *final(self) == (TransportControls { position: seconds, ..*old(self) }),
    {
        self.position = seconds;
    }

    /// Marks the session as fully drained; the worker sets this exactly once,
    /// after flushing buffered audio, and it is never cleared.
    pub fn mark_finished(&mut self)
        ensures
            *final(self) == (TransportControls { finished: true, ..*old(self) }),
    {
        self.finished = true;
    }

    /// Asks the worker to exit; set when this session is superseded.
    pub fn request_stop(&mut self)
        ensures
            *final(self) == (TransportControls { stop_requested: true, ..*old(self) }),
    {
        self.stop_requested = true;
    }

    /// Current position in whole seconds.
    pub fn position(&self) -> (p: u64)
        ensures
            p == self.position,
    {
        self.position
    }

    /// Whether playback is currently paused.
    pub fn is_paused(&self) -> (b: bool)
        ensures
            b == self.paused,
    {
        self.paused
    }

    /// Whether the session has fully drained.
    pub fn is_finished(&self) -> (b: bool)
        ensures
            b == self.finished,
    {
        self.finished
    }

    /// Whether the facade has asked this session to stop.
    pub fn is_stop_requested(&self) -> (b: bool)
        ensures
            b == self.stop_requested,
    {
        self.stop_requested
    }
}

} // verus!
