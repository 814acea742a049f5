//! The decode worker's state machine.
//!
//! One worker exists per playback session.  The real worker is a background
//! thread that alternates outside work (pulling packets, decoding, writing
//! samples, sleeping on the pause wake primitive) with decisions about what
//! to do next.  Every decision is made here, by `Worker::step`: the loop that
//! runs the worker feeds it an [`Event`] describing what just happened, and
//! performs the [`Action`] the machine hands back.  The machine itself — which
//! event leads to which phase, when the position advances, when a session
//! counts as finished — is verified in full against [`step_spec`].
//!
//! Supersession uses a generation counter: every new session the facade
//! starts bumps the live generation, a worker remembers the generation it was
//! born with, and exits as soon as the two differ.

use vstd::prelude::*;

verus! {

/// Where the worker stands in its loop.
#[derive(Clone, Copy, PartialEq, Eq, Debug, Structural)]
pub enum Phase {
    /// At the top of the loop, about to observe the shared controls.
    Idle,
    /// Paused: blocked on the wake primitive until the pause flag clears.
    WaitingWake,
    /// Asked the reader for the next packet.
    WaitingPacket,
    /// Asked the decoder to decode the packet just pulled.
    WaitingDecode,
    /// Asked for the output sink to be opened with the observed signal spec.
    WaitingSink,
    /// Asked for the decoded block to be written to the sink.
    WaitingWrite,
    /// Left the loop; waiting for buffered audio to flush before finishing.
    Draining,
    /// Done.  The session's `finished` flag may now be set; absorbing.
    Finished,
}

/// What just happened outside; the input of one step.
#[derive(Clone, Copy, PartialEq, Eq, Debug, Structural)]
pub enum Event {
    /// A snapshot of the shared controls, taken at the top of the loop.
    Observe { live_generation: u64, paused: bool, seek_to: Option<u64> },
    /// The wake primitive fired while paused; a fresh snapshot comes along.
    Woken { live_generation: u64, paused: bool },
    /// The reader produced a packet.  `now_ms` is a monotonic clock reading,
    /// used to rate-limit position updates to one per second.
    Packet { track_id: u32, ts_secs: u64, now_ms: u64 },
    /// The reader hit end of stream or a fatal read error.
    StreamEnd,
    /// The packet decoded successfully.
    Decoded,
    /// The packet failed to decode: non-fatal, the loop moves on.
    DecodeFailed,
    /// The decoder reported an unrecoverable stream error.
    FatalError,
    /// The output sink opened successfully.
    SinkReady,
    /// The output sink could not be opened: fatal to this session.
    SinkFailed,
    /// The decoded block was written (the write blocks on ring-buffer
    /// backpressure, which is what paces decoding to playback speed).
    Written,
    /// The flush delay elapsed: buffered audio has audibly finished.
    Drained,
}

/// What the loop must do before feeding the next event.
#[derive(Clone, Copy, PartialEq, Eq, Debug, Structural)]
pub enum Action {
    /// Nothing external; observe or wait and feed the next event.
    Proceed,
    /// Suspend the hardware stream, then block on the wake primitive.
    PauseSink,
    /// Resume (reopen) the hardware stream after a pause.
    ResumeSink,
    /// Ask the decoder to seek to this many seconds; failure is ignored and
    /// playback continues from wherever the decoder stands.
    SeekTo(u64),
    /// Pull the next packet from the reader.
    PullPacket,
    /// Decode the packet just pulled.
    DecodePacket,
    /// Open the output sink with the signal spec of the first decoded block.
    OpenSink,
    /// Write the decoded block to the sink.
    WriteBlock,
    /// Flush: wait long enough for already-queued audio to play out, then
    /// report `Drained`.  Only after that may `finished` be set.
    Flush,
}

/// The decode worker's state: its phase plus the few facts it carries
/// between loop iterations.
#[derive(Clone, Copy, PartialEq, Eq, Debug, Structural)]
pub struct Worker {
    /// Where the worker stands in its loop.
    pub phase: Phase,
    /// The id of the container track being played; packets from other
    /// embedded tracks are skipped.
    pub track_id: u32,
    /// The generation this worker was born with; when the live generation
    /// moves past it the worker has been superseded and must exit.
    pub generation: u64,
    /// Whether the output sink has been opened (it opens lazily, on the
    /// first successfully decoded block).
    pub sink_open: bool,
    /// Clock reading at the last position update, in milliseconds.
    pub last_update_ms: u64,
    /// The position the worker last published, in whole seconds.
    pub position: u64,
}

/// Whether a packet clocked at `now_ms` is due to publish a position update:
/// at most one update per second, to keep contention off the shared state.
pub open spec fn update_due(last_update_ms: u64, now_ms: u64) -> bool {
    now_ms >= last_update_ms && now_ms - last_update_ms >= 1000
}

/// The transition relation of the decode worker, one loop decision per call:
/// given the worker's state and the event that just happened, the state it
/// moves to and the action the loop must perform.  Events that cannot occur
/// in the current phase are ignored.
pub open spec fn step_spec(w: Worker, e: Event) -> (Worker, Action) {
    match w.phase {
        Phase::Idle => match e {
            Event::Observe { live_generation, paused, seek_to } => {
                if live_generation != w.generation {
                    (Worker { phase: Phase::Draining, ..w }, Action::Flush)
                } else if paused {
                    (
                        Worker { phase: Phase::WaitingWake, ..w },
                        if w.sink_open {
                            Action::PauseSink
                        } else {
                            Action::Proceed
                        },
                    )
                } else if seek_to is Some {
                    (w, Action::SeekTo(seek_to->0))
                } else {
                    (Worker { phase: Phase::WaitingPacket, ..w }, Action::PullPacket)
                }
            },
            _ => (w, Action::Proceed),
        },
        Phase::WaitingWake => match e {
            Event::Woken { live_generation, paused } => {
                if live_generation != w.generation {
                    (Worker { phase: Phase::Draining, ..w }, Action::Flush)
                } else if paused {
                    (w, Action::Proceed)
                } else {
                    (
                        Worker { phase: Phase::Idle, ..w },
                        if w.sink_open {
                            Action::ResumeSink
                        } else {
                            Action::Proceed
                        },
                    )
                }
            },
            _ => (w, Action::Proceed),
        },
        Phase::WaitingPacket => match e {
            Event::Packet { track_id, ts_secs, now_ms } => {
                if track_id != w.track_id {
                    (Worker { phase: Phase::Idle, ..w }, Action::Proceed)
                } else if update_due(w.last_update_ms, now_ms) {
                    (
                        Worker {
                            phase: Phase::WaitingDecode,
                            position: ts_secs,
                            last_update_ms: now_ms,
                            ..w
                        },
                        Action::DecodePacket,
                    )
                } else {
                    (Worker { phase: Phase::WaitingDecode, ..w }, Action::DecodePacket)
                }
            },
            Event::StreamEnd => (Worker { phase: Phase::Draining, ..w }, Action::Flush),
            _ => (w, Action::Proceed),
        },
        Phase::WaitingDecode => match e {
            Event::Decoded => {
                if w.sink_open {
                    (Worker { phase: Phase::WaitingWrite, ..w }, Action::WriteBlock)
                } else {
                    (Worker { phase: Phase::WaitingSink, ..w }, Action::OpenSink)
                }
            },
            Event::DecodeFailed => (Worker { phase: Phase::Idle, ..w }, Action::Proceed),
            Event::FatalError => (Worker { phase: Phase::Draining, ..w }, Action::Flush),
            _ => (w, Action::Proceed),
        },
        Phase::WaitingSink => match e {
            Event::SinkReady => (
                Worker { phase: Phase::WaitingWrite, sink_open: true, ..w },
                Action::WriteBlock,
            ),
            Event::SinkFailed => (Worker { phase: Phase::Draining, ..w }, Action::Flush),
            _ => (w, Action::Proceed),
        },
        Phase::WaitingWrite => match e {
            Event::Written => (Worker { phase: Phase::Idle, ..w }, Action::Proceed),
            _ => (w, Action::Proceed),
        },
        Phase::Draining => match e {
            Event::Drained => (Worker { phase: Phase::Finished, ..w }, Action::Proceed),
            _ => (w, Action::Proceed),
        },
        Phase::Finished => (w, Action::Proceed),
    }
}

impl Worker {
    /// A session counts as finished exactly when the worker has drained and
    /// exited; this is the signal the facade's `track_finished` reports.
    pub open spec fn spec_finished(self) -> bool {
        self.phase is Finished
    }

    /// A retired worker has left its loop for good: it is flushing buffered
    /// audio or already finished, and (see `lemma_retired_stays_retired`)
    /// will never pull, decode or write again.
    pub open spec fn retired(self) -> bool {
        self.phase is Draining || self.phase is Finished
    }

    /// The state a worker starts in: top of the loop, sink not yet open, no
    /// position published, born under `generation` for container track
    /// `track_id`.
    pub open spec fn initial(track_id: u32, generation: u64) -> Worker {
        Worker {
            phase: Phase::Idle,
            track_id,
            generation,
            sink_open: false,
            last_update_ms: 0,
            position: 0,
        }
    }

    /// Creates the worker state for a fresh session.
    pub fn new(track_id: u32, generation: u64) -> (w: Worker)
        ensures
            w == Worker::initial(track_id, generation),
    {
        Worker {
            phase: Phase::Idle,
            track_id,
            generation,
            sink_open: false,
            last_update_ms: 0,
            position: 0,
        }
    }

    /// Runs one decision of the worker loop; the result is exactly what the
    /// transition relation [`step_spec`] prescribes.
    pub fn step(&self, e: &Event) -> (r: (Worker, Action))
        ensures
            r == step_spec(*self, *e),
    {
        match self.phase {
            Phase::Idle => match e {
                Event::Observe { live_generation, paused, seek_to } => {
                    if *live_generation != self.generation {
                        (Worker { phase: Phase::Draining, ..*self }, Action::Flush)
                    } else if *paused {
                        let act = if self.sink_open {
                            Action::PauseSink
                        } else {
                            Action::Proceed
                        };
                        (Worker { phase: Phase::WaitingWake, ..*self }, act)
                    } else if let Some(t) = seek_to {
                        (*self, Action::SeekTo(*t))
                    } else {
                        (Worker { phase: Phase::WaitingPacket, ..*self }, Action::PullPacket)
                    }
                },
                _ => (*self, Action::Proceed),
            },
            Phase::WaitingWake => match e {
                Event::Woken { live_generation, paused } => {
                    if *live_generation != self.generation {
                        (Worker { phase: Phase::Draining, ..*self }, Action::Flush)
                    } else if *paused {
                        (*self, Action::Proceed)
                    } else {
                        let act = if self.sink_open {
                            Action::ResumeSink
                        } else {
                            Action::Proceed
                        };
                        (Worker { phase: Phase::Idle, ..*self }, act)
                    }
                },
                _ => (*self, Action::Proceed),
            },
            Phase::WaitingPacket => match e {
                Event::Packet { track_id, ts_secs, now_ms } => {
                    if *track_id != self.track_id {
                        (Worker { phase: Phase::Idle, ..*self }, Action::Proceed)
                    } else if *now_ms >= self.last_update_ms && *now_ms - self.last_update_ms
                        >= 1000 {
                        (
                            Worker {
                                phase: Phase::WaitingDecode,
                                position: *ts_secs,
                                last_update_ms: *now_ms,
                                ..*self
                            },
                            Action::DecodePacket,
                        )
                    } else {
                        (Worker { phase: Phase::WaitingDecode, ..*self }, Action::DecodePacket)
                    }
                },
                Event::StreamEnd => (Worker { phase: Phase::Draining, ..*self }, Action::Flush),
                _ => (*self, Action::Proceed),
            },
            Phase::WaitingDecode => match e {
                Event::Decoded => {
                    if self.sink_open {
                        (Worker { phase: Phase::WaitingWrite, ..*self }, Action::WriteBlock)
                    } else {
                        (Worker { phase: Phase::WaitingSink, ..*self }, Action::OpenSink)
                    }
                },
                Event::DecodeFailed => (Worker { phase: Phase::Idle, ..*self }, Action::Proceed),
                Event::FatalError => (Worker { phase: Phase::Draining, ..*self }, Action::Flush),
                _ => (*self, Action::Proceed),
            },
            Phase::WaitingSink => match e {
                Event::SinkReady => (
                    Worker { phase: Phase::WaitingWrite, sink_open: true, ..*self },
                    Action::WriteBlock,
                ),
                Event::SinkFailed => (Worker { phase: Phase::Draining, ..*self }, Action::Flush),
                _ => (*self, Action::Proceed),
            },
            Phase::WaitingWrite => match e {
                Event::Written => (Worker { phase: Phase::Idle, ..*self }, Action::Proceed),
                _ => (*self, Action::Proceed),
            },
            Phase::Draining => match e {
                Event::Drained => (Worker { phase: Phase::Finished, ..*self }, Action::Proceed),
                _ => (*self, Action::Proceed),
            },
            Phase::Finished => (*self, Action::Proceed),
        }
    }

    /// Whether this worker's session counts as finished; the loop mirrors
    /// this onto the session's `finished` flag.
    pub fn is_finished(&self) -> (b: bool)
        ensures
            b == self.spec_finished(),
    {
        match self.phase {
            Phase::Finished => true,
            _ => false,
        }
    }

    /// The phase the worker stands in.
    pub fn phase(&self) -> (p: Phase)
        ensures
            p == self.phase,
    {
        self.phase
    }

    /// The position the worker last published, in whole seconds.
    pub fn position(&self) -> (p: u64)
        ensures
            p == self.position,
    {
        self.position
    }
}

/// A worker that observes it has been superseded — the live generation no
/// longer matches its own — immediately leaves its loop: it moves to
/// `Draining` with a flush as its only remaining action, so no audio of the
/// old session is written once a new session has been installed.
pub proof fn lemma_superseded_worker_retires(w: Worker, e: Event)
    requires
        (w.phase is Idle && (e matches Event::Observe { live_generation, .. }
            && live_generation != w.generation)) || (w.phase is WaitingWake && (e matches
        Event::Woken { live_generation, .. } && live_generation != w.generation)),
    ensures
        step_spec(w, e).0.retired(),
        step_spec(w, e).1 == Action::Flush,
{
}

/// A retired worker stays retired and never again pulls a packet, decodes,
/// opens the sink or writes a block: after the flush it can only report
/// itself finished.  Together with `lemma_superseded_worker_retires` this is
/// why a superseded session cannot overlap the new one's audio.
pub proof fn lemma_retired_stays_retired(w: Worker, e: Event)
    requires
        w.retired(),
    ensures
        step_spec(w, e).0.retired(),
        step_spec(w, e).1 == Action::Proceed || step_spec(w, e).1 == Action::Flush,
{
}

/// The worker a whole sequence of events drives the machine to, first event
/// first.
pub open spec fn run_spec(w: Worker, es: Seq<Event>) -> Worker
    decreases es.len(),
{
    if es.len() == 0 {
        w
    } else {
        run_spec(step_spec(w, es[0]).0, es.skip(1))
    }
}

/// A retired worker stays retired over any whole sequence of events, and no
/// step of it writes a block: the full-trace form of
/// `lemma_retired_stays_retired`.
pub proof fn lemma_retired_forever(w: Worker, es: Seq<Event>)
    requires
        w.retired(),
    ensures
        run_spec(w, es).retired(),
        forall|i: int|
            0 <= i < es.len() ==> step_spec(run_spec(w, es.take(i)), es[i]).1 != Action::WriteBlock,
    decreases es.len(),
{
    if es.len() > 0 {
        let w1 = step_spec(w, es[0]).0;
        lemma_retired_stays_retired(w, es[0]);
        lemma_retired_forever(w1, es.skip(1));
        assert(es.take(0) =~= Seq::<Event>::empty());
        assert forall|i: int|
            0 <= i < es.len() implies step_spec(run_spec(w, es.take(i)), es[i]).1
            != Action::WriteBlock by {
            if i > 0 {
                lemma_run_take_shift(w, es, i);
                assert(es.skip(1)[i - 1] == es[i]);
            }
        }
    }
}

/// Running the first `i` events equals one step and then the next `i - 1`.
proof fn lemma_run_take_shift(w: Worker, es: Seq<Event>, i: int)
    requires
        1 <= i <= es.len(),
    ensures
        run_spec(w, es.take(i)) == run_spec(step_spec(w, es[0]).0, es.skip(1).take(i - 1)),
{
    assert(es.take(i)[0] == es[0]);
    assert(es.take(i).skip(1) =~= es.skip(1).take(i - 1));
}

/// The published position changes only when a packet of the played track
/// arrives and a position update is due.  In particular a paused worker
/// (blocked in `WaitingWake`) never moves the position, and resuming does
/// not reset it: pausing freezes progress exactly where it was.
pub proof fn lemma_position_moves_only_on_packet(w: Worker, e: Event)
    ensures
        step_spec(w, e).0.position != w.position ==> w.phase is WaitingPacket && (e matches
        Event::Packet { track_id, now_ms, .. } && track_id == w.track_id && update_due(
            w.last_update_ms,
            now_ms,
        )),
{
}

/// A session is reported finished exactly once its worker has drained: the
/// `Finished` phase is entered only from `Draining`, after the flush delay,
/// and never left.  So `track_finished` stays false while the worker is
/// still producing audio.
pub proof fn lemma_finished_only_after_drain(w: Worker, e: Event)
    ensures
        step_spec(w, e).0.spec_finished() <==> (w.spec_finished() || (w.phase is Draining
            && e is Drained)),
{
}

} // verus!
