//! The playback facade: the object the UI loop talks to.
//!
//! It owns the current session's transport controls and replaces them
//! wholesale when a new track starts; the retired controls are handed back
//! with a stop request already set, so the caller signals the old worker
//! *before* spawning the new one — that ordering is what keeps the two
//! sessions' audio from overlapping.  The methods that open a file and find
//! a playable track are outside work; the caller probes the container and
//! hands `play` the resulting [`Track`].

use vstd::prelude::*;

use crate::controls::TransportControls;

verus! {

/// Why a playback request failed during its synchronous open phase.  Anything
/// that happens after the worker starts is reported asynchronously through
/// `track_finished`, never as an error.
#[derive(Clone, Copy, PartialEq, Eq, Debug, Structural)]
pub enum PlaybackError {
    /// The file could not be opened or probed.
    FileOpen,
    /// The container holds no playable audio track.
    NoPlayableTrack,
}

/// One audio track inside a probed container, as the facade needs to see it.
#[derive(Clone, Copy, PartialEq, Eq, Debug, Structural)]
pub struct ContainerTrack {
    /// The container-level track id; packets carry it.
    pub id: u32,
    /// Whether a decoder exists for the track's codec.
    pub playable: bool,
}

/// The id of the first playable track of a container, if any.
pub open spec fn first_playable(s: Seq<ContainerTrack>) -> Option<u32>
    decreases s.len(),
{
    if s.len() == 0 {
        None
    } else if s[0].playable {
        Some(s[0].id)
    } else {
        first_playable(s.skip(1))
    }
}

/// Picks the track a new session will play: the first playable one in the
/// container.  A container without one is rejected before any worker is
/// spawned.
pub fn default_track(tracks: &Vec<ContainerTrack>) -> (r: Result<u32, PlaybackError>)
    ensures
        r == match first_playable(tracks@) {
            Some(id) => Ok::<u32, PlaybackError>(id),
            None => Err::<u32, PlaybackError>(PlaybackError::NoPlayableTrack),
        },
{
    let n = tracks.len();
    let mut i: usize = 0;
    proof {
        assert(tracks@.skip(0) =~= tracks@);
    }
    while i < n
        invariant
            i <= n,
            n == tracks@.len(),
            first_playable(tracks@) == first_playable(tracks@.skip(i as int)),
        decreases n - i,
    {
        let t = tracks[i];
        proof {
            assert(tracks@.skip(i as int)[0] == tracks@[i as int]);
            assert(tracks@.skip(i as int).skip(1) =~= tracks@.skip(i as int + 1));
        }
        if t.playable {
            return Ok(t.id);
        }
        i = i + 1;
    }
    proof {
        assert(tracks@.skip(n as int) =~= Seq::<ContainerTrack>::empty());
    }
    Err(PlaybackError::NoPlayableTrack)
}

/// What the synchronous open phase of `play` learned about the new track:
/// its path and its total duration in whole seconds, if the container
/// metadata gives one.
pub struct Track {
    /// Absolute path of the file; immutable once the session starts.
    pub path: String,
    /// Total duration in seconds; `None` when the container does not say.
    pub duration: Option<u64>,
}

/// The duration the facade stores for a track: zero stands for "unknown"
/// and is treated as such by `progress`, never divided by.
pub open spec fn stored_duration(d: Option<u64>) -> u64 {
    match d {
        Some(n) => n,
        None => 0,
    }
}

/// The percentage shown for a position within a duration: zero while the
/// duration is unknown, never a division by zero, capped at one hundred.
pub open spec fn percent_of(pos: u64, dur: u64) -> u64 {
    if dur == 0 {
        0
    } else if pos >= dur {
        100
    } else {
        (100 * (pos as int) / (dur as int)) as u64
    }
}

/// The playback facade.  One per application; owns the live session's
/// transport controls and the generation counter that retires old workers.
pub struct Player {
    /// Duration of the current track in seconds; zero while unknown.
    pub duration: u64,
    /// The most recent track handed to `play`, shown as "now playing" even
    /// while the track is still loading.
    pub last_played: Option<String>,
    /// The live session's transport controls.
    pub controls: TransportControls,
    /// Bumped once per new session; a worker born under an older value is
    /// superseded and exits.
    pub generation: u64,
}

impl Player {
    /// The state of a freshly constructed facade: no track, no session.
    pub open spec fn initial() -> Player {
        Player {
            duration: 0,
            last_played: None,
            controls: TransportControls::initial(),
            generation: 0,
        }
    }

    /// What `progress` reports: percentage, position and duration, with an
    /// unknown duration shown as zero percent of zero.
    pub open spec fn spec_progress(self) -> (u64, u64, u64) {
        (percent_of(self.controls.position, self.duration), self.controls.position, self.duration)
    }

    /// Creates a facade with no track ever played: progress reports zero of
    /// zero and no session exists yet.
    pub fn new() -> (p: Player)
        ensures
            p == Player::initial(),
    {
        Player {
            duration: 0,
            last_played: None,
            controls: TransportControls::new(),
            generation: 0,
        }
    }

    /// Starts or resumes playback.
    ///
    /// With `Some(track)` the current session, whatever its state, is torn
    /// down and a brand-new one is installed: fresh controls, the next
    /// generation, the track recorded as last played.  The retired controls
    /// are returned with their stop request set; the caller must deliver
    /// them to the old worker before it spawns the new one, so the old
    /// session stops producing audio first.
    ///
    /// With `None` the current session, if any, is resumed where it stands:
    /// only the pause flag clears, the position is untouched.
    pub fn play(&mut self, track: Option<Track>) -> (retired: Option<TransportControls>)
        requires
            track is Some ==> old(self).generation < u64::MAX,
        ensures
            match track {
                Some(t) => {
                    &&& *final(self) == (Player {
                        duration: stored_duration(t.duration),
                        last_played: Some(t.path),
                        controls: TransportControls::initial(),
                        generation: (old(self).generation + 1) as u64,
                    })
                    &&& retired == Some(
                        TransportControls { stop_requested: true, ..old(self).controls },
                    )
                },
                None => {
                    &&& *final(self) == (Player {
                        controls: TransportControls { paused: false, ..old(self).controls },
                        ..*old(self)
                    })
                    &&& retired is None
                },
            },
    {
        match track {
            Some(t) => {
                let mut outgoing = TransportControls::new();
                core::mem::swap(&mut outgoing, &mut self.controls);
                outgoing.request_stop();
                self.generation = self.generation + 1;
                self.duration = match t.duration {
                    Some(n) => n,
                    None => 0,
                };
                self.last_played = Some(t.path);
                Some(outgoing)
            },
            None => {
                self.controls.resume();
                None
            },
        }
    }

    /// Pauses the current session; the position freezes where it is.
    pub fn pause(&mut self)
        ensures
            *final(self) == (Player {
                controls: TransportControls { paused: true, ..old(self).controls },
                ..*old(self)
            }),
    {
        self.controls.pause();
    }

    /// Toggles between paused and playing; nothing else moves, so resuming
    /// never resets the position.
    pub fn play_pause(&mut self)
        ensures
            *final(self) == (Player {
                controls: TransportControls {
                    paused: !old(self).controls.paused,
                    ..old(self).controls
                },
                ..*old(self)
            }),
    {
        self.controls.toggle_paused();
    }

    /// Whether the current session is paused.
    pub fn is_paused(&self) -> (b: bool)
        ensures
            b == self.controls.paused,
    {
        self.controls.is_paused()
    }

    /// Whether the current session has fully drained; true marks the edge on
    /// which the UI auto-advances to the next track.
    pub fn track_finished(&self) -> (b: bool)
        ensures
            b == self.controls.finished,
    {
        self.controls.is_finished()
    }

    /// Seeks to `target` seconds: records the seek for the worker and moves
    /// the reported position there immediately, so the very next progress
    /// poll already reads `target`.
    pub fn seek(&mut self, target: u64)
        ensures
            *final(self) == (Player {
                controls: TransportControls {
                    position: target,
                    seek_to: Some(target),
                    ..old(self).controls
                },
                ..*old(self)
            }),
            final(self).spec_progress().1 == target,
    {
        self.controls.request_seek(target);
    }

    /// Seeks by a signed number of seconds relative to the reported
    /// position, clamped at zero — a large negative delta lands on zero and
    /// never underflows — and saturating at the top of the range.
    pub fn seek_delta(&mut self, delta: i64)
        ensures
            *final(self) == (Player {
                controls: TransportControls {
                    position: seek_delta_target(old(self).controls.position, delta),
                    seek_to: Some(seek_delta_target(old(self).controls.position, delta)),
                    ..old(self).controls
                },
                ..*old(self)
            }),
    {
        let pos = self.controls.position();
        let target: u64 = if delta >= 0 {
            pos.saturating_add(delta as u64)
        } else {
            let back: u64 = if delta == i64::MIN {
                9223372036854775808u64
            } else {
                (-delta) as u64
            };
            proof {
                assert(back == -(delta as int));
            }
            pos.saturating_sub(back)
        };
        self.seek(target);
    }

    /// Progress as the UI shows it: percentage, position in seconds and
    /// duration in seconds.  A fresh facade reports zero of zero, and an
    /// unknown duration is shown as zero percent, never divided by.
    pub fn progress(&self) -> (r: (u64, u64, u64))
        ensures
            r == self.spec_progress(),
    {
        let pos = self.controls.position();
        let dur = self.duration;
        let percent: u64 = if dur == 0 {
            0
        } else if pos >= dur {
            100
        } else {
            let wide: u128 = (100u128 * (pos as u128)) / (dur as u128);
            proof {
                assert(100 * (pos as int) / (dur as int) < 100) by (nonlinear_arith)
                    requires
                        0 < dur,
                        pos < dur,
                ;
            }
            wide as u64
        };
        (percent, pos, dur)
    }

    /// The most recent track handed to `play`, if any.
    pub fn last_played(&self) -> (r: Option<&String>)
        ensures
            match r {
                Some(p) => self.last_played matches Some(q) && p == q,
                None => self.last_played is None,
            },
    {
        self.last_played.as_ref()
    }

    /// The live session generation; a worker born under an older value has
    /// been superseded.
    pub fn generation(&self) -> (g: u64)
        ensures
            g == self.generation,
    {
        self.generation
    }

    /// Worker-side write: publishes the worker's position, in seconds, onto
    /// the shared controls.
    pub fn store_position(&mut self, seconds: u64)
        ensures
            *final(self) == (Player {
                controls: TransportControls { position: seconds, ..old(self).controls },
                ..*old(self)
            }),
    {
        self.controls.store_position(seconds);
    }

    /// Worker-side write: marks the session as fully drained.
    pub fn mark_finished(&mut self)
        ensures
            *final(self) == (Player {
                controls: TransportControls { finished: true, ..old(self).controls },
                ..*old(self)
            }),
    {
        self.controls.mark_finished();
    }

    /// Worker-side read: consumes the pending seek target, if any.
    pub fn take_seek(&mut self) -> (t: Option<u64>)
        ensures
            t == old(self).controls.seek_to,
            *final(self) == (Player {
                controls: TransportControls { seek_to: None, ..old(self).controls },
                ..*old(self)
            }),
    {
        self.controls.take_seek()
    }
}

/// The position a relative seek lands on: the signed delta applied to the
/// current position, clamped at zero below and saturating at the top.
pub open spec fn seek_delta_target(pos: u64, delta: i64) -> u64 {
    if pos + delta < 0 {
        0
    } else if pos + delta > u64::MAX {
        u64::MAX
    } else {
        (pos + delta) as u64
    }
}

} // verus!
