use aquinas::controls::TransportControls;
use aquinas::player::{default_track, ContainerTrack, Track, PlaybackError, Player};
use aquinas::worker::{Action, Event, Phase, Worker};

fn track(path: &str, duration: Option<u64>) -> Track {
    Track { path: path.to_string(), duration }
}

#[test]
fn fresh_facade_reports_zero_of_zero() {
    let p = Player::new();
    assert_eq!(p.progress(), (0, 0, 0));
    assert!(!p.track_finished());
    assert!(!p.is_paused());
    assert!(p.last_played().is_none());
}

#[test]
fn play_installs_a_fresh_session() {
    let mut p = Player::new();
    let retired = p.play(Some(track("/music/a.ogg", Some(300))));
    assert!(retired.is_some());
    assert_eq!(p.generation(), 1);
    assert_eq!(p.progress(), (0, 0, 300));
    assert_eq!(p.last_played().unwrap().as_str(), "/music/a.ogg");
    assert!(!p.track_finished());
}

#[test]
fn play_unknown_duration_shows_zero_percent() {
    let mut p = Player::new();
    p.play(Some(track("/music/a.ogg", None)));
    p.store_position(17);
    assert_eq!(p.progress(), (0, 17, 0));
}

#[test]
fn progress_percent_is_exact() {
    let mut p = Player::new();
    p.play(Some(track("/music/a.ogg", Some(200))));
    p.store_position(50);
    assert_eq!(p.progress(), (25, 50, 200));
    p.store_position(199);
    assert_eq!(p.progress(), (99, 199, 200));
    p.store_position(200);
    assert_eq!(p.progress(), (100, 200, 200));
    p.store_position(900);
    assert_eq!(p.progress(), (100, 900, 200));
}

#[test]
fn pause_freezes_position_and_resume_keeps_it() {
    let mut p = Player::new();
    p.play(Some(track("/music/a.ogg", Some(100))));
    p.store_position(40);
    p.pause();
    assert!(p.is_paused());
    assert_eq!(p.progress().1, 40);
    // Resuming through play(None) clears only the pause flag.
    let retired = p.play(None);
    assert!(retired.is_none());
    assert!(!p.is_paused());
    assert_eq!(p.progress().1, 40);
    assert_eq!(p.generation(), 1);
}

#[test]
fn play_pause_toggles() {
    let mut p = Player::new();
    p.play(Some(track("/music/a.ogg", Some(100))));
    p.play_pause();
    assert!(p.is_paused());
    p.play_pause();
    assert!(!p.is_paused());
}

#[test]
fn seek_reports_target_immediately() {
    let mut p = Player::new();
    p.play(Some(track("/music/a.ogg", Some(100))));
    p.seek(42);
    assert_eq!(p.progress().1, 42);
    // The worker consumes the target exactly once.
    assert_eq!(p.take_seek(), Some(42));
    assert_eq!(p.take_seek(), None);
    assert_eq!(p.progress().1, 42);
}

#[test]
fn seek_delta_clamps_at_zero() {
    let mut p = Player::new();
    p.play(Some(track("/music/a.ogg", Some(100))));
    p.store_position(5);
    p.seek_delta(-1_000_000);
    assert_eq!(p.progress().1, 0);
    assert_eq!(p.take_seek(), Some(0));
}

#[test]
fn seek_delta_moves_both_ways() {
    let mut p = Player::new();
    p.play(Some(track("/music/a.ogg", Some(100))));
    p.store_position(30);
    p.seek_delta(5);
    assert_eq!(p.progress().1, 35);
    p.seek_delta(-2);
    assert_eq!(p.progress().1, 33);
    p.seek_delta(i64::MIN);
    assert_eq!(p.progress().1, 0);
}

#[test]
fn new_play_supersedes_the_old_session() {
    let mut p = Player::new();
    p.play(Some(track("/music/a.ogg", Some(100))));
    let w = Worker::new(7, p.generation());

    // The next play tears the session down synchronously: the retired
    // controls come back with the stop request already set.
    let retired = p.play(Some(track("/music/b.ogg", Some(50)))).unwrap();
    assert!(retired.is_stop_requested());
    assert_eq!(p.generation(), 2);

    // The old worker observes the new generation and retires without
    // writing anything.
    let (w, action) = w.step(&Event::Observe {
        live_generation: p.generation(),
        paused: false,
        seek_to: None,
    });
    assert_eq!(w.phase(), Phase::Draining);
    assert_eq!(action, Action::Flush);

    // After the flush delay it reports itself finished, and the old
    // session's controls record it.
    let (w, action) = w.step(&Event::Drained);
    assert_eq!(action, Action::Proceed);
    assert!(w.is_finished());
    let mut old_controls: TransportControls = retired;
    old_controls.mark_finished();
    assert!(old_controls.is_finished());

    // Nothing the retired worker sees can make it write again.
    let events = [
        Event::Observe { live_generation: 2, paused: false, seek_to: None },
        Event::Packet { track_id: 7, ts_secs: 3, now_ms: 5000 },
        Event::Decoded,
        Event::Written,
    ];
    let mut w = w;
    for e in events.iter() {
        let (next, action) = w.step(e);
        assert_ne!(action, Action::WriteBlock);
        assert!(next.is_finished());
        w = next;
    }
}

#[test]
fn worker_plays_a_track_through() {
    let mut p = Player::new();
    p.play(Some(track("/music/a.ogg", Some(2))));
    let w = Worker::new(3, p.generation());
    let live = p.generation();
    let observe = Event::Observe { live_generation: live, paused: false, seek_to: None };

    // First loop turn: pull, decode, open the sink lazily, write.
    let (w, a) = w.step(&observe);
    assert_eq!(a, Action::PullPacket);
    let (w, a) = w.step(&Event::Packet { track_id: 3, ts_secs: 1, now_ms: 1500 });
    assert_eq!(a, Action::DecodePacket);
    assert_eq!(w.position(), 1);
    p.store_position(w.position());
    assert_eq!(p.progress().1, 1);
    let (w, a) = w.step(&Event::Decoded);
    assert_eq!(a, Action::OpenSink);
    let (w, a) = w.step(&Event::SinkReady);
    assert_eq!(a, Action::WriteBlock);
    let (w, a) = w.step(&Event::Written);
    assert_eq!(a, Action::Proceed);
    assert_eq!(w.phase(), Phase::Idle);
    assert!(!w.is_finished());
    assert!(!p.track_finished());

    // End of stream: flush, then finished; only then does the facade see it.
    let (w, a) = w.step(&observe);
    assert_eq!(a, Action::PullPacket);
    let (w, a) = w.step(&Event::StreamEnd);
    assert_eq!(a, Action::Flush);
    assert!(!w.is_finished());
    let (w, _) = w.step(&Event::Drained);
    assert!(w.is_finished());
    p.mark_finished();
    assert!(p.track_finished());
}

#[test]
fn worker_position_updates_are_rate_limited() {
    let w = Worker::new(1, 0);
    let (w, _) = w.step(&Event::Observe { live_generation: 0, paused: false, seek_to: None });
    // 500 ms after start: too soon for the first update.
    let (w, _) = w.step(&Event::Packet { track_id: 1, ts_secs: 1, now_ms: 500 });
    assert_eq!(w.position(), 0);
    let (w, _) = w.step(&Event::DecodeFailed);
    let (w, _) = w.step(&Event::Observe { live_generation: 0, paused: false, seek_to: None });
    // Over a second in: the position is published.
    let (w, _) = w.step(&Event::Packet { track_id: 1, ts_secs: 2, now_ms: 1200 });
    assert_eq!(w.position(), 2);
    let (w, _) = w.step(&Event::DecodeFailed);
    let (w, _) = w.step(&Event::Observe { live_generation: 0, paused: false, seek_to: None });
    // 300 ms later: rate-limited, the position stays.
    let (w, _) = w.step(&Event::Packet { track_id: 1, ts_secs: 3, now_ms: 1500 });
    assert_eq!(w.position(), 2);
}

#[test]
fn worker_skips_packets_of_other_tracks() {
    let w = Worker::new(4, 0);
    let (w, _) = w.step(&Event::Observe { live_generation: 0, paused: false, seek_to: None });
    let (w, a) = w.step(&Event::Packet { track_id: 9, ts_secs: 50, now_ms: 9000 });
    assert_eq!(a, Action::Proceed);
    assert_eq!(w.phase(), Phase::Idle);
    assert_eq!(w.position(), 0);
}

#[test]
fn paused_worker_blocks_and_resumes_where_it_was() {
    let w = Worker::new(1, 0);
    // Reach a state with the sink open and a position published.
    let (w, _) = w.step(&Event::Observe { live_generation: 0, paused: false, seek_to: None });
    let (w, _) = w.step(&Event::Packet { track_id: 1, ts_secs: 5, now_ms: 2000 });
    let (w, _) = w.step(&Event::Decoded);
    let (w, _) = w.step(&Event::SinkReady);
    let (w, _) = w.step(&Event::Written);
    assert_eq!(w.position(), 5);

    // Pause observed: suspend the sink and block.
    let (w, a) = w.step(&Event::Observe { live_generation: 0, paused: true, seek_to: None });
    assert_eq!(a, Action::PauseSink);
    assert_eq!(w.phase(), Phase::WaitingWake);

    // A spurious wake while still paused keeps blocking; position frozen.
    let (w, a) = w.step(&Event::Woken { live_generation: 0, paused: true });
    assert_eq!(a, Action::Proceed);
    assert_eq!(w.phase(), Phase::WaitingWake);
    assert_eq!(w.position(), 5);

    // The real wake resumes the sink and the loop; the position is intact,
    // not reset to zero.
    let (w, a) = w.step(&Event::Woken { live_generation: 0, paused: false });
    assert_eq!(a, Action::ResumeSink);
    assert_eq!(w.phase(), Phase::Idle);
    assert_eq!(w.position(), 5);
}

#[test]
fn worker_consumes_seek_targets() {
    let w = Worker::new(1, 0);
    let (w, a) = w.step(&Event::Observe { live_generation: 0, paused: false, seek_to: Some(42) });
    assert_eq!(a, Action::SeekTo(42));
    assert_eq!(w.phase(), Phase::Idle);
}

#[test]
fn decode_errors_are_nonfatal_but_stream_errors_end_the_session() {
    let w = Worker::new(1, 0);
    let (w, _) = w.step(&Event::Observe { live_generation: 0, paused: false, seek_to: None });
    let (w, _) = w.step(&Event::Packet { track_id: 1, ts_secs: 0, now_ms: 0 });
    let (w, a) = w.step(&Event::DecodeFailed);
    assert_eq!(a, Action::Proceed);
    assert_eq!(w.phase(), Phase::Idle);

    let (w, _) = w.step(&Event::Observe { live_generation: 0, paused: false, seek_to: None });
    let (w, _) = w.step(&Event::Packet { track_id: 1, ts_secs: 0, now_ms: 0 });
    let (w, a) = w.step(&Event::FatalError);
    assert_eq!(a, Action::Flush);
    assert_eq!(w.phase(), Phase::Draining);
}

#[test]
fn sink_open_failure_ends_the_session() {
    let w = Worker::new(1, 0);
    let (w, _) = w.step(&Event::Observe { live_generation: 0, paused: false, seek_to: None });
    let (w, _) = w.step(&Event::Packet { track_id: 1, ts_secs: 0, now_ms: 0 });
    let (w, a) = w.step(&Event::Decoded);
    assert_eq!(a, Action::OpenSink);
    let (w, a) = w.step(&Event::SinkFailed);
    assert_eq!(a, Action::Flush);
    assert_eq!(w.phase(), Phase::Draining);
}

#[test]
fn default_track_picks_the_first_playable() {
    let tracks = vec![
        ContainerTrack { id: 10, playable: false },
        ContainerTrack { id: 11, playable: true },
        ContainerTrack { id: 12, playable: true },
    ];
    assert_eq!(default_track(&tracks), Ok(11));
}

#[test]
fn default_track_rejects_a_container_with_none() {
    let tracks = vec![
        ContainerTrack { id: 10, playable: false },
        ContainerTrack { id: 11, playable: false },
    ];
    assert_eq!(default_track(&tracks), Err(PlaybackError::NoPlayableTrack));
    assert_eq!(default_track(&Vec::new()), Err(PlaybackError::NoPlayableTrack));
}
