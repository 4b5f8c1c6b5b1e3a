use beat_dance::beat_clock::{StageTrack, StageTrackPlayhead, MAX_PLAYBACK_MICROS};

fn playhead_at(bpm: u16, t: u64) -> StageTrackPlayhead {
    let track = StageTrack::new(bpm).unwrap();
    let mut p = StageTrackPlayhead::new();
    p.update(&track, t);
    p
}

#[test]
fn zero_tempo_is_rejected() {
    assert!(StageTrack::new(0).is_none());
    assert_eq!(StageTrack::new(120).unwrap().bpm, 120);
}

#[test]
fn new_playhead_is_zero() {
    let p = StageTrackPlayhead::default();
    assert_eq!(p.current_time(), 0);
    assert_eq!(p.last_note_beat(), 0);
    assert_eq!(p.next_note_beat(), 0);
    assert_eq!(p.last_note_time(), 0);
    assert_eq!(p.next_note_time(), 0);
    assert_eq!(p.current_note_beat(), 0);
    assert_eq!(p.current_note_time(), 0);
}

#[test]
fn half_beat_at_120_bpm_ties_to_next() {
    // 120 BPM: one beat every 500 ms; 250 ms is half way.
    let p = playhead_at(120, 250_000);
    assert_eq!(p.current_time(), 250_000);
    assert_eq!(p.last_note_beat(), 0);
    assert_eq!(p.next_note_beat(), 1);
    assert_eq!(p.last_note_time(), 0);
    assert_eq!(p.next_note_time(), 500_000);
    assert_eq!(p.current_note_beat(), 1);
    assert_eq!(p.current_note_time(), 500_000);
}

#[test]
fn nearer_preceding_beat_is_chosen() {
    let p = playhead_at(120, 1_100_000);
    assert_eq!(p.last_note_beat(), 2);
    assert_eq!(p.next_note_beat(), 3);
    assert_eq!(p.last_note_time(), 1_000_000);
    assert_eq!(p.next_note_time(), 1_500_000);
    assert_eq!(p.current_note_beat(), 2);
    assert_eq!(p.current_note_time(), 1_000_000);
}

#[test]
fn nearer_following_beat_is_chosen() {
    let p = playhead_at(120, 1_400_000);
    assert_eq!(p.current_note_beat(), 3);
    assert_eq!(p.current_note_time(), 1_500_000);
}

#[test]
fn exact_beat_has_zero_width() {
    let p = playhead_at(120, 1_500_000);
    assert_eq!(p.last_note_beat(), 3);
    assert_eq!(p.next_note_beat(), 3);
    assert_eq!(p.last_note_time(), 1_500_000);
    assert_eq!(p.next_note_time(), 1_500_000);
    assert_eq!(p.current_note_time(), 1_500_000);
}

#[test]
fn uneven_tempo_brackets_current_time() {
    // 7 BPM: beat 1 falls at 60/7 s = 8_571_428.57... us.
    let p = playhead_at(7, 5_000_000);
    assert_eq!(p.last_note_beat(), 0);
    assert_eq!(p.next_note_beat(), 1);
    assert_eq!(p.last_note_time(), 0);
    assert_eq!(p.next_note_time(), 8_571_429);
    assert_eq!(p.current_note_time(), 8_571_429);
    let q = playhead_at(7, 9_000_000);
    assert_eq!(q.last_note_time(), 8_571_428);
    assert_eq!(q.next_note_time(), 17_142_858);
    assert_eq!(q.current_note_beat(), 1);
}

#[test]
fn update_twice_gives_same_playhead() {
    let track = StageTrack::new(133).unwrap();
    let mut p = StageTrackPlayhead::new();
    p.update(&track, 987_654);
    let first = (p.current_note_beat(), p.current_note_time(), p.last_note_time(), p.next_note_time());
    p.update(&track, 987_654);
    let second = (p.current_note_beat(), p.current_note_time(), p.last_note_time(), p.next_note_time());
    assert_eq!(first, second);
    assert_eq!(p.current_time(), 987_654);
}

#[test]
fn quantization_brackets_many_times() {
    for bpm in [1u16, 60, 97, 120, 175, 65535] {
        for t in [0u64, 1, 499_999, 500_000, 123_456_789, 3_600_000_000] {
            let p = playhead_at(bpm, t);
            let scaled = t as u128 * bpm as u128;
            assert_eq!(p.last_note_beat() as u128, scaled / 60_000_000);
            assert!(p.next_note_beat() == p.last_note_beat() || p.next_note_beat() == p.last_note_beat() + 1);
            assert!(p.last_note_time() <= t && t <= p.next_note_time());
            let dl = t - p.last_note_time();
            let dn = p.next_note_time() - t;
            if dl < dn {
                assert_eq!(p.current_note_time(), p.last_note_time());
            } else {
                assert_eq!(p.current_note_time(), p.next_note_time());
            }
        }
    }
}

#[test]
fn latest_accepted_time() {
    let p = playhead_at(1, MAX_PLAYBACK_MICROS);
    assert!(p.last_note_time() <= MAX_PLAYBACK_MICROS);
    assert!(p.next_note_time() >= MAX_PLAYBACK_MICROS);
}
