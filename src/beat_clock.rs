use vstd::prelude::*;

verus! {

/// Microseconds in one minute: the scale between a tempo in beats per minute
/// and the playback clock.
pub const MICROS_PER_MINUTE: u64 = 60_000_000;

/// Latest playback time, in microseconds, that the beat clock accepts: the
/// beat that follows any later time might not fit in a `u64`.
pub const MAX_PLAYBACK_MICROS: u64 = u64::MAX - MICROS_PER_MINUTE;

/// A musical stage: its tempo in beats per minute.
pub struct StageTrack {
    pub bpm: u16,
}

impl StageTrack {
    /// A track at `bpm` beats per minute; no track has a tempo of zero.
    pub fn new(bpm: u16) -> (r: Option<StageTrack>)
        ensures
            r.is_some() <==> bpm > 0,
            r matches Some(t) ==> t.bpm == bpm,
    {
        if bpm == 0 {
            None
        } else {
            Some(StageTrack { bpm })
        }
    }
}

/// Index of the last beat at or before `t` microseconds.
pub open spec fn beat_floor(t: nat, bpm: nat) -> nat {
    (t * bpm) / (MICROS_PER_MINUTE as nat)
}

/// Index of the first beat at or after `t` microseconds.
pub open spec fn beat_ceil(t: nat, bpm: nat) -> nat {
    if (t * bpm) % (MICROS_PER_MINUTE as nat) == 0 {
        beat_floor(t, bpm)
    } else {
        beat_floor(t, bpm) + 1
    }
}

/// Time of beat `b`, rounded down to a whole microsecond.
pub open spec fn beat_time_down(b: nat, bpm: nat) -> nat {
    (b * MICROS_PER_MINUTE as nat) / bpm
}

/// Time of beat `b`, rounded up to a whole microsecond.
pub open spec fn beat_time_up(b: nat, bpm: nat) -> nat {
    if (b * MICROS_PER_MINUTE as nat) % bpm == 0 {
        beat_time_down(b, bpm)
    } else {
        beat_time_down(b, bpm) + 1
    }
}

/// Distance between two instants.
pub open spec fn dist(a: nat, b: nat) -> nat {
    if a >= b {
        (a - b) as nat
    } else {
        (b - a) as nat
    }
}

/// The beat grid around one instant of playback.
pub struct BeatState {
    pub current_time: nat,
    pub last_note_beat: nat,
    pub next_note_beat: nat,
    pub last_note_time: nat,
    pub next_note_time: nat,
    pub current_note_beat: nat,
    pub current_note_time: nat,
}

/// Whether the preceding beat is strictly nearer to `t` than the following
/// one; on a tie the following beat is chosen.
pub open spec fn last_is_nearer(t: nat, last_time: nat, next_time: nat) -> bool {
    dist(t, last_time) < dist(t, next_time)
}

/// The beat grid at `t` microseconds of playback, at `bpm` beats per minute.
pub open spec fn beat_state(bpm: nat, t: nat) -> BeatState {
    let lb = beat_floor(t, bpm);
    let nb = beat_ceil(t, bpm);
    let lt = beat_time_down(lb, bpm);
    let nt = beat_time_up(nb, bpm);
    let pick_last = last_is_nearer(t, lt, nt);
    BeatState {
        current_time: t,
        last_note_beat: lb,
        next_note_beat: nb,
        last_note_time: lt,
        next_note_time: nt,
        current_note_beat: if pick_last { lb } else { nb },
        current_note_time: if pick_last { lt } else { nt },
    }
}


/// `x / d` rounded down and up bracket `x`.
proof fn lemma_div_bracket(x: nat, d: nat)
    requires
        d > 0,
    ensures
        (x / d) * d <= x,
        x < (x / d) * d + d,
        x % d == 0 ==> (x / d) * d == x,
        x % d != 0 ==> x < (x / d + 1) * d,
        x % d != 0 ==> (x / d + 1) * d < x + d,
{
    vstd::arithmetic::div_mod::lemma_fundamental_div_mod(x as int, d as int);
    vstd::arithmetic::div_mod::lemma_mod_pos_bound(x as int, d as int);
    assert((x / d + 1) * d == (x / d) * d + d) by (nonlinear_arith);
    assert(d * (x / d) == (x / d) * d) by (nonlinear_arith);
}

/// Beat quantisation: the preceding and following beats are the floor and
/// ceiling of the beat position, at most one apart, and their times bracket
/// the current time; on an exact beat both are that beat, at that time.
pub proof fn lemma_beat_quantization(bpm: nat, t: nat)
    requires
        0 < bpm <= u16::MAX,
    ensures
        beat_state(bpm, t).last_note_beat * MICROS_PER_MINUTE <= t * bpm,
        t * bpm <= beat_state(bpm, t).next_note_beat * MICROS_PER_MINUTE,
        beat_state(bpm, t).next_note_beat == beat_state(bpm, t).last_note_beat
            || beat_state(bpm, t).next_note_beat == beat_state(bpm, t).last_note_beat + 1,
        beat_state(bpm, t).last_note_time <= t <= beat_state(bpm, t).next_note_time,
        beat_state(bpm, t).next_note_beat == beat_state(bpm, t).last_note_beat
            ==> beat_state(bpm, t).last_note_time == t && beat_state(bpm, t).next_note_time == t,
        beat_state(bpm, t).next_note_time <= t + MICROS_PER_MINUTE,
        beat_state(bpm, t).next_note_beat <= t + 1,
{
    let m = MICROS_PER_MINUTE as nat;
    let s = beat_state(bpm, t);
    let x = t * bpm;
    lemma_div_bracket(x, m);
    let lb = s.last_note_beat;
    let nb = s.next_note_beat;
    assert(lb * m <= x);
    assert(x <= nb * m);
    assert(nb * m <= x + m);
    // preceding beat time
    lemma_div_bracket(lb * m, bpm);
    let lt = s.last_note_time;
    assert(lt * bpm <= lb * m);
    assert(lt <= t) by (nonlinear_arith)
        requires lt * bpm <= lb * m, lb * m <= t * bpm, bpm > 0;
    // following beat time
    lemma_div_bracket(nb * m, bpm);
    let nt = s.next_note_time;
    assert(nb * m <= nt * bpm);
    assert(nt * bpm < nb * m + bpm);
    assert(t <= nt) by (nonlinear_arith)
        requires t * bpm <= nb * m, nb * m <= nt * bpm, bpm > 0;
    assert(nt <= t + m) by (nonlinear_arith)
        requires nt * bpm < nb * m + bpm, nb * m <= t * bpm + m, bpm > 0, m > 0;
    assert(lb <= t) by (nonlinear_arith)
        requires lb * m <= t * bpm, bpm <= 65535, m == 60_000_000;
    if nb == lb {
        assert(lb * m == x);
        assert(lt == t) by (nonlinear_arith)
            requires lt * bpm <= lb * m, lb * m < lt * bpm + bpm, lb * m == t * bpm, bpm > 0;
        assert(nt == t) by (nonlinear_arith)
            requires nb * m <= nt * bpm, nt * bpm < nb * m + bpm, nb * m == t * bpm, bpm > 0;
    }
}


/// Nearest-note selection: the chosen beat is the preceding or the following
/// one, no farther from the current time than either, and the following one
/// whenever both are equally far.
pub proof fn lemma_nearest_note(bpm: nat, t: nat)
    requires
        0 < bpm <= u16::MAX,
    ensures
        ({
            let s = beat_state(bpm, t);
            &&& (s.current_note_beat == s.last_note_beat && s.current_note_time == s.last_note_time)
                || (s.current_note_beat == s.next_note_beat && s.current_note_time == s.next_note_time)
            &&& dist(t, s.current_note_time) <= dist(t, s.last_note_time)
            &&& dist(t, s.current_note_time) <= dist(t, s.next_note_time)
            &&& dist(t, s.last_note_time) == dist(t, s.next_note_time) ==> s.current_note_time
                == s.next_note_time && s.current_note_beat == s.next_note_beat
        }),
{
}

/// Recomputing the beat grid is idempotent: the grid depends on the time
/// alone, so computing it again from the time it records gives it back unchanged.
pub proof fn lemma_beat_state_idempotent(bpm: nat, t: nat, p: BeatState)
    requires
        p == beat_state(bpm, t),
    ensures
        beat_state(bpm, p.current_time) == p,
{
}

/// Cached beat grid of the active track, recomputed every frame from the
/// playback clock.
pub struct StageTrackPlayhead {
    current_time: u64,
    current_note_beat: u64,
    current_note_time: u64,
    last_note_beat: u64,
    next_note_beat: u64,
    last_note_time: u64,
    next_note_time: u64,
}

impl View for StageTrackPlayhead {
    type V = BeatState;

    closed spec fn view(&self) -> BeatState {
        BeatState {
            current_time: self.current_time as nat,
            last_note_beat: self.last_note_beat as nat,
            next_note_beat: self.next_note_beat as nat,
            last_note_time: self.last_note_time as nat,
            next_note_time: self.next_note_time as nat,
            current_note_beat: self.current_note_beat as nat,
            current_note_time: self.current_note_time as nat,
        }
    }
}

impl Default for StageTrackPlayhead {
    /// The zero playhead, as at stage entry.
    fn default() -> (r: StageTrackPlayhead)
        ensures
            r@ == beat_state(1, 0),
    {
        StageTrackPlayhead::new()
    }
}

impl StageTrackPlayhead {
    /// The playhead of a stage that has just been entered: every field zero.
    pub fn new() -> (r: StageTrackPlayhead)
        ensures
            r@ == beat_state(1, 0),
    {
        let r = StageTrackPlayhead {
            current_time: 0,
            current_note_beat: 0,
            current_note_time: 0,
            last_note_beat: 0,
            next_note_beat: 0,
            last_note_time: 0,
            next_note_time: 0,
        };
        proof {
            assert((0 * 1nat) / (MICROS_PER_MINUTE as nat) == 0);
            assert((0 * MICROS_PER_MINUTE as nat) / 1nat == 0);
        }
        r
    }

    /// Playback time, in microseconds.
    pub fn current_time(&self) -> (r: u64)
        ensures
            r == self@.current_time,
    {
        self.current_time
    }

    /// Index of the beat nearest to the playback time.
    pub fn current_note_beat(&self) -> (r: u64)
        ensures
            r == self@.current_note_beat,
    {
        self.current_note_beat
    }

    /// Time of the beat nearest to the playback time, in microseconds.
    pub fn current_note_time(&self) -> (r: u64)
        ensures
            r == self@.current_note_time,
    {
        self.current_note_time
    }

    /// Index of the last beat at or before the playback time.
    pub fn last_note_beat(&self) -> (r: u64)
        ensures
            r == self@.last_note_beat,
    {
        self.last_note_beat
    }

    /// Index of the first beat at or after the playback time.
    pub fn next_note_beat(&self) -> (r: u64)
        ensures
            r == self@.next_note_beat,
    {
        self.next_note_beat
    }

    /// Time of the last beat at or before the playback time, in microseconds.
    pub fn last_note_time(&self) -> (r: u64)
        ensures
            r == self@.last_note_time,
    {
        self.last_note_time
    }

    /// Time of the first beat at or after the playback time, in microseconds.
    pub fn next_note_time(&self) -> (r: u64)
        ensures
            r == self@.next_note_time,
    {
        self.next_note_time
    }

    /// Recomputes the beat grid at `current_time` microseconds of playback.
    pub fn update(&mut self, track: &StageTrack, current_time: u64)
        requires
            track.bpm > 0,
            current_time <= MAX_PLAYBACK_MICROS,
        ensures
            final(self)@ == beat_state(track.bpm as nat, current_time as nat),
    {
        let bpm: u128 = track.bpm as u128;
        let m: u128 = MICROS_PER_MINUTE as u128;
        proof {
            lemma_beat_quantization(bpm as nat, current_time as nat);
            assert(current_time * bpm <= 0x1_0000_0000_0000_0000_0000) by (nonlinear_arith)
                requires current_time <= u64::MAX, bpm <= 0xffff;
        }
        let scaled: u128 = current_time as u128 * bpm;
        let last_beat: u128 = scaled / m;
        let next_beat: u128 = if scaled % m == 0 {
            last_beat
        } else {
            last_beat + 1
        };
        proof {
            assert(last_beat * m <= scaled);
            assert(next_beat * m <= current_time * bpm + m);
        }
        let last_scaled: u128 = last_beat * m;
        let next_scaled: u128 = next_beat * m;
        let last_time: u128 = last_scaled / bpm;
        let next_time: u128 = if next_scaled % bpm == 0 {
            next_scaled / bpm
        } else {
            next_scaled / bpm + 1
        };
        let last_time: u64 = last_time as u64;
        let next_time: u64 = next_time as u64;
        let last_gap: u64 = current_time - last_time;
        let next_gap: u64 = next_time - current_time;
        let pick_last: bool = last_gap < next_gap;
        self.current_time = current_time;
        self.last_note_beat = last_beat as u64;
        self.next_note_beat = next_beat as u64;
        self.last_note_time = last_time;
        self.next_note_time = next_time;
        if pick_last {
            self.current_note_beat = last_beat as u64;
            self.current_note_time = last_time;
        } else {
            self.current_note_beat = next_beat as u64;
            self.current_note_time = next_time;
        }
    }
}

} // verus!
