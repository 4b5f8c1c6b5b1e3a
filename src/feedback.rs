use vstd::prelude::*;
use crate::beat_clock::StageTrackPlayhead;
use crate::judgment::{Score, score_diff, score_of, timing_error};

verus! {

/// Colour-coded spark burst that answers a judged input.
#[derive(PartialEq, Eq, Structural, Clone, Copy, Debug)]
pub enum Sparker {
    RED,
    ORANGE,
    GREEN,
    RAINBOW,
}

/// Request to fire the spark burst of one colour.
#[derive(PartialEq, Eq, Structural, Clone, Copy, Debug)]
pub struct SparksFire(pub Sparker);

/// The spark colour of each grade.
pub open spec fn sparker_of(s: Score) -> Sparker {
    match s {
        Score::Miss => Sparker::RED,
        Score::Bad => Sparker::ORANGE,
        Score::Good => Sparker::GREEN,
        Score::Great => Sparker::RAINBOW,
    }
}

/// The spark colour of a grade.
pub fn sparker_for(score: Score) -> (r: Sparker)
    ensures
        r == sparker_of(score),
{
    match score {
        Score::Miss => Sparker::RED,
        Score::Bad => Sparker::ORANGE,
        Score::Good => Sparker::GREEN,
        Score::Great => Sparker::RAINBOW,
    }
}

/// Judges one completed dance move against the cached playhead of the active
/// track; without an active track nothing is judged.
pub fn check_dance_move(playhead: Option<&StageTrackPlayhead>) -> (r: Option<SparksFire>)
    ensures
        playhead.is_none() ==> r.is_none(),
        playhead matches Some(p) ==> r == Some(
            SparksFire(sparker_of(score_of(p@.current_time - p@.current_note_time))),
        ),
{
    match playhead {
        None => None,
        Some(p) => {
            let diff = timing_error(p);
            let score = score_diff(diff);
            Some(SparksFire(sparker_for(score)))
        },
    }
}

/// Index of the first spark emitter, among `sparkers`, whose colour the event
/// asks for; `None` where no emitter has it.
pub fn spark_firing(event: &SparksFire, sparkers: &Vec<Sparker>) -> (r: Option<usize>)
    ensures
        r matches Some(i) ==> i < sparkers@.len() && sparkers@[i as int] == event.0
            && forall|j: int| 0 <= j < i ==> sparkers@[j] != event.0,
        r.is_none() ==> forall|j: int| 0 <= j < sparkers@.len() ==> sparkers@[j] != event.0,
{
    let mut i: usize = 0;
    while i < sparkers.len()
        invariant
            i <= sparkers@.len(),
            forall|j: int| 0 <= j < i ==> sparkers@[j] != event.0,
        decreases sparkers@.len() - i,
    {
        if sparkers[i] == event.0 {
            return Some(i);
        }
        i = i + 1;
    }
    None
}

/// The direction of a completed dance move.
#[derive(PartialEq, Eq, Structural, Clone, Copy, Debug)]
pub enum DanceEvent {
    Left,
    Down,
    Up,
    Right,
}

/// Animation nodes of the player character: one idle, one per direction.
#[derive(PartialEq, Eq, Structural, Clone, Copy, Debug)]
pub struct DanceAnimations {
    pub idle: usize,
    pub left: usize,
    pub down: usize,
    pub up: usize,
    pub right: usize,
}

impl DanceAnimations {
    /// The animation that a dance move plays, whatever its grade.
    pub fn for_dance(&self, dance: DanceEvent) -> (r: usize)
        ensures
            r == match dance {
                DanceEvent::Left => self.left,
                DanceEvent::Down => self.down,
                DanceEvent::Up => self.up,
                DanceEvent::Right => self.right,
            },
    {
        match dance {
            DanceEvent::Left => self.left,
            DanceEvent::Down => self.down,
            DanceEvent::Up => self.up,
            DanceEvent::Right => self.right,
        }
    }
}

/// Top-level state of the application.
#[derive(PartialEq, Eq, Structural, Clone, Copy, Debug)]
pub enum AppState {
    Title,
    InGame,
}

/// The state after a completed start/select gesture: the game.
pub fn title_start(state: AppState) -> (r: AppState)
    ensures
        r == AppState::InGame,
{
    AppState::InGame
}

} // verus!
