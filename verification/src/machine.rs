//! The course of one backup, as a machine that decides and never touches the
//! file system: each stage names the work it waits for, and the outcome of
//! that work, handed back as an event, decides the next stage.

use vstd::prelude::*;

use crate::error::BackupError;
use crate::moment::local_now;
use crate::moment::Moment;
use crate::moment::MomentView;
use crate::name::first_name;
use crate::name::retry_name;
use crate::target::validate;
use crate::target::validated;
use crate::target::Place;
use crate::target::PlaceView;
use crate::target::Target;
use crate::target::TargetView;

verus! {

/// Where a backup stands, and with it what is to be done next.
#[derive(Debug)]
pub enum Stage {
    /// Find out whether anything exists at the target, and answer with
    /// [`Event::Located`].
    Locating { target: Target },
    /// Find out whether anything exists at `candidate`, and answer with
    /// [`Event::Probed`].
    Probing { place: Place, candidate: String },
    /// Rename the target to `candidate`, and answer with [`Event::Renamed`].
    Renaming { place: Place, candidate: String },
    /// Nothing is left to do: the backup is at the path in `outcome`, or it
    /// failed with the error there.
    Finished { outcome: Result<String, BackupError> },
}

/// What the work that a stage asked for has brought.
#[derive(Debug)]
pub enum Event {
    /// Whether anything exists at the target.
    Located { exists: bool },
    /// Whether anything exists at the candidate.
    Probed { taken: bool },
    /// What the file system made of the rename.
    Renamed { outcome: Result<(), std::io::Error> },
}

/// A [`Stage`] with its texts as sequences of characters.
pub enum StageView {
    Locating { target: TargetView },
    Probing { place: PlaceView, candidate: Seq<char> },
    Renaming { place: PlaceView, candidate: Seq<char> },
    Finished { outcome: Result<Seq<char>, BackupError> },
}

impl View for Stage {
    type V = StageView;

    open spec fn view(&self) -> StageView {
        match self {
            Stage::Locating { target } => StageView::Locating { target: target@ },
            Stage::Probing { place, candidate } => StageView::Probing {
                place: place@,
                candidate: candidate@,
            },
            Stage::Renaming { place, candidate } => StageView::Renaming {
                place: place@,
                candidate: candidate@,
            },
            Stage::Finished { outcome } => StageView::Finished {
                outcome: match outcome {
                    Ok(path) => Ok(path@),
                    Err(error) => Err(*error),
                },
            },
        }
    }
}

/// The stage that follows `stage` on `event`, where the clock reads `now`.
///
/// A target that is found missing or breaks a rule ends the backup with the
/// error; any other gets its first name. A name that is taken is followed by a
/// name with the microseconds of a new reading of the clock; a name that is
/// free is the one to rename to. The rename ends the backup: with the name, or
/// with the error of the file system. An event that the stage does not wait
/// for changes nothing.
pub open spec fn step_spec(stage: StageView, event: Event, now: MomentView) -> StageView {
    match (stage, event) {
        (StageView::Locating { target }, Event::Located { exists }) => match validated(
            target,
            exists,
        ) {
            Ok(place) => StageView::Probing { place, candidate: first_name(place, now) },
            Err(error) => StageView::Finished { outcome: Err(error) },
        },
        (StageView::Probing { place, candidate }, Event::Probed { taken }) => if taken {
            StageView::Probing { place, candidate: retry_name(place, now) }
        } else {
            StageView::Renaming { place, candidate }
        },
        (StageView::Renaming { place, candidate }, Event::Renamed { outcome }) => match outcome {
            Ok(_) => StageView::Finished { outcome: Ok(candidate) },
            Err(error) => StageView::Finished { outcome: Err(BackupError::Io(error)) },
        },
        _ => stage,
    }
}

/// Whether the step from `stage` on `event` reads the clock.
pub open spec fn reads_clock(stage: StageView, event: Event) -> bool {
    match (stage, event) {
        (StageView::Locating { target }, Event::Located { exists }) => validated(
            target,
            exists,
        ) is Ok,
        (StageView::Probing { .. }, Event::Probed { taken }) => taken,
        _ => false,
    }
}

/// Where a step reads no clock, it does not matter what the clock would have
/// read.
pub proof fn unread_clock_does_not_matter(
    stage: StageView,
    event: Event,
    one: MomentView,
    other: MomentView,
)
    requires
        !reads_clock(stage, event),
    ensures
        step_spec(stage, event, one) == step_spec(stage, event, other),
{
}

/// The reading of the clock to go by: the one that was given, or else a new
/// one.
fn reading(given: Option<Moment>) -> (now: Moment)
    ensures
        now@.valid(),
        given matches Some(at) ==> now == at,
{
    match given {
        Some(at) => {
            proof {
                use_type_invariant(&at);
            }
            at
        },
        None => local_now(),
    }
}

/// The stage that follows `stage` on `event`. The clock is read only where the
/// step needs the time, and only if no reading was given.
fn advance(stage: Stage, event: Event, given: Option<Moment>) -> (next: Stage)
    ensures
        given matches Some(at) ==> next@ == step_spec(stage@, event, at@),
        exists|now: MomentView| now.valid() && next@ == #[trigger] step_spec(stage@, event, now),
{
    let ghost epoch = MomentView {
        year: 1970,
        month: 1,
        day: 1,
        hour: 0,
        minute: 0,
        second: 0,
        micros: 0,
    };
    let ghost before = stage@;
    match (stage, event) {
        (Stage::Locating { target }, Event::Located { exists }) => {
            match validate(target, exists) {
                Ok(place) => {
                    let now = reading(given);
                    let candidate = place.first_name(&now);
                    let next = Stage::Probing { place, candidate };
                    assert(next@ == step_spec(before, event, now@));
                    next
                },
                Err(error) => {
                    let next = Stage::Finished { outcome: Err(error) };
                    assert(epoch.valid() && next@ == step_spec(before, event, epoch));
                    next
                },
            }
        },
        (Stage::Probing { place, candidate }, Event::Probed { taken }) => {
            if taken {
                let now = reading(given);
                let candidate = place.retry_name(&now);
                let next = Stage::Probing { place, candidate };
                assert(next@ == step_spec(before, event, now@));
                next
            } else {
                let next = Stage::Renaming { place, candidate };
                assert(epoch.valid() && next@ == step_spec(before, event, epoch));
                next
            }
        },
        (Stage::Renaming { place, candidate }, Event::Renamed { outcome }) => {
            let next = match outcome {
                Ok(_) => Stage::Finished { outcome: Ok(candidate) },
                Err(error) => Stage::Finished { outcome: Err(BackupError::Io(error)) },
            };
            assert(epoch.valid() && next@ == step_spec(before, event, epoch));
            next
        },
        (stage, _) => {
            assert(epoch.valid() && stage@ == step_spec(before, event, epoch));
            stage
        },
    }
}

impl Stage {
    /// The stage that a backup of `target` starts in.
    pub fn start(target: Target) -> (stage: Stage)
        ensures
            stage@ == (StageView::Locating { target: target@ }),
    {
        Stage::Locating { target }
    }
}

/// The stage that follows `stage` on `event`, where the clock reads `now`.
pub fn step_at(stage: Stage, event: Event, now: &Moment) -> (next: Stage)
    ensures
        now@.valid(),
        next@ == step_spec(stage@, event, now@),
{
    proof {
        use_type_invariant(now);
    }
    advance(stage, event, Some(*now))
}

/// The stage that follows `stage` on `event`. Where the step needs the time,
/// it reads the clock.
pub fn step(stage: Stage, event: Event) -> (next: Stage)
    ensures
        exists|now: MomentView| now.valid() && next@ == #[trigger] step_spec(stage@, event, now),
{
    advance(stage, event, None)
}

} // verus!
