//! Whole backups: what holds of every run of the machine, whatever the file
//! system answers and whatever the clock reads.

use vstd::prelude::*;

use crate::error::BackupError;
use crate::machine::step_spec;
use crate::machine::Event;
use crate::machine::StageView;
use crate::moment::MomentView;
use crate::name::first_name;
use crate::name::is_backup_name;
use crate::name::retry_name;
use crate::name::tried_names_are_backup_names;
use crate::target::validated;
use crate::target::PlaceView;
use crate::target::TargetView;

verus! {

/// The stage that is reached from `stage` by the events `events`, where the
/// clock reads `clock[i]` at the step on `events[i]`.
pub open spec fn run(stage: StageView, events: Seq<Event>, clock: Seq<MomentView>) -> StageView
    recommends
        events.len() == clock.len(),
    decreases events.len(),
{
    if events.len() == 0 {
        stage
    } else {
        step_spec(run(stage, events.drop_last(), clock.drop_last()), events.last(), clock.last())
    }
}

/// Whether every reading in `clock` is a valid moment.
pub open spec fn all_valid(clock: Seq<MomentView>) -> bool {
    forall|i: int| 0 <= i < clock.len() ==> (#[trigger] clock[i]).valid()
}

/// Whether `event` tells the truth where it answers a probe: `names` holds the
/// paths at which something exists.
pub open spec fn truthful(names: Set<Seq<char>>, stage: StageView, event: Event) -> bool {
    match (stage, event) {
        (StageView::Probing { candidate, .. }, Event::Probed { taken }) => taken == names.contains(
            candidate,
        ),
        _ => true,
    }
}

/// Whether every probe in the run of `events` from `stage` is answered
/// truthfully, while `names` stays as it is.
pub open spec fn truthful_run(
    names: Set<Seq<char>>,
    stage: StageView,
    events: Seq<Event>,
    clock: Seq<MomentView>,
) -> bool
    recommends
        events.len() == clock.len(),
    decreases events.len(),
{
    events.len() == 0 || {
        &&& truthful_run(names, stage, events.drop_last(), clock.drop_last())
        &&& truthful(
            names,
            run(stage, events.drop_last(), clock.drop_last()),
            events.last(),
        )
    }
}

/// What holds of every stage that a backup of `target` reaches.
spec fn reached(target: TargetView, stage: StageView) -> bool {
    match stage {
        StageView::Locating { target: asked } => asked == target,
        StageView::Probing { place, candidate } | StageView::Renaming { place, candidate } => {
            &&& validated(target, true) matches Ok(found) && found == place
            &&& is_backup_name(place, candidate)
        },
        StageView::Finished { outcome: Ok(path) } => {
            &&& validated(target, true) matches Ok(place)
            &&& is_backup_name(place, path)
        },
        StageView::Finished { outcome: Err(error) } => {
            ||| error is Io && validated(target, true) is Ok
            ||| validated(target, true) matches Err(found) && found == error
            ||| validated(target, false) matches Err(found) && found == error
        },
    }
}

/// Whether the name that `stage` has settled on, if it has, is free in
/// `names`.
spec fn settled_on_free(names: Set<Seq<char>>, stage: StageView) -> bool {
    match stage {
        StageView::Renaming { candidate, .. } => !names.contains(candidate),
        StageView::Finished { outcome: Ok(path) } => !names.contains(path),
        _ => true,
    }
}

proof fn step_keeps_reached(target: TargetView, stage: StageView, event: Event, now: MomentView)
    requires
        reached(target, stage),
        now.valid(),
    ensures
        reached(target, step_spec(stage, event, now)),
{
    match stage {
        StageView::Locating { .. } => {
            if let Ok(place) = validated(target, true) {
                tried_names_are_backup_names(place, now);
            }
        },
        StageView::Probing { place, .. } => {
            tried_names_are_backup_names(place, now);
        },
        _ => {},
    }
}

proof fn run_keeps_reached(target: TargetView, events: Seq<Event>, clock: Seq<MomentView>)
    requires
        events.len() == clock.len(),
        all_valid(clock),
    ensures
        reached(target, run(StageView::Locating { target }, events, clock)),
    decreases events.len(),
{
    if events.len() > 0 {
        run_keeps_reached(target, events.drop_last(), clock.drop_last());
        step_keeps_reached(
            target,
            run(StageView::Locating { target }, events.drop_last(), clock.drop_last()),
            events.last(),
            clock.last(),
        );
    }
}

proof fn run_settles_on_free(
    names: Set<Seq<char>>,
    target: TargetView,
    events: Seq<Event>,
    clock: Seq<MomentView>,
)
    requires
        truthful_run(names, StageView::Locating { target }, events, clock),
    ensures
        settled_on_free(names, run(StageView::Locating { target }, events, clock)),
    decreases events.len(),
{
    if events.len() > 0 {
        run_settles_on_free(names, target, events.drop_last(), clock.drop_last());
    }
}

/// The events of a backup that finds its target and then `taken` names in a
/// row taken.
pub open spec fn collisions(taken: nat) -> Seq<Event>
    decreases taken,
{
    if taken == 0 {
        seq![Event::Located { exists: true }]
    } else {
        collisions((taken - 1) as nat).push(Event::Probed { taken: true })
    }
}

/// The name that is on trial after `taken` names were found taken: the first
/// name by the first reading of the clock, or else the name with the
/// microseconds by the latest reading.
pub open spec fn name_on_trial(place: PlaceView, taken: nat, clock: Seq<MomentView>) -> Seq<char>
    recommends
        clock.len() == taken + 1,
{
    if taken == 0 {
        first_name(place, clock[0])
    } else {
        retry_name(place, clock[taken as int])
    }
}

/// A target that meets the rules is given one name after the other for as
/// long as the names are taken: after any number of taken names the next name
/// is on trial, made from the latest reading of the clock.
pub proof fn collisions_lead_to_next_name(
    target: TargetView,
    place: PlaceView,
    taken: nat,
    clock: Seq<MomentView>,
)
    requires
        validated(target, true) matches Ok(found) && found == place,
        clock.len() == taken + 1,
    ensures
        collisions(taken).len() == taken + 1,
        run(StageView::Locating { target }, collisions(taken), clock) == (StageView::Probing {
            place,
            candidate: name_on_trial(place, taken, clock),
        }),
    decreases taken,
{
    let start = StageView::Locating { target };
    if taken == 0 {
        let events = collisions(0);
        assert(events.drop_last().len() == 0);
        assert(run(start, events.drop_last(), clock.drop_last()) == start);
    } else {
        let fewer = (taken - 1) as nat;
        collisions_lead_to_next_name(target, place, fewer, clock.drop_last());
        assert(collisions(taken).drop_last() =~= collisions(fewer));
    }
}

/// A backup succeeds with the first name that is free: where the target meets
/// the rules, `taken` names are found taken, the next is free and the rename
/// works, the backup ends at that name.
pub proof fn backup_ends_at_first_free_name(
    target: TargetView,
    place: PlaceView,
    taken: nat,
    clock: Seq<MomentView>,
    rest: Seq<MomentView>,
)
    requires
        validated(target, true) matches Ok(found) && found == place,
        clock.len() == taken + 1,
        rest.len() == 2,
    ensures
        run(
            StageView::Locating { target },
            collisions(taken) + seq![
                Event::Probed { taken: false },
                Event::Renamed { outcome: Ok(()) },
            ],
            clock + rest,
        ) == (StageView::Finished { outcome: Ok(name_on_trial(place, taken, clock)) }),
{
    let start = StageView::Locating { target };
    let free = Event::Probed { taken: false };
    let done = Event::Renamed { outcome: Ok(()) };
    let events = collisions(taken) + seq![free, done];
    let readings = clock + rest;
    collisions_lead_to_next_name(target, place, taken, clock);
    assert(events.drop_last() =~= collisions(taken).push(free));
    assert(events.drop_last().drop_last() =~= collisions(taken));
    assert(readings.drop_last().drop_last() =~= clock);
    assert(events.last() == done);
    assert(events.drop_last().last() == free);
    reveal_with_fuel(run, 3);
}

/// A backup that succeeds lies beside its target and is named after it: the
/// target met the rules, and the path that comes back is a backup name of the
/// place that the rules gave.
pub proof fn backup_is_named_after_target(
    target: TargetView,
    events: Seq<Event>,
    clock: Seq<MomentView>,
)
    requires
        events.len() == clock.len(),
        all_valid(clock),
    ensures
        run(StageView::Locating { target }, events, clock) matches StageView::Finished {
            outcome: Ok(path),
        } ==> {
            &&& validated(target, true) matches Ok(place)
            &&& is_backup_name(place, path)
        },
{
    run_keeps_reached(target, events, clock);
}

/// A backup never lands on a name at which something exists: where every
/// probe is answered truthfully from `names`, the path that comes back is not
/// in `names`.
pub proof fn backup_takes_free_name(
    target: TargetView,
    names: Set<Seq<char>>,
    events: Seq<Event>,
    clock: Seq<MomentView>,
)
    requires
        truthful_run(names, StageView::Locating { target }, events, clock),
    ensures
        run(StageView::Locating { target }, events, clock) matches StageView::Finished {
            outcome: Ok(path),
        } ==> !names.contains(path),
{
    run_settles_on_free(names, target, events, clock);
}

/// A backup that fails says why: the target was reported missing, or it broke
/// a rule, or it met the rules and the file system refused the rename.
pub proof fn failure_is_explained(
    target: TargetView,
    events: Seq<Event>,
    clock: Seq<MomentView>,
)
    requires
        events.len() == clock.len(),
        all_valid(clock),
    ensures
        run(StageView::Locating { target }, events, clock) matches StageView::Finished {
            outcome: Err(error),
        } ==> {
            ||| error is Io && validated(target, true) is Ok
            ||| validated(target, true) matches Err(found) && found == error
            ||| validated(target, false) matches Err(found) && found == error
        },
{
    run_keeps_reached(target, events, clock);
}

/// Two backups never share a name, as long as the first is still there when
/// the second is made: `later_names` holds the path of the earlier backup.
pub proof fn later_backup_differs(
    earlier: Seq<char>,
    target: TargetView,
    later_names: Set<Seq<char>>,
    events: Seq<Event>,
    clock: Seq<MomentView>,
)
    requires
        truthful_run(later_names, StageView::Locating { target }, events, clock),
        later_names.contains(earlier),
    ensures
        run(StageView::Locating { target }, events, clock) matches StageView::Finished {
            outcome: Ok(later),
        } ==> later != earlier,
{
    backup_takes_free_name(target, later_names, events, clock);
}

} // verus!
