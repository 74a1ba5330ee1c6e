//! How a backup is named: `<parent>/#<name>-<mark>#`, where the mark is a
//! timestamp, followed by the microseconds once the timestamp alone is taken.

use vstd::prelude::*;
use vstd::string::StringExecFns;

use crate::digits::decimal_text;
use crate::digits::decimal_text_is_digits;
use crate::digits::is_digit;
use crate::digits::push_decimal;
use crate::moment::stamp_text;
use crate::moment::Moment;
use crate::moment::MomentView;
use crate::target::Place;
use crate::target::PlaceView;

verus! {

/// The final segment of a backup's path: the name of the target and the mark
/// that tells this backup from others, between two `#`.
pub open spec fn backup_segment(base: Seq<char>, mark: Seq<char>) -> Seq<char> {
    seq!['#'] + base + seq!['-'] + mark + seq!['#']
}

/// The path of the backup of `place` that is marked `mark`: it lies in the
/// directory of the target.
pub open spec fn backup_path(place: PlaceView, mark: Seq<char>) -> Seq<char> {
    place.parent + seq!['/'] + backup_segment(place.base, mark)
}

/// The mark of the names that are tried after the first: the timestamp and
/// the microseconds, unpadded.
pub open spec fn retry_mark(at: MomentView) -> Seq<char> {
    stamp_text(at) + seq!['-'] + decimal_text(at.micros as nat)
}

/// The name that is tried first for a backup made at `at`.
pub open spec fn first_name(place: PlaceView, at: MomentView) -> Seq<char> {
    backup_path(place, stamp_text(at))
}

/// The name that is tried at `at` once an earlier name was found taken.
pub open spec fn retry_name(place: PlaceView, at: MomentView) -> Seq<char> {
    backup_path(place, retry_mark(at))
}

/// Whether `c` can stand in a mark: a digit, `-` or `+`.
pub open spec fn is_mark_char(c: char) -> bool {
    is_digit(c) || c == '-' || c == '+'
}

/// Whether `mark` is text that a mark can be: not empty, and free of every
/// character but digits, `-` and `+`; so it holds neither a path separator
/// nor a `#`.
pub open spec fn is_mark(mark: Seq<char>) -> bool {
    &&& mark.len() > 0
    &&& forall|i: int| 0 <= i < mark.len() ==> is_mark_char(#[trigger] mark[i])
}

/// Whether `name` is the path of a backup of `place`.
pub open spec fn is_backup_name(place: PlaceView, name: Seq<char>) -> bool {
    exists|mark: Seq<char>| is_mark(mark) && name == #[trigger] backup_path(place, mark)
}

/// The path of the backup of `place` that is marked `mark`.
fn compose(place: &Place, mark: &str) -> (name: String)
    ensures
        name@ == backup_path(place@, mark@),
{
    proof {
        reveal_strlit("/#");
        reveal_strlit("-");
        reveal_strlit("#");
    }
    let mut name = place.parent.clone();
    name.append("/#");
    name.append(place.base.as_str());
    name.append("-");
    name.append(mark);
    name.append("#");
    assert(name@ =~= backup_path(place@, mark@));
    name
}

impl Place {
    /// The name to try first for a backup made at `at`.
    pub fn first_name(&self, at: &Moment) -> (name: String)
        ensures
            at@.valid(),
            name@ == first_name(self@, at@),
    {
        let mark = at.stamp();
        compose(self, mark.as_str())
    }

    /// The name to try at `at` once an earlier name was found taken.
    pub fn retry_name(&self, at: &Moment) -> (name: String)
        ensures
            at@.valid(),
            name@ == retry_name(self@, at@),
    {
        proof {
            reveal_strlit("-");
        }
        let mut mark = at.stamp();
        mark.append("-");
        push_decimal(&mut mark, at.micros());
        assert(mark@ =~= retry_mark(at@));
        compose(self, mark.as_str())
    }
}

/// A timestamp is a mark.
pub proof fn stamp_is_mark(at: MomentView)
    requires
        at.valid(),
    ensures
        is_mark(stamp_text(at)),
{
    if at.year > 9999 {
        decimal_text_is_digits(at.year as nat);
    }
    if at.year < -9999 {
        decimal_text_is_digits((-at.year) as nat);
    }
}

/// A timestamp followed by the microseconds is a mark.
pub proof fn retry_mark_is_mark(at: MomentView)
    requires
        at.valid(),
    ensures
        is_mark(retry_mark(at)),
{
    stamp_is_mark(at);
    decimal_text_is_digits(at.micros as nat);
}

/// Every name that is tried for a backup lies in the directory of the target
/// and wraps the target's name and a mark between two `#`.
pub proof fn tried_names_are_backup_names(place: PlaceView, at: MomentView)
    requires
        at.valid(),
    ensures
        is_backup_name(place, first_name(place, at)),
        is_backup_name(place, retry_name(place, at)),
{
    stamp_is_mark(at);
    retry_mark_is_mark(at);
}

} // verus!
