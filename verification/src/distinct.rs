//! Names tell moments apart: two names of one target coincide only where
//! their moments do, to the second for first names and to the microsecond
//! for the names that follow.

use vstd::prelude::*;

use crate::digits::decimal_text;
use crate::digits::decimal_text_is_digits;
use crate::digits::digit;
use crate::digits::is_digit;
use crate::moment::stamp_text;
use crate::moment::year_text;
use crate::moment::MomentView;
use crate::moment::MAX_YEAR;
use crate::moment::MIN_YEAR;
use crate::name::backup_path;
use crate::name::first_name;
use crate::name::retry_mark;
use crate::name::retry_name;
use crate::target::PlaceView;

verus! {

/// Whether `a` and `b` lie in the same second.
pub open spec fn same_second(a: MomentView, b: MomentView) -> bool {
    &&& a.year == b.year
    &&& a.month == b.month
    &&& a.day == b.day
    &&& a.hour == b.hour
    &&& a.minute == b.minute
    &&& a.second == b.second
}

/// What follows the year in a timestamp.
spec fn tail_text(at: MomentView) -> Seq<char> {
    seq![
        '-',
        digit(at.month / 10),
        digit(at.month % 10),
        '-',
        digit(at.day / 10),
        digit(at.day % 10),
        '-',
        digit(at.hour / 10),
        digit(at.hour % 10),
        '-',
        digit(at.minute / 10),
        digit(at.minute % 10),
        '-',
        digit(at.second / 10),
        digit(at.second % 10),
    ]
}

proof fn stamp_is_year_and_tail(at: MomentView)
    ensures
        stamp_text(at) == year_text(at.year) + tail_text(at),
        tail_text(at).len() == 15,
{
    assert(stamp_text(at) =~= year_text(at.year) + tail_text(at));
}

proof fn decimal_text_grows(n: nat)
    ensures
        n >= 10 ==> decimal_text(n).len() >= 2,
        n >= 100 ==> decimal_text(n).len() >= 3,
        n >= 1000 ==> decimal_text(n).len() >= 4,
        n >= 10000 ==> decimal_text(n).len() >= 5,
    decreases n,
{
    if n >= 10 {
        decimal_text_is_digits(n / 10);
        decimal_text_grows(n / 10);
    }
}

/// Two numbers with the same decimal text are the same number.
pub proof fn decimal_text_tells_numbers_apart(a: nat, b: nat)
    requires
        decimal_text(a) == decimal_text(b),
    ensures
        a == b,
    decreases a,
{
    decimal_text_grows(a);
    decimal_text_grows(b);
    if a < 10 || b < 10 {
        assert(a < 10 && b < 10);
        assert(decimal_text(a)[0] == digit(a as int));
        assert(decimal_text(b)[0] == digit(b as int));
    } else {
        let front_a = decimal_text(a / 10);
        let front_b = decimal_text(b / 10);
        assert(front_a =~= decimal_text(a).drop_last());
        assert(front_b =~= decimal_text(b).drop_last());
        assert(decimal_text(a).last() == digit((a % 10) as int));
        assert(decimal_text(b).last() == digit((b % 10) as int));
        decimal_text_tells_numbers_apart(a / 10, b / 10);
    }
}

proof fn year_text_shape(year: int)
    requires
        MIN_YEAR <= year <= MAX_YEAR,
    ensures
        year_text(year).len() >= 4,
        0 <= year <= 9999 ==> year_text(year).len() == 4 && is_digit(year_text(year)[0]),
        -9999 <= year < 0 ==> year_text(year).len() == 5,
        year < -9999 ==> year_text(year).len() >= 6,
        year > 9999 ==> year_text(year)[0] == '+',
        year < 0 ==> year_text(year)[0] == '-',
        forall|i: int| 1 <= i < year_text(year).len() ==> is_digit(#[trigger] year_text(year)[i]),
{
    if year > 9999 {
        decimal_text_is_digits(year as nat);
        decimal_text_grows(year as nat);
    }
    if year < -9999 {
        decimal_text_is_digits((-year) as nat);
        decimal_text_grows((-year) as nat);
    }
}

proof fn digit_tells_numbers_apart(a: int, b: int)
    requires
        0 <= a <= 9,
        0 <= b <= 9,
        digit(a) == digit(b),
    ensures
        a == b,
{
}

proof fn two_digits_tell_numbers_apart(a: int, b: int)
    requires
        0 <= a <= 99,
        0 <= b <= 99,
        digit(a / 10) == digit(b / 10),
        digit(a % 10) == digit(b % 10),
    ensures
        a == b,
{
    digit_tells_numbers_apart(a / 10, b / 10);
    digit_tells_numbers_apart(a % 10, b % 10);
}

proof fn four_digits_tell_numbers_apart(a: int, b: int)
    requires
        0 <= a <= 9999,
        0 <= b <= 9999,
        digit(a / 1000) == digit(b / 1000),
        digit((a / 100) % 10) == digit((b / 100) % 10),
        digit((a / 10) % 10) == digit((b / 10) % 10),
        digit(a % 10) == digit(b % 10),
    ensures
        a == b,
{
    digit_tells_numbers_apart(a / 1000, b / 1000);
    digit_tells_numbers_apart((a / 100) % 10, (b / 100) % 10);
    digit_tells_numbers_apart((a / 10) % 10, (b / 10) % 10);
    digit_tells_numbers_apart(a % 10, b % 10);
    assert(a / 100 == 10 * (a / 1000) + (a / 100) % 10);
    assert(b / 100 == 10 * (b / 1000) + (b / 100) % 10);
    assert(a / 10 == 10 * (a / 100) + (a / 10) % 10);
    assert(b / 10 == 10 * (b / 100) + (b / 10) % 10);
}

proof fn year_text_tells_years_apart(a: int, b: int)
    requires
        MIN_YEAR <= a <= MAX_YEAR,
        MIN_YEAR <= b <= MAX_YEAR,
        year_text(a) == year_text(b),
    ensures
        a == b,
{
    year_text_shape(a);
    year_text_shape(b);
    let text = year_text(a);
    if 0 <= a <= 9999 {
        assert(0 <= b <= 9999);
        assert(text[0] == digit(a / 1000) && text[0] == digit(b / 1000));
        assert(text[1] == digit((a / 100) % 10) && text[1] == digit((b / 100) % 10));
        assert(text[2] == digit((a / 10) % 10) && text[2] == digit((b / 10) % 10));
        assert(text[3] == digit(a % 10) && text[3] == digit(b % 10));
        four_digits_tell_numbers_apart(a, b);
    } else if a > 9999 {
        assert(b > 9999);
        assert(decimal_text(a as nat) =~= text.subrange(1, text.len() as int));
        assert(decimal_text(b as nat) =~= text.subrange(1, text.len() as int));
        decimal_text_tells_numbers_apart(a as nat, b as nat);
    } else if a >= -9999 {
        assert(-9999 <= b < 0);
        assert(text[1] == digit((-a) / 1000) && text[1] == digit((-b) / 1000));
        assert(text[2] == digit(((-a) / 100) % 10) && text[2] == digit(((-b) / 100) % 10));
        assert(text[3] == digit(((-a) / 10) % 10) && text[3] == digit(((-b) / 10) % 10));
        assert(text[4] == digit((-a) % 10) && text[4] == digit((-b) % 10));
        four_digits_tell_numbers_apart(-a, -b);
    } else {
        assert(b < -9999);
        assert(decimal_text((-a) as nat) =~= text.subrange(1, text.len() as int));
        assert(decimal_text((-b) as nat) =~= text.subrange(1, text.len() as int));
        decimal_text_tells_numbers_apart((-a) as nat, (-b) as nat);
    }
}

/// Where in a timestamp the dashes and the digits stand.
proof fn stamp_shape(at: MomentView)
    requires
        at.valid(),
    ensures
        stamp_text(at).len() == year_text(at.year).len() + 15,
        year_text(at.year).len() >= 4,
        stamp_text(at)[stamp_text(at).len() - 15] == '-',
        stamp_text(at)[stamp_text(at).len() - 3] == '-',
        is_digit(stamp_text(at)[stamp_text(at).len() - 2]),
        is_digit(stamp_text(at)[stamp_text(at).len() - 1]),
        forall|i: int|
            1 <= i < stamp_text(at).len() - 15 ==> is_digit(#[trigger] stamp_text(at)[i]),
{
    stamp_is_year_and_tail(at);
    year_text_shape(at.year);
    let year = year_text(at.year);
    let tail = tail_text(at);
    let stamp = stamp_text(at);
    assert(stamp[stamp.len() - 15] == tail[0]);
    assert(stamp[stamp.len() - 3] == tail[12]);
    assert(stamp[stamp.len() - 2] == tail[13]);
    assert(stamp[stamp.len() - 1] == tail[14]);
    assert forall|i: int| 1 <= i < stamp.len() - 15 implies is_digit(#[trigger] stamp[i]) by {
        assert(stamp[i] == year[i]);
    }
}

/// Two moments with the same timestamp lie in the same second.
pub proof fn stamps_tell_seconds_apart(a: MomentView, b: MomentView)
    requires
        a.valid(),
        b.valid(),
        stamp_text(a) == stamp_text(b),
    ensures
        same_second(a, b),
{
    stamp_is_year_and_tail(a);
    stamp_is_year_and_tail(b);
    year_text_shape(a.year);
    year_text_shape(b.year);
    let stamp = stamp_text(a);
    let cut = stamp.len() - 15;
    assert(year_text(a.year) =~= stamp.subrange(0, cut));
    assert(year_text(b.year) =~= stamp.subrange(0, cut));
    year_text_tells_years_apart(a.year, b.year);
    let tail_a = tail_text(a);
    let tail_b = tail_text(b);
    assert(tail_a =~= stamp.subrange(cut, stamp.len() as int));
    assert(tail_b =~= stamp.subrange(cut, stamp.len() as int));
    assert(tail_a[1] == tail_b[1] && tail_a[2] == tail_b[2]);
    assert(tail_a[4] == tail_b[4] && tail_a[5] == tail_b[5]);
    assert(tail_a[7] == tail_b[7] && tail_a[8] == tail_b[8]);
    assert(tail_a[10] == tail_b[10] && tail_a[11] == tail_b[11]);
    assert(tail_a[13] == tail_b[13] && tail_a[14] == tail_b[14]);
    two_digits_tell_numbers_apart(a.month, b.month);
    two_digits_tell_numbers_apart(a.day, b.day);
    two_digits_tell_numbers_apart(a.hour, b.hour);
    two_digits_tell_numbers_apart(a.minute, b.minute);
    two_digits_tell_numbers_apart(a.second, b.second);
}

/// Where in the mark of a later name the last dash and the digits behind it
/// stand.
proof fn retry_mark_shape(at: MomentView)
    requires
        at.valid(),
    ensures
        decimal_text(at.micros as nat).len() >= 1,
        retry_mark(at).len() == stamp_text(at).len() + 1 + decimal_text(at.micros as nat).len(),
        retry_mark(at)[stamp_text(at).len() as int] == '-',
        forall|i: int|
            stamp_text(at).len() < i < retry_mark(at).len() ==> is_digit(
                #[trigger] retry_mark(at)[i],
            ),
        forall|i: int|
            0 <= i < stamp_text(at).len() ==> retry_mark(at)[i] == #[trigger] stamp_text(at)[i],
{
    let stamp = stamp_text(at);
    let micros = decimal_text(at.micros as nat);
    let mark = retry_mark(at);
    decimal_text_is_digits(at.micros as nat);
    assert forall|i: int| stamp.len() < i < mark.len() implies is_digit(#[trigger] mark[i]) by {
        assert(mark[i] == micros[i - stamp.len() - 1]);
    }
}

/// Two moments whose later names carry the same mark are the same moment.
proof fn retry_marks_tell_moments_apart(a: MomentView, b: MomentView)
    requires
        a.valid(),
        b.valid(),
        retry_mark(a) == retry_mark(b),
    ensures
        a == b,
{
    retry_mark_shape(a);
    retry_mark_shape(b);
    let mark = retry_mark(a);
    let cut_a = stamp_text(a).len() as int;
    let cut_b = stamp_text(b).len() as int;
    if cut_a < cut_b {
        assert(is_digit(mark[cut_b]));
    }
    if cut_b < cut_a {
        assert(is_digit(mark[cut_a]));
    }
    assert(cut_a == cut_b);
    assert(stamp_text(a) =~= mark.subrange(0, cut_a));
    assert(stamp_text(b) =~= mark.subrange(0, cut_a));
    assert(decimal_text(a.micros as nat) =~= mark.subrange(cut_a + 1, mark.len() as int));
    assert(decimal_text(b.micros as nat) =~= mark.subrange(cut_a + 1, mark.len() as int));
    stamps_tell_seconds_apart(a, b);
    decimal_text_tells_numbers_apart(a.micros as nat, b.micros as nat);
}

/// A timestamp alone is never a timestamp followed by microseconds.
proof fn stamp_is_no_retry_mark(a: MomentView, b: MomentView)
    requires
        a.valid(),
        b.valid(),
    ensures
        stamp_text(a) != retry_mark(b),
{
    if stamp_text(a) == retry_mark(b) {
        stamp_shape(a);
        stamp_shape(b);
        retry_mark_shape(b);
        let mark = stamp_text(a);
        let length = mark.len() as int;
        let cut = stamp_text(b).len() as int;
        // The last dash stands third from the end, so two digits follow it.
        if cut > length - 3 {
            assert(mark[cut] == '-');
            assert(is_digit(mark[length - 2]));
        }
        if cut < length - 3 {
            assert(is_digit(mark[length - 3]));
        }
        assert(cut == length - 3);
        // Then the first dash of the shorter stamp falls among the digits of
        // the year of the longer.
        assert(mark[cut - 15] == stamp_text(b)[cut - 15]);
        assert(is_digit(mark[length - 18]));
    }
}

/// Marks of the same target give the same path only if they are the same.
proof fn paths_tell_marks_apart(place: PlaceView, a: Seq<char>, b: Seq<char>)
    requires
        backup_path(place, a) == backup_path(place, b),
    ensures
        a == b,
{
    let path = backup_path(place, a);
    let stem = place.parent.len() + 2 + place.base.len() + 1;
    assert(backup_path(place, a).len() == stem + a.len() + 1);
    assert(backup_path(place, b).len() == stem + b.len() + 1);
    assert(a =~= path.subrange(stem as int, path.len() - 1));
    assert(b =~= path.subrange(stem as int, path.len() - 1));
}

/// Two first names of a target coincide only if they were made in the same
/// second.
pub proof fn first_names_tell_seconds_apart(place: PlaceView, a: MomentView, b: MomentView)
    requires
        a.valid(),
        b.valid(),
        first_name(place, a) == first_name(place, b),
    ensures
        same_second(a, b),
{
    paths_tell_marks_apart(place, stamp_text(a), stamp_text(b));
    stamps_tell_seconds_apart(a, b);
}

/// Two later names of a target coincide only if they were made in the same
/// microsecond.
pub proof fn retry_names_tell_moments_apart(place: PlaceView, a: MomentView, b: MomentView)
    requires
        a.valid(),
        b.valid(),
        retry_name(place, a) == retry_name(place, b),
    ensures
        a == b,
{
    paths_tell_marks_apart(place, retry_mark(a), retry_mark(b));
    retry_marks_tell_moments_apart(a, b);
}

/// A first name of a target is never one of its later names.
pub proof fn first_name_is_no_retry_name(place: PlaceView, a: MomentView, b: MomentView)
    requires
        a.valid(),
        b.valid(),
    ensures
        first_name(place, a) != retry_name(place, b),
{
    if first_name(place, a) == retry_name(place, b) {
        paths_tell_marks_apart(place, stamp_text(a), retry_mark(b));
        stamp_is_no_retry_mark(a, b);
    }
}

} // verus!
