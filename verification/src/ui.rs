//! The splits projection: a display-ready mirror of the per-segment state.
use crate::engine::{segment_views, SegmentTimes, SegmentView};
use crate::time_span::{
    TimeDelta, TimeSpan, NANOS_PER_HOUR, NANOS_PER_MILLISECOND, NANOS_PER_MINUTE, NANOS_PER_SECOND,
};
use vstd::prelude::*;
use vstd::string::StringExecFns;
use vstd::utf8::encode_utf8;

verus! {

/// What one split shows: its name, the recorded time, the comparison time and
/// the signed difference between them, all in nanoseconds.
pub struct SplitView {
    pub name: Seq<char>,
    pub time: int,
    pub comparison: int,
    pub time_difference: int,
}

/// The comparison that `split` shows after `comparison` was observed for its
/// segment: the observed one where it is longer than zero, else the one that
/// the split held. An unknown comparison never erases a known one.
pub open spec fn shown_comparison(split: SplitView, comparison: int) -> int {
    if comparison > 0 {
        comparison
    } else {
        split.comparison
    }
}

/// The split `split` after the time `time` and the comparison `comparison`
/// were observed for its segment.
///
/// The time is always taken over. An observed comparison replaces the stored
/// one only where it is longer than zero. The difference is computed anew only
/// where the time is longer than zero: it is then the time less the
/// comparison that the split shows after the update.
pub open spec fn updated_split(split: SplitView, time: int, comparison: int) -> SplitView {
    SplitView {
        name: split.name,
        time: time,
        comparison: shown_comparison(split, comparison),
        time_difference: if time > 0 {
            time - shown_comparison(split, comparison)
        } else {
            split.time_difference
        },
    }
}

/// The split `split` after another comparison was selected, for which its
/// segment holds `comparison`.
///
/// The comparison is always taken over. The recorded time is kept, and the
/// difference is computed anew only where that time is longer than zero.
pub open spec fn refreshed_split(split: SplitView, comparison: int) -> SplitView {
    SplitView {
        name: split.name,
        time: split.time,
        comparison: comparison,
        time_difference: if split.time > 0 {
            split.time - comparison
        } else {
            split.time_difference
        },
    }
}

/// The split `split` with its difference set back to zero.
pub open spec fn cleared_split(split: SplitView) -> SplitView {
    SplitView { name: split.name, time: split.time, comparison: split.comparison, time_difference: 0 }
}

/// The split named `name` before anything was observed for it.
pub open spec fn fresh_split(name: Seq<char>) -> SplitView {
    SplitView { name: name, time: 0, comparison: 0, time_difference: 0 }
}

/// The splits of a run whose segments are named `names`, before it started.
pub open spec fn fresh_splits(names: Seq<Seq<char>>) -> Seq<SplitView> {
    Seq::new(names.len(), |i: int| fresh_split(names[i]))
}

/// The names of `splits`, in order.
pub open spec fn split_names(splits: Seq<SplitView>) -> Seq<Seq<char>> {
    Seq::new(splits.len(), |i: int| splits[i].name)
}

/// Every split of `splits` with its difference set back to zero.
pub open spec fn cleared_splits(splits: Seq<SplitView>) -> Seq<SplitView> {
    Seq::new(splits.len(), |i: int| cleared_split(splits[i]))
}

/// The nanoseconds of a time that the engine may lack: zero where it is
/// absent.
pub open spec fn or_zero(time: Option<int>) -> int {
    match time {
        Some(nanos) => nanos,
        None => 0,
    }
}

/// The splits `splits` after a start or a split, `segments` being what the
/// engine then holds: every split that has a segment is updated with the
/// segment's split time and comparison, where an absent one counts as zero.
pub open spec fn splits_after_split(splits: Seq<SplitView>, segments: Seq<SegmentView>) -> Seq<
    SplitView,
> {
    Seq::new(
        splits.len(),
        |i: int|
            if i < segments.len() {
                updated_split(
                    splits[i],
                    or_zero(segments[i].split_time),
                    or_zero(segments[i].comparison),
                )
            } else {
                splits[i]
            },
    )
}

/// The splits `splits` after the comparisons of `segments` were loaded into
/// them: every split whose segment has a comparison is updated with the time
/// zero and that comparison.
pub open spec fn splits_after_load(splits: Seq<SplitView>, segments: Seq<SegmentView>) -> Seq<
    SplitView,
> {
    Seq::new(
        splits.len(),
        |i: int|
            if i < segments.len() && segments[i].comparison is Some {
                updated_split(splits[i], 0, or_zero(segments[i].comparison))
            } else {
                splits[i]
            },
    )
}

/// The splits `splits` after a reset, `segments` being what the engine then
/// holds: every split that has a segment is updated with the time zero and
/// the segment's comparison, where an absent one counts as zero, and then
/// the difference of every split is set back to zero.
pub open spec fn splits_after_reset(splits: Seq<SplitView>, segments: Seq<SegmentView>) -> Seq<
    SplitView,
> {
    Seq::new(
        splits.len(),
        |i: int|
            if i < segments.len() {
                cleared_split(updated_split(splits[i], 0, or_zero(segments[i].comparison)))
            } else {
                cleared_split(splits[i])
            },
    )
}

/// The splits `splits` after another comparison was selected, `segments`
/// being what the engine then holds: every split that has a segment is
/// refreshed with the segment's comparison, where an absent one counts as
/// zero.
pub open spec fn splits_after_switch(splits: Seq<SplitView>, segments: Seq<SegmentView>) -> Seq<
    SplitView,
> {
    Seq::new(
        splits.len(),
        |i: int|
            if i < segments.len() {
                refreshed_split(splits[i], or_zero(segments[i].comparison))
            } else {
                splits[i]
            },
    )
}

/// No operation adds, removes or renames a split: after each of them the
/// splits are as many as before and bear the same names.
pub proof fn splits_keep_number_and_names(splits: Seq<SplitView>, segments: Seq<SegmentView>)
    ensures
        split_names(splits_after_split(splits, segments)) == split_names(splits),
        split_names(splits_after_load(splits, segments)) == split_names(splits),
        split_names(splits_after_reset(splits, segments)) == split_names(splits),
        split_names(splits_after_switch(splits, segments)) == split_names(splits),
        split_names(cleared_splits(splits)) == split_names(splits),
{
    assert(split_names(splits_after_split(splits, segments)) =~= split_names(splits));
    assert(split_names(splits_after_load(splits, segments)) =~= split_names(splits));
    assert(split_names(splits_after_reset(splits, segments)) =~= split_names(splits));
    assert(split_names(splits_after_switch(splits, segments)) =~= split_names(splits));
    assert(split_names(cleared_splits(splits)) =~= split_names(splits));
}

/// After an update with a time longer than zero, the difference of the split
/// is its time less its comparison, the comparison being the observed one
/// where that is longer than zero and the one that the split held otherwise.
pub proof fn update_split_difference(split: SplitView, time: int, comparison: int)
    requires
        time > 0,
    ensures
        updated_split(split, time, comparison).time == time,
        updated_split(split, time, comparison).comparison == if comparison > 0 {
            comparison
        } else {
            split.comparison
        },
        updated_split(split, time, comparison).time_difference == updated_split(
            split,
            time,
            comparison,
        ).time - updated_split(split, time, comparison).comparison,
{
}

/// After a reset every split that has a segment shows the time zero and the
/// comparison of its segment, if that is longer than zero, and every split
/// shows the difference zero. A second reset on the same segments changes
/// nothing.
pub proof fn reset_is_idempotent(splits: Seq<SplitView>, segments: Seq<SegmentView>)
    ensures
        splits_after_reset(splits_after_reset(splits, segments), segments) == splits_after_reset(
            splits,
            segments,
        ),
        splits_after_reset(splits, segments).len() == splits.len(),
        forall|i: int|
            0 <= i < splits.len() ==> (#[trigger] splits_after_reset(
                splits,
                segments,
            )[i]).time_difference == 0,
        forall|i: int|
            0 <= i < splits.len() && i < segments.len() ==> {
                &&& (#[trigger] splits_after_reset(splits, segments)[i]).time == 0
                &&& splits_after_reset(splits, segments)[i].comparison == if or_zero(
                    segments[i].comparison,
                ) > 0 {
                    or_zero(segments[i].comparison)
                } else {
                    splits[i].comparison
                }
            },
{
    assert(splits_after_reset(splits_after_reset(splits, segments), segments)
        =~= splits_after_reset(splits, segments));
}

/// Selecting another comparison changes no split's name or time: only the
/// comparison and the difference of a split may change.
pub proof fn switch_keeps_times(splits: Seq<SplitView>, segments: Seq<SegmentView>)
    ensures
        splits_after_switch(splits, segments).len() == splits.len(),
        forall|i: int|
            0 <= i < splits.len() ==> {
                &&& (#[trigger] splits_after_switch(splits, segments)[i]).name == splits[i].name
                &&& splits_after_switch(splits, segments)[i].time == splits[i].time
            },
{
}

/// The width of a name on screen: the length of its UTF-8 encoding.
pub open spec fn name_width(name: Seq<char>) -> nat {
    encode_utf8(name).len()
}

/// The width of the widest of `names`, zero where there is none.
pub open spec fn longest_name(names: Seq<Seq<char>>) -> nat
    decreases names.len(),
{
    if names.len() == 0 {
        0
    } else {
        let rest = longest_name(names.drop_last());
        let last = name_width(names.last());
        if last > rest {
            last
        } else {
            rest
        }
    }
}

/// Errors while displaying the timer. The two lock errors are for the caller
/// that shares the timer and the splits between threads.
#[derive(Debug, PartialEq, Eq)]
pub enum UIError {
    /// The timer's lock is poisoned and cannot be taken for reading.
    TimerReadLock,
    /// The lock of the splits is poisoned and cannot be taken for reading.
    SplitsReadLock,
    /// Other types of errors, by what they say.
    Other(String),
}

impl From<String> for UIError {
    fn from(e: String) -> (error: UIError) {
        UIError::Other(e)
    }
}

impl vstd::std_specs::convert::FromSpecImpl<String> for UIError {
    open spec fn obeys_from_spec() -> bool {
        true
    }

    open spec fn from_spec(e: String) -> UIError {
        UIError::Other(e)
    }
}

/// What is said of a negative time where only a positive one can be shown.
pub const NEGATIVE_TIME: &'static str =
    "Usage of negative time in function that only accepts positive time";

/// The decimal digit `d` as a character.
pub open spec fn digit(d: int) -> char {
    if d == 0 {
        '0'
    } else if d == 1 {
        '1'
    } else if d == 2 {
        '2'
    } else if d == 3 {
        '3'
    } else if d == 4 {
        '4'
    } else if d == 5 {
        '5'
    } else if d == 6 {
        '6'
    } else if d == 7 {
        '7'
    } else if d == 8 {
        '8'
    } else {
        '9'
    }
}

/// A number below one hundred in two decimal digits.
pub open spec fn two_digits(n: int) -> Seq<char> {
    seq![digit(n / 10), digit(n % 10)]
}

/// A number below one thousand in three decimal digits.
pub open spec fn three_digits(n: int) -> Seq<char> {
    seq![digit(n / 100), digit((n / 10) % 10), digit(n % 10)]
}

/// The hours of `nanos` nanoseconds on a clock of twenty-four hours.
pub open spec fn clock_hours(nanos: int) -> int {
    (nanos / (NANOS_PER_HOUR as int)) % 24
}

/// The minutes of `nanos` nanoseconds past the full hour.
pub open spec fn clock_minutes(nanos: int) -> int {
    (nanos / (NANOS_PER_MINUTE as int)) % 60
}

/// The seconds of `nanos` nanoseconds past the full minute.
pub open spec fn clock_seconds(nanos: int) -> int {
    (nanos / (NANOS_PER_SECOND as int)) % 60
}

/// The milliseconds of `nanos` nanoseconds past the full second.
pub open spec fn clock_milliseconds(nanos: int) -> int {
    (nanos / (NANOS_PER_MILLISECOND as int)) % 1000
}

/// A count of nanoseconds that is not negative as `hh:mm:ss.mmm`. Days are
/// not shown: the hours start again at zero after twenty-four.
pub open spec fn clock_text(nanos: int) -> Seq<char> {
    two_digits(clock_hours(nanos)) + seq![':'] + two_digits(clock_minutes(nanos)) + seq![':']
        + two_digits(clock_seconds(nanos)) + seq!['.'] + three_digits(clock_milliseconds(nanos))
}

/// A count of nanoseconds without its sign.
pub open spec fn magnitude(nanos: int) -> int {
    if nanos < 0 {
        -nanos
    } else {
        nanos
    }
}

/// The length of `nanos` nanoseconds, without its sign, as `hh:mm:ss.mmm`
/// shortened: the hours are left out where they are zero, and with them the
/// minutes where those are zero too.
pub open spec fn timesave_text(nanos: int) -> Seq<char> {
    let length = magnitude(nanos);
    if clock_hours(length) != 0 {
        clock_text(length)
    } else if clock_minutes(length) != 0 {
        clock_text(length).skip(3)
    } else {
        clock_text(length).skip(6)
    }
}

/// The sign that a difference is shown with: minus for a time save, plus for
/// a time loss, a blank for none.
pub open spec fn sign_of(nanos: int) -> char {
    if nanos < 0 {
        '-'
    } else if nanos > 0 {
        '+'
    } else {
        ' '
    }
}

/// A difference of `nanos` nanoseconds with its sign in front.
pub open spec fn signed_timesave_text(nanos: int) -> Seq<char> {
    seq![sign_of(nanos)] + timesave_text(nanos)
}

fn digit_text(d: u8) -> (text: &'static str)
    requires
        d < 10,
    ensures
        text@ == seq![digit(d as int)],
{
    proof {
        reveal_strlit("0");
        reveal_strlit("1");
        reveal_strlit("2");
        reveal_strlit("3");
        reveal_strlit("4");
        reveal_strlit("5");
        reveal_strlit("6");
        reveal_strlit("7");
        reveal_strlit("8");
        reveal_strlit("9");
    }
    let text = if d == 0 {
        "0"
    } else if d == 1 {
        "1"
    } else if d == 2 {
        "2"
    } else if d == 3 {
        "3"
    } else if d == 4 {
        "4"
    } else if d == 5 {
        "5"
    } else if d == 6 {
        "6"
    } else if d == 7 {
        "7"
    } else if d == 8 {
        "8"
    } else {
        "9"
    };
    assert(text@ =~= seq![digit(d as int)]);
    text
}

fn push_two_digits(text: &mut String, n: u8)
    requires
        n < 100,
    ensures
        final(text)@ == old(text)@ + two_digits(n as int),
{
    text.append(digit_text(n / 10));
    text.append(digit_text(n % 10));
    assert(text@ =~= old(text)@ + two_digits(n as int));
}

fn push_three_digits(text: &mut String, n: u16)
    requires
        n < 1000,
    ensures
        final(text)@ == old(text)@ + three_digits(n as int),
{
    text.append(digit_text((n / 100) as u8));
    text.append(digit_text(((n / 10) % 10) as u8));
    text.append(digit_text((n % 10) as u8));
    assert(text@ =~= old(text)@ + three_digits(n as int));
}

fn push_colon(text: &mut String)
    ensures
        final(text)@ == old(text)@ + seq![':'],
{
    proof {
        reveal_strlit(":");
    }
    text.append(":");
    assert(text@ =~= old(text)@ + seq![':']);
}

fn push_seconds(text: &mut String, length: i128)
    requires
        0 <= length,
    ensures
        final(text)@ == old(text)@ + two_digits(clock_seconds(length as int)) + seq!['.']
            + three_digits(clock_milliseconds(length as int)),
{
    proof {
        reveal_strlit(".");
    }
    let seconds = ((length / NANOS_PER_SECOND) % 60) as u8;
    let milliseconds = ((length / NANOS_PER_MILLISECOND) % 1000) as u16;
    push_two_digits(text, seconds);
    text.append(".");
    push_three_digits(text, milliseconds);
    assert(text@ =~= old(text)@ + two_digits(clock_seconds(length as int)) + seq!['.']
        + three_digits(clock_milliseconds(length as int)));
}

/// Formats `time` as `hh:mm:ss.mmm`. A negative time is refused.
pub fn format_timespan(time: TimeSpan) -> (text: Result<String, UIError>)
    ensures
        text is Ok <==> time@ >= 0,
        text matches Ok(t) ==> t@ == clock_text(time@),
        text matches Err(error) ==> (error matches UIError::Other(message) && message@
            == NEGATIVE_TIME@),
{
    let nanos = time.nanoseconds();
    if nanos < 0 {
        return Err(UIError::Other(String::from_str(NEGATIVE_TIME)));
    }
    let hours = ((nanos / NANOS_PER_HOUR) % 24) as u8;
    let minutes = ((nanos / NANOS_PER_MINUTE) % 60) as u8;
    let mut text = String::new();
    push_two_digits(&mut text, hours);
    push_colon(&mut text);
    push_two_digits(&mut text, minutes);
    push_colon(&mut text);
    push_seconds(&mut text, nanos);
    assert(text@ =~= clock_text(time@));
    Ok(text)
}

/// Formats the length of `delta`, without its sign, as `hh:mm:ss.mmm` and
/// shortens the text where possible: the seconds are always shown, the hours
/// only where they are not zero, and the minutes where they or the hours are
/// not zero.
pub fn format_timesave(delta: TimeDelta) -> (text: String)
    ensures
        text@ == timesave_text(delta@),
{
    let nanos = delta.nanoseconds();
    let length = if nanos < 0 {
        -nanos
    } else {
        nanos
    };
    let hours = ((length / NANOS_PER_HOUR) % 24) as u8;
    let minutes = ((length / NANOS_PER_MINUTE) % 60) as u8;
    let mut text = String::new();
    if hours != 0 {
        push_two_digits(&mut text, hours);
        push_colon(&mut text);
        push_two_digits(&mut text, minutes);
        push_colon(&mut text);
    } else if minutes != 0 {
        push_two_digits(&mut text, minutes);
        push_colon(&mut text);
    }
    push_seconds(&mut text, length);
    assert(text@ =~= timesave_text(delta@));
    text
}

/// The name of a comparison as the head of its column shows it: a name of
/// thirteen characters or more is cut down to its first ten, with three dots
/// after them.
pub open spec fn shown_name(name: Seq<char>) -> Seq<char> {
    if name.len() >= 13 {
        name.take(10) + "..."@
    } else {
        name
    }
}

/// The name of a comparison as the head of its column shows it.
pub fn shown_comparison_name(name: &str) -> (shown: String)
    ensures
        shown@ == shown_name(name@),
{
    if name.unicode_len() >= 13 {
        let mut shown = String::from_str(name.substring_char(0, 10));
        shown.append("...");
        assert(name@.subrange(0, 10) == name@.take(10));
        shown
    } else {
        String::from_str(name)
    }
}

/// The times of one split.
#[derive(Clone, Copy, Debug, PartialEq, Eq)]
struct SplitTimes {
    time: TimeSpan,
    comparison: TimeSpan,
    time_difference: TimeDelta,
}

/// Time splits of a speedrun.
#[derive(Debug, PartialEq, Eq)]
pub struct Splits {
    names: Vec<String>,
    times: Vec<SplitTimes>,
    name_padding: usize,
}

impl View for Splits {
    type V = Seq<SplitView>;

    /// The splits in the order of the run's segments.
    closed spec fn view(&self) -> Seq<SplitView> {
        Seq::new(
            self.times@.len(),
            |i: int|
                SplitView {
                    name: self.names@[i]@,
                    time: self.times@[i].time@,
                    comparison: self.times@[i].comparison@,
                    time_difference: self.times@[i].time_difference@,
                },
        )
    }
}

impl Default for Splits {
    /// The splits of a run without segments.
    fn default() -> (splits: Splits)
        ensures
            splits@ == Seq::<SplitView>::empty(),
    {
        Splits::new(Vec::new())
    }
}

impl Splits {
    spec fn names_view(self) -> Seq<Seq<char>> {
        Seq::new(self.names@.len(), |i: int| self.names@[i]@)
    }

    #[verifier::type_invariant]
    spec fn well_formed(self) -> bool {
        &&& self.names@.len() == self.times@.len()
        &&& self.name_padding == longest_name(self.names_view())
    }

    /// Creates the splits of a run from the names of its segments.
    pub fn new(split_names: Vec<String>) -> (splits: Splits)
        ensures
            splits@ == fresh_splits(split_names.deep_view()),
    {
        let mut times: Vec<SplitTimes> = Vec::new();
        let mut name_padding: usize = 0;
        let ghost names = Seq::new(split_names@.len(), |i: int| split_names@[i]@);
        let mut i: usize = 0;
        while i < split_names.len()
            invariant
                i <= split_names@.len(),
                names == Seq::new(split_names@.len(), |k: int| split_names@[k]@),
                times@.len() == i,
                forall|k: int|
                    0 <= k < i ==> (#[trigger] times@[k]).time@ == 0 && times@[k].comparison@ == 0
                        && times@[k].time_difference@ == 0,
                name_padding == longest_name(names.take(i as int)),
            decreases split_names@.len() - i,
        {
            let width = split_names[i].as_str().as_bytes().len();
            proof {
                assert(names.take(i + 1).drop_last() == names.take(i as int));
                assert(names.take(i + 1).last() == split_names@[i as int]@);
            }
            if width > name_padding {
                name_padding = width;
            }
            times.push(
                SplitTimes {
                    time: TimeSpan::zero(),
                    comparison: TimeSpan::zero(),
                    time_difference: TimeDelta::zero(),
                },
            );
            i += 1;
        }
        proof {
            assert(names.take(i as int) == names);
        }
        let splits = Splits { names: split_names, times, name_padding };
        proof {
            assert(splits.names_view() == names);
            assert(splits@ =~= fresh_splits(split_names.deep_view()));
        }
        splits
    }

    /// Returns the number of splits.
    pub fn len(&self) -> (len: usize)
        ensures
            len == self@.len(),
    {
        self.times.len()
    }

    /// The width of the longest split name, by which names are padded on
    /// screen.
    pub fn name_padding(&self) -> (width: usize)
        ensures
            width == longest_name(split_names(self@)),
    {
        proof {
            use_type_invariant(self);
            assert(self.names_view() == split_names(self@));
        }
        self.name_padding
    }

    /// Updates displayed split `i` with the time and the comparison observed
    /// for its segment.
    pub fn update_split(&mut self, i: usize, time: TimeSpan, comparison: TimeSpan)
        requires
            i < old(self)@.len(),
        ensures
            final(self)@ == old(self)@.update(
                i as int,
                updated_split(old(self)@[i as int], time@, comparison@),
            ),
    {
        proof {
            use_type_invariant(&*self);
        }
        self.times[i].time = time;
        if comparison.is_positive() {
            self.times[i].comparison = comparison;
        }
        if time.is_positive() {
            let shown = self.times[i].comparison;
            self.times[i].time_difference = time.minus(shown);
        }
    }

    /// Sets the difference of every split back to zero.
    pub fn clear_time_differences(&mut self)
        ensures
            final(self)@ == cleared_splits(old(self)@),
    {
        proof {
            use_type_invariant(&*self);
        }
        let mut i: usize = 0;
        while i < self.times.len()
            invariant
                self.well_formed(),
                i <= self.times@.len(),
                self.names == old(self).names,
                self.times@.len() == old(self).times@.len(),
                forall|k: int|
                    0 <= k < i ==> (#[trigger] self.times@[k]).time == old(self).times@[k].time
                        && self.times@[k].comparison == old(self).times@[k].comparison
                        && self.times@[k].time_difference@ == 0,
                forall|k: int|
                    i <= k < self.times@.len() ==> (#[trigger] self.times@[k]) == old(
                        self,
                    ).times@[k],
            decreases self.times@.len() - i,
        {
            self.times[i].time_difference = TimeDelta::zero();
            i += 1;
        }
    }

    /// Refreshes displayed split `i` after another comparison was selected,
    /// for which its segment holds `comparison`.
    pub fn refresh_splits(&mut self, i: usize, comparison: TimeSpan)
        requires
            i < old(self)@.len(),
        ensures
            final(self)@ == old(self)@.update(
                i as int,
                refreshed_split(old(self)@[i as int], comparison@),
            ),
    {
        proof {
            use_type_invariant(&*self);
        }
        self.times[i].comparison = comparison;
        let time = self.times[i].time;
        if time.is_positive() {
            self.times[i].time_difference = time.minus(comparison);
        }
    }

    /// The name of split `i`.
    pub fn get_split_name(&self, i: usize) -> (name: String)
        requires
            i < self@.len(),
        ensures
            name@ == self@[i as int].name,
    {
        proof {
            use_type_invariant(self);
        }
        self.names[i].clone()
    }

    /// The recorded time of split `i`.
    pub fn time(&self, i: usize) -> (time: TimeSpan)
        requires
            i < self@.len(),
        ensures
            time@ == self@[i as int].time,
    {
        self.times[i].time
    }

    /// The comparison time of split `i`.
    pub fn comparison(&self, i: usize) -> (comparison: TimeSpan)
        requires
            i < self@.len(),
        ensures
            comparison@ == self@[i as int].comparison,
    {
        self.times[i].comparison
    }

    /// The difference between the recorded time of split `i` and its
    /// comparison, as it was last computed.
    pub fn time_difference(&self, i: usize) -> (delta: TimeDelta)
        requires
            i < self@.len(),
        ensures
            delta@ == self@[i as int].time_difference,
    {
        self.times[i].time_difference
    }

    /// The recorded time of split `i` as text.
    pub fn get_time(&self, i: usize) -> (text: Result<String, UIError>)
        requires
            i < self@.len(),
        ensures
            text is Ok <==> self@[i as int].time >= 0,
            text matches Ok(t) ==> t@ == clock_text(self@[i as int].time),
            text matches Err(error) ==> (error matches UIError::Other(message) && message@
                == NEGATIVE_TIME@),
    {
        format_timespan(self.times[i].time)
    }

    /// The comparison time of split `i` as text.
    pub fn get_comparison(&self, i: usize) -> (text: Result<String, UIError>)
        requires
            i < self@.len(),
        ensures
            text is Ok <==> self@[i as int].comparison >= 0,
            text matches Ok(t) ==> t@ == clock_text(self@[i as int].comparison),
            text matches Err(error) ==> (error matches UIError::Other(message) && message@
                == NEGATIVE_TIME@),
    {
        format_timespan(self.times[i].comparison)
    }

    /// The difference of split `i` as text, with its sign in front: a minus
    /// indicates a time save.
    pub fn get_time_difference(&self, i: usize) -> (text: String)
        requires
            i < self@.len(),
        ensures
            text@ == signed_timesave_text(self@[i as int].time_difference),
    {
        proof {
            reveal_strlit("-");
            reveal_strlit("+");
            reveal_strlit(" ");
        }
        let time_difference = self.times[i].time_difference;
        let sign = if time_difference.is_negative() {
            "-"
        } else if time_difference.is_positive() {
            "+"
        } else {
            " "
        };
        let mut text = String::new();
        text.append(sign);
        let length = format_timesave(time_difference);
        text.append(length.as_str());
        assert(text@ =~= signed_timesave_text(self@[i as int].time_difference));
        text
    }

    /// Takes over, after a start or a split, what the engine holds for each
    /// segment.
    pub fn record_times(&mut self, segments: &Vec<SegmentTimes>)
        requires
            segments@.len() <= old(self)@.len(),
        ensures
            final(self)@ == splits_after_split(old(self)@, segment_views(segments@)),
    {
        let ghost views = segment_views(segments@);
        let mut i: usize = 0;
        while i < segments.len()
            invariant
                i <= segments@.len() <= self@.len(),
                views == segment_views(segments@),
                self@ == splits_after_split(old(self)@, views.take(i as int)),
            decreases segments@.len() - i,
        {
            let comparison = match segments[i].comparison {
                Some(span) => span,
                None => TimeSpan::zero(),
            };
            match segments[i].split_time {
                Some(time) => self.update_split(i, time, comparison),
                None => self.update_split(i, TimeSpan::zero(), comparison),
            }
            i += 1;
        }
        proof {
            assert(views.take(i as int) == views);
        }
    }

    /// Loads the comparison of each segment that has one, as at the start of
    /// the program.
    pub fn load_comparisons(&mut self, segments: &Vec<SegmentTimes>)
        requires
            segments@.len() <= old(self)@.len(),
        ensures
            final(self)@ == splits_after_load(old(self)@, segment_views(segments@)),
    {
        let ghost views = segment_views(segments@);
        let mut i: usize = 0;
        while i < segments.len()
            invariant
                i <= segments@.len() <= self@.len(),
                views == segment_views(segments@),
                self@ == splits_after_load(old(self)@, views.take(i as int)),
            decreases segments@.len() - i,
        {
            if let Some(comparison) = segments[i].comparison {
                self.update_split(i, TimeSpan::zero(), comparison);
            }
            i += 1;
        }
        proof {
            assert(views.take(i as int) == views);
        }
    }

    /// Clears the display after a reset and takes over the comparison that
    /// the engine holds for each segment.
    pub fn reset_times(&mut self, segments: &Vec<SegmentTimes>)
        requires
            segments@.len() <= old(self)@.len(),
        ensures
            final(self)@ == splits_after_reset(old(self)@, segment_views(segments@)),
    {
        let ghost views = segment_views(segments@);
        let mut i: usize = 0;
        while i < segments.len()
            invariant
                i <= segments@.len() <= self@.len(),
                views == segment_views(segments@),
                self@.len() == old(self)@.len(),
                forall|k: int|
                    0 <= k < i ==> #[trigger] self@[k] == updated_split(
                        old(self)@[k],
                        0,
                        or_zero(views[k].comparison),
                    ),
                forall|k: int| i <= k < self@.len() ==> #[trigger] self@[k] == old(self)@[k],
            decreases segments@.len() - i,
        {
            let comparison = match segments[i].comparison {
                Some(span) => span,
                None => TimeSpan::zero(),
            };
            self.update_split(i, TimeSpan::zero(), comparison);
            i += 1;
        }
        self.clear_time_differences();
    }

    /// Takes over, after another comparison was selected, the comparison
    /// that the engine holds for each segment.
    pub fn refresh_comparisons(&mut self, segments: &Vec<SegmentTimes>)
        requires
            segments@.len() <= old(self)@.len(),
        ensures
            final(self)@ == splits_after_switch(old(self)@, segment_views(segments@)),
    {
        let ghost views = segment_views(segments@);
        let mut i: usize = 0;
        while i < segments.len()
            invariant
                i <= segments@.len() <= self@.len(),
                views == segment_views(segments@),
                self@ == splits_after_switch(old(self)@, views.take(i as int)),
            decreases segments@.len() - i,
        {
            let comparison = match segments[i].comparison {
                Some(span) => span,
                None => TimeSpan::zero(),
            };
            self.refresh_splits(i, comparison);
            i += 1;
        }
        proof {
            assert(views.take(i as int) == views);
        }
    }
}

} // verus!
