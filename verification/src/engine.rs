//! The timing engine, as far as the control operations read and drive it.
//!
//! The engine is `livesplit_core`'s `Timer`. It owns the run: the phase, the
//! ordered segments with the split times of the current attempt, and the
//! comparison that is currently selected. Nothing in here is proved of the
//! engine itself: each function that calls it states what its source shows.
use crate::time_span::{span_in_range, TimeSpan};
use livesplit_core::Timer;
use vstd::prelude::*;

verus! {

/// The timing engine.
#[verifier::external_type_specification]
#[verifier::external_body]
pub struct ExTimer(livesplit_core::Timer);

/// The phase of a run.
#[derive(Clone, Copy, Debug, PartialEq, Eq, Structural)]
pub enum Phase {
    /// There is no attempt in progress.
    NotRunning,
    /// An attempt is in progress and its clock runs.
    Running,
    /// An attempt is in progress and its clock is halted.
    Paused,
    /// The last segment of the attempt was completed.
    Ended,
}

/// What the engine holds for one segment, in nanoseconds: the real-time split
/// time of the current attempt, and the real time of the selected comparison.
/// Either may be absent.
pub struct SegmentView {
    pub split_time: Option<int>,
    pub comparison: Option<int>,
}

/// What the engine holds for one segment.
#[derive(Clone, Copy, Debug, PartialEq, Eq)]
pub struct SegmentTimes {
    /// The real-time split time of the current attempt.
    pub split_time: Option<TimeSpan>,
    /// The real time of the selected comparison.
    pub comparison: Option<TimeSpan>,
}

/// The nanoseconds of a time that may be absent.
pub open spec fn nanoseconds_of(time: Option<TimeSpan>) -> Option<int> {
    match time {
        Some(span) => Some(span@),
        None => None,
    }
}

impl View for SegmentTimes {
    type V = SegmentView;

    open spec fn view(&self) -> SegmentView {
        SegmentView {
            split_time: nanoseconds_of(self.split_time),
            comparison: nanoseconds_of(self.comparison),
        }
    }
}

/// The views of `segments`, in order.
pub open spec fn segment_views(segments: Seq<SegmentTimes>) -> Seq<SegmentView> {
    Seq::new(segments.len(), |i: int| segments[i]@)
}

/// The phase that `timer` is in.
pub uninterp spec fn timer_phase(timer: Timer) -> Phase;

/// The segments of the run that `timer` holds, in order, each with its split
/// time and with its time under the comparison that `timer` has selected.
pub uninterp spec fn timer_segments(timer: Timer) -> Seq<SegmentView>;

/// The names of the comparisons of the run that `timer` holds, in the order
/// of the run's list: the custom ones first, then the generated ones.
pub uninterp spec fn timer_comparison_names(timer: Timer) -> Seq<Seq<char>>;

/// The name of the comparison that `timer` has selected.
pub uninterp spec fn timer_selected_comparison(timer: Timer) -> Seq<char>;

/// The real time, in nanoseconds, that segment `segment` of the run of
/// `timer` holds under the comparison named `comparison`, if it holds one.
pub uninterp spec fn timer_comparison_time(
    timer: Timer,
    segment: int,
    comparison: Seq<char>,
) -> Option<int>;

/// How far the first occurrence of `name` stands from the start of `names`:
/// the length of `names` where it does not occur.
pub open spec fn position_of(names: Seq<Seq<char>>, name: Seq<char>) -> int
    decreases names.len(),
{
    if names.len() == 0 || names[0] == name {
        0
    } else {
        1 + position_of(names.skip(1), name)
    }
}

/// The comparison that follows `selected` in `names`, the first one
/// following the last.
pub open spec fn next_comparison(names: Seq<Seq<char>>, selected: Seq<char>) -> Seq<char> {
    names[(position_of(names, selected) + 1) % (names.len() as int)]
}

/// Whether `after` has the list of comparisons of `before` and the same one
/// selected.
pub open spec fn same_selection(before: Timer, after: Timer) -> bool {
    &&& timer_comparison_names(after) == timer_comparison_names(before)
    &&& timer_selected_comparison(after) == timer_selected_comparison(before)
}

/// Whether `after` has the segments of `before` with the same comparison
/// times.
pub open spec fn same_comparisons(before: Seq<SegmentView>, after: Seq<SegmentView>) -> bool {
    &&& after.len() == before.len()
    &&& forall|i: int| 0 <= i < before.len() ==> (#[trigger] after[i]).comparison == before[i].comparison
}

/// Whether `after` has the segments of `before` with the same split times.
pub open spec fn same_split_times(before: Seq<SegmentView>, after: Seq<SegmentView>) -> bool {
    &&& after.len() == before.len()
    &&& forall|i: int| 0 <= i < before.len() ==> (#[trigger] after[i]).split_time == before[i].split_time
}

/// Whether each segment of `after` has the split time it has in `before`, or
/// a recorded one that is not negative.
pub open spec fn split_times_kept_or_recorded(
    before: Seq<SegmentView>,
    after: Seq<SegmentView>,
) -> bool {
    &&& after.len() == before.len()
    &&& forall|i: int|
        0 <= i < before.len() ==> {
            ||| (#[trigger] after[i]).split_time == before[i].split_time
            ||| (after[i].split_time matches Some(time) && time >= 0)
        }
}

/// Whether no segment of `segments` has a split time.
pub open spec fn no_split_times(segments: Seq<SegmentView>) -> bool {
    forall|i: int| 0 <= i < segments.len() ==> (#[trigger] segments[i]).split_time is None
}

/// Whether `after` shows the phase, the segments and the selection of
/// `before`.
pub open spec fn unchanged(before: Timer, after: Timer) -> bool {
    &&& timer_phase(after) == timer_phase(before)
    &&& timer_segments(after) == timer_segments(before)
    &&& same_selection(before, after)
}

/// Calls `Timer::current_phase`, which hands out the phase stored in the
/// timer. The four phases of the engine are mapped one to one.
#[verifier::external_body]
pub(crate) fn current_phase(timer: &Timer) -> (phase: Phase)
    ensures
        phase == timer_phase(*timer),
{
    match timer.current_phase() {
        livesplit_core::TimerPhase::NotRunning => Phase::NotRunning,
        livesplit_core::TimerPhase::Running => Phase::Running,
        livesplit_core::TimerPhase::Paused => Phase::Paused,
        livesplit_core::TimerPhase::Ended => Phase::Ended,
    }
}

/// Calls `Run::len` on the timer's run: the number of its segments.
#[verifier::external_body]
pub(crate) fn segment_count(timer: &Timer) -> (count: usize)
    ensures
        count == timer_segments(*timer).len(),
{
    timer.run().len()
}

/// Reads the real-time split time of segment `i` through `Run::segment` and
/// `Segment::split_time`, in the nanoseconds that `Duration::whole_nanoseconds`
/// gives. `Run::segment` panics on an index out of bounds. A duration holds
/// whole seconds in an `i64` and less than a second in nanoseconds, so the
/// count lies in the range of a time span.
#[verifier::external_body]
fn segment_split_time(timer: &Timer, i: usize) -> (nanos: Option<i128>)
    requires
        i < timer_segments(*timer).len(),
    ensures
        nanos matches Some(n) ==> span_in_range(n as int),
        timer_segments(*timer)[i as int].split_time == match nanos {
            Some(n) => Some(n as int),
            None => None,
        },
{
    timer.run().segment(i).split_time().real_time.map(|t| t.to_duration().whole_nanoseconds())
}

/// Reads the real time that segment `i` holds for the comparison selected in
/// the timer, through `Run::segment`, `Timer::current_comparison` and
/// `Segment::comparison`, in the nanoseconds that `Duration::whole_nanoseconds`
/// gives. A segment without a time for that comparison yields `None`.
/// `Run::segment` panics on an index out of bounds.
#[verifier::external_body]
fn segment_comparison(timer: &Timer, i: usize) -> (nanos: Option<i128>)
    requires
        i < timer_segments(*timer).len(),
    ensures
        nanos matches Some(n) ==> span_in_range(n as int),
        timer_segments(*timer)[i as int].comparison == match nanos {
            Some(n) => Some(n as int),
            None => None,
        },
        timer_comparison_time(*timer, i as int, timer_selected_comparison(*timer)) == match nanos {
            Some(n) => Some(n as int),
            None => None,
        },
{
    let segment = timer.run().segment(i);
    segment.comparison(timer.current_comparison()).real_time.map(
        |t| t.to_duration().whole_nanoseconds(),
    )
}

/// Whether the last segment of `segments` has a split time that is not
/// negative.
pub open spec fn last_split_recorded(segments: Seq<SegmentView>) -> bool {
    &&& segments.len() > 0
    &&& segments.last().split_time matches Some(time)
    &&& time >= 0
}

/// What a start or a split does to the engine. A timer that is not running
/// starts: it becomes running and its segments stay as they are. A running
/// timer may record a split time, and it ends only with a split time for its
/// last segment. A paused or ended timer is left alone. No comparison time
/// changes, and the selected comparison stays.
pub open spec fn started_or_split(before: Timer, after: Timer) -> bool {
    &&& same_selection(before, after)
    &&& same_comparisons(timer_segments(before), timer_segments(after))
    &&& split_times_kept_or_recorded(timer_segments(before), timer_segments(after))
    &&& match timer_phase(before) {
        Phase::NotRunning => {
            &&& timer_phase(after) == Phase::Running
            &&& timer_segments(after) == timer_segments(before)
        },
        Phase::Running => {
            ||| timer_phase(after) == Phase::Running
            ||| (timer_phase(after) == Phase::Ended && last_split_recorded(
                timer_segments(after),
            ))
        },
        Phase::Paused => unchanged(before, after),
        Phase::Ended => unchanged(before, after),
    }
}

/// What a reset does to the engine. A timer that is not running is left
/// alone. Any other becomes not running and loses every split time; its
/// comparison times may change, its segments stay the same in number. The
/// selected comparison stays.
pub open spec fn was_reset(before: Timer, after: Timer) -> bool {
    &&& timer_phase(after) == Phase::NotRunning
    &&& timer_selected_comparison(after) == timer_selected_comparison(before)
    &&& timer_segments(after).len() == timer_segments(before).len()
    &&& timer_phase(before) == Phase::NotRunning ==> unchanged(before, after)
    &&& timer_phase(before) != Phase::NotRunning ==> no_split_times(timer_segments(after))
}

/// What a pause does to the engine: a running timer becomes paused, any
/// other keeps its phase, and neither a segment nor the selection changes.
pub open spec fn was_paused(before: Timer, after: Timer) -> bool {
    &&& timer_segments(after) == timer_segments(before)
    &&& same_selection(before, after)
    &&& timer_phase(after) == if timer_phase(before) == Phase::Running {
        Phase::Paused
    } else {
        timer_phase(before)
    }
}

/// What a resume does to the engine: a paused timer becomes running, any
/// other keeps its phase, and neither a segment nor the selection changes.
pub open spec fn was_resumed(before: Timer, after: Timer) -> bool {
    &&& timer_segments(after) == timer_segments(before)
    &&& same_selection(before, after)
    &&& timer_phase(after) == if timer_phase(before) == Phase::Paused {
        Phase::Running
    } else {
        timer_phase(before)
    }
}

/// What selecting the next comparison does to the engine. The phase, the
/// split times and the list of comparisons stay, and so does the time of
/// every segment under every comparison. The comparison that follows the
/// selected one in the list is selected, the first one after the last, and
/// the segments show their times under it.
pub open spec fn comparison_switched(before: Timer, after: Timer) -> bool {
    &&& timer_phase(after) == timer_phase(before)
    &&& same_split_times(timer_segments(before), timer_segments(after))
    &&& timer_comparison_names(after) == timer_comparison_names(before)
    &&& timer_selected_comparison(after) == next_comparison(
        timer_comparison_names(before),
        timer_selected_comparison(before),
    )
    &&& forall|i: int, name: Seq<char>| #[trigger]
        timer_comparison_time(after, i, name) == timer_comparison_time(before, i, name)
    &&& forall|i: int|
        0 <= i < timer_segments(after).len() ==> (#[trigger] timer_segments(after)[i]).comparison
            == timer_comparison_time(after, i, timer_selected_comparison(after))
}

/// Calls `Timer::split_or_start`. It starts a timer that is not running,
/// which touches no segment. On a running timer it stores the current time,
/// if that is not negative, as the split time of the current segment, and
/// ends the attempt only after it stored the split time of the last segment.
/// It does nothing in another phase, and never writes a comparison time, the
/// list of comparisons or the selection.
#[verifier::external_body]
pub(crate) fn split_or_start(timer: &mut Timer)
    ensures
        started_or_split(*old(timer), *final(timer)),
{
    timer.split_or_start();
}

/// Calls `Timer::reset`. It does nothing on a timer that is not running.
/// Otherwise it sets the phase to not running, clears the split time of
/// every segment and regenerates the comparisons; it adds and removes no
/// segment and leaves the selected comparison selected.
#[verifier::external_body]
pub(crate) fn reset(timer: &mut Timer, update_splits: bool)
    ensures
        was_reset(*old(timer), *final(timer)),
{
    timer.reset(update_splits);
}

/// Calls `Timer::pause`. It sets the phase of a running timer to paused and
/// does nothing in another phase; it touches neither a segment nor the
/// comparisons.
#[verifier::external_body]
pub(crate) fn pause(timer: &mut Timer)
    ensures
        was_paused(*old(timer), *final(timer)),
{
    timer.pause();
}

/// Calls `Timer::resume`. It sets the phase of a paused timer to running and
/// does nothing in another phase; it touches neither a segment nor the
/// comparisons.
#[verifier::external_body]
pub(crate) fn resume(timer: &mut Timer)
    ensures
        was_resumed(*old(timer), *final(timer)),
{
    timer.resume();
}

/// Calls `Timer::switch_to_next_comparison`. It looks the selected
/// comparison up in the run's list by its first occurrence, selects the one
/// at the next place, or the first one after the last, and writes nothing
/// else: neither the phase nor the list nor a segment.
#[verifier::external_body]
pub(crate) fn switch_to_next_comparison(timer: &mut Timer)
    ensures
        timer_comparison_names(*final(timer)) == timer_comparison_names(*old(timer)),
        comparison_switched(*old(timer), *final(timer)),
{
    timer.switch_to_next_comparison();
}

/// A time span from a nanosecond count that the engine handed out.
fn span_of(nanos: Option<i128>) -> (span: Option<TimeSpan>)
    requires
        nanos matches Some(n) ==> span_in_range(n as int),
    ensures
        nanoseconds_of(span) == match nanos {
            Some(n) => Some(n as int),
            None => None,
        },
{
    match nanos {
        Some(n) => TimeSpan::from_nanoseconds(n),
        None => None,
    }
}

/// What the engine holds for each segment of its run, in order.
pub fn segments(timer: &Timer) -> (segments: Vec<SegmentTimes>)
    ensures
        segment_views(segments@) == timer_segments(*timer),
{
    let count = segment_count(timer);
    let mut segments: Vec<SegmentTimes> = Vec::new();
    let mut i: usize = 0;
    while i < count
        invariant
            count == timer_segments(*timer).len(),
            i <= count,
            segments@.len() == i,
            forall|k: int| 0 <= k < i ==> (#[trigger] segments@[k])@ == timer_segments(*timer)[k],
        decreases count - i,
    {
        let split_time = span_of(segment_split_time(timer, i));
        let comparison = span_of(segment_comparison(timer, i));
        segments.push(SegmentTimes { split_time, comparison });
        i += 1;
    }
    proof {
        assert(segment_views(segments@) =~= timer_segments(*timer));
    }
    segments
}

} // verus!
