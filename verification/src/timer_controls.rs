//! The control operations: what each key press does to the timing engine and,
//! from there, to the splits on display.
//!
//! Each operation first drives the engine and then carries what the engine
//! holds over into the splits. The caller guards both with locks and takes
//! the engine's lock first.
use crate::engine;
use crate::engine::{
    comparison_switched, started_or_split, timer_phase, timer_segments, unchanged, was_paused,
    was_reset, was_resumed, Phase,
};
use crate::ui::{
    splits_after_load, splits_after_reset, splits_after_split, splits_after_switch, Splits,
};
use livesplit_core::Timer;
use vstd::prelude::*;

verus! {

/// Errors while controlling the timer with keybindings. The four lock errors
/// are for the caller that shares the timer and the splits between threads.
#[derive(Clone, Copy, Debug, PartialEq, Eq, Structural)]
pub enum TimerControlError {
    /// The timer's lock is poisoned and cannot be taken for writing.
    TimerWriteLock,
    /// The timer's lock is poisoned and cannot be taken for reading.
    TimerReadLock,
    /// The lock of the splits is poisoned and cannot be taken for reading.
    SplitsReadLock,
    /// The lock of the splits is poisoned and cannot be taken for writing.
    SplitsWriteLock,
    /// The engine holds more segments than the display has splits.
    SegmentOutOfRange,
}

/// What a press of the start/split key did.
#[derive(Clone, Copy, Debug, PartialEq, Eq, Structural)]
pub enum StartOrSplit {
    /// An attempt was started.
    Started,
    /// The key was pressed during an attempt, which goes on.
    Split,
    /// The key was pressed during an attempt, which is now over.
    Ended,
}

/// What a press of the start/split key did, by the phase of the engine
/// before and after it.
pub open spec fn start_or_split_outcome(before: Phase, after: Phase) -> StartOrSplit {
    if before == Phase::NotRunning {
        StartOrSplit::Started
    } else if after == Phase::Ended {
        StartOrSplit::Ended
    } else {
        StartOrSplit::Split
    }
}

/// The line that the log gets for `outcome`.
pub open spec fn start_or_split_message(outcome: StartOrSplit) -> Seq<char> {
    match outcome {
        StartOrSplit::Started => "Start/split keypress: start"@,
        StartOrSplit::Split => "Start/split keypress: split"@,
        StartOrSplit::Ended => "Ended!"@,
    }
}

impl StartOrSplit {
    /// The line that the log gets for this outcome.
    pub fn message(self) -> (text: &'static str)
        ensures
            text@ == start_or_split_message(self),
    {
        match self {
            StartOrSplit::Started => "Start/split keypress: start",
            StartOrSplit::Split => "Start/split keypress: split",
            StartOrSplit::Ended => "Ended!",
        }
    }
}

/// Whether `splits` has a split for every segment of `timer`.
pub fn splits_cover_segments(timer: &Timer, splits: &Splits) -> (covered: bool)
    ensures
        covered == (timer_segments(*timer).len() <= splits@.len()),
{
    engine::segment_count(timer) <= splits.len()
}

/// Starts `timer`, or splits where it runs, and updates the `splits` display.
pub fn start_or_split_timer(timer: &mut Timer, splits: &mut Splits) -> (outcome: StartOrSplit)
    requires
        timer_segments(*old(timer)).len() <= old(splits)@.len(),
    ensures
        started_or_split(*old(timer), *final(timer)),
        final(splits)@ == splits_after_split(old(splits)@, timer_segments(*final(timer))),
        outcome == start_or_split_outcome(timer_phase(*old(timer)), timer_phase(*final(timer))),
{
    let before = engine::current_phase(timer);
    engine::split_or_start(timer);
    let segments = engine::segments(timer);
    splits.record_times(&segments);
    if before == Phase::NotRunning {
        StartOrSplit::Started
    } else if engine::current_phase(timer) == Phase::Ended {
        StartOrSplit::Ended
    } else {
        StartOrSplit::Split
    }
}

/// Resets `timer`, which files the attempt that was in progress, and clears
/// the `splits` display.
pub fn reset(timer: &mut Timer, splits: &mut Splits)
    requires
        timer_segments(*old(timer)).len() <= old(splits)@.len(),
    ensures
        was_reset(*old(timer), *final(timer)),
        final(splits)@ == splits_after_reset(old(splits)@, timer_segments(*final(timer))),
{
    engine::reset(timer, true);
    let segments = engine::segments(timer);
    splits.reset_times(&segments);
}

/// Pauses `timer`.
pub fn pause(timer: &mut Timer)
    ensures
        was_paused(*old(timer), *final(timer)),
{
    engine::pause(timer);
}

/// Unpauses `timer`.
pub fn unpause(timer: &mut Timer)
    ensures
        was_resumed(*old(timer), *final(timer)),
{
    engine::resume(timer);
}

/// Switches `timer` to its next comparison and refreshes the `splits`
/// display.
pub fn switch_comparison(timer: &mut Timer, splits: &mut Splits)
    requires
        timer_segments(*old(timer)).len() <= old(splits)@.len(),
    ensures
        comparison_switched(*old(timer), *final(timer)),
        final(splits)@ == splits_after_switch(old(splits)@, timer_segments(*final(timer))),
{
    engine::switch_to_next_comparison(timer);
    let segments = engine::segments(timer);
    splits.refresh_comparisons(&segments);
}

/// Loads the comparison that `timer` has selected into the `splits` display,
/// as at the start of the program.
pub fn load_comparisons(timer: &Timer, splits: &mut Splits)
    requires
        timer_segments(*timer).len() <= old(splits)@.len(),
    ensures
        final(splits)@ == splits_after_load(old(splits)@, timer_segments(*timer)),
{
    let segments = engine::segments(timer);
    splits.load_comparisons(&segments);
}

/// Starts `timer`, or splits where it runs, and updates the `splits` display,
/// unless `splits` is too short for the segments of `timer`: then neither is
/// touched.
pub fn try_start_or_split_timer(timer: &mut Timer, splits: &mut Splits) -> (outcome: Result<
    StartOrSplit,
    TimerControlError,
>)
    ensures
        outcome is Ok <==> timer_segments(*old(timer)).len() <= old(splits)@.len(),
        outcome matches Ok(done) ==> {
            &&& started_or_split(*old(timer), *final(timer))
            &&& final(splits)@ == splits_after_split(old(splits)@, timer_segments(*final(timer)))
            &&& done == start_or_split_outcome(
                timer_phase(*old(timer)),
                timer_phase(*final(timer)),
            )
        },
        outcome matches Err(error) ==> {
            &&& error == TimerControlError::SegmentOutOfRange
            &&& *final(timer) == *old(timer)
            &&& *final(splits) == *old(splits)
        },
{
    if splits_cover_segments(timer, splits) {
        Ok(start_or_split_timer(timer, splits))
    } else {
        Err(TimerControlError::SegmentOutOfRange)
    }
}

/// Resets `timer` and clears the `splits` display, unless `splits` is too
/// short for the segments of `timer`: then neither is touched.
pub fn try_reset(timer: &mut Timer, splits: &mut Splits) -> (outcome: Result<
    (),
    TimerControlError,
>)
    ensures
        outcome is Ok <==> timer_segments(*old(timer)).len() <= old(splits)@.len(),
        outcome is Ok ==> {
            &&& was_reset(*old(timer), *final(timer))
            &&& final(splits)@ == splits_after_reset(old(splits)@, timer_segments(*final(timer)))
        },
        outcome matches Err(error) ==> {
            &&& error == TimerControlError::SegmentOutOfRange
            &&& *final(timer) == *old(timer)
            &&& *final(splits) == *old(splits)
        },
{
    if splits_cover_segments(timer, splits) {
        reset(timer, splits);
        Ok(())
    } else {
        Err(TimerControlError::SegmentOutOfRange)
    }
}

/// Switches `timer` to its next comparison and refreshes the `splits`
/// display, unless `splits` is too short for the segments of `timer`: then
/// neither is touched.
pub fn try_switch_comparison(timer: &mut Timer, splits: &mut Splits) -> (outcome: Result<
    (),
    TimerControlError,
>)
    ensures
        outcome is Ok <==> timer_segments(*old(timer)).len() <= old(splits)@.len(),
        outcome is Ok ==> {
            &&& comparison_switched(*old(timer), *final(timer))
            &&& final(splits)@ == splits_after_switch(
                old(splits)@,
                timer_segments(*final(timer)),
            )
        },
        outcome matches Err(error) ==> {
            &&& error == TimerControlError::SegmentOutOfRange
            &&& *final(timer) == *old(timer)
            &&& *final(splits) == *old(splits)
        },
{
    if splits_cover_segments(timer, splits) {
        switch_comparison(timer, splits);
        Ok(())
    } else {
        Err(TimerControlError::SegmentOutOfRange)
    }
}

/// Loads the comparison that `timer` has selected into the `splits` display,
/// unless `splits` is too short for the segments of `timer`: then it is not
/// touched.
pub fn try_load_comparisons(timer: &Timer, splits: &mut Splits) -> (outcome: Result<
    (),
    TimerControlError,
>)
    ensures
        outcome is Ok <==> timer_segments(*timer).len() <= old(splits)@.len(),
        outcome is Ok ==> final(splits)@ == splits_after_load(
            old(splits)@,
            timer_segments(*timer),
        ),
        outcome matches Err(error) ==> {
            &&& error == TimerControlError::SegmentOutOfRange
            &&& *final(splits) == *old(splits)
        },
{
    if splits_cover_segments(timer, splits) {
        load_comparisons(timer, splits);
        Ok(())
    } else {
        Err(TimerControlError::SegmentOutOfRange)
    }
}

/// A reset that follows a reset leaves the engine alone, and the splits show
/// after both what they showed after the first.
pub proof fn reset_twice_is_reset_once(
    start: Timer,
    once: Timer,
    twice: Timer,
    splits: Seq<crate::ui::SplitView>,
)
    requires
        was_reset(start, once),
        was_reset(once, twice),
    ensures
        unchanged(once, twice),
        splits_after_reset(
            splits_after_reset(splits, timer_segments(once)),
            timer_segments(twice),
        ) == splits_after_reset(splits, timer_segments(once)),
{
    crate::ui::reset_is_idempotent(splits, timer_segments(once));
}

/// A pause and the unpause that follows it leave every segment of the engine
/// as it was, so that no split has anything new to show.
pub proof fn pause_and_unpause_keep_segments(start: Timer, paused: Timer, resumed: Timer)
    requires
        was_paused(start, paused),
        was_resumed(paused, resumed),
    ensures
        timer_segments(resumed) == timer_segments(start),
{
}

} // verus!
