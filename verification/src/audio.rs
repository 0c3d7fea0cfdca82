//! The audio recorder: at most one segment is open at a time, the first
//! buffer after a rotation opens the next one, and the rotation timer
//! finalizes whatever is open.
//!
//! The caller owns the device stream, the timer and the file. It reports each
//! buffer and each timer tick as an event and performs the action it gets
//! back.

use vstd::prelude::*;

verus! {

/// Seconds between two ticks of the rotation timer.
pub const ROTATION_SECONDS: u64 = 60;

/// The most samples that are taken from one buffer.
pub const MAX_SAMPLES_PER_BUFFER: usize = 44100;

/// Every segment stores signed integer samples of this width.
pub const BITS_PER_SAMPLE: u16 = 16;

/// The header values of a segment.
#[derive(Debug, Clone, Copy, PartialEq, Eq, Structural)]
pub struct WavFormat {
    pub channels: u16,
    pub sample_rate: u32,
    pub bits_per_sample: u16,
    pub integer_samples: bool,
}

/// The format of the segments recorded from a device with the given channel
/// count and sample rate.
pub fn segment_format(channels: u16, sample_rate: u32) -> (format: WavFormat)
    ensures
        format == (WavFormat {
            channels,
            sample_rate,
            bits_per_sample: BITS_PER_SAMPLE,
            integer_samples: true,
        }),
{
    WavFormat { channels, sample_rate, bits_per_sample: BITS_PER_SAMPLE, integer_samples: true }
}

/// Whether the recorder holds an open segment.
#[derive(Debug, Clone, Copy, PartialEq, Eq, Structural)]
pub enum RecorderState {
    NoActiveSegment,
    SegmentOpen,
}

/// What happened: the device delivered a buffer of `len` samples, or the
/// rotation timer fired.
#[derive(Debug, Clone, Copy, PartialEq, Eq, Structural)]
pub enum RecorderEvent {
    Buffer { len: usize },
    RotationTimer,
}

/// What the caller does in answer to an event.
#[derive(Debug, Clone, Copy, PartialEq, Eq, Structural)]
pub enum RecorderAction {
    /// Open a new segment, then append the first `samples` samples of the
    /// buffer to it.
    OpenAndAppend { samples: usize },
    /// Append the first `samples` samples of the buffer to the open segment.
    Append { samples: usize },
    /// Finalize the open segment and close it.
    Finalize,
    /// Nothing is open and nothing is to be done.
    Idle,
}

/// How many samples of a buffer of `len` samples are kept.
pub open spec fn clipped(len: usize) -> usize {
    if len <= MAX_SAMPLES_PER_BUFFER {
        len
    } else {
        MAX_SAMPLES_PER_BUFFER
    }
}

/// The state after an event.
pub open spec fn next_state(state: RecorderState, event: RecorderEvent) -> RecorderState {
    match event {
        RecorderEvent::Buffer { .. } => RecorderState::SegmentOpen,
        RecorderEvent::RotationTimer => RecorderState::NoActiveSegment,
    }
}

/// The action that an event calls for.
pub open spec fn action_for(state: RecorderState, event: RecorderEvent) -> RecorderAction {
    match (state, event) {
        (RecorderState::NoActiveSegment, RecorderEvent::Buffer { len }) => {
            RecorderAction::OpenAndAppend { samples: clipped(len) }
        },
        (RecorderState::SegmentOpen, RecorderEvent::Buffer { len }) => RecorderAction::Append {
            samples: clipped(len),
        },
        (RecorderState::SegmentOpen, RecorderEvent::RotationTimer) => RecorderAction::Finalize,
        (RecorderState::NoActiveSegment, RecorderEvent::RotationTimer) => RecorderAction::Idle,
    }
}

/// Number of samples to take from a buffer of `len` samples.
pub fn clip_samples(len: usize) -> (samples: usize)
    ensures
        samples == clipped(len),
{
    if len <= MAX_SAMPLES_PER_BUFFER {
        len
    } else {
        MAX_SAMPLES_PER_BUFFER
    }
}

/// One step of the recorder: the state after `event`, and the action that the
/// caller performs.
pub fn step(state: RecorderState, event: RecorderEvent) -> (next: (RecorderState, RecorderAction))
    ensures
        next.0 == next_state(state, event),
        next.1 == action_for(state, event),
{
    match event {
        RecorderEvent::Buffer { len } => {
            let samples = clip_samples(len);
            match state {
                RecorderState::NoActiveSegment => (
                    RecorderState::SegmentOpen,
                    RecorderAction::OpenAndAppend { samples },
                ),
                RecorderState::SegmentOpen => (
                    RecorderState::SegmentOpen,
                    RecorderAction::Append { samples },
                ),
            }
        },
        RecorderEvent::RotationTimer => match state {
            RecorderState::SegmentOpen => (RecorderState::NoActiveSegment, RecorderAction::Finalize),
            RecorderState::NoActiveSegment => (RecorderState::NoActiveSegment, RecorderAction::Idle),
        },
    }
}

/// The state of a recorder that started with no segment and saw `events`.
pub open spec fn state_after(events: Seq<RecorderEvent>) -> RecorderState
    decreases events.len(),
{
    if events.len() == 0 {
        RecorderState::NoActiveSegment
    } else {
        next_state(state_after(events.drop_last()), events.last())
    }
}

/// The action with which such a recorder answers the event at `index`.
pub open spec fn action_at(events: Seq<RecorderEvent>, index: int) -> RecorderAction {
    action_for(state_after(events.take(index)), events[index])
}

/// Number of segments that such a recorder opened.
pub open spec fn opened(events: Seq<RecorderEvent>) -> nat
    decreases events.len(),
{
    if events.len() == 0 {
        0
    } else {
        let before = opened(events.drop_last());
        if action_for(state_after(events.drop_last()), events.last()) is OpenAndAppend {
            before + 1
        } else {
            before
        }
    }
}

/// Number of segments that such a recorder finalized.
pub open spec fn finalized(events: Seq<RecorderEvent>) -> nat
    decreases events.len(),
{
    if events.len() == 0 {
        0
    } else {
        let before = finalized(events.drop_last());
        if action_for(state_after(events.drop_last()), events.last()) is Finalize {
            before + 1
        } else {
            before
        }
    }
}

/// Number of timer ticks among the events.
pub open spec fn ticks(events: Seq<RecorderEvent>) -> nat
    decreases events.len(),
{
    if events.len() == 0 {
        0
    } else if events.last() is RotationTimer {
        ticks(events.drop_last()) + 1
    } else {
        ticks(events.drop_last())
    }
}

/// Number of segments that are open after the events: one or none.
pub open spec fn open_segments(events: Seq<RecorderEvent>) -> nat {
    if state_after(events) is SegmentOpen {
        1
    } else {
        0
    }
}

/// The recorder never holds two segments: after any events, the segments it
/// opened are the ones it finalized and, while its state is `SegmentOpen`,
/// one more.
pub proof fn lemma_at_most_one_open(events: Seq<RecorderEvent>)
    ensures
        opened(events) == finalized(events) + open_segments(events),
        open_segments(events) <= 1,
    decreases events.len(),
{
    if events.len() > 0 {
        lemma_at_most_one_open(events.drop_last());
    }
}

/// Between two events that each open a segment lies one that finalizes the
/// first of the two.
pub proof fn lemma_finalize_between_opens(events: Seq<RecorderEvent>, first: int, second: int)
    requires
        0 <= first < second < events.len(),
        action_at(events, first) is OpenAndAppend,
        action_at(events, second) is OpenAndAppend,
    ensures
        exists|k: int| first < k < second && action_at(events, k) is Finalize,
{
    lemma_open_until_finalized(events, first, second);
}

/// After an event that opens a segment, the segment stays open until an event
/// finalizes it.
proof fn lemma_open_until_finalized(events: Seq<RecorderEvent>, first: int, upto: int)
    requires
        0 <= first < upto <= events.len(),
        action_at(events, first) is OpenAndAppend,
    ensures
        state_after(events.take(upto)) is SegmentOpen || exists|k: int|
            first < k < upto && action_at(events, k) is Finalize,
    decreases upto,
{
    let prefix = events.take(upto);
    assert(prefix.drop_last() == events.take(upto - 1));
    assert(prefix.last() == events[upto - 1]);
    if upto > first + 1 {
        lemma_open_until_finalized(events, first, upto - 1);
        if state_after(events.take(upto - 1)) is SegmentOpen {
            if events[upto - 1] is RotationTimer {
                assert(action_at(events, upto - 1) is Finalize);
            }
        } else {
            let k = choose|k: int| first < k < upto - 1 && action_at(events, k) is Finalize;
            assert(first < k < upto && action_at(events, k) is Finalize);
        }
    }
}

/// Whether input never pauses across a tick: the events begin with a buffer,
/// and every tick comes directly after a buffer.
pub open spec fn continuous_input(events: Seq<RecorderEvent>) -> bool {
    forall|i: int|
        0 <= i < events.len() && #[trigger] events[i] is RotationTimer ==> i > 0 && events[i
            - 1] is Buffer
}

/// Under continuous input every tick finalizes a segment, and the buffers
/// after it open the next one: the recorder opens one segment per tick, and
/// one more for the buffers after the last tick.
pub proof fn lemma_rotation_count(events: Seq<RecorderEvent>)
    requires
        continuous_input(events),
    ensures
        finalized(events) == ticks(events),
        opened(events) == ticks(events) + open_segments(events),
        events.len() > 0 && events.last() is Buffer ==> opened(events) == ticks(events) + 1,
    decreases events.len(),
{
    if events.len() > 0 {
        let before = events.drop_last();
        assert(continuous_input(before)) by {
            assert forall|i: int| 0 <= i < before.len() && #[trigger] before[i] is RotationTimer
                implies i > 0 && before[i - 1] is Buffer by {
                assert(events[i] is RotationTimer);
            }
        }
        lemma_rotation_count(before);
        lemma_at_most_one_open(events);
        if events.last() is RotationTimer {
            let i = events.len() - 1;
            assert(events[i] is RotationTimer);
            assert(before.len() > 0 && before.last() is Buffer);
        }
    }
}

/// Number of ticks within a recording of the given length in seconds.
pub open spec fn ticks_within(seconds: nat) -> nat {
    seconds / (ROTATION_SECONDS as nat)
}

/// A recording of continuous input that lasts `seconds` and ends with a
/// buffer after its last tick makes one segment per full rotation interval
/// and one more. All but the last are finalized.
pub proof fn lemma_segments_of_recording(events: Seq<RecorderEvent>, seconds: nat)
    requires
        continuous_input(events),
        ticks(events) == ticks_within(seconds),
        events.len() > 0,
        events.last() is Buffer,
    ensures
        opened(events) == ticks_within(seconds) + 1,
        finalized(events) == ticks_within(seconds),
{
    lemma_rotation_count(events);
}

} // verus!
