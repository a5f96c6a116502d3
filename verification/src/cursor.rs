//! The sample cursor: an append-only history of decoded frames, a read position
//! in it, and the timestamps that go with the position.
//!
//! The cursor never talks to a decoder. It says when it needs a frame, takes the
//! frames it is given, and serves every sample behind its horizon from the
//! history alone.

use vstd::prelude::*;
use crate::error::PlayerError;
use crate::frame::{
    all_samples, frame_start, frame_views, lemma_sample_at, lemma_samples_upto_prefix,
    lemma_samples_upto_push, samples_upto, Frame, FrameView,
};

verus! {

/// Nanoseconds in a second.
pub const NANOS_PER_SECOND: u64 = 1_000_000_000;

/// Frame index that a timestamp falls in, by linear interpolation over the
/// track: `floor(timestamp * frames / duration)`, capped at `usize::MAX`.
/// A track of zero duration maps timestamp zero to frame zero and every later
/// timestamp past the last frame.
pub open spec fn seek_target(timestamp: nat, duration: nat, frames: nat) -> nat {
    if duration == 0 {
        if timestamp == 0 || frames == 0 {
            0
        } else {
            usize::MAX as nat
        }
    } else if timestamp * frames / duration > usize::MAX {
        usize::MAX as nat
    } else {
        timestamp * frames / duration
    }
}

/// Duration of one sample in nanoseconds, for a sample rate and channel count.
pub open spec fn sample_duration_of(sample_rate: int, channels: nat) -> nat {
    (NANOS_PER_SECOND as int / (sample_rate * channels)) as nat
}

/// Whether a first frame's format can time a track: a positive sample rate and
/// channel count whose product fits a signed 32-bit integer.
pub open spec fn playable_format(sample_rate: int, channels: nat) -> bool {
    &&& sample_rate > 0
    &&& channels > 0
    &&& sample_rate * channels <= i32::MAX
}

/// The cursor as mathematical values.
pub struct CursorView {
    /// Every frame decoded so far, oldest first.
    pub history: Seq<FrameView>,
    /// Offset, among all samples of the history, of the next sample to emit.
    pub position: nat,
    /// Time of the read position, in nanoseconds.
    pub timestamp: nat,
    /// Furthest timestamp ever reached.
    pub max_time_stamp: nat,
    /// Nanoseconds that one sample lasts.
    pub sample_duration: nat,
    pub sample_rate: int,
    pub channels: nat,
    /// Frame count of the whole track, as its metadata gives it.
    pub frames: nat,
    /// Duration of the whole track in nanoseconds, as its metadata gives it.
    pub duration: nat,
    /// What the last pull produced.
    pub current_sample: Option<i16>,
    /// Whether any sample was ever produced.
    pub is_active: bool,
}

impl CursorView {
    /// Validity of a cursor.
    pub open spec fn wf(self) -> bool {
        &&& self.history.len() >= 1
        &&& self.position <= all_samples(self.history).len()
        &&& self.timestamp <= self.max_time_stamp
        &&& playable_format(self.sample_rate, self.channels)
        &&& self.sample_duration == sample_duration_of(self.sample_rate, self.channels)
    }

    /// The cursor of a track that has just been opened on its first frame.
    pub open spec fn initial(first: FrameView, duration: nat, frames: nat) -> CursorView {
        CursorView {
            history: seq![first],
            position: 0,
            timestamp: 0,
            max_time_stamp: 0,
            sample_duration: sample_duration_of(first.sample_rate, first.channels),
            sample_rate: first.sample_rate,
            channels: first.channels,
            frames,
            duration,
            current_sample: None,
            is_active: false,
        }
    }

    /// Number of frames decoded so far.
    pub open spec fn decoded(self) -> nat {
        self.history.len()
    }

    /// Whether the next sample lies in the history.
    pub open spec fn has_cached(self) -> bool {
        self.position < all_samples(self.history).len()
    }

    /// Whether the read position is at the end of everything decoded.
    pub open spec fn at_horizon(self) -> bool {
        self.position == all_samples(self.history).len()
    }

    /// The cursor after it emitted the sample at its position.
    pub open spec fn emit(self) -> CursorView {
        let next = self.timestamp + self.sample_duration;
        CursorView {
            position: self.position + 1,
            timestamp: next,
            max_time_stamp: if next > self.max_time_stamp {
                next
            } else {
                self.max_time_stamp
            },
            current_sample: Some(all_samples(self.history)[self.position as int]),
            is_active: true,
            ..self
        }
    }

    /// The cursor after a pull that found nothing to emit.
    pub open spec fn miss(self) -> CursorView {
        CursorView { current_sample: None, ..self }
    }

    /// The cursor after one pull from the history.
    pub open spec fn pulled(self) -> CursorView {
        if self.has_cached() {
            self.emit()
        } else {
            self.miss()
        }
    }

    /// The cursor after a decoded frame was appended.
    pub open spec fn append(self, frame: FrameView) -> CursorView {
        CursorView { history: self.history.push(frame), ..self }
    }

    /// The cursor after a run of decoded frames was appended.
    pub open spec fn append_all(self, frames: Seq<FrameView>) -> CursorView {
        CursorView { history: self.history + frames, ..self }
    }

    /// Frame that `timestamp` falls in.
    pub open spec fn target(self, timestamp: nat) -> nat {
        seek_target(timestamp, self.duration, self.frames)
    }

    /// Number of frames that a seek to `timestamp` has to decode first: none
    /// at or behind the furthest timestamp, and none where the target frame is
    /// already counted among the decoded ones.
    pub open spec fn frames_needed(self, timestamp: nat) -> nat {
        if timestamp > self.max_time_stamp && self.target(timestamp) > self.decoded() {
            (self.target(timestamp) - self.decoded()) as nat
        } else {
            0
        }
    }

    /// Frame on which a seek to `timestamp` lands: the target frame, or the
    /// horizon where that frame is not decoded.
    pub open spec fn landing_frame(self, timestamp: nat) -> nat {
        if self.target(timestamp) < self.decoded() {
            self.target(timestamp)
        } else {
            self.decoded()
        }
    }

    /// The cursor after it landed on `timestamp`: the read position is at the
    /// start of the landing frame, the timestamp is `timestamp`, and the
    /// furthest timestamp follows where `timestamp` is past it.
    pub open spec fn landed(self, timestamp: nat) -> CursorView {
        CursorView {
            timestamp,
            max_time_stamp: if timestamp > self.max_time_stamp {
                timestamp
            } else {
                self.max_time_stamp
            },
            position: frame_start(self.history, self.landing_frame(timestamp) as int),
            ..self
        }
    }

    /// A whole seek, given the frames that the decoder yielded for it: where
    /// frames are needed, those that came join the history; then the cursor
    /// lands.
    pub open spec fn seek(self, timestamp: nat, decoded: Seq<FrameView>) -> CursorView {
        if self.frames_needed(timestamp) == 0 {
            self.landed(timestamp)
        } else {
            self.append_all(decoded).landed(timestamp)
        }
    }
}

/// One thing that can happen to a cursor.
pub enum CursorStep {
    /// A pull from the history.
    Pull,
    /// A decoded frame joins the history.
    Append(FrameView),
    /// A seek to a timestamp, with the frames that the decoder yielded for it.
    Seek(nat, Seq<FrameView>),
}

impl CursorView {
    /// The cursor after one step.
    pub open spec fn step(self, step: CursorStep) -> CursorView {
        match step {
            CursorStep::Pull => self.pulled(),
            CursorStep::Append(frame) => self.append(frame),
            CursorStep::Seek(timestamp, decoded) => self.seek(timestamp, decoded),
        }
    }

    /// The cursor after a run of steps, first to last.
    pub open spec fn run(self, steps: Seq<CursorStep>) -> CursorView
        decreases steps.len(),
    {
        if steps.len() == 0 {
            self
        } else {
            self.run(steps.drop_last()).step(steps.last())
        }
    }

    /// The cursor after `n` pulls from the history.
    pub open spec fn pulled_times(self, n: nat) -> CursorView
        decreases n,
    {
        if n == 0 {
            self
        } else {
            self.pulled_times((n - 1) as nat).pulled()
        }
    }
}

/// Appending frames leaves the samples already decoded where they were, and
/// the horizon can only move forward.
proof fn lemma_append_keeps_samples_all(history: Seq<FrameView>, more: Seq<FrameView>)
    ensures
        samples_upto(history + more, history.len() as int) == samples_upto(
            history,
            history.len() as int,
        ),
        all_samples(history).len() <= all_samples(history + more).len(),
{
    lemma_upto_of_concat(history, more, history.len() as int);
    lemma_samples_upto_prefix(history + more, history.len() as int, (history + more).len() as int);
}

proof fn lemma_upto_of_concat(history: Seq<FrameView>, more: Seq<FrameView>, k: int)
    requires
        0 <= k <= history.len(),
    ensures
        samples_upto(history + more, k) == samples_upto(history, k),
    decreases k,
{
    if k > 0 {
        lemma_upto_of_concat(history, more, k - 1);
        assert((history + more)[k - 1] == history[k - 1]);
    }
}

/// Every step keeps a valid cursor valid: the read position stays within the
/// decoded samples and the timestamp never passes the furthest one.
pub proof fn lemma_step_keeps_wf(cursor: CursorView, step: CursorStep)
    requires
        cursor.wf(),
    ensures
        cursor.step(step).wf(),
{
    match step {
        CursorStep::Pull => {},
        CursorStep::Append(frame) => {
            assert(cursor.history.push(frame) =~= cursor.history + seq![frame]);
            lemma_append_keeps_samples_all(cursor.history, seq![frame]);
        },
        CursorStep::Seek(timestamp, decoded) => {
            let grown = if cursor.frames_needed(timestamp) == 0 {
                cursor
            } else {
                cursor.append_all(decoded)
            };
            lemma_samples_upto_prefix(
                grown.history,
                grown.landing_frame(timestamp) as int,
                grown.history.len() as int,
            );
        },
    }
}

/// A run of steps keeps a valid cursor valid.
pub proof fn lemma_run_keeps_wf(cursor: CursorView, steps: Seq<CursorStep>)
    requires
        cursor.wf(),
    ensures
        cursor.run(steps).wf(),
    decreases steps.len(),
{
    if steps.len() > 0 {
        lemma_run_keeps_wf(cursor, steps.drop_last());
        lemma_step_keeps_wf(cursor.run(steps.drop_last()), steps.last());
    }
}

/// No step makes the furthest timestamp retreat, and no step drops or changes
/// a frame of the history.
pub proof fn lemma_step_never_retreats(cursor: CursorView, step: CursorStep)
    ensures
        cursor.step(step).max_time_stamp >= cursor.max_time_stamp,
        cursor.history.is_prefix_of(cursor.step(step).history),
{
    match step {
        CursorStep::Pull => {},
        CursorStep::Append(frame) => {},
        CursorStep::Seek(timestamp, decoded) => {},
    }
}

/// Over any run of pulls, appended frames and seeks, the furthest timestamp
/// never decreases and the history only grows at its end.
pub proof fn lemma_furthest_timestamp_monotonic(cursor: CursorView, steps: Seq<CursorStep>)
    ensures
        cursor.run(steps).max_time_stamp >= cursor.max_time_stamp,
        cursor.history.is_prefix_of(cursor.run(steps).history),
    decreases steps.len(),
{
    if steps.len() > 0 {
        lemma_furthest_timestamp_monotonic(cursor, steps.drop_last());
        lemma_step_never_retreats(cursor.run(steps.drop_last()), steps.last());
    }
}

/// A seek to the furthest timestamp or behind it needs no frame from the
/// decoder, whatever the decoder would have yielded: it keeps the history and
/// the furthest timestamp, and moves the read position to the start of the
/// target frame, or to the horizon where that frame is not decoded.
pub proof fn lemma_backward_seek_needs_no_frame(
    cursor: CursorView,
    timestamp: nat,
    decoded: Seq<FrameView>,
)
    requires
        timestamp <= cursor.max_time_stamp,
    ensures
        cursor.frames_needed(timestamp) == 0,
        cursor.seek(timestamp, decoded) == cursor.landed(timestamp),
        cursor.seek(timestamp, decoded).history == cursor.history,
        cursor.seek(timestamp, decoded).max_time_stamp == cursor.max_time_stamp,
        cursor.seek(timestamp, decoded).timestamp == timestamp,
        cursor.target(timestamp) <= cursor.decoded() ==> cursor.seek(timestamp, decoded).position
            == frame_start(cursor.history, cursor.target(timestamp) as int),
        cursor.target(timestamp) > cursor.decoded() ==> cursor.seek(
            timestamp,
            decoded,
        ).at_horizon(),
{
}

/// While the read position is behind the horizon, pulls are served from the
/// history: `n` pulls that stay within the decoded samples emit those samples
/// in order, each one sample duration later than the last, and leave the
/// history as it was. No frame is needed before the horizon is reached.
pub proof fn lemma_replay_stays_in_history(cursor: CursorView, n: nat)
    requires
        cursor.wf(),
        cursor.position + n <= all_samples(cursor.history).len(),
    ensures
        cursor.pulled_times(n).wf(),
        cursor.pulled_times(n).history == cursor.history,
        cursor.pulled_times(n).position == cursor.position + n,
        cursor.pulled_times(n).sample_duration == cursor.sample_duration,
        cursor.pulled_times(n).timestamp == cursor.timestamp + n * cursor.sample_duration,
        cursor.pulled_times(n).max_time_stamp >= cursor.max_time_stamp,
        n > 0 ==> cursor.pulled_times((n - 1) as nat).has_cached(),
        n > 0 ==> cursor.pulled_times(n).current_sample == Some(
            all_samples(cursor.history)[cursor.position + n - 1],
        ),
    decreases n,
{
    if n > 0 {
        let m = (n - 1) as nat;
        let d = cursor.sample_duration;
        lemma_replay_stays_in_history(cursor, m);
        assert(n * d == m * d + d) by (nonlinear_arith)
            requires
                n == m + 1,
        ;
    } else {
        assert(n * cursor.sample_duration == 0) by (nonlinear_arith)
            requires
                n == 0,
        ;
    }
}

/// Seeking twice to the same timestamp is the same as seeking once: whatever
/// the first seek decoded, the second needs no frame, asks the decoder for
/// none, and ends in the same cursor, whatever the decoder would have
/// yielded.
pub proof fn lemma_seek_idempotent(
    cursor: CursorView,
    timestamp: nat,
    decoded: Seq<FrameView>,
    again: Seq<FrameView>,
)
    ensures
        cursor.seek(timestamp, decoded).frames_needed(timestamp) == 0,
        cursor.seek(timestamp, decoded).seek(timestamp, again) == cursor.seek(timestamp, decoded),
        cursor.seek(timestamp, decoded).landed(timestamp) == cursor.seek(timestamp, decoded),
{
}

/// A seek past the furthest timestamp that gets every frame it needs ends
/// with the target frame next to be decoded: the count of decoded frames is
/// the target frame index, the read position is at the horizon, and both
/// timestamps are the one sought.
pub proof fn lemma_forward_seek_reaches_target(
    cursor: CursorView,
    timestamp: nat,
    decoded: Seq<FrameView>,
)
    requires
        timestamp > cursor.max_time_stamp,
        cursor.frames_needed(timestamp) > 0,
        decoded.len() == cursor.frames_needed(timestamp),
    ensures
        cursor.seek(timestamp, decoded).decoded() == cursor.target(timestamp),
        cursor.seek(timestamp, decoded).at_horizon(),
        cursor.seek(timestamp, decoded).timestamp == timestamp,
        cursor.seek(timestamp, decoded).max_time_stamp == timestamp,
{
}

/// At the horizon a pull emits nothing, and keeps emitting nothing for as long
/// as no frame joins the history: the cursor stays where it is.
pub proof fn lemma_end_of_track_is_stable(cursor: CursorView, n: nat)
    requires
        cursor.wf(),
        cursor.at_horizon(),
        n > 0,
    ensures
        cursor.pulled_times(n) == cursor.miss(),
        cursor.pulled_times(n).current_sample is None,
        cursor.pulled_times(n).at_horizon(),
    decreases n,
{
    if n > 1 {
        lemma_end_of_track_is_stable(cursor, (n - 1) as nat);
    } else {
        assert(cursor.pulled_times(0) == cursor);
    }
}

/// Computes the frame that `timestamp` falls in.
pub fn seek_frame(timestamp: u64, duration: u64, frames: usize) -> (frame: usize)
    ensures
        frame == seek_target(timestamp as nat, duration as nat, frames as nat),
{
    if duration == 0 {
        if timestamp == 0 || frames == 0 {
            0
        } else {
            usize::MAX
        }
    } else {
        assert(timestamp as int * frames as int <= u64::MAX as int * u64::MAX as int)
            by (nonlinear_arith)
            requires
                0 <= timestamp as int <= u64::MAX as int,
                0 <= frames as int <= u64::MAX as int,
        ;
        let product: u128 = (timestamp as u128) * (frames as u128);
        let quotient: u128 = product / (duration as u128);
        if quotient > usize::MAX as u128 {
            usize::MAX
        } else {
            quotient as usize
        }
    }
}

/// A read position over the frames decoded so far.
pub struct SampleCursor {
    history: Vec<Frame>,
    frame_index: usize,
    sample_index: usize,
    timestamp: u64,
    max_time_stamp: u64,
    sample_duration: u64,
    sample_rate: i32,
    channels: usize,
    frames: usize,
    duration: u64,
    current_sample: Option<i16>,
    is_active: bool,
}

impl View for SampleCursor {
    type V = CursorView;

    closed spec fn view(&self) -> CursorView {
        CursorView {
            history: frame_views(self.history@),
            position: frame_start(frame_views(self.history@), self.frame_index as int)
                + self.sample_index as nat,
            timestamp: self.timestamp as nat,
            max_time_stamp: self.max_time_stamp as nat,
            sample_duration: self.sample_duration as nat,
            sample_rate: self.sample_rate as int,
            channels: self.channels as nat,
            frames: self.frames as nat,
            duration: self.duration as nat,
            current_sample: self.current_sample,
            is_active: self.is_active,
        }
    }
}

impl SampleCursor {
    /// Validity of the cursor: the read position lies in the history or at
    /// its end, and the timestamp is not past the furthest one.
    pub closed spec fn wf(&self) -> bool {
        &&& self.history@.len() >= 1
        &&& self.frame_index <= self.history@.len()
        &&& self.frame_index < self.history@.len() ==> self.sample_index
            <= self.history@[self.frame_index as int].data@.len()
        &&& self.frame_index == self.history@.len() ==> self.sample_index == 0
        &&& self.timestamp <= self.max_time_stamp
        &&& playable_format(self.sample_rate as int, self.channels as nat)
        &&& self.sample_duration == sample_duration_of(
            self.sample_rate as int,
            self.channels as nat,
        )
    }

    /// A valid cursor has a valid view.
    pub proof fn lemma_wf_view(&self)
        requires
            self.wf(),
        ensures
            self@.wf(),
    {
        let views = frame_views(self.history@);
        lemma_samples_upto_prefix(views, self.frame_index as int, views.len() as int);
        if self.frame_index < self.history@.len() {
            lemma_samples_upto_prefix(views, self.frame_index as int + 1, views.len() as int);
        }
    }

    /// Opens a cursor on the first decoded frame of a track whose metadata
    /// gives `duration` nanoseconds and `frames` frames. The frame's format
    /// times the track; a format that cannot is a decode error.
    pub fn new(first: Frame, duration: u64, frames: usize) -> (r: Result<SampleCursor, PlayerError>)
        ensures
            playable_format(first@.sample_rate, first@.channels) ==> (r matches Ok(cursor)
                && cursor@ == CursorView::initial(first@, duration as nat, frames as nat)
                && cursor.wf()),
            !playable_format(first@.sample_rate, first@.channels) ==> (r matches Err(e) && e
                == PlayerError::DecodeError),
    {
        if first.sample_rate <= 0 || first.channels == 0 || first.channels > i32::MAX as usize {
            assert(!playable_format(first@.sample_rate, first@.channels)) by (nonlinear_arith)
                requires
                    first@.sample_rate <= 0 || first@.channels == 0 || (first@.sample_rate >= 1
                        && first@.channels > i32::MAX),
            ;
            return Err(PlayerError::DecodeError);
        }
        let rate: u64 = first.sample_rate as u64;
        let channels: u64 = first.channels as u64;
        assert(rate * channels <= 0x8000_0000 * 0x8000_0000) by (nonlinear_arith)
            requires
                0 <= rate <= 0x8000_0000,
                0 <= channels <= 0x8000_0000,
        ;
        assert(rate * channels >= 1) by (nonlinear_arith)
            requires
                rate >= 1,
                channels >= 1,
        ;
        let product: u64 = rate * channels;
        if product > i32::MAX as u64 {
            return Err(PlayerError::DecodeError);
        }
        let sample_duration: u64 = NANOS_PER_SECOND / product;
        let sample_rate: i32 = first.sample_rate;
        let channel_count: usize = first.channels;
        let ghost first_view = first@;
        let mut history: Vec<Frame> = Vec::new();
        history.push(first);
        let cursor = SampleCursor {
            history,
            frame_index: 0,
            sample_index: 0,
            timestamp: 0,
            max_time_stamp: 0,
            sample_duration,
            sample_rate,
            channels: channel_count,
            frames,
            duration,
            current_sample: None,
            is_active: false,
        };
        proof {
            assert(frame_views(cursor.history@) =~= seq![first_view]);
            assert(samples_upto(cursor@.history, 0) =~= Seq::<i16>::empty());
        }
        Ok(cursor)
    }

    /// Time of the read position, in nanoseconds.
    pub fn timestamp(&self) -> (t: u64)
        ensures
            t == self@.timestamp,
    {
        self.timestamp
    }

    /// Furthest timestamp ever reached, in nanoseconds.
    pub fn max_time_stamp(&self) -> (t: u64)
        ensures
            t == self@.max_time_stamp,
    {
        self.max_time_stamp
    }

    /// Nanoseconds that one sample lasts.
    pub fn sample_duration(&self) -> (d: u64)
        ensures
            d == self@.sample_duration,
    {
        self.sample_duration
    }

    /// Sample rate of the track in hertz.
    pub fn sample_rate(&self) -> (rate: i32)
        ensures
            rate == self@.sample_rate,
    {
        self.sample_rate
    }

    /// Channel count of the track.
    pub fn channels(&self) -> (count: usize)
        ensures
            count == self@.channels,
    {
        self.channels
    }

    /// Frame count of the whole track.
    pub fn frames(&self) -> (count: usize)
        ensures
            count == self@.frames,
    {
        self.frames
    }

    /// Duration of the whole track in nanoseconds.
    pub fn duration(&self) -> (d: u64)
        ensures
            d == self@.duration,
    {
        self.duration
    }

    /// What the last pull produced.
    pub fn current_sample(&self) -> (sample: Option<i16>)
        ensures
            sample == self@.current_sample,
    {
        self.current_sample
    }

    /// Whether any sample was ever produced.
    pub fn is_active(&self) -> (active: bool)
        ensures
            active == self@.is_active,
    {
        self.is_active
    }

    /// Number of frames decoded so far.
    pub fn decoded(&self) -> (count: usize)
        ensures
            count == self@.decoded(),
    {
        self.history.len()
    }

    /// Pulls the next sample from the history. Where the read position is at
    /// the horizon, nothing is emitted and only the last-sample field changes.
    pub fn pull(&mut self) -> (r: Option<i16>)
        requires
            old(self).wf(),
            old(self)@.timestamp + old(self)@.sample_duration <= u64::MAX,
        ensures
            final(self).wf(),
            final(self)@ == old(self)@.pulled(),
            r == final(self)@.current_sample,
    {
        let ghost before = self@;
        let ghost views = frame_views(self.history@);
        while self.frame_index < self.history.len()
            invariant
                self.wf(),
                self@ == before,
                views == frame_views(self.history@),
            ensures
                self.wf(),
                self@ == before,
                views == frame_views(self.history@),
                self.frame_index < self.history.len() ==> self.sample_index
                    < self.history@[self.frame_index as int].data@.len(),
            decreases self.history.len() - self.frame_index,
        {
            if self.sample_index < self.history[self.frame_index].data.len() {
                break ;
            }
            proof {
                assert(samples_upto(views, self.frame_index + 1) == samples_upto(
                    views,
                    self.frame_index as int,
                ) + views[self.frame_index as int].data);
            }
            self.sample_index = 0;
            self.frame_index = self.frame_index + 1;
        }
        if self.frame_index < self.history.len() {
            let length: usize = self.history[self.frame_index].data.len();
            let sample: i16 = self.history[self.frame_index].data[self.sample_index];
            proof {
                lemma_sample_at(views, self.frame_index as int, self.sample_index as int);
            }
            let next: u64 = self.timestamp + self.sample_duration;
            if next > self.max_time_stamp {
                self.max_time_stamp = next;
            }
            self.timestamp = next;
            self.sample_index = self.sample_index + 1;
            self.current_sample = Some(sample);
            self.is_active = true;
            Some(sample)
        } else {
            self.current_sample = None;
            None
        }
    }

    /// Appends a decoded frame to the history. The read position stays.
    pub fn push_frame(&mut self, frame: Frame)
        requires
            old(self).wf(),
        ensures
            final(self).wf(),
            final(self)@ == old(self)@.append(frame@),
    {
        let ghost views = frame_views(self.history@);
        let ghost added = frame@;
        self.history.push(frame);
        proof {
            assert(frame_views(self.history@) =~= views.push(added));
            lemma_samples_upto_push(views, added, self.frame_index as int);
        }
    }

    /// Frame that `timestamp` falls in.
    pub fn target_frame(&self, timestamp: u64) -> (frame: usize)
        ensures
            frame == self@.target(timestamp as nat),
    {
        seek_frame(timestamp, self.duration, self.frames)
    }

    /// Number of frames that a seek to `timestamp` has to decode first.
    pub fn frames_needed(&self, timestamp: u64) -> (count: usize)
        ensures
            count == self@.frames_needed(timestamp as nat),
    {
        if timestamp > self.max_time_stamp {
            let target: usize = self.target_frame(timestamp);
            if target > self.history.len() {
                target - self.history.len()
            } else {
                0
            }
        } else {
            0
        }
    }

    /// Lands on `timestamp`: the read position goes to the start of the target
    /// frame, or to the horizon where that frame is not decoded; the timestamp
    /// becomes `timestamp`, and the furthest timestamp follows where
    /// `timestamp` is past it. Nothing is decoded.
    pub fn seek_to(&mut self, timestamp: u64)
        requires
            old(self).wf(),
        ensures
            final(self).wf(),
            final(self)@ == old(self)@.landed(timestamp as nat),
    {
        let target: usize = self.target_frame(timestamp);
        let frame: usize = if target < self.history.len() {
            target
        } else {
            self.history.len()
        };
        self.sample_index = 0;
        self.frame_index = frame;
        if timestamp > self.max_time_stamp {
            self.max_time_stamp = timestamp;
        }
        self.timestamp = timestamp;
    }
}

} // verus!
