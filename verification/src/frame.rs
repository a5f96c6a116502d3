//! Decoded audio frames.

use vstd::prelude::*;

verus! {

/// What a decoded frame holds, as mathematical values.
pub struct FrameView {
    pub sample_rate: int,
    pub channels: nat,
    pub data: Seq<i16>,
}

/// One unit of decoded audio: a sample rate in hertz, a channel count and the
/// interleaved 16-bit samples.
#[derive(Debug)]
pub struct Frame {
    pub sample_rate: i32,
    pub channels: usize,
    pub data: Vec<i16>,
}

impl View for Frame {
    type V = FrameView;

    open spec fn view(&self) -> FrameView {
        FrameView {
            sample_rate: self.sample_rate as int,
            channels: self.channels as nat,
            data: self.data@,
        }
    }
}

impl Frame {
    /// Builds a frame from its parts.
    pub fn new(sample_rate: i32, channels: usize, data: Vec<i16>) -> (frame: Frame)
        ensures
            frame@ == (FrameView {
                sample_rate: sample_rate as int,
                channels: channels as nat,
                data: data@,
            }),
    {
        Frame { sample_rate, channels, data }
    }

    /// Number of interleaved samples in the frame.
    pub fn len(&self) -> (n: usize)
        ensures
            n == self@.data.len(),
    {
        self.data.len()
    }
}

/// The views of a run of frames, in order.
pub open spec fn frame_views(frames: Seq<Frame>) -> Seq<FrameView> {
    frames.map_values(|f: Frame| f@)
}

/// The samples of the first `k` frames of `history`, concatenated.
pub open spec fn samples_upto(history: Seq<FrameView>, k: int) -> Seq<i16>
    decreases k,
{
    if k <= 0 {
        Seq::empty()
    } else {
        samples_upto(history, k - 1) + history[k - 1].data
    }
}

/// Every sample of `history`, in playing order.
pub open spec fn all_samples(history: Seq<FrameView>) -> Seq<i16> {
    samples_upto(history, history.len() as int)
}

/// Offset, among all samples, of the first sample of frame `k`.
pub open spec fn frame_start(history: Seq<FrameView>, k: int) -> nat {
    samples_upto(history, k).len()
}

/// Appending a frame leaves the samples of earlier frames where they were.
pub proof fn lemma_samples_upto_push(history: Seq<FrameView>, frame: FrameView, k: int)
    requires
        0 <= k <= history.len(),
    ensures
        samples_upto(history.push(frame), k) == samples_upto(history, k),
    decreases k,
{
    if k > 0 {
        lemma_samples_upto_push(history, frame, k - 1);
        assert(history.push(frame)[k - 1] == history[k - 1]);
    }
}

/// The samples of the first `k` frames open the samples of the first `n`.
pub proof fn lemma_samples_upto_prefix(history: Seq<FrameView>, k: int, n: int)
    requires
        0 <= k <= n <= history.len(),
    ensures
        samples_upto(history, k).is_prefix_of(samples_upto(history, n)),
        frame_start(history, k) <= frame_start(history, n),
    decreases n - k,
{
    if k < n {
        lemma_samples_upto_prefix(history, k, n - 1);
        let a = samples_upto(history, k);
        let b = samples_upto(history, n - 1);
        let c = samples_upto(history, n);
        assert(c == b + history[n - 1].data);
        assert(a.len() <= c.len());
        assert(forall|i: int| 0 <= i < a.len() ==> a[i] == c[i]) by {
            assert(forall|i: int| 0 <= i < a.len() ==> a[i] == b[i]);
        }
    }
}

/// Sample `j` of frame `k` sits at offset `frame_start(history, k) + j`.
pub proof fn lemma_sample_at(history: Seq<FrameView>, k: int, j: int)
    requires
        0 <= k < history.len(),
        0 <= j < history[k].data.len(),
    ensures
        frame_start(history, k) + j < all_samples(history).len(),
        all_samples(history)[frame_start(history, k) + j] == history[k].data[j],
{
    lemma_samples_upto_prefix(history, k + 1, history.len() as int);
    let upto = samples_upto(history, k + 1);
    assert(upto == samples_upto(history, k) + history[k].data);
    assert(upto[frame_start(history, k) + j] == history[k].data[j]);
}

/// Whether none of the frames holds a sample.
pub open spec fn no_samples(frames: Seq<FrameView>) -> bool {
    forall|i: int| 0 <= i < frames.len() ==> (#[trigger] frames[i]).data.len() == 0
}

/// The samples of a history with one more frame are those of the history,
/// then those of the frame.
pub proof fn lemma_all_samples_push(history: Seq<FrameView>, frame: FrameView)
    ensures
        all_samples(history.push(frame)) == all_samples(history) + frame.data,
{
    lemma_samples_upto_push(history, frame, history.len() as int);
}

} // verus!
