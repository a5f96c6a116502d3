//! The track cursor over a real decoder, and the playback engine's state.

use vstd::prelude::*;
use crate::cursor::{playable_format, CursorView, SampleCursor, NANOS_PER_SECOND};
use crate::decoder::{
    decode_first, first_frame_of, next_frame, read_metadata, track_metadata, MAX_TRACK_BYTES,
};
use crate::error::PlayerError;
use crate::file_explorer::FileExplorer;
use crate::file_manager::{FileManager, PlaylistView};
use crate::frame::{lemma_all_samples_push, no_samples, FrameView};

verus! {

/// A duration of whole seconds and nanoseconds below a second, in
/// nanoseconds, capped at `u64::MAX`.
pub open spec fn duration_nanos(secs: u64, subsec_nanos: u32) -> nat {
    if secs * NANOS_PER_SECOND + subsec_nanos > u64::MAX {
        u64::MAX as nat
    } else {
        (secs * NANOS_PER_SECOND + subsec_nanos) as nat
    }
}

/// Computes `duration_nanos`.
pub fn total_nanos(secs: u64, subsec_nanos: u32) -> (nanos: u64)
    ensures
        nanos == duration_nanos(secs, subsec_nanos),
{
    match secs.checked_mul(NANOS_PER_SECOND) {
        Some(whole) => match whole.checked_add(subsec_nanos as u64) {
            Some(nanos) => nanos,
            None => u64::MAX,
        },
        None => u64::MAX,
    }
}

/// What opening the bytes of a file comes to: the cursor of the track on its
/// first frame, with the duration and frame count of its metadata; a metadata
/// error where there is no metadata; a decode error where there is no first
/// frame, or one whose format cannot time the track.
pub open spec fn opening(bytes: Seq<u8>) -> Result<CursorView, PlayerError> {
    match track_metadata(bytes) {
        None => Err(PlayerError::MetadataError),
        Some(meta) => match first_frame_of(bytes) {
            None => Err(PlayerError::DecodeError),
            Some(first) => if playable_format(first.sample_rate, first.channels) {
                Ok(
                    CursorView::initial(
                        first,
                        duration_nanos(meta.0, meta.1),
                        meta.2 as nat,
                    ),
                )
            } else {
                Err(PlayerError::DecodeError)
            },
        },
    }
}

/// Number of frames that one pull asks of the decoder at most: frames
/// without samples are passed over, up to this many in a row.
pub const FRAME_RETRY_LIMIT: usize = 16;

/// One open track: the decoder over the file's bytes, and the cursor over
/// what it has decoded so far.
pub struct TrackData {
    path: String,
    decoder: minimp3::Decoder<std::io::Cursor<Vec<u8>>>,
    cursor: SampleCursor,
}

impl View for TrackData {
    type V = CursorView;

    closed spec fn view(&self) -> CursorView {
        self.cursor@
    }
}

impl TrackData {
    /// Validity of the track: that of its cursor.
    pub closed spec fn wf(&self) -> bool {
        self.cursor.wf()
    }

    /// The decoder, whose state only a decoding step changes.
    pub closed spec fn source(&self) -> minimp3::Decoder<std::io::Cursor<Vec<u8>>> {
        self.decoder
    }

    /// The path that the track was opened from.
    pub closed spec fn path_view(&self) -> Seq<char> {
        self.path@
    }

    /// A valid track has a valid view.
    pub proof fn lemma_wf_view(&self)
        requires
            self.wf(),
        ensures
            self@.wf(),
    {
        self.cursor.lemma_wf_view();
    }

    /// Opens the track held in `bytes`, the contents of the file at `path`.
    ///
    /// The metadata is read first: without it the result is a metadata error,
    /// and bytes that the metadata reader cannot be given count as having
    /// none. Then the first frame is decoded: without a frame whose format can time
    /// the track, the result is a decode error. The cursor starts on the first
    /// frame, at timestamp zero, with nothing emitted.
    pub fn new(path: String, bytes: Vec<u8>) -> (r: Result<TrackData, PlayerError>)
        ensures
            match opening(bytes@) {
                Ok(view) => {
                    &&& r matches Ok(track)
                    &&& track.wf()
                    &&& track.path_view() == path@
                    &&& track@ == view
                },
                Err(error) => r matches Err(e) && e == error,
            },
    {
        if bytes.len() > MAX_TRACK_BYTES {
            return Err(PlayerError::MetadataError);
        }
        if bytes.len() >= 2 && bytes[0] == 0xFF && bytes[1] == 0x00 {
            return Err(PlayerError::MetadataError);
        }
        match read_metadata(&bytes) {
            None => Err(PlayerError::MetadataError),
            Some((secs, subsec_nanos, frames)) => {
                let duration: u64 = total_nanos(secs, subsec_nanos);
                let (decoder, first) = decode_first(bytes);
                match first {
                    None => Err(PlayerError::DecodeError),
                    Some(first) => match SampleCursor::new(first, duration, frames) {
                        Err(_) => Err(PlayerError::DecodeError),
                        Ok(cursor) => {
                            let mut track = TrackData { path, decoder, cursor };
                            proof {
                                track.cursor.lemma_wf_view();
                            }
                            track.set_timestamp(0);
                            Ok(track)
                        },
                    },
                }
            },
        }
    }

    /// The path that the track was opened from.
    pub fn path(&self) -> (path: &String)
        ensures
            path@ == self.path_view(),
    {
        &self.path
    }

    /// The cursor over the decoded frames.
    pub fn cursor(&self) -> (cursor: &SampleCursor)
        ensures
            cursor@ == self@,
            self.wf() ==> cursor.wf(),
    {
        &self.cursor
    }

    /// Pulls the next sample.
    ///
    /// A sample behind the horizon comes from the history and the decoder is
    /// not touched. At the horizon the decoder is asked for frames, each of
    /// which joins the history: the first sample of the first frame that holds
    /// one is emitted. Nothing is emitted where the decoder gives no frame, or
    /// where `FRAME_RETRY_LIMIT` frames in a row held no sample.
    pub fn get_sample(&mut self) -> (r: Option<i16>)
        requires
            old(self).wf(),
            old(self)@.timestamp + old(self)@.sample_duration <= u64::MAX,
        ensures
            final(self).wf(),
            final(self).path_view() == old(self).path_view(),
            r == final(self)@.current_sample,
            final(self)@.max_time_stamp >= old(self)@.max_time_stamp,
            final(self)@.timestamp <= final(self)@.max_time_stamp,
            r is Some ==> final(self)@.timestamp == old(self)@.timestamp + old(
                self,
            )@.sample_duration,
            r is None ==> final(self)@.timestamp == old(self)@.timestamp,
            old(self)@.timestamp == old(self)@.max_time_stamp ==> final(self)@.max_time_stamp
                == final(self)@.timestamp,
            old(self)@.history.is_prefix_of(final(self)@.history),
            old(self)@.has_cached() ==> {
                &&& final(self)@ == old(self)@.emit()
                &&& final(self)@.history == old(self)@.history
                &&& final(self).source() == old(self).source()
            },
            !old(self)@.has_cached() ==> {
                let appended = final(self)@.history.skip(old(self)@.decoded() as int);
                &&& appended.len() <= FRAME_RETRY_LIMIT
                &&& final(self)@ == old(self)@.append_all(appended).pulled()
                &&& appended.len() > 0 ==> no_samples(appended.drop_last())
                &&& r is None ==> no_samples(appended)
            },
    {
        let ghost before = self.cursor@;
        proof {
            self.cursor.lemma_wf_view();
        }
        let cached: Option<i16> = self.cursor.pull();
        if cached.is_some() {
            proof {
                self.cursor.lemma_wf_view();
            }
            return cached;
        }
        let ghost appended: Seq<FrameView> = Seq::empty();
        let mut sample: Option<i16> = None;
        let mut tries: usize = 0;
        assert(before.history + appended =~= before.history);
        while tries < FRAME_RETRY_LIMIT
            invariant_except_break
                sample is None,
                no_samples(appended),
                self.cursor@ == before.append_all(appended).miss(),
                !self.cursor@.has_cached(),
            invariant
                self.cursor.wf(),
                self.path == old(self).path,
                before.wf(),
                !before.has_cached(),
                before.timestamp + before.sample_duration <= u64::MAX,
                tries <= FRAME_RETRY_LIMIT,
                appended.len() == tries,
            ensures
                sample == self.cursor@.current_sample,
                self.cursor@ == before.append_all(appended).pulled(),
                appended.len() > 0 ==> no_samples(appended.drop_last()),
                sample is None ==> no_samples(appended),
            decreases FRAME_RETRY_LIMIT - tries,
        {
            match next_frame(&mut self.decoder) {
                None => {
                    break ;
                },
                Some(frame) => {
                    let ghost earlier = self.cursor@;
                    let ghost added = frame@;
                    proof {
                        self.cursor.lemma_wf_view();
                        lemma_all_samples_push(earlier.history, added);
                    }
                    self.cursor.push_frame(frame);
                    sample = self.cursor.pull();
                    tries = tries + 1;
                    proof {
                        assert((before.history + appended).push(added) =~= before.history
                            + appended.push(added));
                        assert(appended.push(added).drop_last() =~= appended);
                        appended = appended.push(added);
                    }
                    if sample.is_some() {
                        break ;
                    }
                },
            }
        }
        proof {
            self.cursor.lemma_wf_view();
            assert(self.cursor@.history.skip(before.decoded() as int) =~= appended);
        }
        sample
    }

    /// Seeks to `timestamp`, in nanoseconds.
    ///
    /// At or behind the furthest timestamp, and wherever the cursor needs no
    /// frame, the decoder is not touched and the history stays. Otherwise
    /// frames are decoded and appended until the count of decoded frames
    /// reaches the target frame or the decoder gives none. Then the cursor
    /// lands: on the start of the target frame, or on the horizon. A second
    /// seek to the same timestamp would need no frame and change nothing.
    pub fn set_timestamp(&mut self, timestamp: u64)
        requires
            old(self).wf(),
        ensures
            final(self).wf(),
            final(self).path_view() == old(self).path_view(),
            final(self)@.timestamp == timestamp,
            final(self)@.max_time_stamp >= old(self)@.max_time_stamp,
            final(self)@.timestamp <= final(self)@.max_time_stamp,
            old(self)@.history.is_prefix_of(final(self)@.history),
            final(self)@.decoded() - old(self)@.decoded() <= old(self)@.frames_needed(
                timestamp as nat,
            ),
            final(self)@ == old(self)@.seek(
                timestamp as nat,
                final(self)@.history.skip(old(self)@.decoded() as int),
            ),
            old(self)@.frames_needed(timestamp as nat) == 0 ==> {
                &&& final(self).source() == old(self).source()
                &&& final(self)@.history == old(self)@.history
            },
            timestamp <= old(self)@.max_time_stamp ==> {
                &&& final(self).source() == old(self).source()
                &&& final(self)@.history == old(self)@.history
                &&& final(self)@.max_time_stamp == old(self)@.max_time_stamp
            },
            timestamp > old(self)@.max_time_stamp ==> final(self)@.max_time_stamp == timestamp,
            final(self)@.frames_needed(timestamp as nat) == 0,
            final(self)@.landed(timestamp as nat) == final(self)@,
    {
        let needed: usize = self.cursor.frames_needed(timestamp);
        let ghost before = self.cursor@;
        let mut got: usize = 0;
        assert(before.history.skip(before.decoded() as int) =~= Seq::<FrameView>::empty());
        assert(before.history + Seq::<FrameView>::empty() =~= before.history);
        while got < needed
            invariant
                self.cursor.wf(),
                self.path == old(self).path,
                got <= needed,
                needed == 0 ==> self.decoder == old(self).decoder,
                before.history.is_prefix_of(self.cursor@.history),
                self.cursor@.decoded() == before.decoded() + got,
                self.cursor@ == before.append_all(
                    self.cursor@.history.skip(before.decoded() as int),
                ),
            decreases needed - got,
        {
            match next_frame(&mut self.decoder) {
                None => {
                    break ;
                },
                Some(frame) => {
                    self.cursor.push_frame(frame);
                    got = got + 1;
                    proof {
                        let now = self.cursor@.history;
                        let start = before.decoded() as int;
                        assert(before.history + now.skip(start) =~= now);
                    }
                },
            }
        }
        self.cursor.seek_to(timestamp);
        proof {
            self.cursor.lemma_wf_view();
        }
    }

    /// Whether the timestamp can advance by one sample without leaving the
    /// range of the machine's integers, as a pull asks.
    pub fn can_advance(&self) -> (ok: bool)
        ensures
            ok == (self@.timestamp + self@.sample_duration <= u64::MAX),
    {
        self.cursor.timestamp() <= u64::MAX - self.cursor.sample_duration()
    }
}

/// The volume that stands for 1.0: volumes are counted in thousandths.
pub const VOLUME_UNIT: u32 = 1000;

/// The greatest volume, 3.0.
pub const MAX_VOLUME: u32 = 3000;

/// The volume after a request to raise it by `delta`: a raise that would
/// reach the greatest volume or pass it is refused.
pub open spec fn raised_volume(volume: nat, delta: nat) -> nat {
    if volume + delta >= MAX_VOLUME {
        volume
    } else {
        volume + delta
    }
}

/// The volume after a request to lower it by `delta`: a cut that would reach
/// zero or pass it is refused.
pub open spec fn lowered_volume(volume: nat, delta: nat) -> nat {
    if volume - delta <= 0 {
        volume
    } else {
        (volume - delta) as nat
    }
}

/// The volume after a request to set it: a volume above the greatest is
/// brought down to it.
pub open spec fn clamped_volume(volume: nat) -> nat {
    if volume > MAX_VOLUME {
        MAX_VOLUME as nat
    } else {
        volume
    }
}

/// Where a jump forward by `delta` lands: never past the end of the track.
pub open spec fn forward_target(timestamp: nat, delta: nat, duration: nat) -> nat {
    if timestamp + delta > duration {
        duration
    } else {
        timestamp + delta
    }
}

/// Where a jump back by `delta` lands: never before the start of the track.
pub open spec fn back_target(timestamp: nat, delta: nat) -> nat {
    if delta < timestamp {
        (timestamp - delta) as nat
    } else {
        0
    }
}

/// From any volume within bounds, raising and lowering stay within bounds and
/// either apply the change exactly or leave the volume as it was.
pub proof fn lemma_volume_stays_bounded(volume: nat, delta: nat)
    requires
        volume <= MAX_VOLUME,
    ensures
        raised_volume(volume, delta) <= MAX_VOLUME,
        lowered_volume(volume, delta) <= MAX_VOLUME,
        clamped_volume(delta) <= MAX_VOLUME,
        volume + delta >= MAX_VOLUME ==> raised_volume(volume, delta) == volume,
        volume + delta < MAX_VOLUME ==> raised_volume(volume, delta) == volume + delta,
        volume <= delta ==> lowered_volume(volume, delta) == volume,
        volume > delta ==> lowered_volume(volume, delta) == volume - delta,
{
}

/// Duration and frame count of a track, as its metadata gives them.
#[derive(Debug, Clone, Copy, PartialEq, Eq, Structural)]
pub struct TrackMeta {
    /// Duration in nanoseconds.
    pub duration: u64,
    /// Number of frames.
    pub frames: usize,
}

/// What the control loop does when it polls the engine for the end of the
/// track.
#[derive(Debug, Clone, Copy, PartialEq, Eq, Structural)]
pub enum TrackEnd {
    /// The track has not ended: nothing to do.
    Playing,
    /// The track has ended and another follows: go on to it.
    Advance,
    /// The track has ended and it was the last: pause.
    Pause,
}

/// The playback engine as mathematical values.
pub struct PlayerView {
    /// Volume in thousandths.
    pub volume: nat,
    /// The active track's cursor.
    pub track: CursorView,
    /// The path that the active track was opened from.
    pub track_path: Seq<char>,
    /// The track list.
    pub playlist: PlaylistView,
    /// Channel count that the output stream was built for.
    pub stream_channels: nat,
    pub is_running: bool,
    pub is_playing: bool,
}

/// The playback engine's state: the active track, the volume, the transport
/// flags and the channel count of the output stream that serves them.
pub struct AudioPlayer {
    volume: u32,
    current_track: TrackData,
    pub file_manager: FileManager,
    stream_channels: usize,
    is_running: bool,
    is_playing: bool,
}

impl View for AudioPlayer {
    type V = PlayerView;

    closed spec fn view(&self) -> PlayerView {
        PlayerView {
            volume: self.volume as nat,
            track: self.current_track@,
            track_path: self.current_track.path_view(),
            playlist: self.file_manager@,
            stream_channels: self.stream_channels as nat,
            is_running: self.is_running,
            is_playing: self.is_playing,
        }
    }
}

impl PlayerView {
    /// A track has ended when its last pull produced nothing although it had
    /// produced samples before. What follows depends on whether the playing
    /// order has another track.
    pub open spec fn track_end(self) -> TrackEnd {
        if self.track.current_sample is None && self.track.is_active {
            if self.playlist.tracks_left() != 0 {
                TrackEnd::Advance
            } else {
                TrackEnd::Pause
            }
        } else {
            TrackEnd::Playing
        }
    }
}

impl AudioPlayer {
    /// Validity of the engine: a valid track and track list, and a volume
    /// within bounds.
    pub closed spec fn wf(&self) -> bool {
        &&& self.current_track.wf()
        &&& self.file_manager.wf()
        &&& self.volume <= MAX_VOLUME
    }

    /// The active track's decoder.
    pub closed spec fn source(&self) -> minimp3::Decoder<std::io::Cursor<Vec<u8>>> {
        self.current_track.source()
    }

    /// A valid engine has a valid track and track list, and a volume within
    /// bounds.
    pub proof fn lemma_wf_view(&self)
        requires
            self.wf(),
        ensures
            self@.track.wf(),
            self@.playlist.wf(),
            self@.volume <= MAX_VOLUME,
    {
        self.current_track.lemma_wf_view();
        self.file_manager.lemma_wf_view();
    }

    /// An engine over a track list and its first track, already opened. The
    /// volume is 1.0, nothing runs or plays, and the output stream is to be
    /// built for the track's channel count.
    pub fn new(file_manager: FileManager, track: TrackData) -> (player: AudioPlayer)
        requires
            file_manager.wf(),
            track.wf(),
        ensures
            player.wf(),
            player.source() == track.source(),
            player@ == (PlayerView {
                volume: VOLUME_UNIT as nat,
                track: track@,
                track_path: track.path_view(),
                playlist: file_manager@,
                stream_channels: track@.channels,
                is_running: false,
                is_playing: false,
            }),
    {
        let stream_channels: usize = track.cursor().channels();
        AudioPlayer {
            volume: VOLUME_UNIT,
            current_track: track,
            file_manager,
            stream_channels,
            is_running: false,
            is_playing: false,
        }
    }

    /// First start: the engine runs and plays.
    pub fn run(&mut self)
        ensures
            final(self)@ == (PlayerView { is_running: true, is_playing: true, ..old(self)@ }),
            old(self).wf() ==> final(self).wf(),
            final(self).source() == old(self).source(),
    {
        self.is_running = true;
        self.play();
    }

    /// Whether the engine was started and not stopped.
    pub fn is_running(&self) -> (running: bool)
        ensures
            running == self@.is_running,
    {
        self.is_running
    }

    /// Whether the engine plays.
    pub fn is_playing(&self) -> (playing: bool)
        ensures
            playing == self@.is_playing,
    {
        self.is_playing
    }

    /// Pauses: the stream stays, the engine does not play.
    pub fn pause(&mut self)
        ensures
            final(self)@ == (PlayerView { is_playing: false, ..old(self)@ }),
            old(self).wf() ==> final(self).wf(),
            final(self).source() == old(self).source(),
    {
        self.is_playing = false;
    }

    /// Plays.
    pub fn play(&mut self)
        ensures
            final(self)@ == (PlayerView { is_playing: true, ..old(self)@ }),
            old(self).wf() ==> final(self).wf(),
            final(self).source() == old(self).source(),
    {
        self.is_playing = true;
    }

    /// Stops for good: the engine no longer runs.
    pub fn stop(&mut self)
        ensures
            final(self)@ == (PlayerView { is_running: false, ..old(self)@ }),
            old(self).wf() ==> final(self).wf(),
            final(self).source() == old(self).source(),
    {
        self.is_running = false;
    }

    /// Sets the volume, in thousandths; one above the greatest is brought down
    /// to it.
    pub fn set_volume(&mut self, volume: u32)
        ensures
            final(self)@ == (PlayerView {
                volume: clamped_volume(volume as nat),
                ..old(self)@
            }),
            old(self).wf() ==> final(self).wf(),
            final(self).source() == old(self).source(),
    {
        if volume > MAX_VOLUME {
            self.volume = MAX_VOLUME;
        } else {
            self.volume = volume;
        }
    }

    /// Raises the volume by `volume` thousandths, unless that would reach the
    /// greatest volume or pass it.
    pub fn increase_volume_by(&mut self, volume: u32)
        ensures
            final(self)@ == (PlayerView {
                volume: raised_volume(old(self)@.volume, volume as nat),
                ..old(self)@
            }),
            old(self).wf() ==> final(self).wf(),
            final(self).source() == old(self).source(),
    {
        let new_volume: u64 = self.volume as u64 + volume as u64;
        if new_volume < MAX_VOLUME as u64 {
            self.volume = new_volume as u32;
        }
    }

    /// Lowers the volume by `volume` thousandths, unless that would reach
    /// zero or pass it.
    pub fn decrease_volume_by(&mut self, volume: u32)
        ensures
            final(self)@ == (PlayerView {
                volume: lowered_volume(old(self)@.volume, volume as nat),
                ..old(self)@
            }),
            old(self).wf() ==> final(self).wf(),
            final(self).source() == old(self).source(),
    {
        if self.volume > volume {
            self.volume = self.volume - volume;
        }
    }

    /// The volume, in thousandths.
    pub fn get_volume(&self) -> (volume: u32)
        ensures
            volume == self@.volume,
    {
        self.volume
    }

    /// Whether the active track ever produced a sample.
    pub fn current_track_is_active(&self) -> (active: bool)
        ensures
            active == self@.track.is_active,
    {
        self.current_track.cursor().is_active()
    }

    /// What the active track's last pull produced.
    pub fn get_current_sample(&self) -> (sample: Option<i16>)
        ensures
            sample == self@.track.current_sample,
    {
        self.current_track.cursor().current_sample()
    }

    /// Time of the active track's read position, in nanoseconds.
    pub fn get_timestamp(&self) -> (timestamp: u64)
        ensures
            timestamp == self@.track.timestamp,
    {
        self.current_track.cursor().timestamp()
    }

    /// Duration and frame count of the active track.
    pub fn get_track_meta(&self) -> (meta: TrackMeta)
        ensures
            meta.duration == self@.track.duration,
            meta.frames == self@.track.frames,
    {
        TrackMeta {
            duration: self.current_track.cursor().duration(),
            frames: self.current_track.cursor().frames(),
        }
    }

    /// The active track.
    pub fn current_track(&self) -> (track: &TrackData)
        ensures
            track@ == self@.track,
            track.path_view() == self@.track_path,
            track.source() == self.source(),
            self.wf() ==> track.wf(),
    {
        &self.current_track
    }

    /// Seeks the active track to `timestamp`, in nanoseconds, and resumes
    /// playing. The caller pauses the stream and lets the callback settle
    /// before the call.
    pub fn set_timestamp(&mut self, timestamp: u64)
        requires
            old(self).wf(),
        ensures
            final(self).wf(),
            final(self)@ == (PlayerView {
                track: final(self)@.track,
                is_playing: true,
                ..old(self)@
            }),
            old(self)@.track.history.is_prefix_of(final(self)@.track.history),
            final(self)@.track.decoded() - old(self)@.track.decoded() <= old(
                self,
            )@.track.frames_needed(timestamp as nat),
            final(self)@.track == old(self)@.track.seek(
                timestamp as nat,
                final(self)@.track.history.skip(old(self)@.track.decoded() as int),
            ),
            old(self)@.track.frames_needed(timestamp as nat) == 0 ==> final(self).source() == old(
                self,
            ).source(),
            timestamp <= old(self)@.track.max_time_stamp ==> {
                &&& final(self).source() == old(self).source()
                &&& final(self)@.track.history == old(self)@.track.history
                &&& final(self)@.track.max_time_stamp == old(self)@.track.max_time_stamp
            },
            final(self)@.track.max_time_stamp >= old(self)@.track.max_time_stamp,
            final(self)@.track.frames_needed(timestamp as nat) == 0,
            final(self)@.track.landed(timestamp as nat) == final(self)@.track,
    {
        self.pause();
        self.current_track.set_timestamp(timestamp);
        self.play();
    }

    /// Jumps forward by `timestamp_delta` nanoseconds, at most to the end of
    /// the track.
    pub fn move_timestamp_forward(&mut self, timestamp_delta: u64)
        requires
            old(self).wf(),
        ensures
            final(self).wf(),
            final(self)@ == (PlayerView {
                track: final(self)@.track,
                is_playing: true,
                ..old(self)@
            }),
            old(self)@.track.history.is_prefix_of(final(self)@.track.history),
            final(self)@.track == old(self)@.track.seek(
                forward_target(
                    old(self)@.track.timestamp,
                    timestamp_delta as nat,
                    old(self)@.track.duration,
                ),
                final(self)@.track.history.skip(old(self)@.track.decoded() as int),
            ),
            final(self)@.track.decoded() - old(self)@.track.decoded() <= old(
                self,
            )@.track.frames_needed(
                forward_target(
                    old(self)@.track.timestamp,
                    timestamp_delta as nat,
                    old(self)@.track.duration,
                ),
            ),
            old(self)@.track.frames_needed(
                forward_target(
                    old(self)@.track.timestamp,
                    timestamp_delta as nat,
                    old(self)@.track.duration,
                ),
            ) == 0 ==> final(self).source() == old(self).source(),
    {
        let now: u64 = self.current_track.cursor().timestamp();
        let duration: u64 = self.current_track.cursor().duration();
        let timestamp: u64 = if timestamp_delta > duration || now > duration - timestamp_delta {
            duration
        } else {
            now + timestamp_delta
        };
        self.set_timestamp(timestamp);
    }

    /// Jumps back by `timestamp_delta` nanoseconds, at most to the start of
    /// the track.
    pub fn move_timestamp_back(&mut self, timestamp_delta: u64)
        requires
            old(self).wf(),
        ensures
            final(self).wf(),
            final(self)@ == (PlayerView {
                track: final(self)@.track,
                is_playing: true,
                ..old(self)@
            }),
            old(self)@.track.history.is_prefix_of(final(self)@.track.history),
            final(self)@.track == old(self)@.track.seek(
                back_target(old(self)@.track.timestamp, timestamp_delta as nat),
                final(self)@.track.history.skip(old(self)@.track.decoded() as int),
            ),
            final(self)@.track.decoded() - old(self)@.track.decoded() <= old(
                self,
            )@.track.frames_needed(
                back_target(old(self)@.track.timestamp, timestamp_delta as nat),
            ),
            old(self)@.track.frames_needed(
                back_target(old(self)@.track.timestamp, timestamp_delta as nat),
            ) == 0 ==> final(self).source() == old(self).source(),
    {
        let now: u64 = self.current_track.cursor().timestamp();
        let timestamp: u64 = if timestamp_delta < now {
            now - timestamp_delta
        } else {
            0
        };
        self.set_timestamp(timestamp);
    }

    /// Swaps `track` in for the active track. The result says whether the
    /// output stream has to be rebuilt, which is when the new track's channel
    /// count differs from the stream's; the engine then plays, as it does
    /// after a rebuild. Volume and the running flag survive the swap.
    pub fn change_track(&mut self, track: TrackData) -> (rebuild: bool)
        requires
            old(self).wf(),
            track.wf(),
        ensures
            final(self).wf(),
            final(self).source() == track.source(),
            rebuild == (track@.channels != old(self)@.stream_channels),
            final(self)@ == (PlayerView {
                track: track@,
                track_path: track.path_view(),
                stream_channels: track@.channels,
                is_playing: rebuild || old(self)@.is_playing,
                ..old(self)@
            }),
    {
        let channels: usize = track.cursor().channels();
        self.current_track = track;
        if channels != self.stream_channels {
            self.stream_channels = channels;
            self.play();
            true
        } else {
            false
        }
    }

    /// Opens the track held in `bytes`, the contents of the file at `path`,
    /// and swaps it in. Where the track cannot be opened, the engine stays as
    /// it was.
    pub fn load_track(&mut self, path: String, bytes: Vec<u8>) -> (r: Result<bool, PlayerError>)
        requires
            old(self).wf(),
        ensures
            final(self).wf(),
            match opening(bytes@) {
                Ok(view) => {
                    &&& r matches Ok(rebuild)
                    &&& rebuild == (view.channels != old(self)@.stream_channels)
                    &&& final(self)@ == (PlayerView {
                        track: view,
                        track_path: path@,
                        stream_channels: view.channels,
                        is_playing: rebuild || old(self)@.is_playing,
                        ..old(self)@
                    })
                },
                Err(error) => {
                    &&& r matches Err(e)
                    &&& e == error
                    &&& final(self)@ == old(self)@
                    &&& final(self).source() == old(self).source()
                },
            },
    {
        match TrackData::new(path, bytes) {
            Ok(track) => Ok(self.change_track(track)),
            Err(e) => Err(e),
        }
    }

    /// Pulls the next sample of the active track, for the output callback.
    pub fn pull_sample(&mut self) -> (r: Option<i16>)
        requires
            old(self).wf(),
            old(self)@.track.timestamp + old(self)@.track.sample_duration <= u64::MAX,
        ensures
            final(self).wf(),
            final(self)@ == (PlayerView { track: final(self)@.track, ..old(self)@ }),
            r == final(self)@.track.current_sample,
            old(self)@.track.history.is_prefix_of(final(self)@.track.history),
            old(self)@.track.has_cached() ==> {
                &&& final(self)@.track == old(self)@.track.emit()
                &&& final(self).source() == old(self).source()
            },
            !old(self)@.track.has_cached() ==> {
                let appended = final(self)@.track.history.skip(
                    old(self)@.track.decoded() as int,
                );
                &&& appended.len() <= FRAME_RETRY_LIMIT
                &&& final(self)@.track == old(self)@.track.append_all(appended).pulled()
                &&& appended.len() > 0 ==> no_samples(appended.drop_last())
                &&& r is None ==> no_samples(appended)
            },
    {
        self.current_track.get_sample()
    }

    /// Polls for the end of the track.
    pub fn track_end(&self) -> (end: TrackEnd)
        requires
            self.wf(),
        ensures
            end == self@.track_end(),
    {
        if self.get_current_sample().is_none() && self.current_track_is_active() {
            if self.file_manager.tracks_left() != 0 {
                TrackEnd::Advance
            } else {
                TrackEnd::Pause
            }
        } else {
            TrackEnd::Playing
        }
    }

    /// Turns shuffling on or off. Turning it off brings the track list back
    /// to the order in which the paths were found, and the explorer to the row
    /// of the current track.
    pub fn toggle_shuffle(&mut self, file_explorer: &mut FileExplorer)
        requires
            old(self).wf(),
            old(file_explorer).wf(),
        ensures
            final(self).wf(),
            final(file_explorer).wf(),
            final(self).source() == old(self).source(),
            final(self)@ == (PlayerView { playlist: final(self)@.playlist, ..old(self)@ }),
            final(self)@.playlist.paths == old(self)@.playlist.paths,
            final(self)@.playlist.current() == old(self)@.playlist.current(),
            !old(self)@.playlist.is_shuffled ==> {
                &&& old(self)@.playlist.shuffled_into(final(self)@.playlist)
                &&& final(file_explorer)@ == old(file_explorer)@
            },
            old(self)@.playlist.is_shuffled ==> {
                &&& final(self)@.playlist == old(self)@.playlist.unshuffled()
                &&& final(file_explorer)@ == old(file_explorer)@.with_viewport(
                    final(self)@.playlist.cur,
                ).with_highlight(final(self)@.playlist.cur)
            },
    {
        self.file_manager.toggle_shuffle();
        if !self.file_manager.is_shuffled() {
            let index: usize = self.file_manager.current_index();
            proof {
                self.file_manager.lemma_wf_view();
                assert(index == self.file_manager@.cur);
            }
            file_explorer.set_viewport(index);
            file_explorer.set_highlight(index);
        }
    }
}

} // verus!
