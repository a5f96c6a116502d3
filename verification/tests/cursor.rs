use player::audio_controller::FRAME_RETRY_LIMIT;
use player::cursor::{seek_frame, SampleCursor};
use player::error::PlayerError;
use player::frame::Frame;

/// Stands for a decoder: hands out the frames it was given, then nothing, and
/// counts how often it was asked.
struct Feed {
    frames: Vec<Vec<i16>>,
    next: usize,
    calls: usize,
}

impl Feed {
    fn new(frames: Vec<Vec<i16>>) -> Feed {
        Feed { frames, next: 0, calls: 0 }
    }

    fn next_frame(&mut self) -> Option<Frame> {
        self.calls += 1;
        if self.next < self.frames.len() {
            let data = self.frames[self.next].clone();
            self.next += 1;
            Some(Frame::new(1000, 1, data))
        } else {
            None
        }
    }
}

/// One pull, as the track does it: from the history, else from the frames that the decoder
/// gives, passing over those without samples.
fn pull(cursor: &mut SampleCursor, feed: &mut Feed) -> Option<i16> {
    if let Some(sample) = cursor.pull() {
        return Some(sample);
    }
    let mut tries = 0;
    while tries < FRAME_RETRY_LIMIT {
        match feed.next_frame() {
            None => return None,
            Some(frame) => {
                cursor.push_frame(frame);
                tries += 1;
                if let Some(sample) = cursor.pull() {
                    return Some(sample);
                }
            }
        }
    }
    None
}

/// One seek, as the track does it.
fn seek(cursor: &mut SampleCursor, feed: &mut Feed, timestamp: u64) {
    let needed = cursor.frames_needed(timestamp);
    let mut got = 0;
    while got < needed {
        match feed.next_frame() {
            None => break,
            Some(frame) => {
                cursor.push_frame(frame);
                got += 1;
            }
        }
    }
    cursor.seek_to(timestamp);
}

/// A track of three frames with 2, 2 and 1 samples, of 5 ms in all, opened on its first frame.
fn three_frames() -> (SampleCursor, Feed) {
    let mut feed = Feed::new(vec![vec![1, 2], vec![3, 4], vec![5]]);
    let first = feed.next_frame().unwrap();
    let cursor = SampleCursor::new(first, 5_000_000, 3).unwrap();
    (cursor, feed)
}

#[test]
fn five_pulls_walk_three_frames() {
    let (mut cursor, mut feed) = three_frames();
    assert_eq!(cursor.sample_duration(), 1_000_000);
    for i in 1..=5u64 {
        assert_eq!(pull(&mut cursor, &mut feed), Some(i as i16));
        assert_eq!(cursor.timestamp(), i * 1_000_000);
        assert_eq!(cursor.max_time_stamp(), cursor.timestamp());
        assert_eq!(cursor.current_sample(), Some(i as i16));
        assert!(cursor.is_active());
    }
    assert_eq!(cursor.decoded(), 3);
    assert_eq!(feed.calls, 3);
}

#[test]
fn seek_to_zero_replays_from_the_first_frame() {
    let (mut cursor, mut feed) = three_frames();
    for i in 1..=5 {
        assert_eq!(pull(&mut cursor, &mut feed), Some(i));
    }
    assert_eq!(cursor.decoded(), 3);
    let calls = feed.calls;
    seek(&mut cursor, &mut feed, 0);
    assert_eq!(cursor.timestamp(), 0);
    assert_eq!(cursor.max_time_stamp(), 5_000_000);
    for i in 1..=5 {
        assert_eq!(pull(&mut cursor, &mut feed), Some(i));
        assert_eq!(cursor.max_time_stamp(), 5_000_000);
    }
    assert_eq!(feed.calls, calls);
    assert_eq!(cursor.timestamp(), 5_000_000);
}

#[test]
fn seek_to_the_duration_decodes_to_the_last_frame_and_no_further() {
    let (mut cursor, mut feed) = three_frames();
    assert_eq!(cursor.target_frame(5_000_000), 3);
    assert_eq!(cursor.frames_needed(5_000_000), 2);
    seek(&mut cursor, &mut feed, 5_000_000);
    assert_eq!(cursor.decoded(), 3);
    assert_eq!(feed.calls, 3);
    assert_eq!(cursor.timestamp(), 5_000_000);
    assert_eq!(cursor.max_time_stamp(), 5_000_000);
    assert_eq!(cursor.pull(), None);
    assert_eq!(pull(&mut cursor, &mut feed), None);
    assert_eq!(pull(&mut cursor, &mut feed), None);
    assert_eq!(cursor.current_sample(), None);
    assert_eq!(cursor.decoded(), 3);
}

#[test]
fn end_of_track_keeps_giving_nothing() {
    let (mut cursor, mut feed) = three_frames();
    for i in 1..=5 {
        assert_eq!(pull(&mut cursor, &mut feed), Some(i));
    }
    for _ in 0..10 {
        assert_eq!(pull(&mut cursor, &mut feed), None);
        assert_eq!(cursor.current_sample(), None);
        assert_eq!(cursor.timestamp(), 5_000_000);
        assert_eq!(cursor.max_time_stamp(), 5_000_000);
        assert!(cursor.is_active());
    }
}

#[test]
fn furthest_timestamp_never_retreats() {
    let (mut cursor, mut feed) = three_frames();
    let mut furthest = 0;
    let script: [Option<u64>; 12] = [
        None,
        None,
        Some(0),
        None,
        Some(4_000_000),
        None,
        Some(1_000_000),
        None,
        None,
        Some(5_000_000),
        None,
        Some(2_000_000),
    ];
    for step in script.iter() {
        match step {
            None => {
                pull(&mut cursor, &mut feed);
            }
            Some(timestamp) => seek(&mut cursor, &mut feed, *timestamp),
        }
        assert!(cursor.max_time_stamp() >= furthest);
        assert!(cursor.timestamp() <= cursor.max_time_stamp());
        furthest = cursor.max_time_stamp();
    }
}

#[test]
fn forward_seek_twice_is_the_same_as_once() {
    let (mut cursor, mut feed) = three_frames();
    seek(&mut cursor, &mut feed, 4_000_000);
    assert_eq!(cursor.decoded(), 2);
    assert_eq!(cursor.timestamp(), 4_000_000);
    let calls = feed.calls;
    assert_eq!(cursor.frames_needed(4_000_000), 0);
    seek(&mut cursor, &mut feed, 4_000_000);
    assert_eq!(feed.calls, calls);
    assert_eq!(cursor.decoded(), 2);
    assert_eq!(cursor.timestamp(), 4_000_000);
    assert_eq!(cursor.max_time_stamp(), 4_000_000);
    assert_eq!(pull(&mut cursor, &mut feed), Some(5));
}

#[test]
fn backward_seek_lands_on_the_start_of_the_target_frame() {
    let (mut cursor, mut feed) = three_frames();
    for i in 1..=5 {
        assert_eq!(pull(&mut cursor, &mut feed), Some(i));
    }
    seek(&mut cursor, &mut feed, 2_000_000);
    assert_eq!(cursor.target_frame(2_000_000), 1);
    assert_eq!(pull(&mut cursor, &mut feed), Some(3));
    assert_eq!(cursor.timestamp(), 3_000_000);
    seek(&mut cursor, &mut feed, 4_999_999);
    assert_eq!(pull(&mut cursor, &mut feed), Some(5));
}

#[test]
fn seek_to_the_furthest_timestamp_decodes_nothing() {
    let (mut cursor, mut feed) = three_frames();
    assert_eq!(pull(&mut cursor, &mut feed), Some(1));
    let calls = feed.calls;
    assert_eq!(cursor.target_frame(1_000_000), 0);
    seek(&mut cursor, &mut feed, 1_000_000);
    assert_eq!(feed.calls, calls);
    assert_eq!(cursor.decoded(), 1);
    assert_eq!(cursor.timestamp(), 1_000_000);
    assert_eq!(cursor.max_time_stamp(), 1_000_000);
    assert_eq!(pull(&mut cursor, &mut feed), Some(1));
    assert_eq!(pull(&mut cursor, &mut feed), Some(2));
    assert_eq!(cursor.max_time_stamp(), 3_000_000);
}

#[test]
fn forward_seek_within_the_history_lands_on_the_target_frame() {
    let (mut cursor, mut feed) = three_frames();
    seek(&mut cursor, &mut feed, 5_000_000);
    seek(&mut cursor, &mut feed, 0);
    assert_eq!(pull(&mut cursor, &mut feed), Some(1));
    let calls = feed.calls;
    seek(&mut cursor, &mut feed, 5_000_001);
    assert_eq!(feed.calls, calls);
    assert_eq!(cursor.timestamp(), 5_000_001);
    assert_eq!(cursor.max_time_stamp(), 5_000_001);
    assert_eq!(cursor.pull(), None);
    seek(&mut cursor, &mut feed, 0);
    seek(&mut cursor, &mut feed, 5_000_001);
    assert_eq!(cursor.pull(), None);
}

#[test]
fn frames_without_samples_are_passed_over() {
    let mut feed = Feed::new(vec![vec![7], vec![], vec![], vec![8]]);
    let first = feed.next_frame().unwrap();
    let mut cursor = SampleCursor::new(first, 2_000_000, 4).unwrap();
    assert_eq!(pull(&mut cursor, &mut feed), Some(7));
    assert_eq!(pull(&mut cursor, &mut feed), Some(8));
    assert_eq!(cursor.decoded(), 4);
    assert_eq!(cursor.timestamp(), 2_000_000);
    assert_eq!(pull(&mut cursor, &mut feed), None);
    assert_eq!(cursor.timestamp(), 2_000_000);
    seek(&mut cursor, &mut feed, 0);
    assert_eq!(cursor.pull(), Some(7));
    assert_eq!(cursor.pull(), Some(8));
    assert_eq!(cursor.pull(), None);
}

#[test]
fn a_pull_gives_up_after_too_many_frames_without_samples() {
    assert_eq!(FRAME_RETRY_LIMIT, 16);
    let mut frames = vec![vec![7]];
    frames.extend(std::iter::repeat(Vec::new()).take(17));
    frames.push(vec![9]);
    let mut feed = Feed::new(frames);
    let first = feed.next_frame().unwrap();
    let mut cursor = SampleCursor::new(first, 2_000_000, 19).unwrap();
    assert_eq!(pull(&mut cursor, &mut feed), Some(7));
    assert_eq!(pull(&mut cursor, &mut feed), None);
    assert_eq!(cursor.decoded(), 17);
    assert_eq!(cursor.current_sample(), None);
    assert_eq!(cursor.timestamp(), 1_000_000);
    assert_eq!(pull(&mut cursor, &mut feed), Some(9));
    assert_eq!(cursor.decoded(), 19);
    assert_eq!(cursor.timestamp(), 2_000_000);
}

#[test]
fn seek_to_the_furthest_timestamp_never_asks_the_decoder() {
    let mut feed = Feed::new(vec![vec![1, 2, 3], vec![4], vec![5]]);
    let first = feed.next_frame().unwrap();
    let mut cursor = SampleCursor::new(first, 5_000_000, 30).unwrap();
    assert_eq!(pull(&mut cursor, &mut feed), Some(1));
    assert_eq!(pull(&mut cursor, &mut feed), Some(2));
    assert_eq!(cursor.max_time_stamp(), 2_000_000);
    assert_eq!(cursor.target_frame(2_000_000), 12);
    assert_eq!(cursor.frames_needed(2_000_000), 0);
    assert_eq!(cursor.frames_needed(2_000_001), 11);
    let calls = feed.calls;
    seek(&mut cursor, &mut feed, 2_000_000);
    assert_eq!(feed.calls, calls);
    assert_eq!(cursor.decoded(), 1);
    assert_eq!(cursor.timestamp(), 2_000_000);
    assert_eq!(cursor.max_time_stamp(), 2_000_000);
    assert_eq!(cursor.pull(), None);
    assert_eq!(pull(&mut cursor, &mut feed), Some(4));
}

#[test]
fn a_first_frame_that_cannot_time_the_track_is_a_decode_error() {
    let bad = [
        Frame::new(0, 2, vec![1]),
        Frame::new(-44100, 2, vec![1]),
        Frame::new(44100, 0, vec![1]),
        Frame::new(i32::MAX, 2, vec![1]),
        Frame::new(1, usize::MAX, vec![1]),
    ];
    for frame in bad {
        assert!(matches!(SampleCursor::new(frame, 1, 1), Err(PlayerError::DecodeError)));
    }
    let cursor = SampleCursor::new(Frame::new(i32::MAX, 1, vec![1]), 1, 1).unwrap();
    assert_eq!(cursor.sample_duration(), 0);
    let cursor = SampleCursor::new(Frame::new(44100, 2, Vec::new()), 9, 4).unwrap();
    assert_eq!(cursor.sample_duration(), 11337);
    assert_eq!(cursor.sample_rate(), 44100);
    assert_eq!(cursor.channels(), 2);
    assert_eq!(cursor.duration(), 9);
    assert_eq!(cursor.frames(), 4);
}

#[test]
fn seek_frame_interpolates_over_the_track() {
    assert_eq!(seek_frame(0, 5, 3), 0);
    assert_eq!(seek_frame(1, 5, 3), 0);
    assert_eq!(seek_frame(2, 5, 3), 1);
    assert_eq!(seek_frame(4, 5, 3), 2);
    assert_eq!(seek_frame(5, 5, 3), 3);
    assert_eq!(seek_frame(10, 5, 3), 6);
    assert_eq!(seek_frame(0, 0, 3), 0);
    assert_eq!(seek_frame(7, 0, 0), 0);
    assert_eq!(seek_frame(7, 0, 3), usize::MAX);
    assert_eq!(seek_frame(u64::MAX, 1, usize::MAX), usize::MAX);
    assert_eq!(seek_frame(u64::MAX, u64::MAX, usize::MAX), usize::MAX);
    assert_eq!(seek_frame(u64::MAX - 1, u64::MAX, 10), 9);
}

#[test]
fn seek_past_what_the_decoder_has_goes_to_the_horizon() {
    let mut feed = Feed::new(vec![vec![1, 2], vec![3]]);
    let first = feed.next_frame().unwrap();
    let mut cursor = SampleCursor::new(first, 10_000_000, 10).unwrap();
    seek(&mut cursor, &mut feed, 9_000_000);
    assert_eq!(cursor.decoded(), 2);
    assert_eq!(cursor.timestamp(), 9_000_000);
    assert_eq!(pull(&mut cursor, &mut feed), None);
    seek(&mut cursor, &mut feed, 8_000_000);
    assert_eq!(cursor.timestamp(), 8_000_000);
    assert_eq!(cursor.max_time_stamp(), 9_000_000);
    assert_eq!(cursor.pull(), None);
    seek(&mut cursor, &mut feed, 0);
    assert_eq!(cursor.pull(), Some(1));
}
