use player::audio_controller::{AudioPlayer, TrackData, TrackEnd, TrackMeta, MAX_VOLUME, VOLUME_UNIT};
use player::error::PlayerError;
use player::file_explorer::FileExplorer;
use player::file_manager::FileManager;

const FRAME_NANOS: u64 = 26_122_448;

/// `count` silent MPEG-1 layer III frames of 417 bytes, stereo or mono.
fn silent_bytes(count: usize, mono: bool) -> Vec<u8> {
    let mut bytes = Vec::new();
    for _ in 0..count {
        bytes.extend_from_slice(&[0xFF, 0xFB, 0x90, if mono { 0xC0 } else { 0x00 }]);
        bytes.extend(std::iter::repeat(0u8).take(413));
    }
    bytes
}

fn paths(count: usize) -> Vec<String> {
    (0..count).map(|i| format!("dir/{}.mp3", i)).collect()
}

fn engine(tracks: usize) -> AudioPlayer {
    let manager = FileManager::new(paths(tracks)).unwrap();
    let track = TrackData::new(manager.get_current(), silent_bytes(8, false)).unwrap();
    AudioPlayer::new(manager, track)
}

#[test]
fn a_new_engine_is_silent_at_volume_one() {
    let player = engine(3);
    assert_eq!(player.get_volume(), VOLUME_UNIT);
    assert_eq!(player.get_volume(), 1000);
    assert!(!player.is_running());
    assert!(!player.is_playing());
    assert_eq!(player.get_timestamp(), 0);
    assert_eq!(player.get_current_sample(), None);
    assert!(!player.current_track_is_active());
    assert_eq!(player.get_track_meta(), TrackMeta { duration: 8 * FRAME_NANOS, frames: 8 });
    assert_eq!(player.current_track().path(), "dir/0.mp3");
    assert_eq!(player.track_end(), TrackEnd::Playing);
}

#[test]
fn transport_flags_follow_the_controls() {
    let mut player = engine(1);
    player.run();
    assert!(player.is_running());
    assert!(player.is_playing());
    player.pause();
    assert!(player.is_running());
    assert!(!player.is_playing());
    player.play();
    assert!(player.is_playing());
    player.stop();
    assert!(!player.is_running());
    assert!(player.is_playing());
}

#[test]
fn volume_sequence_set_raise_raise() {
    let mut player = engine(1);
    player.set_volume(1000);
    assert_eq!(player.get_volume(), 1000);
    player.increase_volume_by(2500);
    assert_eq!(player.get_volume(), 1000);
    player.increase_volume_by(500);
    assert_eq!(player.get_volume(), 1500);
    player.set_volume(3000);
    player.increase_volume_by(500);
    assert_eq!(player.get_volume(), 3000);
}

#[test]
fn volume_changes_are_applied_or_refused() {
    let mut player = engine(1);
    player.increase_volume_by(150);
    assert_eq!(player.get_volume(), 1150);
    player.increase_volume_by(1849);
    assert_eq!(player.get_volume(), 2999);
    player.increase_volume_by(1);
    assert_eq!(player.get_volume(), 2999);
    player.increase_volume_by(u32::MAX);
    assert_eq!(player.get_volume(), 2999);
    player.decrease_volume_by(2998);
    assert_eq!(player.get_volume(), 1);
    player.decrease_volume_by(1);
    assert_eq!(player.get_volume(), 1);
    player.decrease_volume_by(u32::MAX);
    assert_eq!(player.get_volume(), 1);
    player.set_volume(0);
    assert_eq!(player.get_volume(), 0);
    player.decrease_volume_by(0);
    assert_eq!(player.get_volume(), 0);
    player.increase_volume_by(0);
    assert_eq!(player.get_volume(), 0);
    player.set_volume(3001);
    assert_eq!(player.get_volume(), MAX_VOLUME);
    player.set_volume(u32::MAX);
    assert_eq!(player.get_volume(), 3000);
    player.decrease_volume_by(150);
    assert_eq!(player.get_volume(), 2850);
}

#[test]
fn volume_survives_pulls_and_seeks() {
    let mut player = engine(1);
    player.set_volume(2200);
    assert_eq!(player.pull_sample(), Some(0));
    player.set_timestamp(3 * FRAME_NANOS);
    assert_eq!(player.get_volume(), 2200);
}

#[test]
fn jumps_are_clamped_to_the_track() {
    let mut player = engine(1);
    let duration = 8 * FRAME_NANOS;
    player.move_timestamp_back(5_000_000_000);
    assert_eq!(player.get_timestamp(), 0);
    assert!(player.is_playing());
    player.pause();
    player.move_timestamp_forward(2 * FRAME_NANOS);
    assert_eq!(player.get_timestamp(), 2 * FRAME_NANOS);
    assert!(player.is_playing());
    player.move_timestamp_back(FRAME_NANOS);
    assert_eq!(player.get_timestamp(), FRAME_NANOS);
    player.move_timestamp_back(FRAME_NANOS);
    assert_eq!(player.get_timestamp(), 0);
    player.move_timestamp_forward(5_000_000_000);
    assert_eq!(player.get_timestamp(), duration);
    player.move_timestamp_forward(u64::MAX);
    assert_eq!(player.get_timestamp(), duration);
    assert_eq!(player.pull_sample(), None);
    player.move_timestamp_back(u64::MAX);
    assert_eq!(player.get_timestamp(), 0);
    assert_eq!(player.pull_sample(), Some(0));
}

#[test]
fn seek_keeps_the_flags_but_resumes() {
    let mut player = engine(1);
    player.run();
    player.pause();
    player.set_timestamp(FRAME_NANOS);
    assert!(player.is_running());
    assert!(player.is_playing());
    assert_eq!(player.get_timestamp(), FRAME_NANOS);
    assert_eq!(player.current_track().cursor().max_time_stamp(), FRAME_NANOS);
}

#[test]
fn a_track_with_the_same_channels_keeps_the_stream() {
    let mut player = engine(2);
    player.set_volume(700);
    player.run();
    player.pause();
    let next = TrackData::new(String::from("dir/1.mp3"), silent_bytes(4, false)).unwrap();
    assert!(!player.change_track(next));
    assert!(!player.is_playing());
    assert!(player.is_running());
    assert_eq!(player.get_volume(), 700);
    assert_eq!(player.get_track_meta(), TrackMeta { duration: 4 * FRAME_NANOS, frames: 4 });
    assert_eq!(player.current_track().path(), "dir/1.mp3");
}

#[test]
fn a_track_with_other_channels_rebuilds_the_stream() {
    let mut player = engine(2);
    player.run();
    player.pause();
    let mono = TrackData::new(String::from("dir/1.mp3"), silent_bytes(4, true)).unwrap();
    assert_eq!(mono.cursor().channels(), 1);
    assert_eq!(mono.cursor().sample_duration(), 22675);
    assert!(player.change_track(mono));
    assert!(player.is_playing());
    let mono = TrackData::new(String::from("dir/1.mp3"), silent_bytes(4, true)).unwrap();
    player.pause();
    assert!(!player.change_track(mono));
    assert!(!player.is_playing());
    let stereo = TrackData::new(String::from("dir/0.mp3"), silent_bytes(4, false)).unwrap();
    assert!(player.change_track(stereo));
}

#[test]
fn loading_a_broken_track_leaves_the_engine_alone() {
    let mut player = engine(2);
    assert_eq!(player.pull_sample(), Some(0));
    let r = player.load_track(String::from("dir/1.mp3"), vec![0u8; 64]);
    assert_eq!(r, Err(PlayerError::MetadataError));
    assert_eq!(player.current_track().path(), "dir/0.mp3");
    assert_eq!(player.get_timestamp(), 11337);
    let r = player.load_track(String::from("dir/1.mp3"), silent_bytes(5, true));
    assert_eq!(r, Ok(true));
    assert_eq!(player.current_track().path(), "dir/1.mp3");
    assert_eq!(player.get_timestamp(), 0);
    assert_eq!(player.get_track_meta().frames, 5);
}

#[test]
fn the_end_of_the_track_is_seen_by_polling() {
    let mut player = engine(2);
    assert_eq!(player.track_end(), TrackEnd::Playing);
    assert_eq!(player.pull_sample(), Some(0));
    assert_eq!(player.track_end(), TrackEnd::Playing);
    player.move_timestamp_forward(u64::MAX);
    assert_eq!(player.track_end(), TrackEnd::Playing);
    assert_eq!(player.pull_sample(), None);
    assert_eq!(player.track_end(), TrackEnd::Advance);
    assert_eq!(player.file_manager.next(), Some(String::from("dir/1.mp3")));
    assert_eq!(player.track_end(), TrackEnd::Pause);
    let fresh = TrackData::new(String::from("dir/1.mp3"), silent_bytes(2, false)).unwrap();
    player.change_track(fresh);
    assert_eq!(player.track_end(), TrackEnd::Playing);
}

#[test]
fn unshuffling_brings_the_explorer_to_the_current_track() {
    let mut player = engine(30);
    let mut explorer = FileExplorer::new(30, 10);
    for _ in 0..12 {
        player.file_manager.next();
        explorer.move_down();
    }
    assert_eq!(player.file_manager.current_index(), 12);
    player.toggle_shuffle(&mut explorer);
    assert!(player.file_manager.is_shuffled());
    assert_eq!(player.file_manager.current_index(), 12);
    assert_eq!(explorer.highlighted_index(), 12);
    for _ in 0..5 {
        player.file_manager.next();
    }
    let index = player.file_manager.current_index();
    let path = player.file_manager.get_current();
    player.toggle_shuffle(&mut explorer);
    assert!(!player.file_manager.is_shuffled());
    assert_eq!(player.file_manager.current_index(), index);
    assert_eq!(player.file_manager.get_current(), path);
    assert_eq!(explorer.highlighted_index(), index);
    assert_eq!(explorer.start_index(), index.min(20));
}
