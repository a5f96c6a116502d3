use player::file_explorer::{
    describe_track, header_text, row_text, trim_nul_chars, FileExplorer, TrackInfo,
};

fn state(explorer: &FileExplorer) -> (usize, usize) {
    (explorer.start_index(), explorer.highlighted_index())
}

#[test]
fn the_screen_holds_no_more_rows_than_the_list() {
    let explorer = FileExplorer::new(3, 10);
    assert_eq!(explorer.files(), 3);
    assert_eq!(explorer.viewport_size(), 3);
    assert_eq!(explorer.end_index(), 3);
    let explorer = FileExplorer::new(30, 10);
    assert_eq!(explorer.viewport_size(), 10);
    assert_eq!(state(&explorer), (0, 0));
    assert_eq!(explorer.end_index(), 10);
    assert!(explorer.is_highlighted(0));
    assert!(!explorer.is_highlighted(1));
}

#[test]
fn the_viewport_stops_at_the_ends_of_the_list() {
    let mut explorer = FileExplorer::new(12, 10);
    explorer.move_viewport_up();
    assert_eq!(explorer.start_index(), 0);
    explorer.move_viewport_down();
    explorer.move_viewport_down();
    assert_eq!(explorer.start_index(), 2);
    explorer.move_viewport_down();
    assert_eq!(explorer.start_index(), 2);
    explorer.set_viewport(1);
    assert_eq!(explorer.start_index(), 1);
    explorer.set_viewport(100);
    assert_eq!(explorer.start_index(), 2);
    explorer.move_viewport_up();
    assert_eq!(explorer.start_index(), 1);
}

#[test]
fn the_highlight_stays_in_the_list() {
    let mut explorer = FileExplorer::new(5, 5);
    explorer.move_highlight_by(-1);
    assert_eq!(explorer.highlighted_index(), 0);
    explorer.move_highlight_by(4);
    assert_eq!(explorer.highlighted_index(), 4);
    explorer.move_highlight_by(1);
    assert_eq!(explorer.highlighted_index(), 4);
    explorer.move_highlight_by(-3);
    assert_eq!(explorer.highlighted_index(), 1);
    explorer.move_highlight_by(i32::MIN);
    assert_eq!(explorer.highlighted_index(), 1);
    explorer.move_highlight_by(i32::MAX);
    assert_eq!(explorer.highlighted_index(), 1);
    explorer.set_highlight(5);
    assert_eq!(explorer.highlighted_index(), 1);
    explorer.set_highlight(3);
    assert_eq!(explorer.highlighted_index(), 3);
}

#[test]
fn stepping_down_scrolls_at_the_last_row_on_screen() {
    let mut explorer = FileExplorer::new(5, 3);
    explorer.move_down();
    assert_eq!(state(&explorer), (0, 1));
    explorer.move_down();
    assert_eq!(state(&explorer), (0, 2));
    explorer.move_down();
    assert_eq!(state(&explorer), (1, 3));
    explorer.move_down();
    assert_eq!(state(&explorer), (2, 4));
    explorer.move_down();
    assert_eq!(state(&explorer), (2, 4));
}

#[test]
fn stepping_up_scrolls_at_the_first_row_on_screen() {
    let mut explorer = FileExplorer::new(5, 3);
    for _ in 0..4 {
        explorer.move_down();
    }
    assert_eq!(state(&explorer), (2, 4));
    explorer.move_up();
    assert_eq!(state(&explorer), (2, 3));
    explorer.move_up();
    assert_eq!(state(&explorer), (2, 2));
    explorer.move_up();
    assert_eq!(state(&explorer), (1, 1));
    explorer.move_up();
    assert_eq!(state(&explorer), (0, 0));
    explorer.move_up();
    assert_eq!(state(&explorer), (0, 0));
}

#[test]
fn an_empty_list_can_be_stepped_through() {
    let mut explorer = FileExplorer::new(0, 4);
    explorer.move_down();
    explorer.move_up();
    explorer.set_highlight(0);
    explorer.set_viewport(3);
    assert_eq!(state(&explorer), (0, 0));
    assert_eq!(explorer.end_index(), 0);
}

#[test]
fn descriptions_are_kept_and_found_again() {
    let mut explorer = FileExplorer::new(3, 3);
    let a = String::from("a.mp3");
    let b = String::from("b.mp3");
    assert_eq!(explorer.cached_description(&a), None);
    explorer.remember_description(a.clone(), String::from("first"));
    explorer.remember_description(b.clone(), String::from("second"));
    assert_eq!(explorer.cached_description(&a), Some(String::from("first")));
    assert_eq!(explorer.cached_description(&b), Some(String::from("second")));
    explorer.remember_description(a.clone(), String::from("third"));
    assert_eq!(explorer.cached_description(&a), Some(String::from("third")));
    assert_eq!(explorer.cached_description(&String::from("c.mp3")), None);
}

#[test]
fn the_least_recently_used_description_leaves_first() {
    let mut explorer = FileExplorer::new(3, 3);
    for i in 0..100 {
        explorer.remember_description(format!("{}.mp3", i), format!("track {}", i));
    }
    assert_eq!(explorer.cached_description(&String::from("0.mp3")), Some(String::from("track 0")));
    explorer.remember_description(String::from("100.mp3"), String::from("track 100"));
    assert_eq!(explorer.cached_description(&String::from("1.mp3")), None);
    assert_eq!(explorer.cached_description(&String::from("0.mp3")), Some(String::from("track 0")));
    assert_eq!(explorer.cached_description(&String::from("2.mp3")), Some(String::from("track 2")));
    explorer.remember_description(String::from("101.mp3"), String::from("track 101"));
    assert_eq!(explorer.cached_description(&String::from("3.mp3")), None);
    assert_eq!(
        explorer.cached_description(&String::from("100.mp3")),
        Some(String::from("track 100"))
    );
}

#[test]
fn nul_characters_around_a_tag_are_dropped() {
    assert_eq!(trim_nul_chars("\0\0ab\0c\0"), "ab\0c");
    assert_eq!(trim_nul_chars("abc"), "abc");
    assert_eq!(trim_nul_chars("\0\0"), "");
    assert_eq!(trim_nul_chars(""), "");
    assert_eq!(trim_nul_chars("\0é日\0"), "é日");
}

#[test]
fn a_description_has_four_columns() {
    let info = TrackInfo {
        duration: 83_450_000_000,
        title: Some(String::from("Song\0\0")),
        artist: Some(String::from("A very long artist name")),
    };
    let description = describe_track(String::from("song.mp3"), &info, 15).unwrap();
    assert_eq!(description, "song.mp3   Song            A very long ... 1:23.5         ");
    let info = TrackInfo { duration: 5_000_000_000, title: None, artist: None };
    let description = describe_track(String::from("a_file_name_that_is_long.mp3"), &info, 12).unwrap();
    assert_eq!(description, "a_fi...                           0:05.0      ");
}

#[test]
fn a_description_needs_room_for_its_columns() {
    let info = TrackInfo { duration: 0, title: None, artist: None };
    assert_eq!(describe_track(String::from("a"), &info, 4), None);
    assert_eq!(describe_track(String::from("a"), &info, 5), None);
    assert_eq!(describe_track(String::from("a"), &info, 6).unwrap(), "a               0:00.0");
    assert_eq!(describe_track(String::from("a"), &info, 8).unwrap(), "a                     0:00.0  ");
    assert_eq!(describe_track(String::from("ab"), &info, 6), None);
}

#[test]
fn rows_are_numbered() {
    assert_eq!(row_text(0, "x").unwrap(), "0.   x");
    assert_eq!(row_text(12, "song").unwrap(), "12.  song");
    assert_eq!(row_text(9999, "").unwrap(), "9999.");
    assert_eq!(row_text(10000, "y").unwrap(), "10...y");
    assert_eq!(row_text(123456, "y").unwrap(), "12...y");
}

#[test]
fn the_header_names_the_columns() {
    assert_eq!(header_text(10).unwrap(), "Filename   Track      Artist     Duration  ");
    assert_eq!(header_text(7).unwrap(), "File... Track   Artist  Dura...");
    assert_eq!(header_text(2), None);
}
