//! The explorer of the track list: which rows of the list are on screen and
//! which row is highlighted.

use vstd::prelude::*;
use std::collections::hash_map::RandomState;
use lru_cache::LruCache;
use crate::cache::{
    cache_capacity, cache_entries, cache_get, cache_insert, cached_value, new_cache, refreshed,
    stored, Entry,
};
use crate::graphics::{
    can_set_text_width, decimal, decimal_text, duration_to_mmss, fit_text_width, mmss_text,
    text_of_width,
};

verus! {

/// Number of row descriptions that the explorer keeps.
pub const CACHE_CAPACITY: usize = 100;

/// The explorer as mathematical values.
pub struct ExplorerView {
    /// Number of rows in the list.
    pub files: nat,
    /// Number of rows on screen.
    pub viewport_size: nat,
    /// The highlighted row.
    pub highlighted_index: nat,
    /// The first row on screen.
    pub start_index: nat,
    /// The row descriptions kept, by path, from the least recently used to
    /// the most recently used.
    pub cache: Seq<Entry>,
}

impl ExplorerView {
    /// Validity of an explorer: the screen holds no more rows than the list,
    /// never scrolls past its end, and the highlighted row is a row of the
    /// list (row zero in an empty list).
    pub open spec fn wf(self) -> bool {
        &&& self.viewport_size <= self.files
        &&& self.start_index <= self.max_start()
        &&& self.highlighted_index < self.files || (self.files == 0 && self.highlighted_index
            == 0)
    }

    /// The last row that can be first on screen.
    pub open spec fn max_start(self) -> nat {
        (self.files - self.viewport_size) as nat
    }

    /// The explorer scrolled so that `start_index` is first on screen, or as
    /// far down as the list goes.
    pub open spec fn with_viewport(self, start_index: nat) -> ExplorerView {
        ExplorerView {
            start_index: if start_index > self.max_start() {
                self.max_start()
            } else {
                start_index
            },
            ..self
        }
    }

    /// The explorer scrolled down by a row, where there is one.
    pub open spec fn viewport_down(self) -> ExplorerView {
        if self.start_index < self.max_start() {
            self.with_viewport(self.start_index + 1)
        } else {
            self
        }
    }

    /// The explorer scrolled up by a row, where there is one.
    pub open spec fn viewport_up(self) -> ExplorerView {
        if self.start_index > 0 {
            self.with_viewport((self.start_index - 1) as nat)
        } else {
            self
        }
    }

    /// The explorer with the highlight moved by `n` rows, where that is a row
    /// of the list.
    pub open spec fn highlight_moved(self, n: int) -> ExplorerView {
        if 0 <= self.highlighted_index + n < self.files {
            ExplorerView { highlighted_index: (self.highlighted_index + n) as nat, ..self }
        } else {
            self
        }
    }

    /// The explorer with the highlight on row `position`, where that is a row
    /// of the list.
    pub open spec fn with_highlight(self, position: nat) -> ExplorerView {
        if position < self.files {
            ExplorerView { highlighted_index: position, ..self }
        } else {
            self
        }
    }

    /// The explorer after a step down: the screen scrolls where the highlight
    /// is on its last row, then the highlight moves down.
    pub open spec fn moved_down(self) -> ExplorerView {
        if self.highlighted_index + 1 == self.start_index + self.viewport_size {
            self.viewport_down().highlight_moved(1)
        } else {
            self.highlight_moved(1)
        }
    }

    /// The explorer after a step up: the screen scrolls where the highlight is
    /// on its first row, then the highlight moves up.
    pub open spec fn moved_up(self) -> ExplorerView {
        if self.highlighted_index == self.start_index {
            self.viewport_up().highlight_moved(-1)
        } else {
            self.highlight_moved(-1)
        }
    }

    /// The row after the last one on screen.
    pub open spec fn end_index(self) -> nat {
        self.start_index + self.viewport_size
    }

    /// The explorer after a look-up of the description of `path`.
    pub open spec fn looked_up(self, path: Seq<char>) -> ExplorerView {
        ExplorerView { cache: refreshed(self.cache, path), ..self }
    }

    /// The explorer after `description` was kept for `path`.
    pub open spec fn remembering(self, path: Seq<char>, description: Seq<char>) -> ExplorerView {
        ExplorerView {
            cache: stored(self.cache, path, description, CACHE_CAPACITY as int),
            ..self
        }
    }

    /// Whether the highlighted row is on screen.
    pub open spec fn highlight_on_screen(self) -> bool {
        self.start_index <= self.highlighted_index < self.start_index + self.viewport_size
    }
}

/// Stepping down or up keeps a valid explorer valid, and keeps the
/// highlighted row on screen once it is there.
pub proof fn lemma_steps_keep_highlight_on_screen(explorer: ExplorerView)
    requires
        explorer.wf(),
    ensures
        explorer.moved_down().wf(),
        explorer.moved_up().wf(),
        explorer.highlight_on_screen() ==> explorer.moved_down().highlight_on_screen(),
        explorer.highlight_on_screen() ==> explorer.moved_up().highlight_on_screen(),
{
}

/// Which rows of the track list are on screen, and which is highlighted.
pub struct FileExplorer {
    files: usize,
    viewport_size: usize,
    highlighted_index: usize,
    start_index: usize,
    cache: LruCache<String, String, RandomState>,
}

impl View for FileExplorer {
    type V = ExplorerView;

    closed spec fn view(&self) -> ExplorerView {
        ExplorerView {
            files: self.files as nat,
            viewport_size: self.viewport_size as nat,
            highlighted_index: self.highlighted_index as nat,
            start_index: self.start_index as nat,
            cache: cache_entries(self.cache),
        }
    }
}

impl FileExplorer {
    /// Validity of the explorer.
    pub closed spec fn wf(&self) -> bool {
        &&& self@.wf()
        &&& cache_capacity(self.cache) == CACHE_CAPACITY
    }

    /// A valid explorer has a valid view.
    pub proof fn lemma_wf_view(&self)
        requires
            self.wf(),
        ensures
            self@.wf(),
    {
    }

    /// An explorer over `files` rows with at most `viewport_size` of them on
    /// screen, at the top of the list.
    pub fn new(files: usize, viewport_size: usize) -> (explorer: FileExplorer)
        ensures
            explorer.wf(),
            explorer@ == (ExplorerView {
                files: files as nat,
                viewport_size: if files < viewport_size {
                    files as nat
                } else {
                    viewport_size as nat
                },
                highlighted_index: 0,
                start_index: 0,
                cache: Seq::empty(),
            }),
    {
        let viewport_size: usize = if files < viewport_size {
            files
        } else {
            viewport_size
        };
        let mut explorer = FileExplorer {
            files,
            viewport_size,
            start_index: 0,
            highlighted_index: 0,
            cache: new_cache(CACHE_CAPACITY),
        };
        explorer.set_viewport(0);
        explorer
    }

    fn max_start_index_value(&self) -> (max: usize)
        requires
            self.wf(),
        ensures
            max == self@.max_start(),
    {
        self.files - self.viewport_size
    }

    /// Number of rows in the list.
    pub fn files(&self) -> (files: usize)
        ensures
            files == self@.files,
    {
        self.files
    }

    /// Number of rows on screen.
    pub fn viewport_size(&self) -> (size: usize)
        ensures
            size == self@.viewport_size,
    {
        self.viewport_size
    }

    /// The highlighted row.
    pub fn highlighted_index(&self) -> (index: usize)
        ensures
            index == self@.highlighted_index,
    {
        self.highlighted_index
    }

    /// The first row on screen.
    pub fn start_index(&self) -> (index: usize)
        ensures
            index == self@.start_index,
    {
        self.start_index
    }

    /// Scrolls so that `start_index` is first on screen, or as far down as
    /// the list goes.
    pub fn set_viewport(&mut self, start_index: usize)
        requires
            old(self).wf(),
        ensures
            final(self).wf(),
            final(self)@ == old(self)@.with_viewport(start_index as nat),
    {
        let max_value: usize = self.max_start_index_value();
        let start: usize = if start_index > max_value {
            max_value
        } else {
            start_index
        };
        self.start_index = start;
    }

    /// Scrolls down by a row, where there is one.
    pub fn move_viewport_down(&mut self)
        requires
            old(self).wf(),
        ensures
            final(self).wf(),
            final(self)@ == old(self)@.viewport_down(),
    {
        if self.start_index < self.max_start_index_value() {
            let next: usize = self.start_index + 1;
            self.set_viewport(next);
        }
    }

    /// Scrolls up by a row, where there is one.
    pub fn move_viewport_up(&mut self)
        requires
            old(self).wf(),
        ensures
            final(self).wf(),
            final(self)@ == old(self)@.viewport_up(),
    {
        if self.start_index > 0 {
            let previous: usize = self.start_index - 1;
            self.set_viewport(previous);
        }
    }

    /// Moves the highlight by `n` rows, where that is a row of the list.
    pub fn move_highlight_by(&mut self, n: i32)
        requires
            old(self).wf(),
        ensures
            final(self).wf(),
            final(self)@ == old(self)@.highlight_moved(n as int),
    {
        let new_index: i128 = self.highlighted_index as i128 + n as i128;
        if new_index >= 0 && new_index < self.files as i128 {
            self.highlighted_index = new_index as usize;
        }
    }

    /// Puts the highlight on row `position`, where that is a row of the list.
    pub fn set_highlight(&mut self, position: usize)
        requires
            old(self).wf(),
        ensures
            final(self).wf(),
            final(self)@ == old(self)@.with_highlight(position as nat),
    {
        if position < self.files {
            self.highlighted_index = position;
        }
    }

    /// Steps down: scrolls where the highlight is on the last row on screen,
    /// then moves the highlight down.
    pub fn move_down(&mut self)
        requires
            old(self).wf(),
        ensures
            final(self).wf(),
            final(self)@ == old(self)@.moved_down(),
    {
        if self.highlighted_index as u128 + 1 == self.start_index as u128
            + self.viewport_size as u128 {
            self.move_viewport_down();
        }
        self.move_highlight_by(1);
    }

    /// Steps up: scrolls where the highlight is on the first row on screen,
    /// then moves the highlight up.
    pub fn move_up(&mut self)
        requires
            old(self).wf(),
        ensures
            final(self).wf(),
            final(self)@ == old(self)@.moved_up(),
    {
        if self.highlighted_index == self.start_index {
            self.move_viewport_up();
        }
        self.move_highlight_by(-1);
    }

    /// The row after the last one on screen.
    pub fn end_index(&self) -> (index: usize)
        requires
            self.wf(),
        ensures
            index == self@.end_index(),
            index <= self@.files,
    {
        self.start_index + self.viewport_size
    }

    /// Whether `row` is the highlighted one.
    pub fn is_highlighted(&self, row: usize) -> (highlighted: bool)
        ensures
            highlighted == (row == self@.highlighted_index),
    {
        row == self.highlighted_index
    }

    /// Looks the description of `path` up among those kept. A description
    /// that is found becomes the most recently used.
    pub fn cached_description(&mut self, path: &String) -> (description: Option<String>)
        requires
            old(self).wf(),
        ensures
            final(self).wf(),
            final(self)@ == old(self)@.looked_up(path@),
            match description {
                Some(d) => cached_value(old(self)@.cache, path@) == Some(d@),
                None => cached_value(old(self)@.cache, path@) is None,
            },
    {
        cache_get(&mut self.cache, path)
    }

    /// Keeps `description` for `path`, in place of an older one for the same
    /// path; the least recently used description leaves where there are more
    /// than the explorer keeps.
    pub fn remember_description(&mut self, path: String, description: String)
        requires
            old(self).wf(),
        ensures
            final(self).wf(),
            final(self)@ == old(self)@.remembering(path@, description@),
    {
        cache_insert(&mut self.cache, path, description);
    }
}

/// What a row says of a track, as far as the file gives it.
#[derive(Debug)]
pub struct TrackInfo {
    /// Duration in nanoseconds.
    pub duration: u64,
    /// Title, as the file's first block of tags gives it.
    pub title: Option<String>,
    /// Artist, as the file's closing tag gives it.
    pub artist: Option<String>,
}

/// `text` without the NUL characters at its start.
pub open spec fn trim_start_nul(text: Seq<char>) -> Seq<char>
    decreases text.len(),
{
    if text.len() > 0 && text[0] == '\0' {
        trim_start_nul(text.drop_first())
    } else {
        text
    }
}

/// `text` without the NUL characters at its end.
pub open spec fn trim_end_nul(text: Seq<char>) -> Seq<char>
    decreases text.len(),
{
    if text.len() > 0 && text.last() == '\0' {
        trim_end_nul(text.drop_last())
    } else {
        text
    }
}

/// `text` without the NUL characters at its start and at its end.
pub open spec fn trim_nul(text: Seq<char>) -> Seq<char> {
    trim_end_nul(trim_start_nul(text))
}

/// A tag as a row shows it: without the NUL characters around it, or a
/// space where the file has no such tag.
pub open spec fn shown_tag(tag: Option<Seq<char>>) -> Seq<char> {
    match tag {
        Some(text) => trim_nul(text),
        None => seq![' '],
    }
}

/// Whether the four columns of a row can be laid out: the name column is five
/// cells narrower than the others, and every text can be brought to the width
/// of its column.
pub open spec fn can_describe(
    file_name: Seq<char>,
    duration: nat,
    title: Option<Seq<char>>,
    artist: Option<Seq<char>>,
    padding: nat,
) -> bool {
    &&& padding >= 5
    &&& can_set_text_width(file_name, (padding - 5) as nat)
    &&& can_set_text_width(shown_tag(title), padding)
    &&& can_set_text_width(shown_tag(artist), padding)
    &&& can_set_text_width(mmss_text(duration), padding)
}

/// The description of a track: file name, title, artist and duration, each
/// brought to the width of its column, with a space between columns.
pub open spec fn description_of(
    file_name: Seq<char>,
    duration: nat,
    title: Option<Seq<char>>,
    artist: Option<Seq<char>>,
    padding: nat,
) -> Seq<char> {
    text_of_width(file_name, (padding - 5) as nat) + seq![' '] + text_of_width(
        shown_tag(title),
        padding,
    ) + seq![' '] + text_of_width(shown_tag(artist), padding) + seq![' '] + text_of_width(
        mmss_text(duration),
        padding,
    )
}

/// The view of an optional text.
pub open spec fn option_view(text: Option<String>) -> Option<Seq<char>> {
    match text {
        Some(t) => Some(t@),
        None => None,
    }
}

/// Strips the NUL characters around a text.
pub fn trim_nul_chars(text: &str) -> (trimmed: &str)
    ensures
        trimmed@ == trim_nul(text@),
{
    let len: usize = text.unicode_len();
    let mut start: usize = 0;
    assert(text@.skip(0) =~= text@);
    while start < len
        invariant
            start <= len,
            len == text@.len(),
            trim_start_nul(text@) == trim_start_nul(text@.skip(start as int)),
        ensures
            start <= len,
            trim_start_nul(text@) == text@.skip(start as int),
        decreases len - start,
    {
        if text.get_char(start) != '\0' {
            break ;
        }
        assert(text@.skip(start as int).drop_first() =~= text@.skip(start + 1));
        start = start + 1;
    }
    let ghost rest = text@.skip(start as int);
    let mut end: usize = len;
    assert(rest.take((end - start) as int) =~= rest);
    while end > start
        invariant
            start <= end <= len,
            len == text@.len(),
            rest == text@.skip(start as int),
            trim_end_nul(rest) == trim_end_nul(rest.take((end - start) as int)),
        ensures
            start <= end <= len,
            trim_end_nul(rest) == rest.take((end - start) as int),
        decreases end - start,
    {
        if text.get_char(end - 1) != '\0' {
            break ;
        }
        assert(rest.take((end - start) as int).drop_last() =~= rest.take(end - start - 1));
        end = end - 1;
    }
    let trimmed: &str = text.substring_char(start, end);
    assert(trimmed@ =~= rest.take((end - start) as int));
    trimmed
}

/// Brings a tag to the width of its column.
fn fit_tag(tag: &Option<String>, padding: usize) -> (fitted: Option<String>)
    ensures
        can_set_text_width(shown_tag(option_view(*tag)), padding as nat) ==> (fitted matches Some(
            t,
        ) && t@ == text_of_width(shown_tag(option_view(*tag)), padding as nat)),
        !can_set_text_width(shown_tag(option_view(*tag)), padding as nat) ==> fitted is None,
{
    proof {
        reveal_strlit(" ");
    }
    let shown: String = match tag {
        Some(text) => String::from_str(trim_nul_chars(text.as_str())),
        None => String::from_str(" "),
    };
    assert(shown@ =~= shown_tag(option_view(*tag)));
    fit_text_width(shown, padding)
}

/// Lays out the description of a track in columns of `padding` cells, where
/// every text can be brought to its column, and says so where one cannot.
pub fn describe_track(file_name: String, info: &TrackInfo, padding: usize) -> (description: Option<
    String,
>)
    ensures
        can_describe(
            file_name@,
            info.duration as nat,
            option_view(info.title),
            option_view(info.artist),
            padding as nat,
        ) ==> (description matches Some(d) && d@ == description_of(
            file_name@,
            info.duration as nat,
            option_view(info.title),
            option_view(info.artist),
            padding as nat,
        )),
        !can_describe(
            file_name@,
            info.duration as nat,
            option_view(info.title),
            option_view(info.artist),
            padding as nat,
        ) ==> description is None,
{
    proof {
        reveal_strlit(" ");
    }
    if padding < 5 {
        return None;
    }
    let name: Option<String> = fit_text_width(file_name, padding - 5);
    let title: Option<String> = fit_tag(&info.title, padding);
    let artist: Option<String> = fit_tag(&info.artist, padding);
    let time: Option<String> = fit_text_width(duration_to_mmss(info.duration), padding);
    match (name, title, artist, time) {
        (Some(name), Some(title), Some(artist), Some(time)) => {
            let mut description: String = name;
            description.append(" ");
            description.append(title.as_str());
            description.append(" ");
            description.append(artist.as_str());
            description.append(" ");
            description.append(time.as_str());
            assert(description@ =~= description_of(
                file_name@,
                info.duration as nat,
                option_view(info.title),
                option_view(info.artist),
                padding as nat,
            ));
            Some(description)
        },
        _ => None,
    }
}

/// Width of the column that numbers the rows.
pub const ROW_NUMBER_WIDTH: usize = 5;

/// The number of a row as the explorer shows it: the number and a full stop.
pub open spec fn row_number(row: nat) -> Seq<char> {
    decimal(row).push('.')
}

/// The text of a row: its number, brought to the width of the number column,
/// then the description.
pub open spec fn row_text_of(row: nat, description: Seq<char>) -> Seq<char> {
    text_of_width(row_number(row), ROW_NUMBER_WIDTH as nat) + description
}

/// Lays out the text of row `row`, where its number can be brought to the
/// width of the number column, and says so where it cannot.
pub fn row_text(row: usize, description: &str) -> (text: Option<String>)
    ensures
        can_set_text_width(row_number(row as nat), ROW_NUMBER_WIDTH as nat) ==> (text matches Some(
            t,
        ) && t@ == row_text_of(row as nat, description@)),
        !can_set_text_width(row_number(row as nat), ROW_NUMBER_WIDTH as nat) ==> text is None,
{
    proof {
        reveal_strlit(".");
    }
    let mut number: String = decimal_text(row as u64);
    number.append(".");
    assert(number@ =~= row_number(row as nat));
    match fit_text_width(number, ROW_NUMBER_WIDTH) {
        Some(fitted) => {
            let mut text: String = fitted;
            text.append(description);
            Some(text)
        },
        None => None,
    }
}

/// Whether the four headings can be brought to columns of `padding` cells.
pub open spec fn can_head(padding: nat) -> bool {
    &&& can_set_text_width("Filename"@, padding)
    &&& can_set_text_width("Track"@, padding)
    &&& can_set_text_width("Artist"@, padding)
    &&& can_set_text_width("Duration"@, padding)
}

/// The line of headings above the rows: one heading for each column of a
/// description, each brought to `padding` cells, with a space between them.
pub open spec fn header_of(padding: nat) -> Seq<char> {
    text_of_width("Filename"@, padding) + seq![' '] + text_of_width("Track"@, padding) + seq![' ']
        + text_of_width("Artist"@, padding) + seq![' '] + text_of_width("Duration"@, padding)
}

/// Lays out the line of headings in columns of `padding` cells, where every
/// heading can be brought to its column, and says so where one cannot.
pub fn header_text(padding: usize) -> (header: Option<String>)
    ensures
        can_head(padding as nat) ==> (header matches Some(h) && h@ == header_of(padding as nat)),
        !can_head(padding as nat) ==> header is None,
{
    proof {
        reveal_strlit(" ");
    }
    let filename: Option<String> = fit_text_width(String::from_str("Filename"), padding);
    let track: Option<String> = fit_text_width(String::from_str("Track"), padding);
    let artist: Option<String> = fit_text_width(String::from_str("Artist"), padding);
    let duration: Option<String> = fit_text_width(String::from_str("Duration"), padding);
    match (filename, track, artist, duration) {
        (Some(filename), Some(track), Some(artist), Some(duration)) => {
            let mut header: String = filename;
            header.append(" ");
            header.append(track.as_str());
            header.append(" ");
            header.append(artist.as_str());
            header.append(" ");
            header.append(duration.as_str());
            assert(header@ =~= header_of(padding as nat));
            Some(header)
        },
        _ => None,
    }
}

} // verus!
