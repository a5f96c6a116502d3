//! Shapes and text of the player's screen, as far as they are values.

use vstd::prelude::*;
use unicode_width::UnicodeWidthStr;

verus! {

/// Number of terminal columns that a text takes, as
/// `unicode_width::UnicodeWidthStr::width` counts them.
pub uninterp spec fn display_width(text: Seq<char>) -> usize;

/// Calls `unicode_width::UnicodeWidthStr::width`. The claim is only that the
/// same text gives the same width, which this function's result names.
#[verifier::external_body]
pub(crate) fn text_width(text: &str) -> (width: usize)
    ensures
        width == display_width(text@),
{
    UnicodeWidthStr::width(text)
}

/// `n` times the character `c`.
pub open spec fn repeated(c: char, n: int) -> Seq<char> {
    Seq::new(
        if n > 0 {
            n as nat
        } else {
            0
        },
        |i: int| c,
    )
}

/// How many characters of `text` are kept when it is cut: characters are
/// taken, from the `k` already taken, for as long as what is taken is
/// narrower than `limit` columns.
pub open spec fn kept_chars(text: Seq<char>, limit: int, k: nat) -> nat
    decreases text.len() - k,
{
    if k < text.len() && display_width(text.take(k as int)) < limit {
        kept_chars(text, limit, k + 1)
    } else {
        k
    }
}

/// The part of `text` that is kept when it is cut to `width` columns, three
/// of which are left for dots.
pub open spec fn kept_text(text: Seq<char>, width: nat) -> Seq<char> {
    text.take(kept_chars(text, width - 3, 0) as int)
}

/// Whether `text` can be brought to `width` columns: a text that fits has at
/// most `width` characters; for one that does not, `width` leaves room for
/// three dots and the kept part is not wider than `width`.
pub open spec fn can_set_text_width(text: Seq<char>, width: nat) -> bool {
    if display_width(text) <= width {
        text.len() <= width
    } else {
        width >= 3 && display_width(kept_text(text, width)) <= width
    }
}

/// `text` brought to `width` columns: padded with spaces where it fits, else
/// cut and filled up with dots.
pub open spec fn text_of_width(text: Seq<char>, width: nat) -> Seq<char> {
    if display_width(text) <= width {
        text + repeated(' ', width - text.len())
    } else {
        kept_text(text, width) + repeated(
            '.',
            width - display_width(kept_text(text, width)),
        )
    }
}

/// Appends `n` times the one-character text `piece`.
fn append_repeated(text: &mut String, piece: &str, n: usize)
    requires
        piece@.len() == 1,
    ensures
        final(text)@ == old(text)@ + repeated(piece@[0], n as int),
{
    let mut i: usize = 0;
    assert(text@ =~= old(text)@ + repeated(piece@[0], 0));
    while i < n
        invariant
            i <= n,
            piece@.len() == 1,
            text@ == old(text)@ + repeated(piece@[0], i as int),
        decreases n - i,
    {
        text.append(piece);
        i = i + 1;
        assert(text@ =~= old(text)@ + repeated(piece@[0], i as int));
    }
}

/// Counts the characters of `text` that are kept when it is cut at `limit`
/// columns.
fn count_kept(text: &str, limit: usize) -> (kept: usize)
    ensures
        kept == kept_chars(text@, limit as int, 0),
        kept <= text@.len(),
{
    let len: usize = text.unicode_len();
    let mut k: usize = 0;
    while k < len
        invariant
            k <= len,
            len == text@.len(),
            kept_chars(text@, limit as int, 0) == kept_chars(text@, limit as int, k as nat),
        ensures
            k <= len,
            kept_chars(text@, limit as int, 0) == k,
        decreases len - k,
    {
        let taken: &str = text.substring_char(0, k);
        assert(taken@ =~= text@.take(k as int));
        if text_width(taken) < limit {
            k = k + 1;
        } else {
            break ;
        }
    }
    k
}

/// Brings `text` to `width` columns: a text that fits is padded with spaces
/// up to `width` characters; one that does not is cut, leaving room for three
/// dots, and filled up with dots.
pub fn set_text_width(text: String, width: usize) -> (fitted: String)
    requires
        can_set_text_width(text@, width as nat),
    ensures
        fitted@ == text_of_width(text@, width as nat),
{
    proof {
        reveal_strlit(" ");
        reveal_strlit(".");
    }
    let text_size: usize = text_width(text.as_str());
    if text_size <= width {
        let len: usize = text.as_str().unicode_len();
        let mut fitted: String = text;
        append_repeated(&mut fitted, " ", width - len);
        fitted
    } else {
        let kept: usize = count_kept(text.as_str(), width - 3);
        let head: &str = text.as_str().substring_char(0, kept);
        assert(head@ =~= kept_text(text@, width as nat));
        let head_width: usize = text_width(head);
        let mut fitted: String = String::from_str(head);
        append_repeated(&mut fitted, ".", width - head_width);
        fitted
    }
}

/// Brings `text` to `width` columns where that can be done, and says so
/// where it cannot.
pub fn fit_text_width(text: String, width: usize) -> (fitted: Option<String>)
    ensures
        can_set_text_width(text@, width as nat) ==> (fitted matches Some(t) && t@ == text_of_width(
            text@,
            width as nat,
        )),
        !can_set_text_width(text@, width as nat) ==> fitted is None,
{
    let text_size: usize = text_width(text.as_str());
    let can: bool = if text_size <= width {
        text.as_str().unicode_len() <= width
    } else if width < 3 {
        false
    } else {
        let kept: usize = count_kept(text.as_str(), width - 3);
        let head: &str = text.as_str().substring_char(0, kept);
        assert(head@ =~= kept_text(text@, width as nat));
        text_width(head) <= width
    };
    if can {
        Some(set_text_width(text, width))
    } else {
        None
    }
}

/// A frame of `width` by `height` cells.
#[derive(Debug, Clone, Copy, PartialEq, Eq, Structural)]
pub struct Square {
    pub width: u16,
    pub height: u16,
}

impl Square {
    /// A frame of the given size.
    pub fn new(width: u16, height: u16) -> (square: Square)
        ensures
            square.width == width,
            square.height == height,
    {
        Square { width, height }
    }
}

/// The character of a decimal digit.
pub open spec fn digit_char(d: nat) -> char {
    if d == 0 {
        '0'
    } else if d == 1 {
        '1'
    } else if d == 2 {
        '2'
    } else if d == 3 {
        '3'
    } else if d == 4 {
        '4'
    } else if d == 5 {
        '5'
    } else if d == 6 {
        '6'
    } else if d == 7 {
        '7'
    } else if d == 8 {
        '8'
    } else {
        '9'
    }
}

/// A number in decimal digits, without leading zeros.
pub open spec fn decimal(n: nat) -> Seq<char>
    decreases n,
{
    if n < 10 {
        seq![digit_char(n)]
    } else {
        decimal(n / 10).push(digit_char(n % 10))
    }
}

/// Nanoseconds in a minute.
pub const NANOS_PER_MINUTE: u64 = 60_000_000_000;

/// Nanoseconds in a tenth of a second.
pub const NANOS_PER_TENTH: u64 = 100_000_000;

/// Tenths of a second in what is left of `nanos` after its whole minutes,
/// rounded to the nearest tenth, halves up.
pub open spec fn tenths_in_minute(nanos: nat) -> nat {
    (nanos % (NANOS_PER_MINUTE as nat) + NANOS_PER_TENTH as nat / 2) / (NANOS_PER_TENTH as nat)
}

/// A duration as minutes, a colon, and seconds with one decimal. Seconds
/// below ten get a leading zero. The seconds are rounded and the minutes are
/// not, so the last twentieth of a second of a minute shows as `60.0`.
pub open spec fn mmss_text(nanos: nat) -> Seq<char> {
    let tenths = tenths_in_minute(nanos);
    let padding = if nanos % (NANOS_PER_MINUTE as nat) < 10_000_000_000 {
        seq!['0']
    } else {
        Seq::<char>::empty()
    };
    decimal(nanos / (NANOS_PER_MINUTE as nat)) + seq![':'] + padding + decimal(tenths / 10)
        + seq!['.'] + decimal(tenths % 10)
}

fn digit_text(d: u64) -> (text: &'static str)
    requires
        d < 10,
    ensures
        text@ == seq![digit_char(d as nat)],
{
    proof {
        reveal_strlit("0");
        reveal_strlit("1");
        reveal_strlit("2");
        reveal_strlit("3");
        reveal_strlit("4");
        reveal_strlit("5");
        reveal_strlit("6");
        reveal_strlit("7");
        reveal_strlit("8");
        reveal_strlit("9");
    }
    let text: &'static str = if d == 0 {
        "0"
    } else if d == 1 {
        "1"
    } else if d == 2 {
        "2"
    } else if d == 3 {
        "3"
    } else if d == 4 {
        "4"
    } else if d == 5 {
        "5"
    } else if d == 6 {
        "6"
    } else if d == 7 {
        "7"
    } else if d == 8 {
        "8"
    } else {
        "9"
    };
    assert(text@ =~= seq![digit_char(d as nat)]);
    text
}

fn append_decimal(text: &mut String, n: u64)
    ensures
        final(text)@ == old(text)@ + decimal(n as nat),
    decreases n,
{
    if n >= 10 {
        append_decimal(text, n / 10);
    }
    text.append(digit_text(n % 10));
    assert(text@ =~= old(text)@ + decimal(n as nat));
}

/// Writes a number in decimal digits.
pub fn decimal_text(n: u64) -> (text: String)
    ensures
        text@ == decimal(n as nat),
{
    let mut text: String = String::new();
    append_decimal(&mut text, n);
    assert(text@ =~= decimal(n as nat));
    text
}

/// Writes a duration, given in nanoseconds, as minutes and seconds.
pub fn duration_to_mmss(duration: u64) -> (text: String)
    ensures
        text@ == mmss_text(duration as nat),
{
    proof {
        reveal_strlit(":");
        reveal_strlit(".");
        reveal_strlit("0");
    }
    let minutes: u64 = duration / NANOS_PER_MINUTE;
    let rest: u64 = duration % NANOS_PER_MINUTE;
    let tenths: u64 = (rest + NANOS_PER_TENTH / 2) / NANOS_PER_TENTH;
    let mut text: String = String::new();
    append_decimal(&mut text, minutes);
    text.append(":");
    if rest < 10_000_000_000 {
        text.append("0");
    }
    append_decimal(&mut text, tenths / 10);
    text.append(".");
    append_decimal(&mut text, tenths % 10);
    assert(text@ =~= mmss_text(duration as nat));
    text
}

} // verus!
