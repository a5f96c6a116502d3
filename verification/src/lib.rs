//! A terminal audio player's core: a seekable sample cursor over a forward-only
//! frame decoder, the playback engine's transport state, and the bookkeeping of
//! the track list and its on-screen explorer.

pub mod frame;
pub mod error;
pub mod cursor;
pub mod decoder;
pub mod audio_controller;
pub mod file_manager;
pub mod cache;
pub mod file_explorer;
pub mod graphics;

use vstd::prelude::*;

verus! {

/// What a key press asks of the player.
#[derive(Debug, Clone, Copy, PartialEq, Eq, Structural)]
pub enum AppAction {
    Exit,
    ChangeTrack(i32),
    NextTrack,
    PrevTrack,
    MoveTimestampBySecs(i32),
    IncreaseVolume,
    DecreaseVolume,
    Start,
    Pause,
    Shuffle,
}

/// A key, as far as the player tells keys apart.
#[derive(Debug, Clone, Copy, PartialEq, Eq, Structural)]
pub enum Key {
    Up,
    Down,
    Left,
    Right,
    Esc,
    Char(char),
    Other,
}

/// No modifier key.
pub const NO_MODIFIER: u8 = 0;

/// The control key, among the modifiers of a key press.
pub const CONTROL: u8 = 2;

/// The alt key, among the modifiers of a key press.
pub const ALT: u8 = 4;

/// A key press: the key and the modifier keys held with it, one bit each.
#[derive(Debug, Clone, Copy, PartialEq, Eq, Structural)]
pub struct KeyPress {
    pub key: Key,
    pub modifiers: u8,
}

/// What a key press asks for, if anything. Modifiers have to match exactly.
pub open spec fn action_of(press: KeyPress) -> Option<AppAction> {
    match (press.key, press.modifiers) {
        (Key::Up, 0) => Some(AppAction::IncreaseVolume),
        (Key::Down, 0) => Some(AppAction::DecreaseVolume),
        (Key::Char(c), 0) => if c == 's' {
            Some(AppAction::Shuffle)
        } else if c == 'd' {
            Some(AppAction::MoveTimestampBySecs(5))
        } else if c == 'a' {
            Some(AppAction::MoveTimestampBySecs(-5i32))
        } else if c == ' ' {
            Some(AppAction::Start)
        } else {
            None
        },
        (Key::Right, 2) => Some(AppAction::MoveTimestampBySecs(5)),
        (Key::Left, 2) => Some(AppAction::MoveTimestampBySecs(-5i32)),
        (Key::Right, 4) => Some(AppAction::ChangeTrack(5)),
        (Key::Left, 4) => Some(AppAction::ChangeTrack(-5i32)),
        (Key::Right, 0) => Some(AppAction::ChangeTrack(1)),
        (Key::Left, 0) => Some(AppAction::ChangeTrack(-1i32)),
        (Key::Esc, 0) => Some(AppAction::Exit),
        _ => None,
    }
}

/// Maps a key press to what it asks for.
pub fn key_action(press: KeyPress) -> (action: Option<AppAction>)
    ensures
        action == action_of(press),
{
    let plain: bool = press.modifiers == NO_MODIFIER;
    let control: bool = press.modifiers == CONTROL;
    let alt: bool = press.modifiers == ALT;
    match press.key {
        Key::Up => if plain {
            Some(AppAction::IncreaseVolume)
        } else {
            None
        },
        Key::Down => if plain {
            Some(AppAction::DecreaseVolume)
        } else {
            None
        },
        Key::Right => if control {
            Some(AppAction::MoveTimestampBySecs(5))
        } else if alt {
            Some(AppAction::ChangeTrack(5))
        } else if plain {
            Some(AppAction::ChangeTrack(1))
        } else {
            None
        },
        Key::Left => if control {
            Some(AppAction::MoveTimestampBySecs(-5i32))
        } else if alt {
            Some(AppAction::ChangeTrack(-5i32))
        } else if plain {
            Some(AppAction::ChangeTrack(-1i32))
        } else {
            None
        },
        Key::Esc => if plain {
            Some(AppAction::Exit)
        } else {
            None
        },
        Key::Char(c) => if !plain {
            None
        } else if c == 's' {
            Some(AppAction::Shuffle)
        } else if c == 'd' {
            Some(AppAction::MoveTimestampBySecs(5))
        } else if c == 'a' {
            Some(AppAction::MoveTimestampBySecs(-5i32))
        } else if c == ' ' {
            Some(AppAction::Start)
        } else {
            None
        },
        Key::Other => None,
    }
}

/// Thousandths by which one key press changes the volume.
pub const VOLUME_STEP: u32 = 150;

/// What the player does for an action, once the state of the engine has
/// decided what "start" means.
#[derive(Debug, Clone, Copy, PartialEq, Eq, Structural)]
pub enum Command {
    /// Nothing.
    Idle,
    /// Start the engine for the first time.
    Run,
    /// Resume playing.
    Play,
    /// Pause.
    Pause,
    /// Step `count` tracks through the list, forward or back.
    Tracks { forward: bool, count: u32 },
    /// Jump by `nanos` nanoseconds in the track, forward or back.
    Seek { forward: bool, nanos: u64 },
    /// Turn shuffling on or off.
    Shuffle,
    /// Raise or lower the volume by `amount` thousandths.
    Volume { up: bool, amount: u32 },
}

/// The command that an action stands for, in an engine that runs or not and
/// plays or not.
pub open spec fn command_of(action: AppAction, is_running: bool, is_playing: bool) -> Command {
    match action {
        AppAction::Start => if !is_running {
            Command::Run
        } else if !is_playing {
            Command::Play
        } else {
            Command::Pause
        },
        AppAction::Pause => Command::Pause,
        AppAction::ChangeTrack(n) => if n >= 0 {
            Command::Tracks { forward: true, count: n as u32 }
        } else {
            Command::Tracks { forward: false, count: (-n) as u32 }
        },
        AppAction::NextTrack => Command::Tracks { forward: true, count: 1 },
        AppAction::PrevTrack => Command::Tracks { forward: false, count: 1 },
        AppAction::MoveTimestampBySecs(delta) => if delta < 0 {
            Command::Seek { forward: false, nanos: (-delta * 1_000_000_000) as u64 }
        } else {
            Command::Seek { forward: true, nanos: (delta * 1_000_000_000) as u64 }
        },
        AppAction::Shuffle => Command::Shuffle,
        AppAction::IncreaseVolume => Command::Volume { up: true, amount: VOLUME_STEP },
        AppAction::DecreaseVolume => Command::Volume { up: false, amount: VOLUME_STEP },
        AppAction::Exit => Command::Idle,
    }
}

/// Decides the command for an action.
pub fn match_key_actions(action: AppAction, is_running: bool, is_playing: bool) -> (command:
    Command)
    ensures
        command == command_of(action, is_running, is_playing),
{
    match action {
        AppAction::Start => {
            if !is_running {
                Command::Run
            } else if !is_playing {
                Command::Play
            } else {
                Command::Pause
            }
        },
        AppAction::Pause => Command::Pause,
        AppAction::ChangeTrack(n) => {
            if n >= 0 {
                Command::Tracks { forward: true, count: n as u32 }
            } else {
                Command::Tracks { forward: false, count: (-(n as i64)) as u32 }
            }
        },
        AppAction::NextTrack => Command::Tracks { forward: true, count: 1 },
        AppAction::PrevTrack => Command::Tracks { forward: false, count: 1 },
        AppAction::MoveTimestampBySecs(delta) => {
            if delta < 0 {
                let secs: u64 = (-(delta as i64)) as u64;
                Command::Seek { forward: false, nanos: secs * 1_000_000_000 }
            } else {
                Command::Seek { forward: true, nanos: delta as u64 * 1_000_000_000 }
            }
        },
        AppAction::Shuffle => Command::Shuffle,
        AppAction::IncreaseVolume => Command::Volume { up: true, amount: VOLUME_STEP },
        AppAction::DecreaseVolume => Command::Volume { up: false, amount: VOLUME_STEP },
        AppAction::Exit => Command::Idle,
    }
}

/// Whether a terminal of `width` by `height` cells is large enough for the
/// player's screen.
pub fn screen_fits(width: u16, height: u16) -> (fits: bool)
    ensures
        fits == (width > 80 && height > 5),
{
    width > 80 && height > 5
}

/// Paces the screen: how long a cycle may last.
#[derive(Debug, Clone, Copy, PartialEq, Eq, Structural)]
pub struct FramerateClock {
    /// Milliseconds that one cycle lasts.
    pub framerate: u64,
}

impl FramerateClock {
    /// A clock for `fps` cycles a second.
    pub fn new(fps: u64) -> (clock: FramerateClock)
        requires
            fps > 0,
        ensures
            clock.framerate == 1000u64 / fps,
    {
        FramerateClock { framerate: 1000 / fps }
    }

    /// How many milliseconds to sleep after a cycle that took `dt`
    /// milliseconds: what is left of the cycle, or nothing where it ran over.
    pub fn sleep_if_needed(&self, dt: u128) -> (pause: Option<u64>)
        ensures
            dt <= self.framerate ==> pause == Some((self.framerate - dt) as u64),
            dt > self.framerate ==> pause is None,
    {
        if dt <= self.framerate as u128 {
            Some(self.framerate - dt as u64)
        } else {
            None
        }
    }
}

} // verus!

