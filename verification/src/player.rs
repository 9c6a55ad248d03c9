//! The player screen: what the controls do to the playback.
//!
//! The playback itself is the caller's. It tells the player how the video
//! stands in a [`VideoStatus`], and carries out the [`Commands`] that the
//! player answers with. Times are in milliseconds, the volume is in
//! percent, and the speed in tenths of the normal speed.

use vstd::prelude::*;
use crate::icons::{PAUSE, PLAY, REPLAY};
use crate::text::{decimal_padded, push_decimal_padded};

verus! {

/// The keys that the player tells apart.
#[derive(Debug, Clone, Copy, PartialEq, Eq, Structural)]
pub enum PlayerKey {
    Space,
    Enter,
    Escape,
    ArrowLeft,
    ArrowRight,
    ArrowUp,
    ArrowDown,
    /// A key that writes one character.
    Character(char),
    Other,
}

/// The mouse buttons that the player tells apart.
#[derive(Debug, Clone, Copy, PartialEq, Eq, Structural)]
pub enum Button {
    Left,
    Right,
    Other,
}

/// How often a mouse button was clicked in a row.
#[derive(Debug, Clone, Copy, PartialEq, Eq, Structural)]
pub enum Kind {
    Single,
    Double,
    Other,
}

/// What can happen on the player screen.
#[derive(Debug, Clone, Copy, PartialEq, Eq, Structural)]
pub enum PlayerMessage {
    /// The scrubber was released.
    SeekRelease,
    /// The scrubber was moved to a value.
    Seek(i64),
    /// The window was resized; `own` where it is the player's window.
    Resize { own: bool, width: u32, height: u32 },
    /// The previews were made, or could not be.
    ThumbnailsReady(bool),
    ChangeVolume(u8),
    IncrVolume,
    DecrVolume,
    IncrSpeed,
    DecrSpeed,
    ResetSpeed,
    CursorExit,
    CursorEnter,
    PreviousScreen,
    AddCollection,
    Config,
    ToggleSubtitles,
    ToggleMute,
    PlayPrevious,
    PlayNext,
    /// Seek forward, twice as far with the shift key held.
    SeekFront(bool),
    /// Seek back, twice as far with the shift key held.
    SeekBack(bool),
    TogglePlay,
    Favorite,
    Comment,
    ToggleFullscreen,
    ExitFullscreen,
    EndOfStream,
    NewFrame,
    /// Nothing happened.
    Nothing,
}

/// How the video stands.
#[derive(Debug, Clone, Copy, PartialEq, Eq, Structural)]
pub struct VideoStatus {
    pub position: u64,
    pub duration: u64,
    pub paused: bool,
    pub muted: bool,
    pub volume: u8,
    /// Whether the video has reached its end.
    pub eos: bool,
}

/// What the caller has to do to the playback and to the window. A field
/// that is `None` asks for nothing.
#[derive(Debug, Clone, Copy, PartialEq, Eq, Structural)]
pub struct Commands {
    pub seek: Option<u64>,
    pub paused: Option<bool>,
    pub volume: Option<u8>,
    pub muted: Option<bool>,
    pub speed: Option<i32>,
    pub fullscreen: Option<bool>,
    /// The message asks for what the player cannot do yet.
    pub unsupported: bool,
}

/// The player screen.
#[derive(Debug, Clone, Copy, PartialEq, Eq, Structural)]
pub struct Player {
    pub position: u64,
    pub show_controls: bool,
    pub maximised: bool,
    pub is_fullscreen: bool,
    pub volume: u8,
    pub speed: i32,
    pub has_previous: bool,
    pub has_next: bool,
    pub is_dragging: bool,
}

/// The loudest volume.
pub const FULL_VOLUME: u8 = 100;

/// The normal speed.
pub const NORMAL_SPEED: i32 = 10;

/// The width and the height from which a window counts as maximised.
pub const MAXIMISED: u32 = 1000;

/// No command at all.
pub open spec fn no_commands() -> Commands {
    Commands {
        seek: None,
        paused: None,
        volume: None,
        muted: None,
        speed: None,
        fullscreen: None,
        unsupported: false,
    }
}

/// `v` limited to what the speed can hold.
pub open spec fn clamp_speed(v: int) -> i32 {
    if v < i32::MIN {
        i32::MIN
    } else if v > i32::MAX {
        i32::MAX
    } else {
        v as i32
    }
}

/// `v` limited to what a position can hold.
pub open spec fn clamp_position(v: int) -> u64 {
    if v > u64::MAX {
        u64::MAX
    } else if v < 0 {
        0
    } else {
        v as u64
    }
}

/// The least of two positions.
pub open spec fn least(a: u64, b: u64) -> u64 {
    if a < b {
        a
    } else {
        b
    }
}

/// A time in seconds as the timeline shows it: the hours, the minutes
/// since the start, and the seconds of the minute, each with at least two
/// digits, with colons in between.
pub open spec fn clock_text(seconds: nat) -> Seq<char> {
    decimal_padded(seconds / 3600) + seq![':'] + decimal_padded(seconds / 60) + seq![':']
        + decimal_padded(seconds % 60)
}

impl Player {
    /// By how much a key changes the volume.
    pub open spec fn spec_volume_amount(self) -> u8 {
        5
    }

    /// By how much a key moves the position.
    pub open spec fn spec_seek_amount(self) -> u64 {
        10_000
    }

    /// By how much a key changes the speed.
    pub open spec fn spec_speed_amount(self) -> i32 {
        1
    }

    /// How far a seek by key goes: twice the amount with the shift key.
    pub open spec fn seek_distance(self, shift: bool) -> int {
        if shift {
            2 * self.spec_seek_amount()
        } else {
            self.spec_seek_amount() as int
        }
    }

    /// The player after `message`, with the video as `status` says.
    ///
    /// Moving the scrubber begins a drag at the value, which is no less
    /// than zero; a new frame moves the position along unless a drag is
    /// under way; a seek by key ends the drag and stays within the video.
    /// The volume and the speed follow the controls, the volume between
    /// nothing and [`FULL_VOLUME`]. The controls hide while the cursor is
    /// away from a window that is maximised or shows the video full
    /// screen, and show when it comes back.
    pub open spec fn after(self, message: PlayerMessage, status: VideoStatus) -> Player {
        match message {
            PlayerMessage::Resize { own, width, height } => if own {
                let maximised = width >= MAXIMISED && height >= MAXIMISED;
                Player { maximised, show_controls: !maximised, ..self }
            } else {
                self
            },
            PlayerMessage::NewFrame => if self.is_dragging {
                self
            } else {
                Player { position: status.position, ..self }
            },
            PlayerMessage::SeekRelease => Player { is_dragging: false, ..self },
            PlayerMessage::Seek(value) => Player {
                position: clamp_position(value as int),
                is_dragging: true,
                ..self
            },
            PlayerMessage::ChangeVolume(volume) => Player { volume, ..self },
            PlayerMessage::ToggleMute => Player {
                volume: if status.muted {
                    status.volume
                } else {
                    0
                },
                ..self
            },
            PlayerMessage::SeekBack(shift) => Player {
                is_dragging: false,
                position: clamp_position(self.position - self.seek_distance(shift)),
                ..self
            },
            PlayerMessage::SeekFront(shift) => Player {
                is_dragging: false,
                position: least(
                    clamp_position(self.position + self.seek_distance(shift)),
                    status.duration,
                ),
                ..self
            },
            PlayerMessage::IncrVolume => Player {
                volume: if self.volume + self.spec_volume_amount() > FULL_VOLUME {
                    FULL_VOLUME
                } else {
                    (self.volume + self.spec_volume_amount()) as u8
                },
                ..self
            },
            PlayerMessage::DecrVolume => Player {
                volume: if self.volume < self.spec_volume_amount() {
                    0
                } else {
                    (self.volume - self.spec_volume_amount()) as u8
                },
                ..self
            },
            PlayerMessage::IncrSpeed => Player {
                speed: clamp_speed(self.speed + self.spec_speed_amount()),
                ..self
            },
            PlayerMessage::DecrSpeed => Player {
                speed: clamp_speed(self.speed - self.spec_speed_amount()),
                ..self
            },
            PlayerMessage::ResetSpeed => Player { speed: NORMAL_SPEED, ..self },
            PlayerMessage::CursorExit => if self.is_fullscreen || self.maximised {
                Player { show_controls: false, ..self }
            } else {
                self
            },
            PlayerMessage::CursorEnter => Player { show_controls: true, ..self },
            PlayerMessage::ToggleFullscreen => Player {
                show_controls: self.is_fullscreen,
                is_fullscreen: !self.is_fullscreen,
                ..self
            },
            PlayerMessage::ExitFullscreen => Player {
                show_controls: true,
                is_fullscreen: false,
                ..self
            },
            _ => self,
        }
    }

    /// What the caller has to do after `message`, with the video as
    /// `status` says: the playback follows the player, a drag pauses it and
    /// a release seeks and resumes, and the window follows the full-screen
    /// switch. The end of the stream, the step to the previous screen and
    /// previews that could not be made are not handled yet.
    pub open spec fn commands(self, message: PlayerMessage, status: VideoStatus) -> Commands {
        let next = self.after(message, status);
        match message {
            PlayerMessage::SeekRelease => Commands {
                seek: Some(self.position),
                paused: Some(false),
                ..no_commands()
            },
            PlayerMessage::Seek(_) => Commands { paused: Some(true), ..no_commands() },
            PlayerMessage::TogglePlay => Commands { paused: Some(!status.paused), ..no_commands() },
            PlayerMessage::ChangeVolume(_)
            | PlayerMessage::IncrVolume
            | PlayerMessage::DecrVolume => Commands {
                volume: Some(next.volume),
                ..no_commands()
            },
            PlayerMessage::ToggleMute => Commands { muted: Some(!status.muted), ..no_commands() },
            PlayerMessage::SeekBack(_) | PlayerMessage::SeekFront(_) => Commands {
                seek: Some(next.position),
                ..no_commands()
            },
            PlayerMessage::IncrSpeed
            | PlayerMessage::DecrSpeed
            | PlayerMessage::ResetSpeed => Commands {
                speed: Some(next.speed),
                ..no_commands()
            },
            PlayerMessage::ToggleFullscreen | PlayerMessage::ExitFullscreen => Commands {
                fullscreen: Some(next.is_fullscreen),
                ..no_commands()
            },
            PlayerMessage::EndOfStream | PlayerMessage::PreviousScreen => Commands {
                unsupported: true,
                ..no_commands()
            },
            PlayerMessage::ThumbnailsReady(made) => Commands {
                unsupported: !made,
                ..no_commands()
            },
            _ => no_commands(),
        }
    }

    /// The player for a video that stands as `status` says: the controls
    /// shown, in a window, at normal speed.
    pub fn new(status: VideoStatus) -> (player: Player)
        ensures
            player == (Player {
                position: status.position,
                volume: status.volume,
                speed: NORMAL_SPEED,
                show_controls: true,
                maximised: false,
                is_fullscreen: false,
                has_previous: false,
                has_next: false,
                is_dragging: false,
            }),
    {
        Player {
            position: status.position,
            volume: status.volume,
            speed: NORMAL_SPEED,
            show_controls: true,
            maximised: false,
            is_fullscreen: false,
            has_previous: false,
            has_next: false,
            is_dragging: false,
        }
    }

    pub fn volume_amount(&self) -> (amount: u8)
        ensures
            amount == self.spec_volume_amount(),
    {
        5
    }

    pub fn seek_amount(&self) -> (amount: u64)
        ensures
            amount == self.spec_seek_amount(),
    {
        10_000
    }

    pub fn speed_amount(&self) -> (amount: i32)
        ensures
            amount == self.spec_speed_amount(),
    {
        1
    }

    /// Handles what happened on the screen.
    pub fn update(&mut self, message: PlayerMessage, status: VideoStatus) -> (commands: Commands)
        ensures
            *final(self) == old(self).after(message, status),
            commands == old(self).commands(message, status),
    {
        let mut commands = Commands {
            seek: None,
            paused: None,
            volume: None,
            muted: None,
            speed: None,
            fullscreen: None,
            unsupported: false,
        };
        match message {
            PlayerMessage::Resize { own, width, height } => {
                if own {
                    self.maximised = width >= MAXIMISED && height >= MAXIMISED;
                    self.show_controls = !self.maximised;
                }
            },
            PlayerMessage::Nothing => {},
            PlayerMessage::EndOfStream => {
                commands.unsupported = true;
            },
            PlayerMessage::NewFrame => {
                if !self.is_dragging {
                    self.position = status.position;
                }
            },
            PlayerMessage::SeekRelease => {
                self.is_dragging = false;
                commands.seek = Some(self.position);
                commands.paused = Some(false);
            },
            PlayerMessage::Seek(value) => {
                self.position = if value < 0 {
                    0
                } else {
                    value as u64
                };
                self.is_dragging = true;
                commands.paused = Some(true);
            },
            PlayerMessage::TogglePlay => {
                commands.paused = Some(!status.paused);
            },
            PlayerMessage::ThumbnailsReady(made) => {
                commands.unsupported = !made;
            },
            PlayerMessage::ChangeVolume(volume) => {
                self.volume = volume;
                commands.volume = Some(volume);
            },
            PlayerMessage::ToggleMute => {
                let mute = !status.muted;
                commands.muted = Some(mute);
                if mute {
                    self.volume = 0;
                } else {
                    self.volume = status.volume;
                }
            },
            PlayerMessage::SeekBack(shift) => {
                self.is_dragging = false;
                let distance = if shift {
                    2 * self.seek_amount()
                } else {
                    self.seek_amount()
                };
                self.position = if self.position < distance {
                    0
                } else {
                    self.position - distance
                };
                commands.seek = Some(self.position);
            },
            PlayerMessage::SeekFront(shift) => {
                self.is_dragging = false;
                let distance = if shift {
                    2 * self.seek_amount()
                } else {
                    self.seek_amount()
                };
                let target = if self.position > u64::MAX - distance {
                    u64::MAX
                } else {
                    self.position + distance
                };
                self.position = if target < status.duration {
                    target
                } else {
                    status.duration
                };
                commands.seek = Some(self.position);
            },
            PlayerMessage::IncrVolume => {
                let amount = self.volume_amount();
                self.volume = if self.volume > FULL_VOLUME - amount {
                    FULL_VOLUME
                } else {
                    self.volume + amount
                };
                commands.volume = Some(self.volume);
            },
            PlayerMessage::DecrVolume => {
                let amount = self.volume_amount();
                self.volume = if self.volume < amount {
                    0
                } else {
                    self.volume - amount
                };
                commands.volume = Some(self.volume);
            },
            PlayerMessage::IncrSpeed => {
                let amount = self.speed_amount();
                self.speed = if self.speed > i32::MAX - amount {
                    i32::MAX
                } else {
                    self.speed + amount
                };
                commands.speed = Some(self.speed);
            },
            PlayerMessage::DecrSpeed => {
                let amount = self.speed_amount();
                self.speed = if self.speed < i32::MIN + amount {
                    i32::MIN
                } else {
                    self.speed - amount
                };
                commands.speed = Some(self.speed);
            },
            PlayerMessage::ResetSpeed => {
                self.speed = NORMAL_SPEED;
                commands.speed = Some(self.speed);
            },
            PlayerMessage::CursorExit => {
                if self.is_fullscreen || self.maximised {
                    self.show_controls = false;
                }
            },
            PlayerMessage::CursorEnter => {
                self.show_controls = true;
            },
            PlayerMessage::ToggleFullscreen => {
                self.show_controls = self.is_fullscreen;
                self.is_fullscreen = !self.is_fullscreen;
                commands.fullscreen = Some(self.is_fullscreen);
            },
            PlayerMessage::ExitFullscreen => {
                self.show_controls = true;
                self.is_fullscreen = false;
                commands.fullscreen = Some(false);
            },
            PlayerMessage::PreviousScreen => {
                commands.unsupported = true;
            },
            PlayerMessage::AddCollection => {},
            PlayerMessage::Config => {},
            PlayerMessage::ToggleSubtitles => {},
            PlayerMessage::PlayNext => {},
            PlayerMessage::PlayPrevious => {},
            PlayerMessage::Favorite => {},
            PlayerMessage::Comment => {},
        }
        commands
    }

    /// The icon and the message of the play button: play while the video
    /// is paused, replay at its end, else pause.
    pub fn play_btn(status: VideoStatus) -> (button: (char, PlayerMessage))
        ensures
            button.1 == PlayerMessage::TogglePlay,
            button.0 == if status.paused {
                PLAY
            } else if status.eos {
                REPLAY
            } else {
                PAUSE
            },
    {
        if status.paused {
            (PLAY, PlayerMessage::TogglePlay)
        } else if status.eos {
            (REPLAY, PlayerMessage::TogglePlay)
        } else {
            (PAUSE, PlayerMessage::TogglePlay)
        }
    }

    /// Whether the video's own controls lie over the video: in full
    /// screen, while the player's controls are hidden.
    pub fn overlay_enabled(&self) -> (enabled: bool)
        ensures
            enabled == (self.is_fullscreen && !self.show_controls),
    {
        self.is_fullscreen && !self.show_controls
    }
}

/// Writes a time in seconds as the timeline shows it.
pub fn format_clock(seconds: u64) -> (text: String)
    ensures
        text@ == clock_text(seconds as nat),
{
    let mut text = String::new();
    push_decimal_padded(&mut text, seconds / 3600);
    text.append(":");
    push_decimal_padded(&mut text, seconds / 60);
    text.append(":");
    push_decimal_padded(&mut text, seconds % 60);
    proof {
        reveal_strlit(":");
        assert(":"@ =~= seq![':']);
        assert(text@ =~= clock_text(seconds as nat));
    }
    text
}

/// The message of a key: space plays and pauses, enter and `f` switch
/// full screen, escape leaves it, the arrows seek and change the volume,
/// `c`, `x` and `z` raise, lower and reset the speed.
pub open spec fn key_message(key: PlayerKey, shift: bool) -> PlayerMessage {
    match key {
        PlayerKey::Space => PlayerMessage::TogglePlay,
        PlayerKey::Enter => PlayerMessage::ToggleFullscreen,
        PlayerKey::Escape => PlayerMessage::ExitFullscreen,
        PlayerKey::ArrowLeft => PlayerMessage::SeekBack(shift),
        PlayerKey::ArrowRight => PlayerMessage::SeekFront(shift),
        PlayerKey::ArrowUp => PlayerMessage::IncrVolume,
        PlayerKey::ArrowDown => PlayerMessage::DecrVolume,
        PlayerKey::Character(c) => if c == 'f' {
            PlayerMessage::ToggleFullscreen
        } else if c == 'c' {
            PlayerMessage::IncrSpeed
        } else if c == 'x' {
            PlayerMessage::DecrSpeed
        } else if c == 'z' {
            PlayerMessage::ResetSpeed
        } else {
            PlayerMessage::Nothing
        },
        PlayerKey::Other => PlayerMessage::Nothing,
    }
}

/// The message of a click: a single left click plays and pauses, a double
/// one switches full screen, and a right click opens the settings.
pub open spec fn click_message(button: Button, kind: Kind) -> PlayerMessage {
    match button {
        Button::Left => match kind {
            Kind::Single => PlayerMessage::TogglePlay,
            Kind::Double => PlayerMessage::ToggleFullscreen,
            Kind::Other => PlayerMessage::Nothing,
        },
        Button::Right => PlayerMessage::Config,
        Button::Other => PlayerMessage::Nothing,
    }
}

pub fn handle_keypress(key: PlayerKey, shift: bool) -> (message: PlayerMessage)
    ensures
        message == key_message(key, shift),
{
    match key {
        PlayerKey::Space => PlayerMessage::TogglePlay,
        PlayerKey::Enter => PlayerMessage::ToggleFullscreen,
        PlayerKey::Escape => PlayerMessage::ExitFullscreen,
        PlayerKey::ArrowLeft => PlayerMessage::SeekBack(shift),
        PlayerKey::ArrowRight => PlayerMessage::SeekFront(shift),
        PlayerKey::ArrowUp => PlayerMessage::IncrVolume,
        PlayerKey::ArrowDown => PlayerMessage::DecrVolume,
        PlayerKey::Character(c) => {
            if c == 'f' {
                PlayerMessage::ToggleFullscreen
            } else if c == 'c' {
                PlayerMessage::IncrSpeed
            } else if c == 'x' {
                PlayerMessage::DecrSpeed
            } else if c == 'z' {
                PlayerMessage::ResetSpeed
            } else {
                PlayerMessage::Nothing
            }
        },
        PlayerKey::Other => PlayerMessage::Nothing,
    }
}

pub fn handle_clicks(button: Button, kind: Kind) -> (message: PlayerMessage)
    ensures
        message == click_message(button, kind),
{
    match button {
        Button::Left => match kind {
            Kind::Single => PlayerMessage::TogglePlay,
            Kind::Double => PlayerMessage::ToggleFullscreen,
            Kind::Other => PlayerMessage::Nothing,
        },
        Button::Right => PlayerMessage::Config,
        Button::Other => PlayerMessage::Nothing,
    }
}

} // verus!
