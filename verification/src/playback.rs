//! The playback panel: how times read and which controls it shows.

use crate::player::VideoPlayerState;
use crate::view::{Command, VideoViewState};
use vstd::prelude::*;
use vstd::string::StringExecFns;

verus! {

/// The character that stands between minutes and seconds: the ratio sign.
pub const RATIO: char = '\u{2236}';

/// The character of a decimal digit.
pub open spec fn digit_char(d: nat) -> char {
    if d == 0 {
        '0'
    } else if d == 1 {
        '1'
    } else if d == 2 {
        '2'
    } else if d == 3 {
        '3'
    } else if d == 4 {
        '4'
    } else if d == 5 {
        '5'
    } else if d == 6 {
        '6'
    } else if d == 7 {
        '7'
    } else if d == 8 {
        '8'
    } else {
        '9'
    }
}

/// A number in decimal, without leading zeros.
pub open spec fn decimal(n: nat) -> Seq<char>
    decreases n,
{
    if n < 10 {
        seq![digit_char(n)]
    } else {
        decimal(n / 10).push(digit_char(n % 10))
    }
}

/// A number of seconds as minutes and seconds: the minutes in decimal, the
/// ratio sign, and the seconds left over in two digits.
pub open spec fn minutes_and_seconds(dur: u64) -> Seq<char> {
    decimal((dur / 60) as nat) + seq![RATIO] + seq![
        digit_char((dur % 60 / 10) as nat),
        digit_char((dur % 60 % 10) as nat),
    ]
}

/// How far playback has come, as shown beside the controls: position and
/// duration, each as minutes and seconds, with a slash between.
pub open spec fn durations_text(position: u64, duration: u64) -> Seq<char> {
    minutes_and_seconds(position) + seq![' ', '/', ' '] + minutes_and_seconds(duration)
}

/// The text of one decimal digit.
fn digit_text(d: u64) -> (text: &'static str)
    requires
        d < 10,
    ensures
        text@ == seq![digit_char(d as nat)],
{
    proof {
        reveal_strlit("0");
        reveal_strlit("1");
        reveal_strlit("2");
        reveal_strlit("3");
        reveal_strlit("4");
        reveal_strlit("5");
        reveal_strlit("6");
        reveal_strlit("7");
        reveal_strlit("8");
        reveal_strlit("9");
    }
    let text = if d == 0 {
        "0"
    } else if d == 1 {
        "1"
    } else if d == 2 {
        "2"
    } else if d == 3 {
        "3"
    } else if d == 4 {
        "4"
    } else if d == 5 {
        "5"
    } else if d == 6 {
        "6"
    } else if d == 7 {
        "7"
    } else if d == 8 {
        "8"
    } else {
        "9"
    };
    text
}

/// Appends a number in decimal.
fn push_decimal(text: &mut String, n: u64)
    ensures
        final(text)@ == old(text)@ + decimal(n as nat),
    decreases n,
{
    if n >= 10 {
        push_decimal(text, n / 10);
    }
    text.append(digit_text(n % 10));
}

/// Appends a number of seconds as minutes and seconds.
fn push_minutes_and_seconds(text: &mut String, dur: u64)
    ensures
        final(text)@ == old(text)@ + minutes_and_seconds(dur),
{
    let minutes = dur / 60;
    let seconds = dur % 60;
    push_decimal(text, minutes);
    proof {
        reveal_strlit("\u{2236}");
    }
    text.append("\u{2236}");
    text.append(digit_text(seconds / 10));
    text.append(digit_text(seconds % 10));
}

/// Writes a number of seconds as minutes and seconds, such as `2∶05` for
/// 125.
pub fn as_minutes_and_seconds(dur: u64) -> (text: String)
    ensures
        text@ == minutes_and_seconds(dur),
{
    let mut text = String::new();
    push_minutes_and_seconds(&mut text, dur);
    text
}

/// The label beside the controls: how far playback has come, out of how
/// long the medium is.
pub fn durations_label(state: &VideoViewState) -> (text: String)
    ensures
        text@ == durations_text(state.position, state.duration),
{
    let mut text = String::new();
    push_minutes_and_seconds(&mut text, state.position);
    proof {
        reveal_strlit(" / ");
    }
    text.append(" / ");
    push_minutes_and_seconds(&mut text, state.duration);
    text
}

/// Whether the panel shows the seek bar and the controls: it does once an
/// item is loaded.
pub fn shows_controls(state: &VideoViewState) -> (shown: bool)
    ensures
        shown == (state.current_item@.len() > 0),
{
    !state.current_item.as_str().is_empty()
}

/// The icon of the play/pause button.
#[derive(Clone, Copy, Debug, PartialEq, Eq, Structural)]
pub enum Icon {
    Pause,
    Play,
}

/// A button of the panel: what it shows and what a click submits.
#[derive(Clone, Copy, Debug, PartialEq, Eq, Structural)]
pub struct Button {
    pub icon: Icon,
    pub on_click: Command,
}

/// The play/pause button for a transport state: while playing it pauses,
/// while paused it resumes, and a stopped engine has none.
pub fn player_play_pause_widget(state: VideoPlayerState) -> (button: Option<Button>)
    ensures
        button == match state {
            VideoPlayerState::Playing => Some(
                Button { icon: Icon::Pause, on_click: Command::PlayPause },
            ),
            VideoPlayerState::Paused => Some(
                Button { icon: Icon::Play, on_click: Command::PlayResume },
            ),
            VideoPlayerState::Stopped => None,
        },
{
    match state {
        VideoPlayerState::Playing => Some(
            Button { icon: Icon::Pause, on_click: Command::PlayPause },
        ),
        VideoPlayerState::Paused => Some(Button { icon: Icon::Play, on_click: Command::PlayResume }),
        VideoPlayerState::Stopped => None,
    }
}

} // verus!
