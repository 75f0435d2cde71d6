//! Key presses and what they mean in each mode and on each screen.

use vstd::prelude::*;

verus! {

/// Whether the interface takes commands or edits the search text.
#[derive(Debug, Clone, Copy, PartialEq, Eq)]
pub enum Mode {
    Normal,
    SearchEntry,
}

/// The list that the interface shows.
#[derive(Debug, Clone, Copy, PartialEq, Eq)]
pub enum Screen {
    Queue,
    Results,
}

/// A key of the keyboard, as far as the interface tells keys apart.
#[derive(Debug, Clone, Copy, PartialEq, Eq)]
pub enum Key {
    Char(char),
    Backspace,
    Enter,
    Esc,
    Other,
}

/// One key press: the key, and whether the control key, and no other
/// modifier, was held with it.
#[derive(Debug, Clone, Copy, PartialEq, Eq)]
pub struct KeyPress {
    pub key: Key,
    pub control: bool,
}

/// What a key press asks for.
#[derive(Debug, Clone, Copy, PartialEq, Eq)]
pub enum Intent {
    /// The key means nothing here.
    Nothing,
    /// Tear the session down and leave.
    Quit,
    /// Begin to edit the search text.
    EnterSearch,
    /// Append a character to the search text.
    Input(char),
    /// Remove the last character of the search text.
    Erase,
    /// Submit the search text.
    Commit,
    /// Give the search text up.
    Cancel,
    /// Move the cursor of the shown list towards its end.
    CursorNext,
    /// Move the cursor of the shown list towards its start.
    CursorPrevious,
    /// Show the next screen.
    TabForward,
    /// Show the previous screen.
    TabBackward,
    /// Play the selected record.
    Activate,
    /// Stop the playback.
    Stop,
    /// Toggle between playing and pausing.
    PauseToggle,
    /// Raise the volume.
    VolumeUp,
    /// Lower the volume, and ask for its new value.
    VolumeDown,
}

/// Whether a character can stand in the search text: any but the control
/// characters.
pub open spec fn is_printable(c: char) -> bool {
    !(c as u32 <= 0x1f) && !(0x7f <= c as u32 <= 0x9f)
}

/// What a key press means while the search text is edited.
pub open spec fn search_intent_of(press: KeyPress) -> Intent {
    match press.key {
        Key::Char(c) => if press.control {
            if c == 'c' || c == 'C' { Intent::Quit } else { Intent::Nothing }
        } else if is_printable(c) {
            Intent::Input(c)
        } else {
            Intent::Nothing
        },
        Key::Backspace => Intent::Erase,
        Key::Enter => Intent::Commit,
        Key::Esc => Intent::Cancel,
        Key::Other => Intent::Nothing,
    }
}

/// What a key press means on either screen while commands are taken, the
/// playback keys aside.
pub open spec fn command_intent_of(press: KeyPress) -> Intent {
    match press.key {
        Key::Char(c) => if c == 'q' || c == 'Q' {
            Intent::Quit
        } else if (c == 'c' || c == 'C') && press.control {
            Intent::Quit
        } else if c == 'H' {
            Intent::TabForward
        } else if c == 'L' {
            Intent::TabBackward
        } else if c == 'j' {
            Intent::CursorNext
        } else if c == 'k' {
            Intent::CursorPrevious
        } else if c == '/' {
            Intent::EnterSearch
        } else {
            Intent::Nothing
        },
        Key::Enter => Intent::Activate,
        _ => Intent::Nothing,
    }
}

/// What a playback key means; the queue screen alone has these keys.
pub open spec fn playback_intent_of(press: KeyPress) -> Intent {
    match press.key {
        Key::Esc => Intent::Stop,
        Key::Char(c) => if c == 's' {
            Intent::Stop
        } else if c == '9' {
            Intent::VolumeDown
        } else if c == '0' {
            Intent::VolumeUp
        } else if c == ' ' {
            Intent::PauseToggle
        } else {
            Intent::Nothing
        },
        _ => Intent::Nothing,
    }
}

/// What a key press means in a mode and on a screen.
pub open spec fn intent_of(mode: Mode, screen: Screen, press: KeyPress) -> Intent {
    match mode {
        Mode::SearchEntry => search_intent_of(press),
        Mode::Normal => if command_intent_of(press) is Nothing && screen is Queue {
            playback_intent_of(press)
        } else {
            command_intent_of(press)
        },
    }
}

/// Whether a character can stand in the search text.
pub fn printable(c: char) -> (yes: bool)
    ensures
        yes == is_printable(c),
{
    let code: u32 = c as u32;
    !(code <= 0x1f) && !(0x7f <= code && code <= 0x9f)
}

fn search_intent(press: KeyPress) -> (intent: Intent)
    ensures
        intent == search_intent_of(press),
{
    match press.key {
        Key::Char(c) => {
            if press.control {
                if c == 'c' || c == 'C' {
                    Intent::Quit
                } else {
                    Intent::Nothing
                }
            } else if printable(c) {
                Intent::Input(c)
            } else {
                Intent::Nothing
            }
        },
        Key::Backspace => Intent::Erase,
        Key::Enter => Intent::Commit,
        Key::Esc => Intent::Cancel,
        Key::Other => Intent::Nothing,
    }
}

fn command_intent(press: KeyPress) -> (intent: Intent)
    ensures
        intent == command_intent_of(press),
{
    match press.key {
        Key::Char(c) => {
            if c == 'q' || c == 'Q' {
                Intent::Quit
            } else if (c == 'c' || c == 'C') && press.control {
                Intent::Quit
            } else if c == 'H' {
                Intent::TabForward
            } else if c == 'L' {
                Intent::TabBackward
            } else if c == 'j' {
                Intent::CursorNext
            } else if c == 'k' {
                Intent::CursorPrevious
            } else if c == '/' {
                Intent::EnterSearch
            } else {
                Intent::Nothing
            }
        },
        Key::Enter => Intent::Activate,
        _ => Intent::Nothing,
    }
}

fn playback_intent(press: KeyPress) -> (intent: Intent)
    ensures
        intent == playback_intent_of(press),
{
    match press.key {
        Key::Esc => Intent::Stop,
        Key::Char(c) => {
            if c == 's' {
                Intent::Stop
            } else if c == '9' {
                Intent::VolumeDown
            } else if c == '0' {
                Intent::VolumeUp
            } else if c == ' ' {
                Intent::PauseToggle
            } else {
                Intent::Nothing
            }
        },
        _ => Intent::Nothing,
    }
}

/// Reads a key press in a mode and on a screen.
pub fn interpret(mode: Mode, screen: Screen, press: KeyPress) -> (intent: Intent)
    ensures
        intent == intent_of(mode, screen, press),
{
    match mode {
        Mode::SearchEntry => search_intent(press),
        Mode::Normal => {
            let intent = command_intent(press);
            match (intent, screen) {
                (Intent::Nothing, Screen::Queue) => playback_intent(press),
                _ => intent,
            }
        },
    }
}

} // verus!
