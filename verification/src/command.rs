//! The closed command vocabulary and the input-event translator.

use crate::terminal::Size;
use vstd::prelude::*;

verus! {

/// One caret movement, a single axis change or a jump to an extreme.
#[derive(Clone, Copy, PartialEq, Eq, Structural, Debug)]
pub enum Direction {
    Up,
    Down,
    Left,
    Right,
    PageUp,
    PageDown,
    Home,
    End,
}

/// A command the editor core consumes.
#[derive(Clone, Copy, PartialEq, Eq, Structural, Debug)]
pub enum EditorCommand {
    Move(Direction),
    Resize(Size),
    Quit,
}

/// What the translator reads of one key.
#[derive(Clone, Copy, PartialEq, Eq, Structural, Debug)]
pub enum KeyCode {
    /// A printable character.
    Char(char),
    Up,
    Down,
    Left,
    Right,
    PageUp,
    PageDown,
    Home,
    End,
    /// Any key the editor has no use for.
    Other,
}

/// The phase a key event reports. Platforms that report repeats and
/// releases would otherwise have one stroke processed several times, so
/// only the press phase is honored.
#[derive(Clone, Copy, PartialEq, Eq, Structural, Debug)]
pub enum KeyPhase {
    Press,
    Repeat,
    Release,
}

/// A raw input event, reduced to the facts the translator reads: which key
/// arrived, with the control modifier or not, in which phase; or a new
/// screen size; or something the editor ignores outright.
#[derive(Clone, Copy, PartialEq, Eq, Structural, Debug)]
pub enum InputEvent {
    Key { code: KeyCode, ctrl: bool, phase: KeyPhase },
    Resize(Size),
    Other,
}

/// A key-shaped event matched no command: distinct from an I/O failure,
/// and fatal to the session.
#[derive(Clone, Copy, PartialEq, Eq, Structural, Debug)]
pub struct TranslateError;

/// The command an event translates to, if any: a pressed `q` under the
/// control modifier quits, a pressed navigation key moves, a resize
/// notification resizes. Nothing else translates.
pub open spec fn spec_translate(event: InputEvent) -> Option<EditorCommand> {
    match event {
        InputEvent::Key { code, ctrl, phase } => if phase is Press {
            match code {
                KeyCode::Char(c) => if c == 'q' && ctrl {
                    Some(EditorCommand::Quit)
                } else {
                    None
                },
                KeyCode::Up => Some(EditorCommand::Move(Direction::Up)),
                KeyCode::Down => Some(EditorCommand::Move(Direction::Down)),
                KeyCode::Left => Some(EditorCommand::Move(Direction::Left)),
                KeyCode::Right => Some(EditorCommand::Move(Direction::Right)),
                KeyCode::PageUp => Some(EditorCommand::Move(Direction::PageUp)),
                KeyCode::PageDown => Some(EditorCommand::Move(Direction::PageDown)),
                KeyCode::Home => Some(EditorCommand::Move(Direction::Home)),
                KeyCode::End => Some(EditorCommand::Move(Direction::End)),
                KeyCode::Other => None,
            }
        } else {
            None
        },
        InputEvent::Resize(size) => Some(EditorCommand::Resize(size)),
        InputEvent::Other => None,
    }
}

impl EditorCommand {
    /// Translate one raw event into a command; an event that matches no
    /// command is a translation error, for the caller to ignore or treat
    /// as fatal.
    pub fn try_from_event(event: InputEvent) -> (r: Result<EditorCommand, TranslateError>)
        ensures
            (match spec_translate(event) {
                Some(command) => r == Ok::<EditorCommand, TranslateError>(command),
                None => r == Err::<EditorCommand, TranslateError>(TranslateError),
            }),
    {
        match event {
            InputEvent::Key { code, ctrl, phase: KeyPhase::Press } => match code {
                KeyCode::Char(c) => if c == 'q' && ctrl {
                    Ok(EditorCommand::Quit)
                } else {
                    Err(TranslateError)
                },
                KeyCode::Up => Ok(EditorCommand::Move(Direction::Up)),
                KeyCode::Down => Ok(EditorCommand::Move(Direction::Down)),
                KeyCode::Left => Ok(EditorCommand::Move(Direction::Left)),
                KeyCode::Right => Ok(EditorCommand::Move(Direction::Right)),
                KeyCode::PageUp => Ok(EditorCommand::Move(Direction::PageUp)),
                KeyCode::PageDown => Ok(EditorCommand::Move(Direction::PageDown)),
                KeyCode::Home => Ok(EditorCommand::Move(Direction::Home)),
                KeyCode::End => Ok(EditorCommand::Move(Direction::End)),
                KeyCode::Other => Err(TranslateError),
            },
            InputEvent::Resize(size) => Ok(EditorCommand::Resize(size)),
            _ => Err(TranslateError),
        }
    }
}

} // verus!
