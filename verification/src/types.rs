//! Shared data types of the typing trainer core.

use vstd::prelude::*;

verus! {

/// The coarse states of the whole program; the menu returns the next one.
#[derive(Clone, Copy, PartialEq, Eq, Structural, Debug)]
pub enum GameState {
    MainMenu,
    SinglePlayer,
    MultiPlayer,
    ConfigMenu,
    Exit,
}

/// One entry of a selection menu: a label and the state entered on selection.
pub struct SelectionMenuOption {
    pub name: String,
    pub to_state: GameState,
}

/// An abstract key event. The surrounding program maps whatever its input
/// source yields onto these; a failed read maps to `Other`, which every
/// consumer ignores.
#[derive(Clone, Copy, PartialEq, Eq, Structural, Debug)]
pub enum Key {
    Char(char),
    Backspace,
    Enter,
    Up,
    Down,
    Esc,
    Tab,
    Other,
}

/// The style tag attached to a render instruction; the renderer decides
/// colours. `Neutral` restores an untyped cell, `Correct` and `Incorrect`
/// echo a keystroke, `Stale` re-marks errors of a line that just finished.
#[derive(Clone, Copy, PartialEq, Eq, Structural, Debug)]
pub enum Style {
    Neutral,
    Correct,
    Incorrect,
    Stale,
}

/// An instruction to draw one character of the current line.
///
/// `offset` counts characters from the start of the current line's joined
/// text; the renderer adds whatever horizontal padding it centres lines with.
#[derive(Clone, Copy, PartialEq, Eq, Structural, Debug)]
pub struct DrawCmd {
    pub ch: char,
    pub offset: usize,
    pub style: Style,
}

/// How a typing session ended: restart with a fresh session, or back to menu.
#[derive(Clone, Copy, PartialEq, Eq, Structural, Debug)]
pub enum TypingTestReturn {
    Restart,
    Back,
}

} // verus!
