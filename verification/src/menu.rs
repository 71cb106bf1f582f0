//! The selection menu: wrap-around navigation over a list of options, and
//! the main menu's decision flow.

use vstd::prelude::*;

use crate::types::GameState;
use crate::types::Key;
use crate::types::SelectionMenuOption;

verus! {

/// A titled list of options with one of them selected.
pub struct SelectionMenu {
    pub title: String,
    pub selection_idx: usize,
    pub options: Vec<SelectionMenuOption>,
}

/// The selection index after one key: down and 'j' move towards the bottom
/// and wrap to the top, up and 'k' the reverse; other keys hold still.
pub open spec fn spec_menu_step(idx: int, len: int, key: Key) -> int {
    if key == Key::Down || key == (Key::Char('j')) {
        if idx < len - 1 {
            idx + 1
        } else {
            0
        }
    } else if key == Key::Up || key == (Key::Char('k')) {
        if idx > 0 {
            idx - 1
        } else {
            len - 1
        }
    } else {
        idx
    }
}

/// The decision one key makes, if any: the selected state on enter, leaving
/// the program on escape or 'q'.
pub open spec fn spec_menu_decision(states: Seq<GameState>, idx: int, key: Key) -> Option<
    GameState,
> {
    if key == Key::Enter {
        Some(states[idx])
    } else if key == Key::Esc || key == (Key::Char('q')) {
        Some(GameState::Exit)
    } else {
        None
    }
}

/// The state the menu flow settles on over a key sequence: the first
/// deciding key wins; a drained sequence leaves the program.
pub open spec fn spec_menu_run(states: Seq<GameState>, idx: int, keys: Seq<Key>) -> GameState
    decreases keys.len(),
{
    if keys.len() == 0 {
        GameState::Exit
    } else if spec_menu_decision(states, idx, keys[0]) is Some {
        spec_menu_decision(states, idx, keys[0]).unwrap()
    } else {
        spec_menu_run(states, spec_menu_step(idx, states.len() as int, keys[0]), keys.drop_first())
    }
}

/// The states of the main menu's options, in order: single player,
/// multiplayer (not yet available: it starts a single-player session too),
/// and exit.
pub open spec fn spec_main_states() -> Seq<GameState> {
    seq![GameState::SinglePlayer, GameState::SinglePlayer, GameState::Exit]
}

impl SelectionMenu {
    /// The selection always points at one of the options.
    pub open spec fn wf(self) -> bool {
        self.selection_idx < self.options.len()
    }

    /// A menu starts with its first option selected.
    pub fn new(title: String, options: Vec<SelectionMenuOption>) -> (m: SelectionMenu)
        requires
            options@.len() >= 1,
        ensures
            m.wf(),
            m.title == title,
            m.options == options,
            m.selection_idx == 0,
    {
        SelectionMenu { title, options, selection_idx: 0 }
    }

    /// Moves the selection one option up, wrapping to the bottom at the top.
    pub fn move_selection_up(&mut self)
        requires
            old(self).wf(),
        ensures
            final(self).wf(),
            final(self).selection_idx as int == (if old(self).selection_idx > 0 {
                old(self).selection_idx - 1
            } else {
                old(self).options@.len() - 1
            }),
            final(self).title == old(self).title,
            final(self).options == old(self).options,
    {
        if self.selection_idx > 0 {
            self.selection_idx = self.selection_idx - 1;
        } else {
            self.selection_idx = self.options.len() - 1;
        }
    }

    /// Moves the selection one option down, wrapping to the top at the bottom.
    pub fn move_selection_down(&mut self)
        requires
            old(self).wf(),
        ensures
            final(self).wf(),
            final(self).selection_idx as int == (if old(self).selection_idx
                < old(self).options@.len() - 1 {
                old(self).selection_idx + 1
            } else {
                0
            }),
            final(self).title == old(self).title,
            final(self).options == old(self).options,
    {
        if self.selection_idx < self.options.len() - 1 {
            self.selection_idx = self.selection_idx + 1;
        } else {
            self.selection_idx = 0;
        }
    }

    /// Applies one key of the menu loop: navigation moves the selection and
    /// decides nothing; enter decides the selected option's state; escape
    /// and 'q' decide to leave; anything else does nothing.
    pub fn handle_key(&mut self, key: Key) -> (r: Option<GameState>)
        requires
            old(self).wf(),
        ensures
            final(self).wf(),
            final(self).title == old(self).title,
            final(self).options == old(self).options,
            final(self).selection_idx as int == spec_menu_step(
                old(self).selection_idx as int,
                old(self).options@.len() as int,
                key,
            ),
            r == (if key == Key::Enter {
                Some(old(self).options@[old(self).selection_idx as int].to_state)
            } else if key == Key::Esc || key == (Key::Char('q')) {
                Some(GameState::Exit)
            } else {
                None::<GameState>
            }),
    {
        match key {
            Key::Down | Key::Char('j') => {
                self.move_selection_down();
                None
            },
            Key::Up | Key::Char('k') => {
                self.move_selection_up();
                None
            },
            Key::Enter => Some(self.options[self.selection_idx].to_state),
            Key::Esc | Key::Char('q') => Some(GameState::Exit),
            _ => None,
        }
    }
}

/// Drives the main menu over a sequence of key events and returns the state
/// it decides on; a drained sequence counts as leaving the program.
pub fn run(keys: &Vec<Key>) -> (g: GameState)
    ensures
        g == spec_menu_run(spec_main_states(), 0, keys@),
{
    let mut options: Vec<SelectionMenuOption> = Vec::new();
    options.push(
        SelectionMenuOption { name: "Single player".to_owned(), to_state: GameState::SinglePlayer },
    );
    options.push(
        SelectionMenuOption { name: "Multiplayer".to_owned(), to_state: GameState::SinglePlayer },
    );
    options.push(SelectionMenuOption { name: "Exit".to_owned(), to_state: GameState::Exit });
    let mut menu = SelectionMenu::new("Main Menu".to_owned(), options);
    let ghost states = menu.options@.map(|i: int, o: SelectionMenuOption| o.to_state);
    proof {
        assert(states =~= spec_main_states());
        assert(keys@.skip(0) =~= keys@);
    }
    let mut i: usize = 0;
    while i < keys.len()
        invariant
            i <= keys@.len(),
            menu.wf(),
            menu.options@.len() == 3,
            states == menu.options@.map(|k: int, o: SelectionMenuOption| o.to_state),
            states == spec_main_states(),
            spec_menu_run(states, 0, keys@) == spec_menu_run(
                states,
                menu.selection_idx as int,
                keys@.skip(i as int),
            ),
        decreases keys@.len() - i,
    {
        let ghost idx_before = menu.selection_idx as int;
        let r = menu.handle_key(keys[i]);
        proof {
            assert(keys@.skip(i as int)[0] == keys@[i as int]);
            assert(keys@.skip(i as int).drop_first() =~= keys@.skip(i as int + 1));
            assert(states[idx_before] == menu.options@[idx_before].to_state);
        }
        i = i + 1;
        if let Some(g) = r {
            return g;
        }
    }
    proof {
        assert(keys@.skip(keys@.len() as int).len() == 0);
    }
    GameState::Exit
}

} // verus!
