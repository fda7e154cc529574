//! The menu and the new-game setup: choosing a civilization, a level of
//! competition and a difficulty, then confirming the start.
use vstd::prelude::*;

use crate::model::{
    civilization_at, difficulty_at, Civilization, Competition, Difficulty, CIVILIZATION_COUNT,
    COMPETITION_LEVELS, COMPETITION_MIN, DIFFICULTY_COUNT,
};
use crate::navigation::{advance, next_index, prev_index, retreat};

verus! {

/// A key press, as the screens understand it.
#[derive(Clone, Copy, Debug, PartialEq, Eq, Structural)]
pub enum Key {
    Char(char),
    Up,
    Down,
    Left,
    Right,
    Enter,
    Esc,
    Tab,
    Backspace,
    F(u8),
    Other,
}

/// Which screen the player is on.
#[derive(Clone, Copy, Debug, PartialEq, Eq, Structural)]
pub enum Phase {
    Menu,
    ChoosingCiv,
    ChoosingCompetition,
    ChoosingDifficulty,
    ReadyToStart,
    Playing,
}

/// The two answers of the start prompt.
#[derive(Clone, Copy, Debug, PartialEq, Eq, Structural)]
pub enum StartChoice {
    Start,
    Quit,
}

impl StartChoice {
    /// The other answer.
    pub open spec fn toggled(self) -> StartChoice {
        match self {
            StartChoice::Start => StartChoice::Quit,
            StartChoice::Quit => StartChoice::Start,
        }
    }

    /// The other answer: with two answers, moving either way toggles.
    pub fn next(self) -> (other: StartChoice)
        ensures
            other == self.toggled(),
            other != self,
    {
        match self {
            StartChoice::Start => StartChoice::Quit,
            StartChoice::Quit => StartChoice::Start,
        }
    }

    /// The answer's row in the prompt: start above quit.
    pub fn index(self) -> (row: usize)
        ensures
            row == (if self == StartChoice::Start {
                0usize
            } else {
                1usize
            }),
    {
        match self {
            StartChoice::Start => 0,
            StartChoice::Quit => 1,
        }
    }
}

/// Toggling the start prompt twice returns to the first answer.
pub proof fn lemma_start_choice_toggle_twice(choice: StartChoice)
    ensures
        choice.toggled().toggled() == choice,
{
}

/// The number of items on the menu bar: new game, load, quit.
pub const MENU_ITEMS: usize = 3;

/// What the player settled on for a new game.
#[derive(Clone, Copy, Debug, PartialEq, Eq, Structural)]
pub struct GameSetup {
    pub civilization: Civilization,
    pub competition: Competition,
    pub difficulty: Option<Difficulty>,
}

/// What a key press asks of the program.
#[derive(Clone, Copy, Debug, PartialEq, Eq, Structural)]
pub enum SetupOutcome {
    /// Keep running on the current screen.
    Stay,
    /// End the program.
    Exit,
    /// Create the world with these choices; play has begun.
    Begin(GameSetup),
    /// The key belongs to the game in progress.
    Play,
}

/// The menu cursor and the new-game choices made so far.
#[derive(Clone, Copy, Debug, PartialEq, Eq, Structural)]
pub struct Setup {
    pub phase: Phase,
    pub selected: usize,
    pub civ_index: usize,
    pub chosen_civ: Option<Civilization>,
    pub competition_index: usize,
    pub chosen_competition: Option<Competition>,
    pub difficulty_index: usize,
    pub chosen_difficulty: Option<Difficulty>,
    pub start_choice: StartChoice,
}

/// Whether `c` is the letter `lower` in either case.
pub open spec fn is_letter(c: char, lower: char, upper: char) -> bool {
    c == lower || c == upper
}

impl Setup {
    /// The program's first screen: the menu with its first item selected and
    /// nothing chosen.
    pub open spec fn initial() -> Setup {
        Setup {
            phase: Phase::Menu,
            selected: 0,
            civ_index: 0,
            chosen_civ: None,
            competition_index: 0,
            chosen_competition: None,
            difficulty_index: 0,
            chosen_difficulty: None,
            start_choice: StartChoice::Start,
        }
    }

    /// The cursors point at entries that exist, and each setup screen is only
    /// reached once the choices of the screens before it have been made.
    pub open spec fn wf(self) -> bool {
        &&& self.selected < MENU_ITEMS
        &&& self.civ_index < CIVILIZATION_COUNT
        &&& self.competition_index < COMPETITION_LEVELS
        &&& self.difficulty_index < DIFFICULTY_COUNT
        &&& (self.phase == Phase::ChoosingCompetition ==> self.chosen_civ is Some)
        &&& (self.phase == Phase::ChoosingDifficulty ==> self.chosen_civ is Some
            && self.chosen_competition is Some)
        &&& (self.phase == Phase::ReadyToStart ==> self.chosen_civ is Some
            && self.chosen_competition is Some && self.chosen_difficulty is Some)
    }

    /// The same screen with every new-game choice forgotten.
    pub open spec fn cleared(self) -> Setup {
        Setup {
            civ_index: 0,
            chosen_civ: None,
            competition_index: 0,
            chosen_competition: None,
            difficulty_index: 0,
            chosen_difficulty: None,
            start_choice: StartChoice::Start,
            ..self
        }
    }

    /// The effect of a key on the menu.
    pub open spec fn menu_step(self, key: Key) -> (Setup, SetupOutcome) {
        let stay = (self, SetupOutcome::Stay);
        let new_game = (Setup { phase: Phase::ChoosingCiv, ..self.cleared() }, SetupOutcome::Stay);
        match key {
            Key::Char(c) => if is_letter(c, 'q', 'Q') {
                (self, SetupOutcome::Exit)
            } else if is_letter(c, 'n', 'N') {
                new_game
            } else if is_letter(c, 'l', 'L') {
                (Setup { selected: 1, ..self }, SetupOutcome::Stay)
            } else {
                stay
            },
            Key::Right => (
                Setup {
                    selected: next_index(self.selected as int, MENU_ITEMS as int) as usize,
                    ..self
                },
                SetupOutcome::Stay,
            ),
            Key::Left => (
                Setup {
                    selected: prev_index(self.selected as int, MENU_ITEMS as int) as usize,
                    ..self
                },
                SetupOutcome::Stay,
            ),
            Key::Enter => if self.selected == 0 {
                new_game
            } else if self.selected == 2 {
                (self, SetupOutcome::Exit)
            } else {
                stay
            },
            Key::Esc => (self, SetupOutcome::Exit),
            _ => stay,
        }
    }

    /// The effect of a key on the civilization selector.
    pub open spec fn civ_step(self, key: Key) -> (Setup, SetupOutcome) {
        let n = CIVILIZATION_COUNT as int;
        match key {
            Key::Char(c) if is_letter(c, 'q', 'Q') => (Setup { phase: Phase::Menu, ..self }, SetupOutcome::Stay),
            Key::Up | Key::Char('k') => (
                Setup { civ_index: prev_index(self.civ_index as int, n) as usize, ..self },
                SetupOutcome::Stay,
            ),
            Key::Down | Key::Char('j') => (
                Setup { civ_index: next_index(self.civ_index as int, n) as usize, ..self },
                SetupOutcome::Stay,
            ),
            Key::Enter => (
                Setup {
                    chosen_civ: civilization_at(self.civ_index as int),
                    phase: Phase::ChoosingCompetition,
                    competition_index: 0,
                    ..self
                },
                SetupOutcome::Stay,
            ),
            Key::Esc => (Setup { phase: Phase::Menu, ..self }, SetupOutcome::Stay),
            _ => (self, SetupOutcome::Stay),
        }
    }

    /// The effect of a key on the competition selector.
    pub open spec fn competition_step(self, key: Key) -> (Setup, SetupOutcome) {
        let n = COMPETITION_LEVELS as int;
        match key {
            Key::Char(c) if is_letter(c, 'q', 'Q') => (Setup { phase: Phase::Menu, ..self }, SetupOutcome::Stay),
            Key::Up | Key::Char('k') => (
                Setup {
                    competition_index: prev_index(self.competition_index as int, n) as usize,
                    ..self
                },
                SetupOutcome::Stay,
            ),
            Key::Down | Key::Char('j') => (
                Setup {
                    competition_index: next_index(self.competition_index as int, n) as usize,
                    ..self
                },
                SetupOutcome::Stay,
            ),
            Key::Enter => (
                Setup {
                    chosen_competition: Some(
                        Competition { rivals: (self.competition_index + COMPETITION_MIN) as u8 },
                    ),
                    phase: Phase::ChoosingDifficulty,
                    difficulty_index: 0,
                    ..self
                },
                SetupOutcome::Stay,
            ),
            Key::Esc => (Setup { phase: Phase::ChoosingCiv, ..self }, SetupOutcome::Stay),
            _ => (self, SetupOutcome::Stay),
        }
    }

    /// The effect of a key on the difficulty selector.
    pub open spec fn difficulty_step(self, key: Key) -> (Setup, SetupOutcome) {
        let n = DIFFICULTY_COUNT as int;
        match key {
            Key::Char(c) if is_letter(c, 'q', 'Q') => (Setup { phase: Phase::Menu, ..self }, SetupOutcome::Stay),
            Key::Up | Key::Char('k') => (
                Setup { difficulty_index: prev_index(self.difficulty_index as int, n) as usize, ..self },
                SetupOutcome::Stay,
            ),
            Key::Down | Key::Char('j') => (
                Setup { difficulty_index: next_index(self.difficulty_index as int, n) as usize, ..self },
                SetupOutcome::Stay,
            ),
            Key::Enter => (
                Setup {
                    chosen_difficulty: difficulty_at(self.difficulty_index as int),
                    phase: Phase::ReadyToStart,
                    ..self
                },
                SetupOutcome::Stay,
            ),
            Key::Esc => (Setup { phase: Phase::ChoosingCompetition, ..self }, SetupOutcome::Stay),
            _ => (self, SetupOutcome::Stay),
        }
    }

    /// The choices a game begins with; an unchosen competition falls back to
    /// the fewest rivals.
    pub open spec fn game_setup(self) -> GameSetup {
        GameSetup {
            civilization: self.chosen_civ.unwrap(),
            competition: match self.chosen_competition {
                Some(c) => c,
                None => Competition { rivals: COMPETITION_MIN },
            },
            difficulty: self.chosen_difficulty,
        }
    }

    /// The game begins: play takes over the screen and the setup is cleared
    /// for the next new game.
    pub open spec fn begun(self) -> (Setup, SetupOutcome) {
        (
            Setup { phase: Phase::Playing, ..self.cleared() },
            SetupOutcome::Begin(self.game_setup()),
        )
    }

    /// The effect of a key on the start prompt.
    pub open spec fn start_step(self, key: Key) -> (Setup, SetupOutcome) {
        let toggle = (Setup { start_choice: self.start_choice.toggled(), ..self }, SetupOutcome::Stay);
        match key {
            Key::Char(c) => if is_letter(c, 's', 'S') {
                self.begun()
            } else if is_letter(c, 'q', 'Q') {
                (self, SetupOutcome::Exit)
            } else if is_letter(c, 'k', 'K') || is_letter(c, 'j', 'J') {
                toggle
            } else {
                (self, SetupOutcome::Stay)
            },
            Key::Up | Key::Down => toggle,
            Key::Enter => match self.start_choice {
                StartChoice::Start => self.begun(),
                StartChoice::Quit => (self, SetupOutcome::Exit),
            },
            Key::Esc => (Setup { phase: Phase::ChoosingDifficulty, ..self }, SetupOutcome::Stay),
            _ => (self, SetupOutcome::Stay),
        }
    }

    /// The effect of a key on whichever screen is showing.
    pub open spec fn step(self, key: Key) -> (Setup, SetupOutcome) {
        match self.phase {
            Phase::Menu => self.menu_step(key),
            Phase::ChoosingCiv => self.civ_step(key),
            Phase::ChoosingCompetition => self.competition_step(key),
            Phase::ChoosingDifficulty => self.difficulty_step(key),
            Phase::ReadyToStart => self.start_step(key),
            Phase::Playing => (self, SetupOutcome::Play),
        }
    }

    /// The program's first screen: the menu with its first item selected and
    /// nothing chosen.
    pub fn new() -> (setup: Setup)
        ensures
            setup == Setup::initial(),
            setup.wf(),
    {
        Setup {
            phase: Phase::Menu,
            selected: 0,
            civ_index: 0,
            chosen_civ: None,
            competition_index: 0,
            chosen_competition: None,
            difficulty_index: 0,
            chosen_difficulty: None,
            start_choice: StartChoice::Start,
        }
    }

    /// Forget every new-game choice.
    pub fn reset_setup(&mut self)
        ensures
            *final(self) == old(self).cleared(),
    {
        self.civ_index = 0;
        self.chosen_civ = None;
        self.competition_index = 0;
        self.chosen_competition = None;
        self.difficulty_index = 0;
        self.chosen_difficulty = None;
        self.start_choice = StartChoice::Start;
    }

    /// Begin choosing a new game from scratch.
    pub fn start_new_game(&mut self)
        ensures
            *final(self) == (Setup { phase: Phase::ChoosingCiv, ..old(self).cleared() }),
    {
        self.reset_setup();
        self.phase = Phase::ChoosingCiv;
    }

    fn handle_menu_key(&mut self, key: Key) -> (outcome: SetupOutcome)
        requires
            old(self).wf(),
        ensures
            (*final(self), outcome) == old(self).menu_step(key),
    {
        match key {
            Key::Char(c) => {
                if c == 'q' || c == 'Q' {
                    SetupOutcome::Exit
                } else if c == 'n' || c == 'N' {
                    self.start_new_game();
                    SetupOutcome::Stay
                } else if c == 'l' || c == 'L' {
                    self.selected = 1;
                    SetupOutcome::Stay
                } else {
                    SetupOutcome::Stay
                }
            },
            Key::Right => {
                self.selected = advance(self.selected, MENU_ITEMS);
                SetupOutcome::Stay
            },
            Key::Left => {
                self.selected = retreat(self.selected, MENU_ITEMS);
                SetupOutcome::Stay
            },
            Key::Enter => {
                if self.selected == 0 {
                    self.start_new_game();
                    SetupOutcome::Stay
                } else if self.selected == 2 {
                    SetupOutcome::Exit
                } else {
                    SetupOutcome::Stay
                }
            },
            Key::Esc => SetupOutcome::Exit,
            _ => SetupOutcome::Stay,
        }
    }

    fn handle_civ_key(&mut self, key: Key) -> (outcome: SetupOutcome)
        requires
            old(self).wf(),
        ensures
            (*final(self), outcome) == old(self).civ_step(key),
    {
        match key {
            Key::Char(c) if c == 'q' || c == 'Q' => {
                self.phase = Phase::Menu;
            },
            Key::Up | Key::Char('k') => {
                self.civ_index = retreat(self.civ_index, CIVILIZATION_COUNT);
            },
            Key::Down | Key::Char('j') => {
                self.civ_index = advance(self.civ_index, CIVILIZATION_COUNT);
            },
            Key::Enter => {
                self.chosen_civ = Civilization::from_index(self.civ_index);
                self.phase = Phase::ChoosingCompetition;
                self.competition_index = 0;
            },
            Key::Esc => {
                self.phase = Phase::Menu;
            },
            _ => {},
        }
        SetupOutcome::Stay
    }

    fn handle_competition_key(&mut self, key: Key) -> (outcome: SetupOutcome)
        requires
            old(self).wf(),
        ensures
            (*final(self), outcome) == old(self).competition_step(key),
    {
        match key {
            Key::Char(c) if c == 'q' || c == 'Q' => {
                self.phase = Phase::Menu;
            },
            Key::Up | Key::Char('k') => {
                self.competition_index = retreat(self.competition_index, COMPETITION_LEVELS);
            },
            Key::Down | Key::Char('j') => {
                self.competition_index = advance(self.competition_index, COMPETITION_LEVELS);
            },
            Key::Enter => {
                self.chosen_competition = Some(
                    Competition::new(self.competition_index as u8 + Competition::MIN),
                );
                self.phase = Phase::ChoosingDifficulty;
                self.difficulty_index = 0;
            },
            Key::Esc => {
                self.phase = Phase::ChoosingCiv;
            },
            _ => {},
        }
        SetupOutcome::Stay
    }

    fn handle_difficulty_key(&mut self, key: Key) -> (outcome: SetupOutcome)
        requires
            old(self).wf(),
        ensures
            (*final(self), outcome) == old(self).difficulty_step(key),
    {
        match key {
            Key::Char(c) if c == 'q' || c == 'Q' => {
                self.phase = Phase::Menu;
            },
            Key::Up | Key::Char('k') => {
                self.difficulty_index = retreat(self.difficulty_index, DIFFICULTY_COUNT);
            },
            Key::Down | Key::Char('j') => {
                self.difficulty_index = advance(self.difficulty_index, DIFFICULTY_COUNT);
            },
            Key::Enter => {
                self.chosen_difficulty = Difficulty::from_index(self.difficulty_index);
                self.phase = Phase::ReadyToStart;
            },
            Key::Esc => {
                self.phase = Phase::ChoosingCompetition;
            },
            _ => {},
        }
        SetupOutcome::Stay
    }

    /// Leave the setup for play: report the choices and clear them.
    fn start_game(&mut self) -> (outcome: SetupOutcome)
        requires
            old(self).wf(),
            old(self).phase == Phase::ReadyToStart,
        ensures
            (*final(self), outcome) == old(self).begun(),
    {
        let civilization = match self.chosen_civ {
            Some(civ) => civ,
            None => Civilization::American,
        };
        let competition = match self.chosen_competition {
            Some(c) => c,
            None => Competition::new(Competition::MIN),
        };
        let chosen = GameSetup { civilization, competition, difficulty: self.chosen_difficulty };
        self.phase = Phase::Playing;
        self.reset_setup();
        SetupOutcome::Begin(chosen)
    }

    fn handle_start_key(&mut self, key: Key) -> (outcome: SetupOutcome)
        requires
            old(self).wf(),
            old(self).phase == Phase::ReadyToStart,
        ensures
            (*final(self), outcome) == old(self).start_step(key),
    {
        match key {
            Key::Char(c) => {
                if c == 's' || c == 'S' {
                    self.start_game()
                } else if c == 'q' || c == 'Q' {
                    SetupOutcome::Exit
                } else if c == 'k' || c == 'K' || c == 'j' || c == 'J' {
                    self.start_choice = self.start_choice.next();
                    SetupOutcome::Stay
                } else {
                    SetupOutcome::Stay
                }
            },
            Key::Up | Key::Down => {
                self.start_choice = self.start_choice.next();
                SetupOutcome::Stay
            },
            Key::Enter => match self.start_choice {
                StartChoice::Start => self.start_game(),
                StartChoice::Quit => SetupOutcome::Exit,
            },
            Key::Esc => {
                self.phase = Phase::ChoosingDifficulty;
                SetupOutcome::Stay
            },
            _ => SetupOutcome::Stay,
        }
    }

    /// Act on a key press: the menu and the setup screens handle it here;
    /// during play it is handed back to the game.
    pub fn handle_key(&mut self, key: Key) -> (outcome: SetupOutcome)
        requires
            old(self).wf(),
        ensures
            (*final(self), outcome) == old(self).step(key),
            final(self).wf(),
    {
        proof {
            lemma_step_keeps_wf(*self, key);
        }
        match self.phase {
            Phase::Menu => self.handle_menu_key(key),
            Phase::ChoosingCiv => self.handle_civ_key(key),
            Phase::ChoosingCompetition => self.handle_competition_key(key),
            Phase::ChoosingDifficulty => self.handle_difficulty_key(key),
            Phase::ReadyToStart => self.handle_start_key(key),
            Phase::Playing => SetupOutcome::Play,
        }
    }

    /// Back to the menu from play.
    pub fn return_to_menu(&mut self)
        ensures
            *final(self) == (Setup { phase: Phase::Menu, ..*old(self) }),
    {
        self.phase = Phase::Menu;
    }
}

/// Every key keeps the cursors on real entries and never reaches a setup
/// screen whose earlier choices are missing; in particular the start prompt
/// always has a civilization, a competition level and a difficulty to show.
pub proof fn lemma_step_keeps_wf(s: Setup, key: Key)
    requires
        s.wf(),
    ensures
        s.step(key).0.wf(),
{
}

/// Escape on a setup screen goes back to the previous screen and keeps every
/// choice made so far.
pub proof fn lemma_escape_goes_back(s: Setup)
    requires
        s.wf(),
        s.phase == Phase::ChoosingCompetition || s.phase == Phase::ChoosingDifficulty || s.phase
            == Phase::ReadyToStart,
    ensures
        ({
            let (after, outcome) = s.step(Key::Esc);
            &&& outcome == SetupOutcome::Stay
            &&& after.chosen_civ == s.chosen_civ
            &&& after.chosen_competition == s.chosen_competition
            &&& after.chosen_difficulty == s.chosen_difficulty
            &&& after.phase == (if s.phase == Phase::ChoosingCompetition {
                Phase::ChoosingCiv
            } else if s.phase == Phase::ChoosingDifficulty {
                Phase::ChoosingCompetition
            } else {
                Phase::ChoosingDifficulty
            })
        }),
{
}

/// The setup after pressing Down `k` times.
pub open spec fn pressed_down(s: Setup, k: nat) -> Setup
    decreases k,
{
    if k == 0 {
        s
    } else {
        pressed_down(s, (k - 1) as nat).step(Key::Down).0
    }
}

/// On the civilization selector, Enter records the civilization under the
/// cursor and moves on to the competition selector; and from the top of the
/// list, pressing Down `k` times and then Enter records the `k`-th
/// civilization of the list (wrapping after the last).
pub proof fn lemma_enter_records_the_highlighted_civilization(s: Setup, k: nat)
    requires
        s.wf(),
        s.phase == Phase::ChoosingCiv,
    ensures
        s.step(Key::Enter).0.chosen_civ == civilization_at(s.civ_index as int),
        s.step(Key::Enter).0.chosen_civ is Some,
        s.step(Key::Enter).0.phase == Phase::ChoosingCompetition,
        pressed_down(s, k).step(Key::Enter).0.chosen_civ == civilization_at(
            (s.civ_index + k) % (CIVILIZATION_COUNT as int),
        ),
{
    lemma_down_moves_the_civilization_cursor(s, k);
}

/// Pressing Down `k` times on the civilization selector moves its cursor
/// `k` rows down, wrapping, and keeps the selector showing.
pub proof fn lemma_down_moves_the_civilization_cursor(s: Setup, k: nat)
    requires
        s.wf(),
        s.phase == Phase::ChoosingCiv,
    ensures
        pressed_down(s, k).wf(),
        pressed_down(s, k).phase == Phase::ChoosingCiv,
        pressed_down(s, k).civ_index == (s.civ_index + k) % (CIVILIZATION_COUNT as int),
    decreases k,
{
    if k == 0 {
        vstd::arithmetic::div_mod::lemma_small_mod(s.civ_index as nat, CIVILIZATION_COUNT as nat);
    } else {
        lemma_down_moves_the_civilization_cursor(s, (k - 1) as nat);
        let before = pressed_down(s, (k - 1) as nat);
        lemma_step_keeps_wf(before, Key::Down);
        vstd::arithmetic::div_mod::lemma_add_mod_noop(s.civ_index + k - 1, 1, CIVILIZATION_COUNT as int);
        vstd::arithmetic::div_mod::lemma_small_mod(1, CIVILIZATION_COUNT as nat);
        vstd::arithmetic::div_mod::lemma_mod_twice(s.civ_index + k - 1, CIVILIZATION_COUNT as int);
    }
}

/// A game begins only from the start prompt, with exactly the choices the
/// player made, and afterwards play is showing and the setup is cleared.
pub proof fn lemma_begin_uses_the_choices(s: Setup, key: Key)
    requires
        s.wf(),
        s.step(key).1 is Begin,
    ensures
        s.phase == Phase::ReadyToStart,
        s.step(key).1 == SetupOutcome::Begin(
            GameSetup {
                civilization: s.chosen_civ.unwrap(),
                competition: s.chosen_competition.unwrap(),
                difficulty: s.chosen_difficulty,
            },
        ),
        s.step(key).0.phase == Phase::Playing,
        s.step(key).0.chosen_civ is None,
        s.step(key).0.chosen_competition is None,
        s.step(key).0.chosen_difficulty is None,
{
}

/// The program is only asked to end from the menu or the start prompt.
pub proof fn lemma_exit_only_from_menu_or_prompt(s: Setup, key: Key)
    requires
        s.step(key).1 == SetupOutcome::Exit,
    ensures
        s.phase == Phase::Menu || s.phase == Phase::ReadyToStart,
{
}

/// Moving a selector down and back up returns to the same entry.
pub proof fn lemma_down_then_up_returns(s: Setup)
    requires
        s.wf(),
        s.phase == Phase::ChoosingCiv || s.phase == Phase::ChoosingCompetition || s.phase
            == Phase::ChoosingDifficulty,
    ensures
        s.step(Key::Down).0.step(Key::Up).0 == s,
{
    crate::navigation::lemma_retreat_undoes_advance(s.civ_index as int, CIVILIZATION_COUNT as int);
    crate::navigation::lemma_retreat_undoes_advance(
        s.competition_index as int,
        COMPETITION_LEVELS as int,
    );
    crate::navigation::lemma_retreat_undoes_advance(s.difficulty_index as int, DIFFICULTY_COUNT as int);
}

} // verus!
