//! The mode selector: which screen is up, the sessions it owns, and the
//! menu's one-time welcome fade.
use crate::advanced;
use crate::advanced::AdvancedApp;
use crate::classic;
use crate::classic::ClassicApp;
use crate::timing::{since, since_spec, MAX_CLOCK_MS};
use crate::Signal;
use vstd::prelude::*;

verus! {

/// How long the menu's welcome lasts: one second fading in, three shown,
/// one fading out.
pub const WELCOME_MS: u64 = 5000;

#[derive(Clone, Copy, Debug, PartialEq, Eq, Structural)]
pub enum Mode {
    Menu,
    Classic,
    Advanced,
    /// A placeholder screen for a mode that is not there yet.
    Wip,
}

/// A button of the menu.
#[derive(Clone, Copy, Debug, PartialEq, Eq, Structural)]
pub enum MenuChoice {
    Classic,
    Advanced,
    WipBonus,
}

/// What the menu shows.
#[derive(Clone, Copy, Debug, PartialEq, Eq, Structural)]
pub enum MenuScreen {
    /// The welcome line, with its opacity from 0 to 255.
    Welcome(u8),
    /// The mode buttons.
    Choices,
}

/// The welcome line's opacity `elapsed` ms into the welcome.
pub open spec fn welcome_alpha(elapsed: int) -> int {
    if elapsed < 1000 {
        elapsed * 255 / 1000
    } else if elapsed < 4000 {
        255
    } else {
        (5000 - elapsed) * 255 / 1000
    }
}

/// What the menu shows `elapsed` ms after it was first entered.
pub open spec fn menu_screen_spec(elapsed: int) -> MenuScreen {
    if elapsed < WELCOME_MS {
        MenuScreen::Welcome(welcome_alpha(elapsed) as u8)
    } else {
        MenuScreen::Choices
    }
}

/// What the menu shows `elapsed` ms after it was first entered.
pub fn menu_screen(elapsed: u64) -> (r: MenuScreen)
    ensures
        r == menu_screen_spec(elapsed as int),
        r matches MenuScreen::Welcome(a) ==> 0 <= welcome_alpha(elapsed as int) <= 255,
{
    if elapsed < WELCOME_MS {
        let alpha: u64 = if elapsed < 1000 {
            elapsed * 255 / 1000
        } else if elapsed < 4000 {
            255
        } else {
            (5000 - elapsed) * 255 / 1000
        };
        MenuScreen::Welcome(alpha as u8)
    } else {
        MenuScreen::Choices
    }
}

pub struct PoligonApp {
    pub mode: Mode,
    pub classic_state: Option<ClassicApp>,
    pub advanced_state: Option<AdvancedApp>,
    /// When the menu was first shown; set once, on first entry.
    pub menu_intro_start: Option<u64>,
}

impl Default for PoligonApp {
    fn default() -> (r: Self)
        ensures
            r.mode == Mode::Menu,
            r.classic_state.is_none(),
            r.advanced_state.is_none(),
            r.menu_intro_start.is_none(),
    {
        PoligonApp { mode: Mode::Menu, classic_state: None, advanced_state: None, menu_intro_start: None }
    }
}

impl PoligonApp {
    /// A menu frame at `now`: the first one fixes the welcome's start.
    pub fn menu_frame(&mut self, now: u64) -> (r: MenuScreen)
        ensures
            final(self).menu_intro_start == Some(
                match old(self).menu_intro_start {
                    Some(t) => t,
                    None => now,
                },
            ),
            r == menu_screen_spec(since_spec(now, final(self).menu_intro_start.unwrap())),
            final(self).mode == old(self).mode,
            final(self).classic_state == old(self).classic_state,
            final(self).advanced_state == old(self).advanced_state,
    {
        let start = match self.menu_intro_start {
            Some(t) => t,
            None => now,
        };
        self.menu_intro_start = Some(start);
        menu_screen(since(now, start))
    }

    /// Follows a menu button pressed at `now`: a game mode starts a fresh
    /// session seeded with `seed`. Outside the menu nothing changes.
    pub fn select_mode(&mut self, choice: MenuChoice, now: u64, seed: u64)
        requires
            now <= MAX_CLOCK_MS,
        ensures
            old(self).mode != Mode::Menu ==> final(self).mode == old(self).mode
                && final(self).classic_state == old(self).classic_state
                && final(self).advanced_state == old(self).advanced_state,
            old(self).mode == Mode::Menu ==> final(self).mode == match choice {
                MenuChoice::Classic => Mode::Classic,
                MenuChoice::Advanced => Mode::Advanced,
                MenuChoice::WipBonus => Mode::Wip,
            },
            old(self).mode == Mode::Menu && choice == MenuChoice::Classic ==> {
                &&& final(self).classic_state matches Some(c) && classic::fresh_session(c, now)
                &&& final(self).advanced_state == old(self).advanced_state
            },
            old(self).mode == Mode::Menu && choice == MenuChoice::Advanced ==> {
                &&& final(self).advanced_state matches Some(a) && advanced::fresh_session(a, now)
                &&& final(self).classic_state == old(self).classic_state
            },
            old(self).mode == Mode::Menu && choice == MenuChoice::WipBonus ==> {
                &&& final(self).classic_state == old(self).classic_state
                &&& final(self).advanced_state == old(self).advanced_state
            },
            final(self).menu_intro_start == old(self).menu_intro_start,
    {
        if self.mode != Mode::Menu {
            return;
        }
        match choice {
            MenuChoice::Classic => {
                self.mode = Mode::Classic;
                self.classic_state = Some(ClassicApp::new(now, seed));
            },
            MenuChoice::Advanced => {
                self.mode = Mode::Advanced;
                self.advanced_state = Some(AdvancedApp::new(now, seed));
            },
            MenuChoice::WipBonus => {
                self.mode = Mode::Wip;
            },
        }
    }

    /// Whether the session of the current mode has a finished round.
    pub open spec fn round_over(&self) -> bool {
        match self.mode {
            Mode::Classic => self.classic_state matches Some(c) && !c.show_intro && c.game_over,
            Mode::Advanced => self.advanced_state matches Some(a) && !a.show_intro && a.game_over,
            _ => false,
        }
    }

    /// Follows a button of the game-over screen pressed at `now`: "menu"
    /// drops the session and goes back to the menu, "restart" puts a fresh
    /// session seeded with `seed` in its place. Only a finished round takes
    /// either; otherwise nothing changes.
    pub fn apply_signal(&mut self, signal: Signal, now: u64, seed: u64)
        requires
            now <= MAX_CLOCK_MS,
        ensures
            !old(self).round_over() ==> final(self).mode == old(self).mode
                && final(self).classic_state == old(self).classic_state
                && final(self).advanced_state == old(self).advanced_state,
            old(self).round_over() && signal == Signal::Menu ==> {
                &&& final(self).mode == Mode::Menu
                &&& old(self).mode == Mode::Classic ==> final(self).classic_state.is_none()
                    && final(self).advanced_state == old(self).advanced_state
                &&& old(self).mode == Mode::Advanced ==> final(self).advanced_state.is_none()
                    && final(self).classic_state == old(self).classic_state
            },
            old(self).round_over() && signal == Signal::Restart ==> {
                &&& final(self).mode == old(self).mode
                &&& old(self).mode == Mode::Classic ==> {
                    &&& final(self).classic_state matches Some(c) && classic::fresh_session(c, now)
                    &&& final(self).advanced_state == old(self).advanced_state
                }
                &&& old(self).mode == Mode::Advanced ==> {
                    &&& final(self).advanced_state matches Some(a) && advanced::fresh_session(a, now)
                    &&& final(self).classic_state == old(self).classic_state
                }
            },
            final(self).menu_intro_start == old(self).menu_intro_start,
    {
        match self.mode {
            Mode::Classic => {
                let over = match &self.classic_state {
                    Some(c) => !c.show_intro && c.game_over,
                    None => false,
                };
                if over {
                    match signal {
                        Signal::Menu => {
                            self.mode = Mode::Menu;
                            self.classic_state = None;
                        },
                        Signal::Restart => {
                            self.classic_state = Some(ClassicApp::new(now, seed));
                        },
                    }
                }
            },
            Mode::Advanced => {
                let over = match &self.advanced_state {
                    Some(a) => !a.show_intro && a.game_over,
                    None => false,
                };
                if over {
                    match signal {
                        Signal::Menu => {
                            self.mode = Mode::Menu;
                            self.advanced_state = None;
                        },
                        Signal::Restart => {
                            self.advanced_state = Some(AdvancedApp::new(now, seed));
                        },
                    }
                }
            },
            _ => {},
        }
    }

    /// Leaves the placeholder screen for the menu.
    pub fn leave_wip(&mut self)
        ensures
            old(self).mode == Mode::Wip ==> final(self).mode == Mode::Menu,
            old(self).mode != Mode::Wip ==> final(self).mode == old(self).mode,
            final(self).classic_state == old(self).classic_state,
            final(self).advanced_state == old(self).advanced_state,
            final(self).menu_intro_start == old(self).menu_intro_start,
    {
        if self.mode == Mode::Wip {
            self.mode = Mode::Menu;
        }
    }
}

} // verus!
