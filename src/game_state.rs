use vstd::prelude::*;

verus! {

/// The screens of the game.
#[derive(Clone, Copy, Debug, PartialEq, Eq, Structural)]
pub enum GameState {
    /// The welcome screen.
    Welcome,
    /// Choosing a level.
    LevelSelect,
    /// In the maze.
    Playing,
    /// The screen shown on reaching the goal.
    Victory,
}

/// The gamepad buttons that the menus answer to; every other button is
/// `Other`.
#[derive(Clone, Copy, Debug, PartialEq, Eq, Structural)]
pub enum PadButton {
    South,
    East,
    North,
    Start,
    Select,
    DPadUp,
    DPadDown,
    DPadLeft,
    DPadRight,
    Other,
}

/// The keys that the menus answer to, each `true` where it was pressed this
/// frame.
#[derive(Clone, Copy, Debug, PartialEq, Eq, Structural)]
pub struct MenuKeys {
    pub enter: bool,
    pub space: bool,
    pub escape: bool,
    pub left: bool,
    pub right: bool,
    pub up: bool,
    pub down: bool,
    pub r: bool,
}

/// The highest level number; levels are numbered from 0.
pub const MAX_LEVEL: usize = 2;

/// The menus' state after a button press in `state` with `level` chosen:
/// the new state, the new level, and whether the menus read no more input
/// this frame.
pub open spec fn button_step(state: GameState, level: usize, b: PadButton) -> (
    GameState,
    usize,
    bool,
) {
    match state {
        GameState::Welcome => match b {
            PadButton::South | PadButton::Start => (GameState::LevelSelect, level, true),
            _ => (state, level, false),
        },
        GameState::LevelSelect => match b {
            PadButton::DPadLeft | PadButton::DPadUp => (
                state,
                if level > 0 {
                    (level - 1) as usize
                } else {
                    level
                },
                false,
            ),
            PadButton::DPadRight | PadButton::DPadDown => (
                state,
                if level < MAX_LEVEL {
                    (level + 1) as usize
                } else {
                    level
                },
                false,
            ),
            PadButton::South => (GameState::Playing, level, true),
            PadButton::East => (GameState::Welcome, level, true),
            _ => (state, level, false),
        },
        GameState::Victory => match b {
            PadButton::East | PadButton::Select => (GameState::Welcome, level, true),
            PadButton::South | PadButton::North => (GameState::Playing, level, true),
            _ => (state, level, false),
        },
        GameState::Playing => (state, level, false),
    }
}

/// One step down the level list, stopping at the first level.
pub open spec fn level_down(level: usize) -> usize {
    if level > 0 {
        (level - 1) as usize
    } else {
        level
    }
}

/// One step up the level list, stopping at the last level.
pub open spec fn level_up(level: usize) -> usize {
    if level < MAX_LEVEL {
        (level + 1) as usize
    } else {
        level
    }
}

/// The level chosen after the arrow keys of a frame: left, right, up and
/// down in that order, each one step.
pub open spec fn arrows_step(level: usize, k: MenuKeys) -> usize {
    let l1 = if k.left {
        level_down(level)
    } else {
        level
    };
    let l2 = if k.right {
        level_up(l1)
    } else {
        l1
    };
    let l3 = if k.up {
        level_down(l2)
    } else {
        l2
    };
    if k.down {
        level_up(l3)
    } else {
        l3
    }
}

/// The menus' state after the keys of a frame: the new state and level.
pub open spec fn keys_step(state: GameState, level: usize, k: MenuKeys) -> (GameState, usize) {
    match state {
        GameState::Welcome => if k.enter || k.space {
            (GameState::LevelSelect, level)
        } else {
            (state, level)
        },
        GameState::LevelSelect => {
            let s = if k.escape {
                GameState::Welcome
            } else if k.enter {
                GameState::Playing
            } else {
                state
            };
            (s, arrows_step(level, k))
        },
        GameState::Victory => if k.r {
            (GameState::Playing, level)
        } else if k.escape {
            (GameState::Welcome, level)
        } else {
            (state, level)
        },
        GameState::Playing => (state, level),
    }
}

/// The width and height of the maze of a level.
pub open spec fn maze_size(level: usize) -> (usize, usize) {
    if level == 0 {
        (4, 4)
    } else if level == 2 {
        (12, 12)
    } else {
        (8, 8)
    }
}

/// Name, description and difficulty of a level; any level past the last
/// reads as the middle one.
pub open spec fn level_info(level: usize) -> (Seq<char>, Seq<char>, Seq<char>) {
    if level == 0 {
        ("Centro Pokémon"@, "Un laberinto básico para entrenadores novatos"@, "⭐ FÁCIL"@)
    } else if level == 2 {
        ("Torre Victoria"@, "El desafío final para maestros Pokémon"@, "⭐⭐⭐ DIFÍCIL"@)
    } else {
        ("Cueva Oscura"@, "Laberinto medio con obstáculos adicionales"@, "⭐⭐ MEDIO"@)
    }
}

/// The menus: which screen is shown and which level is chosen.
pub struct GameStateManager {
    pub current_state: GameState,
    pub selected_level: usize,
    pub selected_menu_option: usize,
    pub menu_options: Vec<String>,
}

impl GameStateManager {
    /// The welcome screen, with the first level chosen.
    pub fn new() -> (m: GameStateManager)
        ensures
            m.current_state == GameState::Welcome,
            m.selected_level == 0,
            m.selected_menu_option == 0,
            m.menu_options@.len() == 3,
            m.menu_options@[0]@ == "Iniciar Aventura"@,
            m.menu_options@[1]@ == "Seleccionar Región"@,
            m.menu_options@[2]@ == "Salir"@,
    {
        let mut menu_options: Vec<String> = Vec::new();
        menu_options.push(String::from_str("Iniciar Aventura"));
        menu_options.push(String::from_str("Seleccionar Región"));
        menu_options.push(String::from_str("Salir"));
        GameStateManager {
            current_state: GameState::Welcome,
            selected_level: 0,
            selected_menu_option: 0,
            menu_options,
        }
    }

    /// The width and height of the maze of the chosen level.
    pub fn get_maze_size(&self) -> (r: (usize, usize))
        ensures
            r == maze_size(self.selected_level),
    {
        match self.selected_level {
            0 => (4, 4),
            1 => (8, 8),
            2 => (12, 12),
            _ => (8, 8),
        }
    }

    /// Name, description and difficulty of the chosen level.
    pub fn get_level_info(&self) -> (r: (&'static str, &'static str, &'static str))
        ensures
            (r.0@, r.1@, r.2@) == level_info(self.selected_level),
    {
        match self.selected_level {
            0 => ("Centro Pokémon", "Un laberinto básico para entrenadores novatos", "⭐ FÁCIL"),
            2 => ("Torre Victoria", "El desafío final para maestros Pokémon", "⭐⭐⭐ DIFÍCIL"),
            _ => ("Cueva Oscura", "Laberinto medio con obstáculos adicionales", "⭐⭐ MEDIO"),
        }
    }

    /// Whether the current screen reads menu input; in the maze it is read
    /// elsewhere.
    pub fn handles_menu_input(&self) -> (b: bool)
        ensures
            b == (self.current_state != GameState::Playing),
    {
        self.current_state != GameState::Playing
    }

    /// Answers a gamepad button press; `true` where the menus read no more
    /// input this frame.
    pub fn handle_button(&mut self, button: PadButton) -> (done: bool)
        ensures
            (final(self).current_state, final(self).selected_level, done) == button_step(
                old(self).current_state,
                old(self).selected_level,
                button,
            ),
            final(self).selected_menu_option == old(self).selected_menu_option,
            final(self).menu_options == old(self).menu_options,
    {
        match self.current_state {
            GameState::Welcome => match button {
                PadButton::South | PadButton::Start => {
                    self.current_state = GameState::LevelSelect;
                    true
                },
                _ => false,
            },
            GameState::LevelSelect => match button {
                PadButton::DPadLeft | PadButton::DPadUp => {
                    if self.selected_level > 0 {
                        self.selected_level -= 1;
                    }
                    false
                },
                PadButton::DPadRight | PadButton::DPadDown => {
                    if self.selected_level < MAX_LEVEL {
                        self.selected_level += 1;
                    }
                    false
                },
                PadButton::South => {
                    self.current_state = GameState::Playing;
                    true
                },
                PadButton::East => {
                    self.current_state = GameState::Welcome;
                    true
                },
                _ => false,
            },
            GameState::Victory => match button {
                PadButton::East | PadButton::Select => {
                    self.current_state = GameState::Welcome;
                    true
                },
                PadButton::South | PadButton::North => {
                    self.current_state = GameState::Playing;
                    true
                },
                _ => false,
            },
            GameState::Playing => false,
        }
    }

    /// Answers the keys pressed this frame.
    pub fn handle_keys(&mut self, keys: MenuKeys)
        ensures
            (final(self).current_state, final(self).selected_level) == keys_step(
                old(self).current_state,
                old(self).selected_level,
                keys,
            ),
            final(self).selected_menu_option == old(self).selected_menu_option,
            final(self).menu_options == old(self).menu_options,
    {
        match self.current_state {
            GameState::Welcome => {
                if keys.enter || keys.space {
                    self.current_state = GameState::LevelSelect;
                }
            },
            GameState::LevelSelect => {
                if keys.left && self.selected_level > 0 {
                    self.selected_level -= 1;
                }
                if keys.right && self.selected_level < MAX_LEVEL {
                    self.selected_level += 1;
                }
                if keys.up && self.selected_level > 0 {
                    self.selected_level -= 1;
                }
                if keys.down && self.selected_level < MAX_LEVEL {
                    self.selected_level += 1;
                }
                if keys.enter {
                    self.current_state = GameState::Playing;
                }
                if keys.escape {
                    self.current_state = GameState::Welcome;
                }
            },
            GameState::Victory => {
                if keys.escape {
                    self.current_state = GameState::Welcome;
                }
                if keys.r {
                    self.current_state = GameState::Playing;
                }
            },
            GameState::Playing => {},
        }
    }
}

} // verus!
