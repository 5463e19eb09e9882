use vstd::prelude::*;

use crate::game_state::{GameState, GameStateManager};
use crate::raycast::{grid_cell, is_goal_cell, rows_grid};

verus! {

/// Frames in the maze before reaching the goal counts, so that a start on
/// the goal does not win at once.
pub const VICTORY_DELAY_FRAMES: u32 = 60;

/// What the game loop keeps between frames.
pub struct Session {
    /// Frames spent in the maze since entering it.
    pub frames_since_playing: u32,
    /// The screen of the previous frame.
    pub previous_state: GameState,
    /// Whether the maze is shown in 3D rather than from above.
    pub mode_3d: bool,
    /// Whether the mouse turns the camera.
    pub mouse_enabled: bool,
}

impl Session {
    /// The first frame: on the welcome screen, 3D view, mouse on.
    pub fn new() -> (s: Session)
        ensures
            s.frames_since_playing == 0,
            s.previous_state == GameState::Welcome,
            s.mode_3d,
            s.mouse_enabled,
    {
        Session {
            frames_since_playing: 0,
            previous_state: GameState::Welcome,
            mode_3d: true,
            mouse_enabled: true,
        }
    }

    /// Notes the screen after the menus read their input; `true` where the
    /// victory screen was just left, so the player goes back to the start.
    pub fn note_state(&mut self, current: GameState) -> (reset: bool)
        ensures
            reset == (old(self).previous_state == GameState::Victory && current
                != GameState::Victory),
            final(self).previous_state == current,
            final(self).frames_since_playing == if reset {
                0
            } else {
                old(self).frames_since_playing
            },
            final(self).mode_3d == old(self).mode_3d,
            final(self).mouse_enabled == old(self).mouse_enabled,
    {
        let reset = self.previous_state == GameState::Victory && current != GameState::Victory;
        if reset {
            self.frames_since_playing = 0;
        }
        self.previous_state = current;
        reset
    }

    /// Counts a frame in the maze, and moves to the victory screen where the
    /// player stands on the goal, cell `(cell_x, cell_y)`, after more than
    /// `VICTORY_DELAY_FRAMES` such frames; off the maze the count restarts.
    /// `true` where the goal was reached now.
    pub fn check_victory(
        &mut self,
        menus: &mut GameStateManager,
        maze: &Vec<Vec<char>>,
        cell_x: usize,
        cell_y: usize,
    ) -> (won: bool)
        ensures
            old(menus).current_state == GameState::Playing ==> final(self).frames_since_playing == if old(self).frames_since_playing == u32::MAX {
                u32::MAX as int
            } else {
                old(self).frames_since_playing + 1
            },
            old(menus).current_state != GameState::Playing ==> final(self).frames_since_playing == 0,
            won == (old(menus).current_state == GameState::Playing && final(self).frames_since_playing
                > VICTORY_DELAY_FRAMES && grid_cell(rows_grid(maze@), cell_x as int, cell_y as int)
                == Some('g')),
            final(menus).current_state == if won {
                GameState::Victory
            } else {
                old(menus).current_state
            },
            final(menus).selected_level == old(menus).selected_level,
            final(menus).selected_menu_option == old(menus).selected_menu_option,
            final(menus).menu_options == old(menus).menu_options,
            final(self).previous_state == old(self).previous_state,
            final(self).mode_3d == old(self).mode_3d,
            final(self).mouse_enabled == old(self).mouse_enabled,
    {
        if menus.current_state == GameState::Playing {
            self.frames_since_playing = self.frames_since_playing.saturating_add(1);
            if self.frames_since_playing > VICTORY_DELAY_FRAMES && is_goal_cell(maze, cell_x, cell_y) {
                menus.current_state = GameState::Victory;
                return true;
            }
        } else {
            self.frames_since_playing = 0;
        }
        false
    }

    /// Answers the keys of a frame in the maze: `m` switches between the 3D
    /// and the top-down view, `c` turns mouse control on or off, escape goes
    /// back to the welcome screen.
    pub fn handle_play_keys(&mut self, menus: &mut GameStateManager, m: bool, c: bool, escape: bool)
        ensures
            final(self).mode_3d == (old(self).mode_3d != m),
            final(self).mouse_enabled == (old(self).mouse_enabled != c),
            final(self).frames_since_playing == old(self).frames_since_playing,
            final(self).previous_state == old(self).previous_state,
            final(menus).current_state == if escape {
                GameState::Welcome
            } else {
                old(menus).current_state
            },
            final(menus).selected_level == old(menus).selected_level,
            final(menus).selected_menu_option == old(menus).selected_menu_option,
            final(menus).menu_options == old(menus).menu_options,
    {
        if m {
            self.mode_3d = !self.mode_3d;
        }
        if c {
            self.mouse_enabled = !self.mouse_enabled;
        }
        if escape {
            menus.current_state = GameState::Welcome;
        }
    }
}

} // verus!
