//! Game logic of a first-person raycasting maze game: the maze grid, the
//! pixel framebuffer, the integer parts of the 2D and 3D renderers, the menu
//! state machine and the music playlist.

pub mod color;
pub mod framebuffer;
pub mod maze;
pub mod render;
pub mod raycast;
pub mod game_state;
pub mod playlist;
pub mod textures;
pub mod sprites;
pub mod session;
