use vstd::prelude::*;

use crate::color::{Color, Palette};
use crate::maze::is_wall_char;

verus! {

/// The cell of grid `g` at column `x`, row `y`: `None` outside the grid,
/// whose width is that of its first row.
pub open spec fn grid_cell(g: Seq<Seq<char>>, x: int, y: int) -> Option<char> {
    if 0 <= y < g.len() && 0 <= x < g[0].len() && x < g[y].len() {
        Some(g[y][x])
    } else {
        None
    }
}

/// The grid of a maze given as rows of cells.
pub open spec fn rows_grid(maze: Seq<Vec<char>>) -> Seq<Seq<char>> {
    maze.map_values(|row: Vec<char>| row@)
}

/// The cell at column `x`, row `y`, or `None` outside the grid.
pub fn cell_at(maze: &Vec<Vec<char>>, x: usize, y: usize) -> (r: Option<char>)
    ensures
        r == grid_cell(rows_grid(maze@), x as int, y as int),
{
    if y < maze.len() && x < maze[0].len() && x < maze[y].len() {
        Some(maze[y][x])
    } else {
        None
    }
}

/// What a ray of the 3D view, or the player, finds in a cell.
#[derive(Clone, Copy, Debug, PartialEq, Eq, Structural)]
pub enum Probe {
    /// The cell lies outside the grid.
    Outside,
    /// The cell is a wall of this kind.
    Wall(char),
    /// The cell can be passed: floor, the goal or a marker.
    Open,
}

pub open spec fn probe_spec(g: Seq<Seq<char>>, x: int, y: int) -> Probe {
    match grid_cell(g, x, y) {
        None => Probe::Outside,
        Some(c) => if is_wall_char(c) {
            Probe::Wall(c)
        } else {
            Probe::Open
        },
    }
}

/// What cell `(x, y)` holds for a ray or the player.
pub fn probe_cell(maze: &Vec<Vec<char>>, x: usize, y: usize) -> (r: Probe)
    ensures
        r == probe_spec(rows_grid(maze@), x as int, y as int),
{
    match cell_at(maze, x, y) {
        None => Probe::Outside,
        Some(c) => if c == '+' || c == '-' || c == '|' {
            Probe::Wall(c)
        } else {
            Probe::Open
        },
    }
}

/// What a ray of the fine-stepped caster meets in cell `(x, y)`: `Some` of
/// the cell it stops at, which is any cell but open floor (`'#'` outside the
/// grid), `None` where it passes on.
pub open spec fn solid_hit_spec(g: Seq<Seq<char>>, x: int, y: int) -> Option<char> {
    match grid_cell(g, x, y) {
        None => Some('#'),
        Some(c) => if c == ' ' {
            None
        } else {
            Some(c)
        },
    }
}

pub fn solid_hit(maze: &Vec<Vec<char>>, x: usize, y: usize) -> (r: Option<char>)
    ensures
        r == solid_hit_spec(rows_grid(maze@), x as int, y as int),
{
    match cell_at(maze, x, y) {
        None => Some('#'),
        Some(c) => if c == ' ' {
            None
        } else {
            Some(c)
        },
    }
}

/// Whether the player may stand in cell `(cell_x, cell_y)`: inside the grid
/// and not a wall; the goal, a start marker and any other cell are floor.
pub fn is_position_valid(maze: &Vec<Vec<char>>, cell_x: usize, cell_y: usize) -> (b: bool)
    ensures
        b == (probe_spec(rows_grid(maze@), cell_x as int, cell_y as int) == Probe::Open),
{
    match probe_cell(maze, cell_x, cell_y) {
        Probe::Open => true,
        _ => false,
    }
}

/// Whether cell `(cell_x, cell_y)` is the goal.
pub fn is_goal_cell(maze: &Vec<Vec<char>>, cell_x: usize, cell_y: usize) -> (b: bool)
    ensures
        b == (grid_cell(rows_grid(maze@), cell_x as int, cell_y as int) == Some('g')),
{
    match cell_at(maze, cell_x, cell_y) {
        Some(c) => c == 'g',
        None => false,
    }
}

/// The colour of a wall in the 3D view, before shading, by the cell that
/// the ray hit.
pub open spec fn impact_color_spec(impact: char) -> Color {
    if impact == '+' {
        Palette::Brown.spec_color()
    } else if impact == '-' {
        Palette::Gray.spec_color()
    } else if impact == '|' {
        Palette::DarkGray.spec_color()
    } else {
        Palette::White.spec_color()
    }
}

pub fn impact_color(impact: char) -> (c: Color)
    ensures
        c == impact_color_spec(impact),
{
    match impact {
        '+' => Palette::Brown.color(),
        '-' => Palette::Gray.color(),
        '|' => Palette::DarkGray.color(),
        _ => Palette::White.color(),
    }
}

/// The colour of a cell on the corner minimap: walls brown, the goal gold, a
/// start marker lime, other cells a translucent green; open floor is not
/// drawn.
pub open spec fn minimap_color_spec(cell: char) -> Option<Color> {
    if cell == ' ' {
        None
    } else if is_wall_char(cell) {
        Some(Palette::Brown.spec_color())
    } else if cell == 'g' {
        Some(Palette::Gold.spec_color())
    } else if cell == 's' {
        Some(Palette::Lime.spec_color())
    } else {
        Some(Color { r: 34, g: 139, b: 34, a: 100 })
    }
}

pub fn minimap_color(cell: char) -> (c: Option<Color>)
    ensures
        c == minimap_color_spec(cell),
{
    if cell == ' ' {
        return None;
    }
    Some(
        match cell {
            '+' | '-' | '|' => Palette::Brown.color(),
            'g' => Palette::Gold.color(),
            's' => Palette::Lime.color(),
            _ => Color::new(34, 139, 34, 100),
        },
    )
}

/// The colour of a cell on the overlay minimap: walls brown, the goal gold,
/// a start marker lime, anything else light grey.
pub open spec fn overlay_color_spec(cell: char) -> Color {
    if is_wall_char(cell) {
        Palette::Brown.spec_color()
    } else if cell == 'g' {
        Palette::Gold.spec_color()
    } else if cell == 's' {
        Palette::Lime.spec_color()
    } else {
        Color { r: 200, g: 200, b: 200, a: 255 }
    }
}

pub fn overlay_color(cell: char) -> (c: Color)
    ensures
        c == overlay_color_spec(cell),
{
    match cell {
        '+' | '-' | '|' => Palette::Brown.color(),
        'g' => Palette::Gold.color(),
        's' => Palette::Lime.color(),
        _ => Color::new(200, 200, 200, 255),
    }
}

} // verus!
