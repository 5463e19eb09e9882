use vstd::prelude::*;

use crate::color::{Color, Palette};
use crate::framebuffer::Framebuffer;
use vstd::arithmetic::div_mod::{
    lemma_fundamental_div_mod, lemma_fundamental_div_mod_converse, lemma_mod_pos_bound,
};

verus! {

/// Side of a maze cell in the top-down view, in pixels.
pub const MAP_BLOCK_SIZE: usize = 32;

/// Half the side of the square that marks the player in the top-down view.
pub const PLAYER_MARKER_RADIUS: u32 = 4;

/// The colour of a cell in the top-down view: walls by kind, the goal gold,
/// a start marker lime, anything else light grey.
pub open spec fn cell_color(cell: char) -> Color {
    if cell == '+' {
        Palette::Brown.spec_color()
    } else if cell == '-' {
        Palette::Gray.spec_color()
    } else if cell == '|' {
        Palette::DarkGray.spec_color()
    } else if cell == 'g' {
        Palette::Gold.spec_color()
    } else if cell == 's' {
        Palette::Lime.spec_color()
    } else {
        Color { r: 200, g: 200, b: 200, a: 255 }
    }
}

pub fn cell_to_color(cell: char) -> (c: Color)
    ensures
        c == cell_color(cell),
{
    match cell {
        '+' => Palette::Brown.color(),
        '-' => Palette::Gray.color(),
        '|' => Palette::DarkGray.color(),
        'g' => Palette::Gold.color(),
        's' => Palette::Lime.color(),
        _ => Color::new(200, 200, 200, 255),
    }
}

/// The sky of the 3D view: three shades of blue in bands of 20 by 15 pixels.
pub open spec fn sky_color(x: u32, y: u32) -> Color {
    let pattern = (x / 20 + y / 15) % 3;
    if pattern == 0 {
        Color { r: 135, g: 206, b: 250, a: 255 }
    } else if pattern == 1 {
        Color { r: 176, g: 224, b: 230, a: 255 }
    } else {
        Color { r: 173, g: 216, b: 230, a: 255 }
    }
}

pub fn get_pokemon_sky_color(x: u32, y: u32) -> (c: Color)
    ensures
        c == sky_color(x, y),
{
    let pattern = (x / 20 + y / 15) % 3;
    match pattern {
        0 => Color::new(135, 206, 250, 255),
        1 => Color::new(176, 224, 230, 255),
        _ => Color::new(173, 216, 230, 255),
    }
}

/// The floor of the 3D view: four shades of green in bands of 15 by 20
/// pixels.
pub open spec fn floor_color(x: u32, y: u32) -> Color {
    let pattern = (x / 15 + y / 20) % 4;
    if pattern == 0 {
        Color { r: 34, g: 139, b: 34, a: 255 }
    } else if pattern == 1 {
        Color { r: 50, g: 205, b: 50, a: 255 }
    } else if pattern == 2 {
        Color { r: 46, g: 125, b: 50, a: 255 }
    } else {
        Color { r: 76, g: 175, b: 80, a: 255 }
    }
}

pub fn get_pokemon_floor_color(x: u32, y: u32) -> (c: Color)
    ensures
        c == floor_color(x, y),
{
    let pattern = (x / 15 + y / 20) % 4;
    match pattern {
        0 => Color::new(34, 139, 34, 255),
        1 => Color::new(50, 205, 50, 255),
        2 => Color::new(46, 125, 50, 255),
        _ => Color::new(76, 175, 80, 255),
    }
}

/// How a run of pixels is coloured.
#[derive(Clone, Copy, Debug, PartialEq, Eq, Structural)]
pub enum Fill {
    Solid(Color),
    /// The banded sky of `sky_color`.
    Sky,
    /// The banded floor of `floor_color`.
    Floor,
}

pub open spec fn fill_color(fill: Fill, x: int, y: int) -> Color {
    match fill {
        Fill::Solid(c) => c,
        Fill::Sky => sky_color(x as u32, y as u32),
        Fill::Floor => floor_color(x as u32, y as u32),
    }
}

fn fill_pixel(fill: Fill, x: u32, y: u32) -> (c: Color)
    ensures
        c == fill_color(fill, x as int, y as int),
{
    match fill {
        Fill::Solid(c) => c,
        Fill::Sky => get_pokemon_sky_color(x, y),
        Fill::Floor => get_pokemon_floor_color(x, y),
    }
}

/// Paints the pixels of column `x` from row `y0` up to (not including) row
/// `y1` with `fill`, as far as they lie in the buffer.
fn paint_span(fb: &mut Framebuffer, x: u32, y0: usize, y1: usize, fill: Fill)
    ensures
        final(fb)@.repaints(
            old(fb)@,
            |px: int, py: int| px == x && y0 <= py < y1,
            |px: int, py: int| fill_color(fill, px, py),
        ),
        final(fb)@.current == old(fb)@.current,
{
    let height = fb.height();
    let end: usize = if y1 < height as usize {
        y1
    } else {
        height as usize
    };
    let ghost start = fb@;
    let mut y: usize = y0;
    while y < end
        invariant
            y0 <= y,
            y == y0 || y <= end,
            end <= height,
            height == start.height,
            start.wf(),
            fb@.current == start.current,
            fb@.repaints(
                start,
                |px: int, py: int| px == x && y0 <= py < y,
                |px: int, py: int| fill_color(fill, px, py),
            ),
        decreases end - y,
    {
        let c = fill_pixel(fill, x, y as u32);
        proof {
            fb@.lemma_plot(x as int, y as int, c);
        }
        fb.set_pixel_with_color(x, y as u32, c);
        y += 1;
    }
    assert forall|px: int, py: int| fb@.in_bounds(px, py) implies #[trigger] fb@.at(px, py) == if px
        == x && y0 <= py < y1 {
        fill_color(fill, px, py)
    } else {
        start.at(px, py)
    } by {
        assert((y0 <= py < y) == (y0 <= py < y1));
        assert(fb@.at(px, py) == if px == x && y0 <= py < y {
            fill_color(fill, px, py)
        } else {
            start.at(px, py)
        });
    }
}

/// The sky of a 3D column: banded where the sky has a texture, else plain
/// sky blue.
pub open spec fn sky_fill(textured: bool) -> Fill {
    if textured {
        Fill::Sky
    } else {
        Fill::Solid(Color { r: 135, g: 206, b: 235, a: 255 })
    }
}

/// The floor of a 3D column: banded where the floor has a texture, else
/// plain grass green.
pub open spec fn floor_fill(textured: bool) -> Fill {
    if textured {
        Fill::Floor
    } else {
        Fill::Solid(Color { r: 34, g: 139, b: 34, a: 255 })
    }
}

/// The colour of row `y` of a 3D column whose wall runs from `top` to
/// `bottom`: floor from `bottom` down, wall above that down from `top`, sky
/// above the wall.
pub open spec fn column_color(
    top: int,
    bottom: int,
    wall: Color,
    sky: Fill,
    floor: Fill,
    x: int,
    y: int,
) -> Color {
    if y >= bottom {
        fill_color(floor, x, y)
    } else if y >= top {
        wall
    } else {
        fill_color(sky, x, y)
    }
}

/// The colour that drawing a 3D column leaves current: that of the last
/// floor pixel where the floor shows, else that of the last sky pixel where
/// the sky shows, else the wall colour.
pub open spec fn column_last_color(
    top: int,
    bottom: int,
    height: int,
    wall: Color,
    sky: Fill,
    floor: Fill,
    x: int,
) -> Color {
    let sky_end = if top < height {
        top
    } else {
        height
    };
    if bottom < height {
        fill_color(floor, x, height - 1)
    } else if sky_end > 0 {
        fill_color(sky, x, sky_end - 1)
    } else {
        wall
    }
}

/// Draws column `x` of the 3D view: the wall slice from `stake_top` to
/// `stake_bottom` in `wall_color`, the sky above it and the floor below it.
pub fn render_column(
    fb: &mut Framebuffer,
    x: u32,
    stake_top: usize,
    stake_bottom: usize,
    wall_color: Color,
    sky_textured: bool,
    floor_textured: bool,
)
    ensures
        final(fb)@.repaints(
            old(fb)@,
            |px: int, py: int| px == x,
            |px: int, py: int|
                column_color(
                    stake_top as int,
                    stake_bottom as int,
                    wall_color,
                    sky_fill(sky_textured),
                    floor_fill(floor_textured),
                    px,
                    py,
                ),
        ),
        final(fb)@.current == column_last_color(
            stake_top as int,
            stake_bottom as int,
            old(fb)@.height as int,
            wall_color,
            sky_fill(sky_textured),
            floor_fill(floor_textured),
            x as int,
        ),
{
    let height = fb.height() as usize;
    let ghost before = fb@;
    fb.set_current_color(wall_color);
    let ghost s0 = fb@;
    paint_span(fb, x, stake_top, stake_bottom, Fill::Solid(wall_color));
    let ghost s1 = fb@;
    let sky = if sky_textured {
        Fill::Sky
    } else {
        Fill::Solid(Color::new(135, 206, 235, 255))
    };
    paint_span(fb, x, 0, stake_top, sky);
    let ghost s2 = fb@;
    let floor = if floor_textured {
        Fill::Floor
    } else {
        Fill::Solid(Color::new(34, 139, 34, 255))
    };
    paint_span(fb, x, stake_bottom, height, floor);
    assert(sky == sky_fill(sky_textured));
    assert(floor == floor_fill(floor_textured));
    let ghost s3 = fb@;
    let sky_end = if stake_top < height {
        stake_top
    } else {
        height
    };
    if stake_bottom < height {
        let c = fill_pixel(floor, x, (height - 1) as u32);
        fb.set_current_color(c);
    } else if sky_end > 0 {
        let c = fill_pixel(sky, x, (sky_end - 1) as u32);
        fb.set_current_color(c);
    }
    assert forall|px: int, py: int| fb@.in_bounds(px, py) implies #[trigger] fb@.at(px, py) == if px
        == x {
        column_color(stake_top as int, stake_bottom as int, wall_color, sky_fill(sky_textured), floor_fill(floor_textured), px, py)
    } else {
        before.at(px, py)
    } by {
        assert(fb@.at(px, py) == s3.at(px, py));
        assert(s0.at(px, py) == before.at(px, py));
        assert(s2.in_bounds(px, py));
        assert(s1.in_bounds(px, py));
        assert(s0.in_bounds(px, py));
    }
}

/// The colour of a wall slice by the cell that the ray hit.
pub open spec fn slice_wall_color(hit_wall: char) -> Color {
    if hit_wall == '#' {
        Palette::Red.spec_color()
    } else if hit_wall == '+' {
        Palette::Green.spec_color()
    } else if hit_wall == '-' {
        Palette::Blue.spec_color()
    } else if hit_wall == '|' {
        Palette::Yellow.spec_color()
    } else {
        Palette::White.spec_color()
    }
}

/// The first row of a wall slice `wall_height` rows tall, centred on a
/// screen `screen_height` rows tall.
pub open spec fn slice_start(wall_height: int, screen_height: int) -> int {
    if screen_height / 2 >= wall_height / 2 {
        screen_height / 2 - wall_height / 2
    } else {
        0
    }
}

/// The row after the last row of that wall slice.
pub open spec fn slice_end(wall_height: int, screen_height: int) -> int {
    screen_height / 2 + wall_height / 2
}

/// The colour of row `y` of a wall slice: sky blue above the wall, the
/// wall's colour, dark green below it.
pub open spec fn slice_color(hit_wall: char, wall_height: int, screen_height: int, y: int) -> Color {
    if y >= slice_end(wall_height, screen_height) {
        Palette::DarkGreen.spec_color()
    } else if y >= slice_start(wall_height, screen_height) {
        slice_wall_color(hit_wall)
    } else {
        Palette::SkyBlue.spec_color()
    }
}

/// Draws column `x_pos` of a screen `screen_height` rows tall: a wall slice
/// `wall_height` rows tall in the middle, coloured by `hit_wall`, ceiling
/// above and floor below.
pub fn render_wall_slice(
    fb: &mut Framebuffer,
    hit_wall: char,
    wall_height: usize,
    x_pos: usize,
    screen_height: usize,
)
    ensures
        final(fb)@.repaints(
            old(fb)@,
            |px: int, py: int| px == x_pos && py < screen_height,
            |px: int, py: int|
                slice_color(hit_wall, wall_height as int, screen_height as int, py),
        ),
        final(fb)@.current == old(fb)@.current,
{
    let width = fb.width();
    if x_pos >= width as usize {
        assert(fb@.repaints(
            fb@,
            |px: int, py: int| px == x_pos && py < screen_height,
            |px: int, py: int|
                slice_color(hit_wall, wall_height as int, screen_height as int, py),
        ));
        return;
    }
    let x = x_pos as u32;
    let half = screen_height / 2;
    let wall_start = half.saturating_sub(wall_height / 2);
    let wall_end = half + wall_height / 2;
    let wall_color = match hit_wall {
        '#' => Palette::Red.color(),
        '+' => Palette::Green.color(),
        '-' => Palette::Blue.color(),
        '|' => Palette::Yellow.color(),
        _ => Palette::White.color(),
    };
    let wall_stop = if wall_end < screen_height {
        wall_end
    } else {
        screen_height
    };
    paint_span(fb, x, 0, wall_start, Fill::Solid(Palette::SkyBlue.color()));
    paint_span(fb, x, wall_start, wall_stop, Fill::Solid(wall_color));
    paint_span(fb, x, wall_end, screen_height, Fill::Solid(Palette::DarkGreen.color()));
}

/// Paints the pixels of `[x0, x1)` by `[y0, y1)` that lie in the buffer
/// `color`, column by column.
pub fn fill_rect(fb: &mut Framebuffer, x0: usize, x1: usize, y0: usize, y1: usize, color: Color)
    ensures
        final(fb)@.repaints(
            old(fb)@,
            |px: int, py: int| x0 <= px < x1 && y0 <= py < y1,
            |px: int, py: int| color,
        ),
        final(fb)@.current == old(fb)@.current,
{
    let width = fb.width();
    let end: usize = if x1 < width as usize {
        x1
    } else {
        width as usize
    };
    let c = Fill::Solid(color);
    let ghost start = fb@;
    let mut x: usize = x0;
    while x < end
        invariant
            x0 <= x,
            x == x0 || x <= end,
            end <= width,
            width == start.width,
            start.wf(),
            c == Fill::Solid(color),
            fb@.current == start.current,
            fb@.repaints(
                start,
                |px: int, py: int| x0 <= px < x && y0 <= py < y1,
                |px: int, py: int| color,
            ),
        decreases end - x,
    {
        let ghost prev = fb@;
        paint_span(fb, x as u32, y0, y1, c);
        assert forall|px: int, py: int| fb@.in_bounds(px, py) implies #[trigger] fb@.at(px, py)
            == if x0 <= px < x + 1 && y0 <= py < y1 {
            color
        } else {
            start.at(px, py)
        } by {
            assert(prev.in_bounds(px, py));
            assert(prev.at(px, py) == if x0 <= px < x && y0 <= py < y1 {
                color
            } else {
                start.at(px, py)
            });
        }
        x += 1;
    }
    assert forall|px: int, py: int| fb@.in_bounds(px, py) implies #[trigger] fb@.at(px, py) == if x0
        <= px < x1 && y0 <= py < y1 {
        color
    } else {
        start.at(px, py)
    } by {
        assert((x0 <= px < x) == (x0 <= px < x1));
    }
}

/// Whether the top-down drawing of `cell` covers offset `(dx, dy)` of its
/// block of side `bs`: nothing for open floor, a centred square a third of
/// the block wide for the goal and a start marker, the whole block for
/// anything else.
pub open spec fn covers(cell: char, bs: int, dx: int, dy: int) -> bool {
    if cell == ' ' {
        false
    } else if cell == 'g' || cell == 's' {
        let lo = bs / 2 - bs / 3 / 2;
        let hi = bs / 2 + bs / 3 / 2;
        lo <= dx < hi && lo <= dy < hi
    } else {
        true
    }
}

/// The pixels that the top-down drawing of `cell` in the block of side `bs`
/// at `(xo, yo)` covers.
pub open spec fn cell_region(cell: char, xo: int, yo: int, bs: int, px: int, py: int) -> bool {
    &&& xo <= px < xo + bs
    &&& yo <= py < yo + bs
    &&& covers(cell, bs, px - xo, py - yo)
}

/// Draws `cell` in the top-down view, in the block of side `block_size` at
/// `(xo, yo)`; open floor is not drawn and leaves everything as it was.
pub fn draw_cell(fb: &mut Framebuffer, xo: usize, yo: usize, block_size: usize, cell: char)
    requires
        xo + block_size <= usize::MAX,
        yo + block_size <= usize::MAX,
    ensures
        final(fb)@.repaints(
            old(fb)@,
            |px: int, py: int| cell_region(cell, xo as int, yo as int, block_size as int, px, py),
            |px: int, py: int| cell_color(cell),
        ),
        final(fb)@.current == if cell == ' ' {
            old(fb)@.current
        } else {
            cell_color(cell)
        },
{
    if cell == ' ' {
        let _ = fb.width();
        assert(fb@.repaints(
            fb@,
            |px: int, py: int| cell_region(cell, xo as int, yo as int, block_size as int, px, py),
            |px: int, py: int| cell_color(cell),
        ));
        return;
    }
    let color = cell_to_color(cell);
    fb.set_current_color(color);
    if cell == 'g' || cell == 's' {
        let center_x = xo + block_size / 2;
        let center_y = yo + block_size / 2;
        let marker_size = block_size / 3;
        fill_rect(
            fb,
            center_x.saturating_sub(marker_size / 2),
            center_x + marker_size / 2,
            center_y.saturating_sub(marker_size / 2),
            center_y + marker_size / 2,
            color,
        );
    } else {
        fill_rect(fb, xo, xo + block_size, yo, yo + block_size, color);
    }
}

/// Whether the top-down view of grid `g`, in blocks of side `bs`, covers
/// pixel `(px, py)`: the cell of the block that the pixel lies in exists and
/// its drawing covers the pixel.
pub open spec fn map_covers(g: Seq<Seq<char>>, bs: int, px: int, py: int) -> bool {
    &&& bs > 0
    &&& px >= 0
    &&& py >= 0
    &&& py / bs < g.len()
    &&& px / bs < g[py / bs].len()
    &&& covers(g[py / bs][px / bs], bs, px % bs, py % bs)
}

/// The colour of pixel `(px, py)` in the top-down view: that of its cell.
pub open spec fn map_color(g: Seq<Seq<char>>, bs: int, px: int, py: int) -> Color {
    cell_color(g[py / bs][px / bs])
}

/// The colour of the last cell of `row` that is not open floor, or `cur`
/// where there is none.
pub open spec fn row_last_color(row: Seq<char>, cur: Color) -> Color
    decreases row.len(),
{
    if row.len() == 0 {
        cur
    } else if row.last() == ' ' {
        row_last_color(row.drop_last(), cur)
    } else {
        cell_color(row.last())
    }
}

/// The colour of the last cell of `g`, in row-major order, that is not open
/// floor, or `cur` where there is none.
pub open spec fn grid_last_color(g: Seq<Seq<char>>, cur: Color) -> Color
    decreases g.len(),
{
    if g.len() == 0 {
        cur
    } else {
        row_last_color(g.last(), grid_last_color(g.drop_last(), cur))
    }
}

/// Draws the maze as seen from above, cell by cell in row-major order, each
/// in a block of side `block_size`.
pub fn draw_maze_2d(fb: &mut Framebuffer, maze: &Vec<Vec<char>>, block_size: usize)
    requires
        maze@.len() * block_size <= usize::MAX,
        forall|y: int| 0 <= y < maze@.len() ==> (#[trigger] maze@[y])@.len() * block_size <= usize::MAX,
    ensures
        final(fb)@.repaints(
            old(fb)@,
            |px: int, py: int| map_covers(maze@.map_values(|row: Vec<char>| row@), block_size as int, px, py),
            |px: int, py: int| map_color(maze@.map_values(|row: Vec<char>| row@), block_size as int, px, py),
        ),
        final(fb)@.current == grid_last_color(maze@.map_values(|row: Vec<char>| row@), old(fb)@.current),
{
    let ghost g = maze@.map_values(|row: Vec<char>| row@);
    let ghost bs = block_size as int;
    let ghost start = fb@;
    let _ = fb.width();
    let mut r: usize = 0;
    while r < maze.len()
        invariant
            r <= maze@.len(),
            g == maze@.map_values(|row: Vec<char>| row@),
            bs == block_size,
            start.wf(),
            maze@.len() * block_size <= usize::MAX,
            forall|y: int| 0 <= y < maze@.len() ==> (#[trigger] maze@[y])@.len() * block_size <= usize::MAX,
            fb@.repaints(
                start,
                |px: int, py: int| map_covers(g, bs, px, py) && py / bs < r,
                |px: int, py: int| map_color(g, bs, px, py),
            ),
            fb@.current == grid_last_color(g.take(r as int), start.current),
        decreases maze@.len() - r,
    {
        let row = &maze[r];
        assert(row@ == g[r as int]);
        assert(row@.len() * block_size <= usize::MAX);
        assert(r * block_size + block_size <= maze@.len() * block_size) by (nonlinear_arith)
            requires
                r < maze@.len(),
        ;
        let yo = r * block_size;
        let ghost row_start = fb@;
        let mut c: usize = 0;
        while c < row.len()
            invariant
                c <= row@.len(),
                r < maze@.len(),
                row@ == g[r as int],
                g == maze@.map_values(|row: Vec<char>| row@),
                bs == block_size,
                yo == r * block_size,
                yo + block_size <= usize::MAX,
                row@.len() * block_size <= usize::MAX,
                start.wf(),
                fb@.repaints(
                    start,
                    |px: int, py: int| map_covers(g, bs, px, py) && (py / bs < r || (py / bs == r && px / bs < c)),
                    |px: int, py: int| map_color(g, bs, px, py),
                ),
                fb@.current == row_last_color(row@.take(c as int), grid_last_color(g.take(r as int), start.current)),
            decreases row@.len() - c,
        {
            assert(c * block_size + block_size <= row@.len() * block_size) by (nonlinear_arith)
                requires
                    c < row@.len(),
            ;
            let xo = c * block_size;
            let cell = row[c];
            let ghost prev = fb@;
            draw_cell(fb, xo, yo, block_size, cell);
            assert forall|px: int, py: int| fb@.in_bounds(px, py) implies #[trigger] fb@.at(px, py)
                == if map_covers(g, bs, px, py) && (py / bs < r || (py / bs == r && px / bs < c + 1)) {
                map_color(g, bs, px, py)
            } else {
                start.at(px, py)
            } by {
                assert(prev.in_bounds(px, py));
                if bs > 0 {
                    lemma_block(px, bs, c as int);
                    lemma_block(py, bs, r as int);
                }
            }
            proof {
                assert(row@.take(c + 1).drop_last() =~= row@.take(c as int));
                assert(row@.take(c + 1).last() == cell);
            }
            c += 1;
        }
        proof {
            assert(row@.take(c as int) =~= g[r as int]);
            assert(g.take(r + 1).drop_last() =~= g.take(r as int));
            assert(g.take(r + 1).last() == g[r as int]);
        }
        r += 1;
    }
    assert(g.take(r as int) =~= g);
}

/// Where the marker's square starts on an axis where the player stands at
/// `p`: `PLAYER_MARKER_RADIUS` before it, but not before 0.
pub open spec fn marker_origin(p: u32) -> int {
    if p >= PLAYER_MARKER_RADIUS {
        p - PLAYER_MARKER_RADIUS
    } else {
        0
    }
}

/// Whether the player's marker, drawn for a player at `(player_x,
/// player_y)`, covers pixel `(px, py)`: the pixels of the square of side
/// `2 * PLAYER_MARKER_RADIUS` from the marker's origin that lie within
/// `PLAYER_MARKER_RADIUS` of the square's centre.
pub open spec fn marker_covers(player_x: u32, player_y: u32, px: int, py: int) -> bool {
    let r = PLAYER_MARKER_RADIUS as int;
    let dx = px - marker_origin(player_x);
    let dy = py - marker_origin(player_y);
    &&& 0 <= dx < 2 * r
    &&& 0 <= dy < 2 * r
    &&& (dx - r) * (dx - r) + (dy - r) * (dy - r) <= r * r
}

/// Draws the player's marker, a small disc, in the current colour.
fn draw_player_marker(fb: &mut Framebuffer, player_x: u32, player_y: u32)
    ensures
        final(fb)@.repaints(
            old(fb)@,
            |px: int, py: int| marker_covers(player_x, player_y, px, py),
            |px: int, py: int| old(fb)@.current,
        ),
        final(fb)@.current == old(fb)@.current,
{
    let width = fb.width();
    let height = fb.height();
    let size = PLAYER_MARKER_RADIUS;
    let ghost start = fb@;
    let ghost bx = marker_origin(player_x);
    let ghost by = marker_origin(player_y);
    let mut dy: u32 = 0;
    while dy < size * 2
        invariant
            dy <= size * 2,
            size == PLAYER_MARKER_RADIUS,
            width == start.width,
            height == start.height,
            start.wf(),
            bx == marker_origin(player_x),
            by == marker_origin(player_y),
            fb@.current == start.current,
            fb@.repaints(
                start,
                |px: int, py: int| marker_covers(player_x, player_y, px, py) && py - by < dy,
                |px: int, py: int| start.current,
            ),
        decreases size * 2 - dy,
    {
        let mut dx: u32 = 0;
        while dx < size * 2
            invariant
                dx <= size * 2,
                dy < size * 2,
                size == PLAYER_MARKER_RADIUS,
                width == start.width,
                height == start.height,
                start.wf(),
                bx == marker_origin(player_x),
                by == marker_origin(player_y),
                fb@.current == start.current,
                fb@.repaints(
                    start,
                    |px: int, py: int| marker_covers(player_x, player_y, px, py) && (py - by < dy || (py - by == dy && px - bx < dx)),
                    |px: int, py: int| start.current,
                ),
            decreases size * 2 - dx,
        {
            let px = player_x.saturating_sub(size).saturating_add(dx);
            let py = player_y.saturating_sub(size).saturating_add(dy);
            let ghost prev = fb@;
            if px < width && py < height {
                let ox = dx as i64 - size as i64;
                let oy = dy as i64 - size as i64;
                assert(0 <= ox * ox <= 16 && 0 <= oy * oy <= 16) by (nonlinear_arith)
                    requires
                        -4 <= ox <= 4,
                        -4 <= oy <= 4,
                ;
                if ox * ox + oy * oy <= size as i64 * size as i64 {
                    proof {
                        prev.lemma_plot(px as int, py as int, start.current);
                    }
                    fb.set_pixel(px, py);
                }
            }
            assert forall|qx: int, qy: int| fb@.in_bounds(qx, qy) implies #[trigger] fb@.at(qx, qy)
                == if marker_covers(player_x, player_y, qx, qy) && (qy - by < dy || (qy - by == dy && qx - bx < dx + 1)) {
                start.current
            } else {
                start.at(qx, qy)
            } by {
                assert(prev.in_bounds(qx, qy));
            }
            dx += 1;
        }
        dy += 1;
    }
}

/// Draws the top-down view: the maze in blocks of `MAP_BLOCK_SIZE` pixels,
/// then the player's marker in red at pixel `(player_x, player_y)`.
pub fn render_2d(fb: &mut Framebuffer, maze: &Vec<Vec<char>>, player_x: u32, player_y: u32)
    requires
        maze@.len() * MAP_BLOCK_SIZE <= usize::MAX,
        forall|y: int| 0 <= y < maze@.len() ==> (#[trigger] maze@[y])@.len() * MAP_BLOCK_SIZE <= usize::MAX,
    ensures
        final(fb)@.repaints(
            old(fb)@,
            |px: int, py: int|
                marker_covers(player_x, player_y, px, py) || map_covers(
                    maze@.map_values(|row: Vec<char>| row@),
                    MAP_BLOCK_SIZE as int,
                    px,
                    py,
                ),
            |px: int, py: int|
                if marker_covers(player_x, player_y, px, py) {
                    Palette::Red.spec_color()
                } else {
                    map_color(maze@.map_values(|row: Vec<char>| row@), MAP_BLOCK_SIZE as int, px, py)
                },
        ),
        final(fb)@.current == Palette::Red.spec_color(),
{
    let ghost start = fb@;
    draw_maze_2d(fb, maze, MAP_BLOCK_SIZE);
    let ghost mid = fb@;
    fb.set_current_color(Palette::Red.color());
    let ghost mid2 = fb@;
    draw_player_marker(fb, player_x, player_y);
    assert forall|px: int, py: int| fb@.in_bounds(px, py) implies #[trigger] fb@.at(px, py) == if marker_covers(player_x, player_y, px, py) || map_covers(
                    maze@.map_values(|row: Vec<char>| row@),
                    MAP_BLOCK_SIZE as int,
                    px,
                    py,
                ) {
        if marker_covers(player_x, player_y, px, py) {
            Palette::Red.spec_color()
        } else {
            map_color(maze@.map_values(|row: Vec<char>| row@), MAP_BLOCK_SIZE as int, px, py)
        }
    } else {
        start.at(px, py)
    } by {
        assert(mid2.at(px, py) == mid.at(px, py));
        assert(mid.in_bounds(px, py));
    }
}

/// Pixel `p` lies in block `c` of side `bs` exactly when `c * bs <= p <
/// c * bs + bs`, at offset `p - c * bs`.
proof fn lemma_block(p: int, bs: int, c: int)
    requires
        bs > 0,
        p >= 0,
        c >= 0,
    ensures
        (c * bs <= p < c * bs + bs) <==> p / bs == c,
        p / bs == c ==> p % bs == p - c * bs,
{
    lemma_fundamental_div_mod(p, bs);
    lemma_mod_pos_bound(p, bs);
    let q = p / bs;
    assert(bs * q == q * bs) by (nonlinear_arith);
    if c * bs <= p < c * bs + bs {
        lemma_fundamental_div_mod_converse(p, bs, c, p - c * bs);
    }
}

} // verus!
