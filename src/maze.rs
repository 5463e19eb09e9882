use vstd::prelude::*;

verus! {

#[verifier::external_type_specification]
#[verifier::external_body]
pub struct ExJsonError(serde_json::Error);

/// What `serde_json` reads from `text` as a JSON array of arrays of strings,
/// or `None` where the text is no such array.
pub uninterp spec fn json_string_rows(text: Seq<char>) -> Option<Seq<Seq<Seq<char>>>>;

/// Relies on `serde_json::from_str::<Vec<Vec<String>>>`: it either reads the
/// text as an array of arrays of strings or fails, and which of the two, and
/// what it reads, depends on the text alone.
#[verifier::external_body]
fn parse_string_rows(text: &str) -> (r: Result<Vec<Vec<String>>, serde_json::Error>)
    ensures
        match r {
            Ok(rows) => json_string_rows(text@) == Some(rows.deep_view()),
            Err(_) => json_string_rows(text@) is None,
        },
{
    serde_json::from_str(text)
}

/// Why a maze could not be read.
#[derive(Clone, Copy, Debug, PartialEq, Eq, Structural)]
pub enum MazeError {
    /// The text is not a JSON array of arrays of strings.
    InvalidJson,
    /// The array holds no rows.
    Empty,
}

/// The cell that a string of the JSON form stands for: its first character,
/// or a space for the empty string.
pub open spec fn cell_of_string(s: Seq<char>) -> char {
    if s.len() > 0 {
        s[0]
    } else {
        ' '
    }
}

/// The grid that rows of strings stand for.
pub open spec fn grid_of_rows(rows: Seq<Seq<Seq<char>>>) -> Seq<Seq<char>> {
    rows.map_values(|row: Seq<Seq<char>>| row.map_values(|s: Seq<char>| cell_of_string(s)))
}

/// The maze that rows of strings stand for: `None` where there are no rows;
/// else the width is that of the first row.
pub open spec fn maze_of_rows(rows: Seq<Seq<Seq<char>>>) -> Option<(Seq<Seq<char>>, nat, nat)> {
    if rows.len() == 0 {
        None
    } else {
        Some((grid_of_rows(rows), rows[0].len(), rows.len()))
    }
}

/// A maze as a grid of cells, row `y` and column `x` at `map[y][x]`.
///
/// Cells: `'+'`, `'-'` and `'|'` are walls, `'p'` is where the player
/// starts, `'g'` is the goal, anything else is open floor.
pub struct Maze {
    pub map: Vec<Vec<char>>,
    pub width: usize,
    pub height: usize,
}

/// The cell at column `x`, row `y` of the built-in maze of `w` by `h` cells:
/// a border of walls (`'+'` at the corners, `'-'` along the top and bottom,
/// `'|'` along the sides), inner pillars `'+'` where `x` is a multiple of 4
/// and `y` of 3 or the other way round (two cells in from the border), the
/// player's start at `(1, 1)` and the goal at `(w - 2, h - 2)`, which wins
/// over everything else.
pub open spec fn simple_maze_cell(w: int, h: int, x: int, y: int) -> char {
    if x == w - 2 && y == h - 2 {
        'g'
    } else if x == 1 && y == 1 {
        'p'
    } else if (x == 0 || x == w - 1) && (y == 0 || y == h - 1) {
        '+'
    } else if y == 0 || y == h - 1 {
        '-'
    } else if x == 0 || x == w - 1 {
        '|'
    } else if 2 <= x < w - 2 && 2 <= y < h - 2 && ((x % 4 == 0 && y % 3 == 0) || (x % 3 == 0 && y
        % 4 == 0)) {
        '+'
    } else {
        ' '
    }
}

/// The built-in maze of `w` by `h` cells, row by row.
pub open spec fn simple_maze(w: int, h: int) -> Seq<Seq<char>> {
    Seq::new(h as nat, |y: int| Seq::new(w as nat, |x: int| simple_maze_cell(w, h, x, y)))
}

/// The built-in maze of at least 3 by 3 cells is walled in: every cell of
/// its border is a wall, so the player cannot walk out of it.
pub proof fn lemma_simple_maze_enclosed(w: int, h: int)
    requires
        w >= 3,
        h >= 3,
    ensures
        forall|x: int, y: int|
            0 <= x < w && 0 <= y < h && (x == 0 || y == 0 || x == w - 1 || y == h - 1)
                ==> is_wall_char(#[trigger] simple_maze(w, h)[y][x]),
{
}

/// In the built-in maze of at least 4 by 4 cells the player starts at
/// `(1, 1)` and the goal is at `(w - 2, h - 2)`, each the only cell of its
/// kind, so these are what `find_player_start` and `find_goal` report.
pub proof fn lemma_simple_maze_markers(w: int, h: int)
    requires
        w >= 4,
        h >= 4,
    ensures
        first_occurrence(simple_maze(w, h), 'p', 1, 1),
        first_occurrence(simple_maze(w, h), 'g', w - 2, h - 2),
        forall|x: int, y: int|
            0 <= x < w && 0 <= y < h && #[trigger] simple_maze(w, h)[y][x] == 'p' ==> x == 1 && y == 1,
        forall|x: int, y: int|
            0 <= x < w && 0 <= y < h && #[trigger] simple_maze(w, h)[y][x] == 'g' ==> x == w - 2 && y
                == h - 2,
{
}

/// `c` occurs at `(x, y)` and nowhere before it in row-major order.
pub open spec fn first_occurrence(g: Seq<Seq<char>>, c: char, x: int, y: int) -> bool {
    &&& 0 <= y < g.len()
    &&& 0 <= x < g[y].len()
    &&& g[y][x] == c
    &&& forall|yy: int, xx: int|
        0 <= yy < y && 0 <= xx < g[yy].len() ==> #[trigger] g[yy][xx] != c
    &&& forall|xx: int| 0 <= xx < x ==> #[trigger] g[y][xx] != c
}

/// `c` occurs somewhere in the grid.
pub open spec fn occurs(g: Seq<Seq<char>>, c: char) -> bool {
    exists|y: int, x: int| 0 <= y < g.len() && 0 <= x < g[y].len() && #[trigger] g[y][x] == c
}

/// The characters that stand for a wall.
pub open spec fn is_wall_char(c: char) -> bool {
    c == '+' || c == '-' || c == '|'
}

impl Maze {
    /// The grid as nested sequences.
    pub open spec fn grid(&self) -> Seq<Seq<char>> {
        self.map@.map_values(|row: Vec<char>| row@)
    }

    /// `height` rows of `width` cells each.
    pub open spec fn wf(&self) -> bool {
        &&& self.map@.len() == self.height
        &&& forall|y: int| 0 <= y < self.height ==> (#[trigger] self.map@[y])@.len() == self.width
    }

    /// The cell at `(x, y)`; outside the grid every cell reads as a wall.
    pub open spec fn cell(&self, x: int, y: int) -> char {
        if 0 <= y < self.height && 0 <= x < self.width && y < self.map@.len() && x
            < self.map@[y]@.len() {
            self.map@[y]@[x]
        } else {
            '+'
        }
    }

    /// The maze that the rows of strings of the JSON form stand for: each
    /// string gives its first character (a space if it is empty), the width
    /// is the length of the first row and the height the number of rows.
    pub fn from_rows(rows: Vec<Vec<String>>) -> (r: Result<Maze, MazeError>)
        ensures
            match maze_of_rows(rows.deep_view()) {
                None => r == Err::<Maze, MazeError>(MazeError::Empty),
                Some((g, w, h)) => r matches Ok(m) && m.grid() == g && m.width == w && m.height
                    == h,
            },
    {
        let ghost rv = rows.deep_view();
        if rows.len() == 0 {
            return Err(MazeError::Empty);
        }
        let mut map: Vec<Vec<char>> = Vec::new();
        let mut y: usize = 0;
        while y < rows.len()
            invariant
                y <= rows@.len(),
                rv == rows.deep_view(),
                map@.len() == y,
                forall|i: int|
                    0 <= i < y ==> (#[trigger] map@[i])@ == grid_of_rows(rv)[i],
            decreases rows@.len() - y,
        {
            let row = &rows[y];
            let mut cells: Vec<char> = Vec::new();
            let mut x: usize = 0;
            while x < row.len()
                invariant
                    x <= row@.len(),
                    y < rows@.len(),
                    row == rows@[y as int],
                    rv == rows.deep_view(),
                    cells@.len() == x,
                    forall|j: int|
                        0 <= j < x ==> #[trigger] cells@[j] == cell_of_string(rv[y as int][j]),
                decreases row@.len() - x,
            {
                let s = row[x].as_str();
                let c = if s.unicode_len() > 0 {
                    s.get_char(0)
                } else {
                    ' '
                };
                assert(rv[y as int][x as int] == row@[x as int]@);
                cells.push(c);
                x += 1;
            }
            assert(cells@ =~= grid_of_rows(rv)[y as int]);
            map.push(cells);
            y += 1;
        }
        let width = rows[0].len();
        let height = rows.len();
        let m = Maze { map, width, height };
        assert(m.grid() =~= grid_of_rows(rv));
        Ok(m)
    }

    /// Reads a maze from the JSON form that the maze generator prints: an
    /// array of rows, each an array of one-character strings.
    pub fn parse_json_maze(json_str: &str) -> (r: Result<Maze, MazeError>)
        ensures
            match json_string_rows(json_str@) {
                None => r == Err::<Maze, MazeError>(MazeError::InvalidJson),
                Some(rows) => match maze_of_rows(rows) {
                    None => r == Err::<Maze, MazeError>(MazeError::Empty),
                    Some((g, w, h)) => r matches Ok(m) && m.grid() == g && m.width == w
                        && m.height == h,
                },
            },
    {
        match parse_string_rows(json_str) {
            Ok(rows) => Self::from_rows(rows),
            Err(_) => Err(MazeError::InvalidJson),
        }
    }

    /// The maze of a level: the generated one where `generated` holds a
    /// readable one, else the built-in maze of `width` by `height` cells.
    pub fn new(width: usize, height: usize, generated: Option<&str>) -> (m: Maze)
        requires
            width >= 2,
            height >= 2,
        ensures
            ({
                let read = match generated {
                    Some(text) => match json_string_rows(text@) {
                        Some(rows) => maze_of_rows(rows),
                        None => None,
                    },
                    None => None,
                };
                match read {
                    Some((g, w, h)) => m.grid() == g && m.width == w && m.height == h,
                    None => m.wf() && m.width == width && m.height == height && m.grid()
                        == simple_maze(width as int, height as int),
                }
            }),
    {
        if let Some(text) = generated {
            if let Ok(m) = Self::parse_json_maze(text) {
                return m;
            }
        }
        Self::create_fallback_maze(width, height)
    }

    /// The built-in maze, used when no generated one is at hand.
    pub fn create_fallback_maze(width: usize, height: usize) -> (m: Maze)
        requires
            width >= 2,
            height >= 2,
        ensures
            m.wf(),
            m.width == width,
            m.height == height,
            m.grid() == simple_maze(width as int, height as int),
    {
        let map = Self::create_simple_maze(width, height);
        let ghost g = simple_maze(width as int, height as int);
        assert(map@[0]@ == g[0]);
        let m = Maze { width: map[0].len(), height: map.len(), map };
        assert(m.grid() =~= g);
        assert forall|y: int| 0 <= y < m.height implies (#[trigger] m.map@[y])@.len() == m.width by {
            assert(m.grid()[y] == m.map@[y]@);
        }
        m
    }

    /// The cell of the built-in maze at `(x, y)`.
    fn simple_cell(width: usize, height: usize, x: usize, y: usize) -> (c: char)
        requires
            width >= 2,
            height >= 2,
        ensures
            c == simple_maze_cell(width as int, height as int, x as int, y as int),
    {
        if x == width - 2 && y == height - 2 {
            'g'
        } else if x == 1 && y == 1 {
            'p'
        } else if x == 0 || x == width - 1 || y == 0 || y == height - 1 {
            if (x == 0 || x == width - 1) && (y == 0 || y == height - 1) {
                '+'
            } else if y == 0 || y == height - 1 {
                '-'
            } else {
                '|'
            }
        } else if 2 <= x && x < width - 2 && 2 <= y && y < height - 2 && ((x % 4 == 0 && y % 3
            == 0) || (x % 3 == 0 && y % 4 == 0)) {
            '+'
        } else {
            ' '
        }
    }

    /// The grid of the built-in maze of `width` by `height` cells.
    pub fn create_simple_maze(width: usize, height: usize) -> (map: Vec<Vec<char>>)
        requires
            width >= 2,
            height >= 2,
        ensures
            map@.len() == height,
            map@.map_values(|row: Vec<char>| row@) == simple_maze(width as int, height as int),
    {
        let ghost g = simple_maze(width as int, height as int);
        let mut map: Vec<Vec<char>> = Vec::new();
        let mut y: usize = 0;
        while y < height
            invariant
                y <= height,
                width >= 2,
                height >= 2,
                g == simple_maze(width as int, height as int),
                map@.len() == y,
                forall|i: int| 0 <= i < y ==> (#[trigger] map@[i])@ == g[i],
            decreases height - y,
        {
            let mut row: Vec<char> = Vec::new();
            let mut x: usize = 0;
            while x < width
                invariant
                    x <= width,
                    y < height,
                    width >= 2,
                    height >= 2,
                    row@.len() == x,
                    forall|j: int|
                        0 <= j < x ==> #[trigger] row@[j] == simple_maze_cell(
                            width as int,
                            height as int,
                            j,
                            y as int,
                        ),
                decreases width - x,
            {
                row.push(Self::simple_cell(width, height, x, y));
                x += 1;
            }
            assert(row@ =~= g[y as int]);
            map.push(row);
            y += 1;
        }
        assert(map@.map_values(|row: Vec<char>| row@) =~= g);
        map
    }

    /// The first cell, in row-major order, that holds `c`.
    fn find_char(&self, c: char) -> (r: Option<(usize, usize)>)
        ensures
            match r {
                Some((x, y)) => first_occurrence(self.grid(), c, x as int, y as int),
                None => !occurs(self.grid(), c),
            },
    {
        let ghost g = self.grid();
        let mut y: usize = 0;
        while y < self.map.len()
            invariant
                y <= self.map@.len(),
                g == self.grid(),
                forall|yy: int, xx: int|
                    0 <= yy < y && 0 <= xx < g[yy].len() ==> #[trigger] g[yy][xx] != c,
            decreases self.map@.len() - y,
        {
            let row = &self.map[y];
            let mut x: usize = 0;
            while x < row.len()
                invariant
                    x <= row@.len(),
                    y < self.map@.len(),
                    row == self.map@[y as int],
                    g == self.grid(),
                    forall|yy: int, xx: int|
                        0 <= yy < y && 0 <= xx < g[yy].len() ==> #[trigger] g[yy][xx] != c,
                    forall|xx: int| 0 <= xx < x ==> #[trigger] g[y as int][xx] != c,
                decreases row@.len() - x,
            {
                if row[x] == c {
                    return Some((x, y));
                }
                x += 1;
            }
            y += 1;
        }
        None
    }

    /// Where the player starts: the first `'p'` in row-major order.
    pub fn find_player_start(&self) -> (r: Option<(usize, usize)>)
        ensures
            match r {
                Some((x, y)) => first_occurrence(self.grid(), 'p', x as int, y as int),
                None => !occurs(self.grid(), 'p'),
            },
    {
        self.find_char('p')
    }

    /// Where the goal is: the first `'g'` in row-major order.
    pub fn find_goal(&self) -> (r: Option<(usize, usize)>)
        ensures
            match r {
                Some((x, y)) => first_occurrence(self.grid(), 'g', x as int, y as int),
                None => !occurs(self.grid(), 'g'),
            },
    {
        self.find_char('g')
    }

    pub fn get_cell(&self, x: usize, y: usize) -> (c: char)
        ensures
            c == self.cell(x as int, y as int),
    {
        if y < self.height && x < self.width && y < self.map.len() && x < self.map[y].len() {
            self.map[y][x]
        } else {
            '+'
        }
    }

    pub fn is_wall(&self, x: usize, y: usize) -> (b: bool)
        ensures
            b == is_wall_char(self.cell(x as int, y as int)),
    {
        let cell = self.get_cell(x, y);
        cell == '+' || cell == '-' || cell == '|'
    }
}

} // verus!
