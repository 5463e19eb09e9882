use vstd::prelude::*;

use crate::color::Color;

verus! {

/// A texture's pixels held for fast lookup: at least one row, every row of
/// the same, non-zero, length.
pub struct TextureCache {
    texels: Vec<Vec<Color>>,
    width: usize,
}

/// `rows` is a texture: at least one row, all of the first row's non-zero
/// length.
pub open spec fn is_texture(rows: Seq<Seq<Color>>) -> bool {
    &&& rows.len() > 0
    &&& rows[0].len() > 0
    &&& forall|y: int| 0 <= y < rows.len() ==> (#[trigger] rows[y]).len() == rows[0].len()
}

/// The nearer of `i` and `n - 1`, for indices past the end.
pub open spec fn clamp_index(i: int, n: int) -> int {
    if i < n - 1 {
        i
    } else {
        n - 1
    }
}

impl View for TextureCache {
    type V = Seq<Seq<Color>>;

    closed spec fn view(&self) -> Seq<Seq<Color>> {
        self.texels@.map_values(|row: Vec<Color>| row@)
    }
}

impl TextureCache {
    #[verifier::type_invariant]
    spec fn inv(&self) -> bool {
        &&& is_texture(self@)
        &&& self.width == self@[0].len()
    }

    /// A texture of the given rows of pixels; `None` where there are no
    /// rows, the first row is empty or the rows differ in length.
    pub fn from_rows(rows: Vec<Vec<Color>>) -> (r: Option<TextureCache>)
        ensures
            match r {
                Some(t) => is_texture(rows@.map_values(|row: Vec<Color>| row@)) && t@ == rows@.map_values(
                    |row: Vec<Color>| row@,
                ),
                None => !is_texture(rows@.map_values(|row: Vec<Color>| row@)),
            },
    {
        let ghost g = rows@.map_values(|row: Vec<Color>| row@);
        if rows.len() == 0 || rows[0].len() == 0 {
            return None;
        }
        let width = rows[0].len();
        let mut y: usize = 1;
        while y < rows.len()
            invariant
                1 <= y <= rows@.len(),
                width == rows@[0]@.len(),
                g == rows@.map_values(|row: Vec<Color>| row@),
                forall|i: int| 0 <= i < y ==> (#[trigger] g[i]).len() == width,
            decreases rows@.len() - y,
        {
            if rows[y].len() != width {
                assert(g[y as int].len() != g[0].len());
                return None;
            }
            y += 1;
        }
        Some(TextureCache { texels: rows, width })
    }

    pub fn width(&self) -> (w: usize)
        ensures
            w == self@[0].len(),
            is_texture(self@),
    {
        proof {
            use_type_invariant(self);
        }
        self.width
    }

    pub fn height(&self) -> (h: usize)
        ensures
            h == self@.len(),
            is_texture(self@),
    {
        proof {
            use_type_invariant(self);
        }
        self.texels.len()
    }

    /// The pixel at `(tex_x, tex_y)`, each index held to the last row or
    /// column where it runs past it.
    pub fn texel(&self, tex_x: usize, tex_y: usize) -> (c: Color)
        ensures
            c == self@[clamp_index(tex_y as int, self@.len() as int)][clamp_index(
                tex_x as int,
                self@[0].len() as int,
            )],
    {
        proof {
            use_type_invariant(self);
        }
        let h = self.texels.len();
        let x = if tex_x < self.width - 1 {
            tex_x
        } else {
            self.width - 1
        };
        let y = if tex_y < h - 1 {
            tex_y
        } else {
            h - 1
        };
        assert(self@[y as int] == self.texels@[y as int]@);
        self.texels[y][x]
    }
}

} // verus!
