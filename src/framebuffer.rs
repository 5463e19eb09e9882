use vstd::prelude::*;

use crate::color::{Color, Palette};

verus! {

/// What a framebuffer holds: its size, its rows of pixels (row `y`, column
/// `x` at `rows[y][x]`), the colour that clearing fills it with and the colour
/// that `set_pixel` paints with.
pub struct FrameView {
    pub width: nat,
    pub height: nat,
    pub rows: Seq<Seq<Color>>,
    pub background: Color,
    pub current: Color,
}

impl FrameView {
    /// `height` rows of `width` pixels each.
    pub open spec fn wf(self) -> bool {
        &&& self.rows.len() == self.height
        &&& forall|y: int| 0 <= y < self.height ==> (#[trigger] self.rows[y]).len() == self.width
    }

    pub open spec fn in_bounds(self, x: int, y: int) -> bool {
        0 <= x < self.width && 0 <= y < self.height
    }

    pub open spec fn at(self, x: int, y: int) -> Color {
        self.rows[y][x]
    }

    /// The same buffer with the pixel at `(x, y)` painted `c`, where that
    /// pixel lies inside it.
    pub open spec fn plot(self, x: int, y: int, c: Color) -> FrameView {
        if self.in_bounds(x, y) {
            FrameView { rows: self.rows.update(y, self.rows[y].update(x, c)), ..self }
        } else {
            self
        }
    }

    /// Painting one pixel of a well-formed buffer changes that pixel alone.
    pub proof fn lemma_plot(self, x: int, y: int, c: Color)
        requires
            self.wf(),
        ensures
            self.plot(x, y, c).wf(),
            self.plot(x, y, c).width == self.width,
            self.plot(x, y, c).height == self.height,
            self.plot(x, y, c).background == self.background,
            self.plot(x, y, c).current == self.current,
            forall|px: int, py: int|
                self.in_bounds(px, py) ==> #[trigger] self.plot(x, y, c).at(px, py) == if px == x
                    && py == y {
                    c
                } else {
                    self.at(px, py)
                },
    {
    }

    /// `self` is `before` with each of its pixels where `region` holds
    /// painted `color_at` of that pixel; size and background colour kept.
    pub open spec fn repaints(
        self,
        before: FrameView,
        region: spec_fn(int, int) -> bool,
        color_at: spec_fn(int, int) -> Color,
    ) -> bool {
        &&& self.width == before.width
        &&& self.height == before.height
        &&& self.background == before.background
        &&& self.wf()
        &&& forall|x: int, y: int|
            self.in_bounds(x, y) ==> #[trigger] self.at(x, y) == if region(x, y) {
                color_at(x, y)
            } else {
                before.at(x, y)
            }
    }
}

/// `width` by `height` pixels, all `c`.
pub open spec fn filled(width: nat, height: nat, c: Color) -> Seq<Seq<Color>> {
    Seq::new(height, |y: int| Seq::new(width, |x: int| c))
}

/// A pixel buffer that the renderers draw into.
pub struct Framebuffer {
    width: u32,
    height: u32,
    /// Row-major: the pixel at `(x, y)` is at `y * width + x`.
    color_buffer: Vec<Color>,
    background_color: Color,
    current_color: Color,
}

impl View for Framebuffer {
    type V = FrameView;

    closed spec fn view(&self) -> FrameView {
        FrameView {
            width: self.width as nat,
            height: self.height as nat,
            rows: Seq::new(
                self.height as nat,
                |y: int|
                    Seq::new(
                        self.width as nat,
                        |x: int| self.color_buffer@[y * self.width + x],
                    ),
            ),
            background: self.background_color,
            current: self.current_color,
        }
    }
}

/// Row `y`, column `x` of a `w` by `h` grid sits at `y * w + x` of its
/// row-major layout, inside the layout.
proof fn lemma_row_major(w: int, h: int, x: int, y: int)
    requires
        0 <= x < w,
        0 <= y < h,
    ensures
        0 <= y * w + x < w * h,
{
    assert(0 <= y * w + x < w * h) by (nonlinear_arith)
        requires
            0 <= x < w,
            0 <= y < h,
    ;
}

/// Two cells of a `w`-wide grid share a place in its row-major layout only
/// if they are the same cell.
proof fn lemma_row_major_distinct(w: int, x: int, y: int, xx: int, yy: int)
    requires
        0 <= x < w,
        0 <= xx < w,
        0 <= y,
        0 <= yy,
        yy * w + xx == y * w + x,
    ensures
        xx == x,
        yy == y,
{
    if yy < y {
        assert(yy * w + xx < y * w + x) by (nonlinear_arith)
            requires
                yy < y,
                0 <= xx < w,
                0 <= x,
        ;
    } else if yy > y {
        assert(yy * w + xx > y * w + x) by (nonlinear_arith)
            requires
                yy > y,
                0 <= x < w,
                0 <= xx,
        ;
    }
}

/// A buffer of `n` pixels, all `c`.
fn filled_buffer(n: usize, c: Color) -> (buf: Vec<Color>)
    ensures
        buf@ == Seq::new(n as nat, |i: int| c),
{
    let mut buf: Vec<Color> = Vec::new();
    let mut i: usize = 0;
    while i < n
        invariant
            i <= n,
            buf@ == Seq::new(i as nat, |k: int| c),
        decreases n - i,
    {
        buf.push(c);
        i += 1;
        assert(buf@ =~= Seq::new(i as nat, |k: int| c));
    }
    buf
}

impl Framebuffer {
    #[verifier::type_invariant]
    spec fn inv(&self) -> bool {
        self.color_buffer@.len() == self.width * self.height
    }

    /// A black buffer of `width` by `height` pixels that paints white.
    pub fn new(width: u32, height: u32) -> (fb: Framebuffer)
        requires
            width * height <= usize::MAX,
        ensures
            fb@.wf(),
            fb@.width == width,
            fb@.height == height,
            fb@.rows == filled(width as nat, height as nat, Palette::Black.color()),
            fb@.background == Palette::Black.color(),
            fb@.current == Palette::White.color(),
    {
        let black = Palette::Black.color();
        let n = width as usize * height as usize;
        assert(n == width as int * height as int);
        let fb = Framebuffer {
            width,
            height,
            color_buffer: filled_buffer(n, black),
            background_color: black,
            current_color: Palette::White.color(),
        };
        assert forall|y: int, x: int| 0 <= y < height && 0 <= x < width implies #[trigger] fb.color_buffer@[y * width + x] == black by {
            lemma_row_major(width as int, height as int, x, y);
        }
        assert(fb@.rows =~~= filled(width as nat, height as nat, black));
        fb
    }

    /// The width; every framebuffer has `height` rows of `width` pixels.
    pub fn width(&self) -> (w: u32)
        ensures
            w == self@.width,
            self@.wf(),
    {
        self.width
    }

    /// The height; every framebuffer has `height` rows of `width` pixels.
    pub fn height(&self) -> (h: u32)
        ensures
            h == self@.height,
            self@.wf(),
    {
        self.height
    }

    pub fn current_color(&self) -> (c: Color)
        ensures
            c == self@.current,
    {
        self.current_color
    }

    /// The pixel at `(x, y)`.
    pub fn pixel(&self, x: u32, y: u32) -> (c: Color)
        requires
            self@.in_bounds(x as int, y as int),
        ensures
            c == self@.at(x as int, y as int),
    {
        proof {
            use_type_invariant(self);
            lemma_row_major(self.width as int, self.height as int, x as int, y as int);
        }
        let n = self.color_buffer.len();
        self.color_buffer[y as usize * self.width as usize + x as usize]
    }

    /// Fills every pixel with the background colour.
    pub fn clear(&mut self)
        ensures
            final(self)@ == (FrameView {
                rows: filled(old(self)@.width, old(self)@.height, old(self)@.background),
                ..old(self)@
            }),
    {
        proof {
            use_type_invariant(&*self);
        }
        let n = self.color_buffer.len();
        self.color_buffer = filled_buffer(n, self.background_color);
        assert forall|y: int, x: int| 0 <= y < self.height && 0 <= x < self.width implies #[trigger] self.color_buffer@[y * self.width + x] == self.background_color by {
            lemma_row_major(self.width as int, self.height as int, x, y);
        }
        assert(self@.rows =~~= filled(old(self)@.width, old(self)@.height, old(self)@.background));
    }

    /// Paints the pixel at `(x, y)` with the current colour, where it lies
    /// inside the buffer.
    pub fn set_pixel(&mut self, x: u32, y: u32)
        ensures
            final(self)@ == old(self)@.plot(x as int, y as int, old(self)@.current),
    {
        let c = self.current_color;
        self.set_pixel_with_color(x, y, c);
    }

    /// Paints the pixel at `(x, y)` with `color`, where it lies inside the
    /// buffer.
    pub fn set_pixel_with_color(&mut self, x: u32, y: u32, color: Color)
        ensures
            final(self)@ == old(self)@.plot(x as int, y as int, color),
    {
        proof {
            use_type_invariant(&*self);
        }
        if x < self.width && y < self.height {
            proof {
                lemma_row_major(self.width as int, self.height as int, x as int, y as int);
            }
            let n = self.color_buffer.len();
            assert(n == self.width * self.height);
            assert((y as int) * (self.width as int) + (x as int) < n);
            let row_start = y as usize * self.width as usize;
            let i = row_start + x as usize;
            self.color_buffer[i] = color;
            let ghost w = self.width as int;
            assert forall|yy: int, xx: int| 0 <= yy < self.height && 0 <= xx < w implies #[trigger] self.color_buffer@[yy * w + xx] == old(self)@.plot(x as int, y as int, color).rows[yy][xx] by {
                lemma_row_major(w, self.height as int, xx, yy);
                if yy * w + xx == (y as int) * w + (x as int) {
                    lemma_row_major_distinct(w, x as int, y as int, xx, yy);
                }
            }
            assert(self@.rows =~~= old(self)@.plot(x as int, y as int, color).rows);
        }
    }

    pub fn set_background_color(&mut self, color: Color)
        ensures
            final(self)@ == (FrameView { background: color, ..old(self)@ }),
    {
        proof {
            use_type_invariant(&*self);
        }
        self.background_color = color;
    }

    pub fn set_current_color(&mut self, color: Color)
        ensures
            final(self)@ == (FrameView { current: color, ..old(self)@ }),
    {
        proof {
            use_type_invariant(&*self);
        }
        self.current_color = color;
    }
}

} // verus!
