use vstd::prelude::*;

use crate::color::{Color, Palette};
use crate::framebuffer::Framebuffer;
use crate::render::fill_rect;

verus! {

/// How many frames a sprite's animation has.
pub const SPRITE_FRAMES: usize = 4;

/// Half the side of the square a sprite is drawn as.
pub const SPRITE_HALF: i64 = 4;

/// The colour of a sprite in each frame of its animation: yellow, orange,
/// red, yellow.
pub open spec fn frame_color(frame: int) -> Color {
    if frame == 1 {
        Palette::Orange.spec_color()
    } else if frame == 2 {
        Palette::Red.spec_color()
    } else {
        Palette::Yellow.spec_color()
    }
}

/// A sprite that cycles through its frames, one frame every
/// `frame_duration_ns` nanoseconds.
pub struct AnimatedSprite {
    x: i32,
    y: i32,
    current_frame: usize,
    frame_duration_ns: u64,
    since_frame_ns: u64,
}

impl AnimatedSprite {
    #[verifier::type_invariant]
    spec fn inv(&self) -> bool {
        self.current_frame < SPRITE_FRAMES
    }

    pub closed spec fn pos_x(&self) -> int {
        self.x as int
    }

    pub closed spec fn pos_y(&self) -> int {
        self.y as int
    }

    pub closed spec fn frame(&self) -> int {
        self.current_frame as int
    }

    pub closed spec fn duration(&self) -> int {
        self.frame_duration_ns as int
    }

    /// Time shown in the current frame so far.
    pub closed spec fn since(&self) -> int {
        self.since_frame_ns as int
    }

    /// The time in the current frame once `elapsed_ns` more nanoseconds
    /// have passed, held at the largest `u64`.
    pub open spec fn time_in_frame(self, elapsed_ns: u64) -> int {
        if self.since() + elapsed_ns > u64::MAX {
            u64::MAX as int
        } else {
            self.since() + elapsed_ns
        }
    }

    /// `next` is the sprite after `elapsed_ns` more nanoseconds: once the
    /// time in the frame reaches the frame duration, the next frame starts,
    /// from the last back to the first.
    pub open spec fn stepped(self, elapsed_ns: u64, next: AnimatedSprite) -> bool {
        let since = self.time_in_frame(elapsed_ns);
        &&& next.pos_x() == self.pos_x()
        &&& next.pos_y() == self.pos_y()
        &&& next.duration() == self.duration()
        &&& if since >= self.duration() {
            next.frame() == (self.frame() + 1) % (SPRITE_FRAMES as int) && next.since() == 0
        } else {
            next.frame() == self.frame() && next.since() == since
        }
    }

    /// A sprite at pixel `(x, y)` in its first frame.
    pub fn new(x: i32, y: i32, frame_duration_ns: u64) -> (s: AnimatedSprite)
        ensures
            s.pos_x() == x,
            s.pos_y() == y,
            s.frame() == 0,
            s.duration() == frame_duration_ns,
            s.since() == 0,
    {
        AnimatedSprite { x, y, current_frame: 0, frame_duration_ns, since_frame_ns: 0 }
    }

    pub fn current_frame(&self) -> (f: usize)
        ensures
            f == self.frame(),
            f < SPRITE_FRAMES,
    {
        proof {
            use_type_invariant(self);
        }
        self.current_frame
    }

    /// Lets `elapsed_ns` nanoseconds pass; `true` where a new frame began.
    pub fn update(&mut self, elapsed_ns: u64) -> (advanced: bool)
        ensures
            old(self).stepped(elapsed_ns, *final(self)),
            advanced == (old(self).time_in_frame(elapsed_ns) >= old(self).duration()),
    {
        proof {
            use_type_invariant(&*self);
        }
        self.since_frame_ns = self.since_frame_ns.saturating_add(elapsed_ns);
        if self.since_frame_ns >= self.frame_duration_ns {
            self.current_frame = (self.current_frame + 1) % SPRITE_FRAMES;
            self.since_frame_ns = 0;
            true
        } else {
            false
        }
    }

    /// Whether the sprite, drawn as a square of side `2 * SPRITE_HALF` about
    /// its position, covers pixel `(px, py)`.
    pub open spec fn covers(&self, px: int, py: int) -> bool {
        &&& self.pos_x() - SPRITE_HALF <= px < self.pos_x() + SPRITE_HALF
        &&& self.pos_y() - SPRITE_HALF <= py < self.pos_y() + SPRITE_HALF
    }

    /// Draws the sprite as a square in the colour of its frame.
    pub fn draw_as_pixels(&self, fb: &mut Framebuffer)
        ensures
            final(fb)@.repaints(
                old(fb)@,
                |px: int, py: int| self.covers(px, py),
                |px: int, py: int| frame_color(self.frame()),
            ),
            final(fb)@.current == old(fb)@.current,
    {
        proof {
            use_type_invariant(self);
        }
        let color = match self.current_frame {
            0 => Palette::Yellow.color(),
            1 => Palette::Orange.color(),
            2 => Palette::Red.color(),
            _ => Palette::Yellow.color(),
        };
        let x0 = self.x as i64 - SPRITE_HALF;
        let x1 = self.x as i64 + SPRITE_HALF;
        let y0 = self.y as i64 - SPRITE_HALF;
        let y1 = self.y as i64 + SPRITE_HALF;
        fill_rect(
            fb,
            if x0 > 0 { x0 as usize } else { 0 },
            if x1 > 0 { x1 as usize } else { 0 },
            if y0 > 0 { y0 as usize } else { 0 },
            if y1 > 0 { y1 as usize } else { 0 },
            color,
        );
    }
}

/// The colour of pixel `(px, py)` after drawing `sprites` in order: that
/// of the last sprite covering it, or `None` where none does.
pub open spec fn sprites_color(sprites: Seq<AnimatedSprite>, px: int, py: int) -> Option<Color>
    decreases sprites.len(),
{
    if sprites.len() == 0 {
        None
    } else if sprites.last().covers(px, py) {
        Some(frame_color(sprites.last().frame()))
    } else {
        sprites_color(sprites.drop_last(), px, py)
    }
}

/// The animated sprites of the scene.
pub struct SpriteManager {
    pub sprites: Vec<AnimatedSprite>,
}

impl SpriteManager {
    /// Three sprites, at (200, 300), (600, 200) and (400, 450), changing
    /// frame every 500, 400 and 600 ms.
    pub fn new() -> (m: SpriteManager)
        ensures
            m.sprites@.len() == 3,
            m.sprites@[0].pos_x() == 200 && m.sprites@[0].pos_y() == 300,
            m.sprites@[1].pos_x() == 600 && m.sprites@[1].pos_y() == 200,
            m.sprites@[2].pos_x() == 400 && m.sprites@[2].pos_y() == 450,
            m.sprites@[0].duration() == 500_000_000,
            m.sprites@[1].duration() == 400_000_000,
            m.sprites@[2].duration() == 600_000_000,
            forall|i: int| 0 <= i < 3 ==> (#[trigger] m.sprites@[i]).frame() == 0 && m.sprites@[i].since() == 0,
    {
        let mut sprites: Vec<AnimatedSprite> = Vec::new();
        sprites.push(AnimatedSprite::new(200, 300, 500_000_000));
        sprites.push(AnimatedSprite::new(600, 200, 400_000_000));
        sprites.push(AnimatedSprite::new(400, 450, 600_000_000));
        SpriteManager { sprites }
    }

    /// Lets `elapsed_ns` nanoseconds pass for every sprite.
    pub fn update(&mut self, elapsed_ns: u64)
        ensures
            final(self).sprites@.len() == old(self).sprites@.len(),
            forall|i: int|
                0 <= i < old(self).sprites@.len() ==> (#[trigger] old(self).sprites@[i]).stepped(
                    elapsed_ns,
                    final(self).sprites@[i],
                ),
    {
        let ghost start = self.sprites@;
        let mut i: usize = 0;
        while i < self.sprites.len()
            invariant
                i <= self.sprites@.len(),
                self.sprites@.len() == start.len(),
                forall|j: int| 0 <= j < i ==> (#[trigger] start[j]).stepped(elapsed_ns, self.sprites@[j]),
                forall|j: int| i <= j < start.len() ==> #[trigger] self.sprites@[j] == start[j],
            decreases start.len() - i,
        {
            self.sprites[i].update(elapsed_ns);
            i += 1;
        }
    }

    /// Draws every sprite, in order.
    pub fn draw(&self, fb: &mut Framebuffer)
        ensures
            final(fb)@.repaints(
                old(fb)@,
                |px: int, py: int| sprites_color(self.sprites@, px, py) is Some,
                |px: int, py: int| sprites_color(self.sprites@, px, py)->0,
            ),
            final(fb)@.current == old(fb)@.current,
    {
        let _ = fb.width();
        let ghost start = fb@;
        let mut i: usize = 0;
        while i < self.sprites.len()
            invariant
                i <= self.sprites@.len(),
                start.wf(),
                fb@.current == start.current,
                fb@.repaints(
                    start,
                    |px: int, py: int| sprites_color(self.sprites@.take(i as int), px, py) is Some,
                    |px: int, py: int| sprites_color(self.sprites@.take(i as int), px, py)->0,
                ),
            decreases self.sprites@.len() - i,
        {
            let ghost prev = fb@;
            self.sprites[i].draw_as_pixels(fb);
            assert(self.sprites@.take(i + 1).drop_last() =~= self.sprites@.take(i as int));
            assert forall|px: int, py: int| fb@.in_bounds(px, py) implies #[trigger] fb@.at(px, py)
                == if sprites_color(self.sprites@.take(i + 1), px, py) is Some {
                sprites_color(self.sprites@.take(i + 1), px, py)->0
            } else {
                start.at(px, py)
            } by {
                assert(prev.in_bounds(px, py));
            }
            i += 1;
        }
        assert(self.sprites@.take(i as int) =~= self.sprites@);
    }
}

} // verus!
