//! Particle geometry: a square drawn as two triangles, six coloured vertices.
use crate::random::{random_byte, sample_range};
use crate::{HEIGHT, QUAD, WIDTH};
use vstd::prelude::*;

verus! {

/// Transparency given to a quad when it is created. It is `1`, nearly
/// invisible; the first fade step overwrites it.
pub const INITIAL_ALPHA: u8 = 1;

/// An RGBA colour.
#[derive(Clone, Copy, Debug, PartialEq, Eq, Structural)]
pub struct Rgba {
    pub r: u8,
    pub g: u8,
    pub b: u8,
    pub a: u8,
}

/// A vertex: a position in whole pixels and a colour.
#[derive(Clone, Copy, Debug, PartialEq, Eq, Structural)]
pub struct Vertex {
    pub x: u32,
    pub y: u32,
    pub color: Rgba,
}

impl Vertex {
    /// The vertex with its transparency replaced.
    pub open spec fn with_alpha(self, a: u8) -> Vertex {
        Vertex { color: Rgba { a, ..self.color }, ..self }
    }

    /// The vertex with its red, green and blue replaced.
    pub open spec fn with_rgb(self, r: u8, g: u8, b: u8) -> Vertex {
        Vertex { color: Rgba { r, g, b, a: self.color.a }, ..self }
    }
}

/// Position of vertex `i` of the square with top-left corner `(x, y)` and
/// edge `e`: the triangles `0 1 2` and `3 4 5` share the diagonal from the
/// top-right to the bottom-left corner.
pub open spec fn corner(x: int, y: int, e: int, i: int) -> (int, int) {
    if i == 0 {
        (x, y)
    } else if i == 1 || i == 3 {
        (x + e, y)
    } else if i == 2 || i == 5 {
        (x, y + e)
    } else {
        (x + e, y + e)
    }
}

/// Two triangles forming one particle.
#[derive(Clone, Copy, Debug)]
pub struct Quad {
    pub vertices: [Vertex; 6],
}

impl Quad {
    /// The vertices lie on the square with corner `(x, y)` and edge `e`.
    pub open spec fn is_square_at(&self, x: int, y: int, e: int) -> bool {
        forall|i: int|
            0 <= i < 6 ==> (#[trigger] self.vertices@[i]).x == corner(x, y, e, i).0
                && self.vertices@[i].y == corner(x, y, e, i).1
    }

    /// The vertices lie on some square of edge `e`.
    pub open spec fn is_square(&self, e: int) -> bool {
        exists|x: int, y: int| self.is_square_at(x, y, e)
    }

    /// The quad is a square of edge `e` whose corner was drawn from
    /// `[0, w - e) x [0, h - e)`.
    pub open spec fn placed_within(&self, w: int, h: int, e: int) -> bool {
        exists|x: int, y: int|
            0 <= x && x + e < w && 0 <= y && y + e < h && self.is_square_at(x, y, e)
    }

    /// Every vertex lies in `[0, w] x [0, h]`.
    pub open spec fn within(&self, w: int, h: int) -> bool {
        forall|i: int| 0 <= i < 6 ==> (#[trigger] self.vertices@[i]).x <= w && self.vertices@[i].y <= h
    }

    /// All six vertices have transparency `a`.
    pub open spec fn has_alpha(&self, a: u8) -> bool {
        forall|i: int| 0 <= i < 6 ==> (#[trigger] self.vertices@[i]).color.a == a
    }

    /// All six vertices have red, green and blue `r`, `g`, `b`.
    pub open spec fn has_rgb(&self, r: u8, g: u8, b: u8) -> bool {
        forall|i: int|
            0 <= i < 6 ==> (#[trigger] self.vertices@[i]).color.r == r && self.vertices@[i].color.g
                == g && self.vertices@[i].color.b == b
    }

    /// All six vertices share one red, green and blue.
    pub open spec fn one_rgb(&self) -> bool {
        exists|r: u8, g: u8, b: u8| self.has_rgb(r, g, b)
    }

    /// Both quads have the same vertex positions.
    pub open spec fn same_positions(&self, other: Quad) -> bool {
        forall|i: int|
            0 <= i < 6 ==> (#[trigger] self.vertices@[i]).x == other.vertices@[i].x
                && self.vertices@[i].y == other.vertices@[i].y
    }

    /// Both quads have the same vertex colours.
    pub open spec fn same_colors(&self, other: Quad) -> bool {
        forall|i: int| 0 <= i < 6 ==> (#[trigger] self.vertices@[i]).color == other.vertices@[i].color
    }

    /// Every vertex lies in `[0, w] x [0, h]` and the quad is a square of
    /// edge `e` whose corner was drawn from `[0, w - e) x [0, h - e)`.
    pub proof fn lemma_placed_is_inside(&self, w: int, h: int, e: int)
        requires
            self.placed_within(w, h, e),
            0 <= e,
        ensures
            self.within(w, h),
            self.is_square(e),
    {
        let (x, y) = choose|x: int, y: int|
            0 <= x && x + e < w && 0 <= y && y + e < h && self.is_square_at(x, y, e);
        assert(self.is_square_at(x, y, e));
    }

    /// A quad with the same vertex positions as one that was placed within
    /// bounds is placed within them too.
    pub proof fn lemma_placed_kept(&self, other: Quad, w: int, h: int, e: int)
        requires
            other.placed_within(w, h, e),
            self.same_positions(other),
        ensures
            self.placed_within(w, h, e),
    {
        let (x, y) = choose|x: int, y: int|
            0 <= x && x + e < w && 0 <= y && y + e < h && other.is_square_at(x, y, e);
        assert(self.is_square_at(x, y, e));
    }

    /// Moves the quad onto the square with corner `(x, y)` and edge `edge`,
    /// keeping every vertex's colour.
    pub fn set_position(&mut self, x: u32, y: u32, edge: u32)
        requires
            x + edge <= u32::MAX,
            y + edge <= u32::MAX,
        ensures
            final(self).is_square_at(x as int, y as int, edge as int),
            final(self).same_colors(*old(self)),
    {
        let x1 = x + edge;
        let y1 = y + edge;
        self.vertices[0] = Vertex { x: x, y: y, color: self.vertices[0].color };
        self.vertices[1] = Vertex { x: x1, y: y, color: self.vertices[1].color };
        self.vertices[2] = Vertex { x: x, y: y1, color: self.vertices[2].color };
        self.vertices[3] = Vertex { x: x1, y: y, color: self.vertices[3].color };
        self.vertices[4] = Vertex { x: x1, y: y1, color: self.vertices[4].color };
        self.vertices[5] = Vertex { x: x, y: y1, color: self.vertices[5].color };
    }

    /// Gives every vertex transparency `a`, leaving the rest as it was.
    pub fn set_alpha(&mut self, a: u8)
        ensures
            final(self).vertices@ == old(self).vertices@.map_values(|v: Vertex| v.with_alpha(a)),
            final(self).has_alpha(a),
    {
        let ghost start = self.vertices@;
        let mut i: usize = 0;
        while i < 6
            invariant
                0 <= i <= 6,
                self.vertices@.len() == 6,
                start.len() == 6,
                forall|j: int| 0 <= j < i ==> self.vertices@[j] == start[j].with_alpha(a),
                forall|j: int| i <= j < 6 ==> self.vertices@[j] == start[j],
            decreases 6 - i,
        {
            let v = self.vertices[i];
            self.vertices[i] = Vertex { color: Rgba { a, ..v.color }, ..v };
            i = i + 1;
        }
        assert(self.vertices@ =~= start.map_values(|v: Vertex| v.with_alpha(a)));
    }

    /// Gives every vertex red, green and blue `r`, `g`, `b`, leaving positions
    /// and transparency as they were.
    pub fn set_rgb(&mut self, r: u8, g: u8, b: u8)
        ensures
            final(self).vertices@ == old(self).vertices@.map_values(|v: Vertex| v.with_rgb(r, g, b)),
    {
        let ghost start = self.vertices@;
        let mut i: usize = 0;
        while i < 6
            invariant
                0 <= i <= 6,
                self.vertices@.len() == 6,
                start.len() == 6,
                forall|j: int| 0 <= j < i ==> self.vertices@[j] == start[j].with_rgb(r, g, b),
                forall|j: int| i <= j < 6 ==> self.vertices@[j] == start[j],
            decreases 6 - i,
        {
            let v = self.vertices[i];
            self.vertices[i] = Vertex { color: Rgba { r, g, b, a: v.color.a }, ..v };
            i = i + 1;
        }
        assert(self.vertices@ =~= start.map_values(|v: Vertex| v.with_rgb(r, g, b)));
    }
    /// Moves the quad onto a square of edge `edge` whose top-left corner is
    /// drawn uniformly from `[0, width - edge) x [0, height - edge)`, keeping
    /// every vertex's colour.
    pub fn rand_pos_within(&mut self, width: u32, height: u32, edge: u32)
        requires
            edge < width,
            edge < height,
        ensures
            final(self).placed_within(width as int, height as int, edge as int),
            final(self).within(width as int, height as int),
            final(self).is_square(edge as int),
            final(self).same_colors(*old(self)),
    {
        let x = sample_range(0, width - edge);
        let y = sample_range(0, height - edge);
        self.set_position(x, y, edge);
        assert(self.is_square_at(x as int, y as int, edge as int));
        proof {
            self.lemma_placed_is_inside(width as int, height as int, edge as int);
        }
    }

    /// Moves the quad to a random place on the surface, as `rand_pos_within`
    /// does with the surface's size and the quad edge length.
    pub fn rand_pos(&mut self)
        ensures
            final(self).placed_within(WIDTH as int, HEIGHT as int, QUAD as int),
            final(self).within(WIDTH as int, HEIGHT as int),
            final(self).is_square(QUAD as int),
            final(self).same_colors(*old(self)),
    {
        self.rand_pos_within(WIDTH, HEIGHT, QUAD);
    }

    /// Gives all six vertices one red, green and blue, each drawn uniformly
    /// from `[0, 255]`; positions and transparency stay as they were.
    pub fn rand_color(&mut self)
        ensures
            final(self).one_rgb(),
            final(self).same_positions(*old(self)),
            forall|i: int| 0 <= i < 6 ==> (#[trigger] final(self).vertices@[i]).color.a == old(self).vertices@[i].color.a,
    {
        let r = random_byte();
        let g = random_byte();
        let b = random_byte();
        self.set_rgb(r, g, b);
        assert(self.has_rgb(r, g, b));
    }

    /// A quad placed as `rand_pos_within` places it, with one random colour
    /// as `rand_color` draws it, and transparency `alpha`.
    pub fn random(width: u32, height: u32, edge: u32, alpha: u8) -> (q: Quad)
        requires
            edge < width,
            edge < height,
        ensures
            q.placed_within(width as int, height as int, edge as int),
            q.within(width as int, height as int),
            q.is_square(edge as int),
            q.one_rgb(),
            q.has_alpha(alpha),
    {
        let blank = Vertex { x: 0, y: 0, color: Rgba { r: 0, g: 0, b: 0, a: alpha } };
        let mut q = Quad { vertices: [blank; 6] };
        assert(q.has_alpha(alpha));
        q.rand_pos_within(width, height, edge);
        let ghost placed = q;
        q.rand_color();
        proof {
            q.lemma_placed_kept(placed, width as int, height as int, edge as int);
            q.lemma_placed_is_inside(width as int, height as int, edge as int);
        }
        q
    }

    /// A quad at a random place on the surface, with a random colour and
    /// transparency `INITIAL_ALPHA`.
    pub fn new() -> (q: Quad)
        ensures
            q.placed_within(WIDTH as int, HEIGHT as int, QUAD as int),
            q.within(WIDTH as int, HEIGHT as int),
            q.is_square(QUAD as int),
            q.one_rgb(),
            q.has_alpha(INITIAL_ALPHA),
    {
        Quad::random(WIDTH, HEIGHT, QUAD, INITIAL_ALPHA)
    }
}

} // verus!
