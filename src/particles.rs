//! The fade-and-respawn update, per particle and over the whole scene.
use crate::geometry::{Quad, Vertex};
use crate::lifetime::{alpha_of, Lifetime};
use crate::{HEIGHT, QUAD, WIDTH};
use vstd::prelude::*;

verus! {

/// What one frame does to a particle with quad `q0` and lifetime `l0`, leaving
/// `q1` and `l1`. Every vertex takes the transparency of the current
/// accumulator; the accumulator grows by the increment; once it reaches the
/// maximum the quad is moved to a random place on the surface with one random
/// colour, its transparency kept, and the accumulator goes back to zero.
pub open spec fn frame_result(q0: Quad, l0: Lifetime, q1: Quad, l1: Lifetime) -> bool {
    let a = alpha_of(l0.acc as int, l0.max as int) as u8;
    if l0.acc + l0.inc < l0.max {
        q1.vertices@ == q0.vertices@.map_values(|v: Vertex| v.with_alpha(a)) && l1 == l0.ticked()
    } else {
        l1 == l0.reset() && q1.placed_within(WIDTH as int, HEIGHT as int, QUAD as int)
            && q1.one_rgb() && q1.has_alpha(a)
    }
}

/// Fades and ages one particle, without respawning it: gives every vertex the
/// transparency of the current accumulator, then adds the increment. True
/// when the particle is due to respawn.
pub fn fade(quad: &mut Quad, life: &mut Lifetime) -> (due: bool)
    requires
        old(life).acc + old(life).inc <= u32::MAX,
    ensures
        final(quad).vertices@ == old(quad).vertices@.map_values(
            |v: Vertex| v.with_alpha(alpha_of(old(life).acc as int, old(life).max as int) as u8),
        ),
        *final(life) == old(life).ticked(),
        due == (final(life).acc >= final(life).max),
{
    let a = life.alpha();
    quad.set_alpha(a);
    life.tick()
}

/// One frame of one particle, as `frame_result` describes it.
pub fn update(quad: &mut Quad, life: &mut Lifetime)
    requires
        old(life).wf(),
    ensures
        frame_result(*old(quad), *old(life), *final(quad), *final(life)),
        final(life).wf(),
{
    let ghost a = alpha_of(life.acc as int, life.max as int) as u8;
    let due = fade(quad, life);
    assert(quad.has_alpha(a));
    if due {
        quad.rand_pos();
        let ghost placed = *quad;
        quad.rand_color();
        proof {
            quad.lemma_placed_kept(placed, WIDTH as int, HEIGHT as int, QUAD as int);
            assert(quad.has_alpha(a));
        }
        life.acc = 0;
    }
}

/// All particles of a scene: particle `i` is the quad `quads[i]` with the
/// lifetime `lifetimes[i]`.
pub struct Particles {
    pub quads: Vec<Quad>,
    pub lifetimes: Vec<Lifetime>,
}

impl Particles {
    /// One lifetime per quad, every quad placed on the surface and every
    /// lifetime well formed.
    pub open spec fn wf(&self) -> bool {
        &&& self.quads@.len() == self.lifetimes@.len()
        &&& forall|i: int|
            0 <= i < self.quads@.len() ==> (#[trigger] self.quads@[i]).placed_within(
                WIDTH as int,
                HEIGHT as int,
                QUAD as int,
            ) && self.lifetimes@[i].wf()
    }

    /// `n` particles at random places with random colours and lifetimes.
    pub fn new(n: usize) -> (p: Particles)
        ensures
            p.wf(),
            p.quads@.len() == n,
            forall|i: int| 0 <= i < n ==> (#[trigger] p.lifetimes@[i]).acc == 0,
    {
        let mut quads: Vec<Quad> = Vec::new();
        let mut lifetimes: Vec<Lifetime> = Vec::new();
        let mut k: usize = 0;
        while k < n
            invariant
                k <= n,
                quads@.len() == k,
                lifetimes@.len() == k,
                forall|i: int|
                    0 <= i < k ==> (#[trigger] quads@[i]).placed_within(
                        WIDTH as int,
                        HEIGHT as int,
                        QUAD as int,
                    ),
                forall|i: int|
                    0 <= i < k ==> (#[trigger] lifetimes@[i]).wf() && lifetimes@[i].acc == 0,
            decreases n - k,
        {
            quads.push(Quad::new());
            lifetimes.push(Lifetime::new());
            k = k + 1;
        }
        Particles { quads, lifetimes }
    }

    /// Number of particles.
    pub fn len(&self) -> (n: usize)
        ensures
            n == self.quads@.len(),
    {
        self.quads.len()
    }

    /// One frame of the whole scene: each particle is updated as `update`
    /// does, from its own quad and lifetime alone.
    pub fn update(&mut self)
        requires
            old(self).wf(),
        ensures
            next_frame(*old(self), *final(self)),
            final(self).wf(),
    {
        let n = self.quads.len();
        let ghost start = *self;
        let mut k: usize = 0;
        while k < n
            invariant
                k <= n,
                start.wf(),
                n == start.quads@.len(),
                self.quads@.len() == n,
                self.lifetimes@.len() == n,
                forall|i: int|
                    0 <= i < k ==> frame_result(
                        start.quads@[i],
                        start.lifetimes@[i],
                        #[trigger] self.quads@[i],
                        self.lifetimes@[i],
                    ),
                forall|i: int| k <= i < n ==> #[trigger] self.quads@[i] == start.quads@[i],
                forall|i: int| k <= i < n ==> #[trigger] self.lifetimes@[i] == start.lifetimes@[i],
            decreases n - k,
        {
            update(&mut self.quads[k], &mut self.lifetimes[k]);
            k = k + 1;
        }
        proof {
            lemma_next_frame_keeps_wf(start, *self);
        }
    }
}

/// `p1` is a frame after `p0`: as many particles, each updated from its own
/// quad and lifetime as `frame_result` describes.
pub open spec fn next_frame(p0: Particles, p1: Particles) -> bool {
    &&& p1.quads@.len() == p0.quads@.len()
    &&& p1.lifetimes@.len() == p0.lifetimes@.len()
    &&& forall|i: int|
        0 <= i < p0.quads@.len() ==> frame_result(
            p0.quads@[i],
            p0.lifetimes@[i],
            #[trigger] p1.quads@[i],
            p1.lifetimes@[i],
        )
}

/// A frame keeps a well-formed scene well formed.
pub proof fn lemma_next_frame_keeps_wf(p0: Particles, p1: Particles)
    requires
        p0.wf(),
        next_frame(p0, p1),
    ensures
        p1.wf(),
{
    assert forall|i: int| 0 <= i < p1.quads@.len() implies (#[trigger] p1.quads@[i]).placed_within(
        WIDTH as int,
        HEIGHT as int,
        QUAD as int,
    ) && p1.lifetimes@[i].wf() by {
        let q0 = p0.quads@[i];
        let l0 = p0.lifetimes@[i];
        let q1 = p1.quads@[i];
        if l0.acc + l0.inc < l0.max {
            assert(q1.same_positions(q0));
            q1.lemma_placed_kept(q0, WIDTH as int, HEIGHT as int, QUAD as int);
        }
    }
}

/// However many frames a scene created well formed goes through, every
/// vertex of every particle stays on the surface and every quad stays a
/// square of the quad edge length.
pub proof fn lemma_frames_stay_inside(run: Seq<Particles>)
    requires
        run.len() > 0,
        run[0].wf(),
        forall|k: int| 0 <= k < run.len() - 1 ==> next_frame(#[trigger] run[k], run[k + 1]),
    ensures
        forall|k: int, i: int|
            0 <= k < run.len() && 0 <= i < run[k].quads@.len() ==> (#[trigger] run[k].quads@[i]).within(
                WIDTH as int,
                HEIGHT as int,
            ) && run[k].quads@[i].is_square(QUAD as int),
    decreases run.len(),
{
    if run.len() > 1 {
        let head = run.drop_last();
        lemma_frames_stay_inside(head);
        let k = run.len() - 2;
        assert(head[k] == run[k]);
        assert(head[k].wf()) by {
            lemma_frames_wf(head, k);
        }
        assert(next_frame(run[k], run[k + 1]));
        lemma_next_frame_keeps_wf(run[k], run[k + 1]);
    }
    assert forall|k: int, i: int|
        0 <= k < run.len() && 0 <= i < run[k].quads@.len() implies (#[trigger] run[k].quads@[i]).within(
        WIDTH as int,
        HEIGHT as int,
    ) && run[k].quads@[i].is_square(QUAD as int) by {
        lemma_frames_wf(run, k);
        run[k].quads@[i].lemma_placed_is_inside(WIDTH as int, HEIGHT as int, QUAD as int);
    }
}

proof fn lemma_frames_wf(run: Seq<Particles>, k: int)
    requires
        0 <= k < run.len(),
        run[0].wf(),
        forall|j: int| 0 <= j < run.len() - 1 ==> next_frame(#[trigger] run[j], run[j + 1]),
    ensures
        run[k].wf(),
    decreases k,
{
    if k > 0 {
        lemma_frames_wf(run, k - 1);
        lemma_next_frame_keeps_wf(run[k - 1], run[k]);
    }
}

} // verus!
