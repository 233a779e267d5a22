use partycle::geometry::{Quad, Rgba, Vertex};
use partycle::lifetime::Lifetime;
use partycle::particles::{fade, update, Particles};
use partycle::{ENTITIES, HEIGHT, QUAD, WIDTH};

fn quad_at(x: u32, y: u32) -> Quad {
    let v = Vertex { x: 0, y: 0, color: Rgba { r: 1, g: 2, b: 3, a: 4 } };
    let mut q = Quad { vertices: [v; 6] };
    q.set_position(x, y, QUAD);
    q
}

fn assert_valid(q: &Quad) {
    let (x, y) = (q.vertices[0].x, q.vertices[0].y);
    let want = [
        (x, y),
        (x + QUAD, y),
        (x, y + QUAD),
        (x + QUAD, y),
        (x + QUAD, y + QUAD),
        (x, y + QUAD),
    ];
    for i in 0..6 {
        assert_eq!((q.vertices[i].x, q.vertices[i].y), want[i]);
        assert!(q.vertices[i].x <= WIDTH && q.vertices[i].y <= HEIGHT);
    }
}

#[test]
fn five_frames_fade_to_half() {
    let mut q = quad_at(100, 100);
    let mut l = Lifetime { acc: 0, inc: 1000, max: 10000 };
    for _ in 0..5 {
        update(&mut q, &mut l);
    }
    assert_eq!(l.acc, 5000);
    // the alpha written on the next frame
    update(&mut q, &mut l);
    for i in 0..6 {
        assert_eq!(q.vertices[i].color.a, 128);
    }
    assert_eq!((q.vertices[0].x, q.vertices[0].y), (100, 100));
}

#[test]
fn respawn_when_maximum_reached() {
    let mut q = quad_at(100, 100);
    let mut l = Lifetime { acc: 0, inc: 10000, max: 10000 };
    update(&mut q, &mut l);
    assert_eq!(l.acc, 0);
    assert_eq!(l.inc, 10000);
    assert_eq!(l.max, 10000);
    assert_valid(&q);
    let c = q.vertices[0].color;
    for i in 0..6 {
        assert_eq!(q.vertices[i].color, c);
        assert_eq!(q.vertices[i].color.a, 255);
    }
    // next frame: the accumulator starts over from zero
    update(&mut q, &mut l);
    for i in 0..6 {
        assert_eq!(q.vertices[i].color.a, 255);
    }
    assert_eq!(l.acc, 0);
}

#[test]
fn fade_without_respawn_stays_dead() {
    let mut q = quad_at(10, 20);
    let mut l = Lifetime { acc: 0, inc: 4000, max: 10000 };
    let mut dues = Vec::new();
    for _ in 0..5 {
        dues.push(fade(&mut q, &mut l));
    }
    assert_eq!(dues, vec![false, false, true, true, true]);
    assert_eq!(l.acc, 20000);
    for i in 0..6 {
        assert_eq!(q.vertices[i].color.a, 0);
        assert_eq!(q.vertices[i].color.r, 1);
    }
    assert_eq!((q.vertices[0].x, q.vertices[0].y), (10, 20));
}

#[test]
fn fade_writes_alpha_before_advancing() {
    let mut q = quad_at(0, 0);
    let mut l = Lifetime { acc: 2500, inc: 500, max: 10000 };
    let due = fade(&mut q, &mut l);
    assert!(!due);
    assert_eq!(l.acc, 3000);
    for i in 0..6 {
        assert_eq!(q.vertices[i].color.a, 191);
    }
}

#[test]
fn zero_maximum_gives_zero_alpha_and_respawns() {
    let mut q = quad_at(3, 3);
    let mut l = Lifetime { acc: 0, inc: 0, max: 0 };
    update(&mut q, &mut l);
    assert_eq!(l.acc, 0);
    for i in 0..6 {
        assert_eq!(q.vertices[i].color.a, 0);
    }
    assert_valid(&q);
}

#[test]
fn scene_of_ten_thousand_stays_on_surface() {
    let mut p = Particles::new(ENTITIES);
    assert_eq!(p.len(), 10000);
    for l in p.lifetimes.iter() {
        assert_eq!(l.acc, 0);
    }
    for q in p.quads.iter() {
        assert_valid(q);
    }
    for _ in 0..30 {
        p.update();
        assert_eq!(p.len(), 10000);
        assert_eq!(p.lifetimes.len(), 10000);
        for q in p.quads.iter() {
            assert_valid(q);
        }
        for l in p.lifetimes.iter() {
            assert!(l.acc <= l.max);
        }
    }
}

#[test]
fn scene_update_is_per_particle() {
    let mut p = Particles::new(0);
    p.quads.push(quad_at(10, 10));
    p.lifetimes.push(Lifetime { acc: 0, inc: 1000, max: 10000 });
    p.quads.push(quad_at(20, 20));
    p.lifetimes.push(Lifetime { acc: 9000, inc: 1000, max: 10000 });
    p.update();
    assert_eq!(p.lifetimes[0].acc, 1000);
    assert_eq!((p.quads[0].vertices[0].x, p.quads[0].vertices[0].y), (10, 10));
    assert_eq!(p.quads[0].vertices[0].color.a, 255);
    assert_eq!(p.lifetimes[1].acc, 0);
    // (1 - 0.9) * 255 = 25.5
    assert_eq!(p.quads[1].vertices[0].color.a, 26);
    assert_valid(&p.quads[1]);
}

#[test]
fn empty_scene_updates() {
    let mut p = Particles::new(0);
    p.update();
    assert_eq!(p.len(), 0);
}
