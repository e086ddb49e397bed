//! Sprite geometry tests: exact clip-space corners, quad index data, and
//! draw-call batching.

use kakistocracy::sprite::{
    build_quad_vertices, create_quads_index_data, draw_plan, sprite_vertex, Frac, FracRange,
    Instance, Rotation, SpriteViewport,
};

fn range(start: Frac, end: Frac) -> FracRange {
    FracRange { start, end }
}

fn centered_instance(vp: &SpriteViewport) -> Instance {
    // Anchored at the viewport center, extending half the viewport each way.
    Instance {
        anchor: (vp.x + vp.width / 2, vp.y + vp.height / 2, 3),
        rotation: Rotation::none(),
        dimensions: (
            range(Frac::new(-vp.width, 2), Frac::new(vp.width, 2)),
            range(Frac::new(-vp.height, 2), Frac::new(vp.height, 2)),
        ),
        texcoords: (
            range(Frac::whole(0), Frac::whole(1)),
            range(Frac::whole(0), Frac::whole(1)),
        ),
    }
}

fn assert_is(v: kakistocracy::sprite::Frac128, expected: i128) {
    // The fraction equals the expected whole number.
    assert_eq!(v.num, expected * v.den);
}

#[test]
fn centered_sprite_hits_clip_corners() {
    // Even dimensions, so the center is exact; the corners land exactly on
    // the corners of clip space whatever the viewport size.
    for (w, h) in [(640, 480), (2, 2), (1024, 768), (320, 230)] {
        let vp = SpriteViewport { x: 0, y: 0, width: w, height: h };
        let inst = centered_instance(&vp);
        let c0 = sprite_vertex(&inst, &vp, 0);
        let c1 = sprite_vertex(&inst, &vp, 1);
        let c2 = sprite_vertex(&inst, &vp, 2);
        let c3 = sprite_vertex(&inst, &vp, 3);
        assert_is(c0.x, -1);
        assert_is(c0.y, 1);
        assert_is(c1.x, 1);
        assert_is(c1.y, 1);
        assert_is(c2.x, 1);
        assert_is(c2.y, -1);
        assert_is(c3.x, -1);
        assert_is(c3.y, -1);
        assert_eq!(c0.z, 3);
        assert_eq!(c0.u, Frac::whole(0));
        assert_eq!(c2.u, Frac::whole(1));
    }
}

#[test]
fn offset_viewport_projection() {
    // A viewport not at the origin: the anchor pixel (vx + vw/2, vy) is the
    // horizontal center on the top edge, so it projects to (0, 1).
    let vp = SpriteViewport { x: 100, y: 200, width: 50, height: 40 };
    let inst = Instance {
        anchor: (125, 200, 0),
        rotation: Rotation::none(),
        dimensions: (
            range(Frac::whole(0), Frac::whole(0)),
            range(Frac::whole(0), Frac::whole(0)),
        ),
        texcoords: (
            range(Frac::whole(0), Frac::whole(0)),
            range(Frac::whole(0), Frac::whole(0)),
        ),
    };
    let v = sprite_vertex(&inst, &vp, 0);
    assert_is(v.x, 0);
    assert_is(v.y, 1);
}

#[test]
fn quarter_turn_rotation_swaps_axes() {
    // A quarter turn clockwise: cosine 0, sine 1.  The extent corner
    // (dx, dy) = (10, 0) lands at anchor + (0, 10).
    let vp = SpriteViewport { x: 0, y: 0, width: 100, height: 100 };
    let inst = Instance {
        anchor: (50, 50, 0),
        rotation: Rotation { cos_num: 0, sin_num: 1, den: 1 },
        dimensions: (
            range(Frac::whole(10), Frac::whole(10)),
            range(Frac::whole(0), Frac::whole(0)),
        ),
        texcoords: (
            range(Frac::whole(0), Frac::whole(0)),
            range(Frac::whole(0), Frac::whole(0)),
        ),
    };
    let v = sprite_vertex(&inst, &vp, 0);
    // x' = 2 * (50 - 0) / 100 - 1 = 0; y' = 1 - 2 * (60 - 0) / 100 = -1/5.
    assert_is(v.x, 0);
    assert_eq!(v.y.num * 5, -v.y.den);
}

#[test]
fn quads_index_data_pattern() {
    let data = create_quads_index_data(2);
    assert_eq!(data, vec![0, 1, 2, 0, 2, 3, 4, 5, 6, 4, 6, 7, 8, 9, 10, 8, 10, 11]);

    let full = create_quads_index_data(0x3FFF);
    assert_eq!(full.len(), 6 * 0x4000);
    assert_eq!(full[full.len() - 1], u16::MAX);
}

#[test]
fn draw_plan_batches_by_index_capacity() {
    let vp = SpriteViewport { x: 0, y: 0, width: 64, height: 64 };
    let inst = centered_instance(&vp);

    // The documented no-op: no instances, no draw call.
    let empty: Vec<Instance> = Vec::new();
    assert_eq!(draw_plan(&empty, &vp).len(), 0);

    let three = vec![inst, inst, inst];
    let plan = draw_plan(&three, &vp);
    assert_eq!(plan.len(), 1);
    assert_eq!(plan[0].first_instance, 0);
    assert_eq!(plan[0].instance_count, 3);
    assert_eq!(plan[0].vertices.len(), 12);

    // One more instance than a single draw call may carry.
    let many = vec![inst; 16384];
    let plan = draw_plan(&many, &vp);
    assert_eq!(plan.len(), 2);
    assert_eq!(plan[0].instance_count, 16383);
    assert_eq!(plan[1].first_instance, 16383);
    assert_eq!(plan[1].instance_count, 1);
    assert_eq!(plan[1].vertices.len(), 4);
}

#[test]
fn quad_vertices_follow_instances() {
    let vp = SpriteViewport { x: 0, y: 0, width: 10, height: 10 };
    let a = centered_instance(&vp);
    let mut b = a;
    b.anchor = (0, 0, 9);
    let both = vec![a, b];
    let verts = build_quad_vertices(&both, 0, 2, &vp);
    assert_eq!(verts.len(), 8);
    assert_eq!(verts[0].z, 3);
    assert_eq!(verts[4].z, 9);
    // First instance is the centered one: its first corner is (-1, 1).
    assert_is(verts[0].x, -1);
    assert_is(verts[0].y, 1);
}
