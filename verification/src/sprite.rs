//! Sprite quads: exact clip-space geometry for textured rectangles.
//!
//! Each sprite instance is a rectangle anchored at a pixel position, rotated
//! about that anchor, and textured from a UV rectangle.  Every quantity here
//! is an exact fraction of integers, so the four corners a host uploads are
//! pinned down exactly: corner `(x, y)` of the rotated extent lands at clip
//! coordinates `x' = 2 * (x - vx) / vw - 1` and `y' = 1 - 2 * (y - vy) / vh`
//! for a viewport at `(vx, vy)` of size `vw` by `vh`.

use vstd::prelude::*;

verus! {

/// An exact fraction of 32-bit integers: `num / den` with `den > 0`.
#[derive(Clone, Copy, Debug, PartialEq, Eq, Structural)]
pub struct Frac {
    pub num: i32,
    pub den: i32,
}

impl Frac {
    pub open spec fn wf(self) -> bool {
        0 < self.den
    }

    /// A whole number.
    pub fn whole(num: i32) -> (r: Frac)
        ensures
            r.wf(),
            r == (Frac { num, den: 1 }),
    {
        Frac { num, den: 1 }
    }

    /// `num / den`; the sign lives in the numerator.
    pub fn new(num: i32, den: i32) -> (r: Frac)
        requires
            0 < den,
        ensures
            r.wf(),
            r == (Frac { num, den }),
    {
        Frac { num, den }
    }
}

/// A wide exact fraction, holding the projected clip coordinates.
#[derive(Clone, Copy, Debug, PartialEq, Eq, Structural)]
pub struct Frac128 {
    pub num: i128,
    pub den: i128,
}

impl Frac128 {
    pub open spec fn wf(self) -> bool {
        0 < self.den
    }
}

/// The fraction `f` equals the rational `n / d`, by cross multiplication.
pub open spec fn frac128_is(f: Frac128, n: int, d: int) -> bool {
    f.num * d == n * f.den
}

/// A range of fractions, `start .. end`.
#[derive(Clone, Copy, Debug, PartialEq, Eq, Structural)]
pub struct FracRange {
    pub start: Frac,
    pub end: Frac,
}

impl FracRange {
    pub open spec fn wf(self) -> bool {
        self.start.wf() && self.end.wf()
    }
}

/// A rotation about the anchor, given exactly as the cosine `cos_num / den`
/// and sine `sin_num / den` of the clockwise angle.
#[derive(Clone, Copy, Debug, PartialEq, Eq, Structural)]
pub struct Rotation {
    pub cos_num: i32,
    pub sin_num: i32,
    pub den: i32,
}

impl Rotation {
    pub open spec fn wf(self) -> bool {
        0 < self.den
    }

    /// No rotation: cosine one, sine zero.
    pub fn none() -> (r: Rotation)
        ensures
            r.wf(),
            r == (Rotation { cos_num: 1, sin_num: 0, den: 1 }),
    {
        Rotation { cos_num: 1, sin_num: 0, den: 1 }
    }
}

/// A sprite instance: where to draw one textured rectangle.
#[derive(Clone, Copy, Debug)]
pub struct Instance {
    /// The viewport position the sprite is anchored at: the center of
    /// rotation, which `dimensions` is relative to.  The third coordinate is
    /// carried through to the emitted vertices unchanged.
    pub anchor: (i32, i32, i32),
    /// How much to rotate the sprite around the anchor, clockwise.
    pub rotation: Rotation,
    /// The pixel extent, relative to the anchor, in the rotated frame.
    pub dimensions: (FracRange, FracRange),
    /// The texture coordinates to render with.
    pub texcoords: (FracRange, FracRange),
}

impl Instance {
    pub open spec fn wf(self) -> bool {
        &&& self.rotation.wf()
        &&& self.dimensions.0.wf() && self.dimensions.1.wf()
        &&& self.texcoords.0.wf() && self.texcoords.1.wf()
    }
}

/// The viewport sprites are projected against, in pixels.
#[derive(Clone, Copy, Debug, PartialEq, Eq, Structural)]
pub struct SpriteViewport {
    pub x: i32,
    pub y: i32,
    pub width: i32,
    pub height: i32,
}

impl SpriteViewport {
    pub open spec fn wf(self) -> bool {
        0 < self.width && 0 < self.height
    }
}

/// One emitted vertex: exact clip-space position and texture coordinates.
#[derive(Clone, Copy, Debug)]
pub struct SpriteVertex {
    pub x: Frac128,
    pub y: Frac128,
    pub z: i32,
    pub u: Frac,
    pub v: Frac,
}

/// The corners of a quad go counter-clockwise in extent space:
/// `(start, start)`, `(end, start)`, `(end, end)`, `(start, end)`.
pub open spec fn corner_dx(inst: Instance, k: int) -> Frac {
    if k == 0 || k == 3 {
        inst.dimensions.0.start
    } else {
        inst.dimensions.0.end
    }
}

pub open spec fn corner_dy(inst: Instance, k: int) -> Frac {
    if k == 0 || k == 1 {
        inst.dimensions.1.start
    } else {
        inst.dimensions.1.end
    }
}

pub open spec fn corner_u(inst: Instance, k: int) -> Frac {
    if k == 0 || k == 3 {
        inst.texcoords.0.start
    } else {
        inst.texcoords.0.end
    }
}

pub open spec fn corner_v(inst: Instance, k: int) -> Frac {
    if k == 0 || k == 1 {
        inst.texcoords.1.start
    } else {
        inst.texcoords.1.end
    }
}

/// The common denominator of corner `k`'s position: the product of the two
/// selected extent denominators and the rotation denominator.
pub open spec fn corner_den(inst: Instance, k: int) -> int {
    corner_dx(inst, k).den * corner_dy(inst, k).den * inst.rotation.den
}

/// Numerator, over `corner_den`, of corner `k`'s x position in the viewport:
/// `anchor.x + dx * cos - dy * sin`.
pub open spec fn corner_x_num(inst: Instance, k: int) -> int {
    inst.anchor.0 * corner_den(inst, k) + corner_dx(inst, k).num * inst.rotation.cos_num
        * corner_dy(inst, k).den - corner_dy(inst, k).num * inst.rotation.sin_num
        * corner_dx(inst, k).den
}

/// Numerator, over `corner_den`, of corner `k`'s y position in the viewport:
/// `anchor.y + dy * cos + dx * sin`.
pub open spec fn corner_y_num(inst: Instance, k: int) -> int {
    inst.anchor.1 * corner_den(inst, k) + corner_dy(inst, k).num * inst.rotation.cos_num
        * corner_dx(inst, k).den + corner_dx(inst, k).num * inst.rotation.sin_num
        * corner_dy(inst, k).den
}

/// Numerator, over `vp.width * corner_den`, of the clip x coordinate
/// `2 * (cx - vx) / vw - 1`.
pub open spec fn clip_x_num(inst: Instance, vp: SpriteViewport, k: int) -> int {
    2 * (corner_x_num(inst, k) - vp.x * corner_den(inst, k)) - vp.width * corner_den(inst, k)
}

/// Numerator, over `vp.height * corner_den`, of the clip y coordinate
/// `1 - 2 * (cy - vy) / vh`.
pub open spec fn clip_y_num(inst: Instance, vp: SpriteViewport, k: int) -> int {
    vp.height * corner_den(inst, k) - 2 * (corner_y_num(inst, k) - vp.y * corner_den(inst, k))
}

/// `vert` is exactly corner `k` of `inst` projected against `vp`.
pub open spec fn vertex_matches(inst: Instance, vp: SpriteViewport, k: int, vert: SpriteVertex) -> bool {
    &&& vert.x.wf() && vert.y.wf()
    &&& frac128_is(vert.x, clip_x_num(inst, vp, k), vp.width * corner_den(inst, k))
    &&& frac128_is(vert.y, clip_y_num(inst, vp, k), vp.height * corner_den(inst, k))
    &&& vert.z == inst.anchor.2
    &&& vert.u == corner_u(inst, k)
    &&& vert.v == corner_v(inst, k)
}

/// `|a * b| <= aa * bb` when `|a| <= aa` and `|b| <= bb`.
proof fn lemma_abs_mul(a: int, b: int, aa: int, bb: int)
    by (nonlinear_arith)
    requires
        -aa <= a <= aa,
        -bb <= b <= bb,
        0 <= aa,
        0 <= bb,
    ensures
        -(aa * bb) <= a * b <= aa * bb,
{
}

/// A product of positives is positive.
proof fn lemma_pos_mul(a: int, b: int)
    by (nonlinear_arith)
    requires
        0 < a,
        0 < b,
    ensures
        0 < a * b,
{
}

/// Bound of 32-bit magnitudes.
pub const B31: i128 = 0x8000_0000;

/// `B31` squared.
pub const B62: i128 = 0x4000_0000_0000_0000;

/// `B31` cubed.
pub const B93: i128 = 0x2000_0000_0000_0000_0000_0000;

/// `B31` to the fourth.
pub const B124: i128 = 0x1000_0000_0000_0000_0000_0000_0000_0000;

/// Compute corner `k` of `inst` projected against `vp`, exactly.
pub fn sprite_vertex(inst: &Instance, vp: &SpriteViewport, k: usize) -> (r: SpriteVertex)
    requires
        inst.wf(),
        vp.wf(),
        k < 4,
    ensures
        vertex_matches(*inst, *vp, k as int, r),
{
    let (dx, u): (Frac, Frac) = if k == 0 || k == 3 {
        (inst.dimensions.0.start, inst.texcoords.0.start)
    } else {
        (inst.dimensions.0.end, inst.texcoords.0.end)
    };
    let (dy, v): (Frac, Frac) = if k == 0 || k == 1 {
        (inst.dimensions.1.start, inst.texcoords.1.start)
    } else {
        (inst.dimensions.1.end, inst.texcoords.1.end)
    };
    let dxd: i128 = dx.den as i128;
    let dyd: i128 = dy.den as i128;
    let rd: i128 = inst.rotation.den as i128;
    let cn: i128 = inst.rotation.cos_num as i128;
    let sn: i128 = inst.rotation.sin_num as i128;
    let ax: i128 = inst.anchor.0 as i128;
    let ay: i128 = inst.anchor.1 as i128;
    let vx: i128 = vp.x as i128;
    let vy: i128 = vp.y as i128;
    let vw: i128 = vp.width as i128;
    let vh: i128 = vp.height as i128;
    proof {
        lemma_abs_mul(dxd as int, dyd as int, B31 as int, B31 as int);
    }
    let dd: i128 = dxd * dyd;
    proof {
        lemma_abs_mul(dd as int, rd as int, B62 as int, B31 as int);
        lemma_pos_mul(dxd as int, dyd as int);
        lemma_pos_mul(dd as int, rd as int);
    }
    let den: i128 = dd * rd;
    proof {
        lemma_abs_mul(dx.num as int, cn as int, B31 as int, B31 as int);
        lemma_abs_mul(dy.num as int, sn as int, B31 as int, B31 as int);
        lemma_abs_mul(dy.num as int, cn as int, B31 as int, B31 as int);
        lemma_abs_mul(dx.num as int, sn as int, B31 as int, B31 as int);
    }
    let xc: i128 = (dx.num as i128) * cn;
    let ys: i128 = (dy.num as i128) * sn;
    let yc: i128 = (dy.num as i128) * cn;
    let xs: i128 = (dx.num as i128) * sn;
    proof {
        lemma_abs_mul(xc as int, dyd as int, B62 as int, B31 as int);
        lemma_abs_mul(ys as int, dxd as int, B62 as int, B31 as int);
        lemma_abs_mul(yc as int, dxd as int, B62 as int, B31 as int);
        lemma_abs_mul(xs as int, dyd as int, B62 as int, B31 as int);
        lemma_abs_mul(ax as int, den as int, B31 as int, B93 as int);
        lemma_abs_mul(ay as int, den as int, B31 as int, B93 as int);
        lemma_abs_mul(vx as int, den as int, B31 as int, B93 as int);
        lemma_abs_mul(vy as int, den as int, B31 as int, B93 as int);
        lemma_abs_mul(vw as int, den as int, B31 as int, B93 as int);
        lemma_abs_mul(vh as int, den as int, B31 as int, B93 as int);
    }
    let cx_num: i128 = ax * den + xc * dyd - ys * dxd;
    let cy_num: i128 = ay * den + yc * dxd + xs * dyd;
    let nx_num: i128 = 2 * (cx_num - vx * den) - vw * den;
    let ny_num: i128 = vh * den - 2 * (cy_num - vy * den);
    proof {
        lemma_pos_mul(vw as int, den as int);
        lemma_pos_mul(vh as int, den as int);
    }
    let x = Frac128 { num: nx_num, den: vw * den };
    let y = Frac128 { num: ny_num, den: vh * den };
    SpriteVertex { x, y, z: inst.anchor.2, u, v }
}

/// The four corners of every instance in `instances[first .. first + count]`,
/// four vertices per instance, in instance order.
pub fn build_quad_vertices(
    instances: &Vec<Instance>,
    first: usize,
    count: usize,
    vp: &SpriteViewport,
) -> (r: Vec<SpriteVertex>)
    requires
        vp.wf(),
        first + count <= instances@.len(),
        forall|i: int| 0 <= i < instances@.len() ==> (#[trigger] instances@[i]).wf(),
    ensures
        r@.len() == 4 * count,
        forall|j: int, k: int| 0 <= j < count && 0 <= k < 4 ==> vertex_matches(
            instances@[first + j],
            *vp,
            k,
            #[trigger] r@[4 * j + k],
        ),
{
    let total: usize = instances.len();
    let mut out: Vec<SpriteVertex> = Vec::new();
    let mut j: usize = 0;
    while j < count
        invariant
            j <= count,
            total == instances@.len(),
            first + count <= instances@.len(),
            vp.wf(),
            forall|i: int| 0 <= i < instances@.len() ==> (#[trigger] instances@[i]).wf(),
            out@.len() == 4 * j,
            forall|jj: int, k: int| 0 <= jj < j && 0 <= k < 4 ==> vertex_matches(
                instances@[first + jj],
                *vp,
                k,
                #[trigger] out@[4 * jj + k],
            ),
        decreases count - j,
    {
        proof {
            assert(first + j < total);
        }
        let idx: usize = first + j;
        let inst = &instances[idx];
        let ghost pre = out@;
        let v0 = sprite_vertex(inst, vp, 0);
        let v1 = sprite_vertex(inst, vp, 1);
        let v2 = sprite_vertex(inst, vp, 2);
        let v3 = sprite_vertex(inst, vp, 3);
        out.push(v0);
        out.push(v1);
        out.push(v2);
        out.push(v3);
        proof {
            assert forall|jj: int, k: int| 0 <= jj < j + 1 && 0 <= k < 4 implies vertex_matches(
                instances@[first + jj],
                *vp,
                k,
                #[trigger] out@[4 * jj + k],
            ) by {
                if jj < j {
                    assert(out@[4 * jj + k] == pre[4 * jj + k]);
                    assert(vertex_matches(instances@[first + jj], *vp, k, pre[4 * jj + k]));
                } else {
                    if k == 0 {
                        assert(out@[4 * jj + k] == v0);
                    } else if k == 1 {
                        assert(out@[4 * jj + k] == v1);
                    } else if k == 2 {
                        assert(out@[4 * jj + k] == v2);
                    } else {
                        assert(out@[4 * jj + k] == v3);
                    }
                }
            }
        }
        j = j + 1;
    }
    out
}

/// The most quads one draw call may issue: the shared sixteen-bit index
/// buffer addresses four vertices per quad.
pub const MAX_QUADS_PER_DRAW: usize = 16383;

/// One draw call of a batched sprite draw: which instances it covers and the
/// vertices it uploads.
#[derive(Debug)]
pub struct DrawCall {
    pub first_instance: usize,
    pub instance_count: usize,
    pub vertices: Vec<SpriteVertex>,
}

/// How many instances the draw call starting at `first` covers: all that
/// remain, capped by the index buffer's capacity.
pub open spec fn chunk_len(n: int, first: int) -> int {
    if n - first < 16383 {
        n - first
    } else {
        16383
    }
}

/// Batch `instances` into draw calls of at most `MAX_QUADS_PER_DRAW` quads
/// each, covering every instance once, in order.  An empty instance list
/// yields no draw call at all: the documented no-op.
pub fn draw_plan(instances: &Vec<Instance>, vp: &SpriteViewport) -> (r: Vec<DrawCall>)
    requires
        vp.wf(),
        forall|i: int| 0 <= i < instances@.len() ==> (#[trigger] instances@[i]).wf(),
    ensures
        instances@.len() == 0 ==> r@.len() == 0,
        instances@.len() > 0 ==> 16383 * (r@.len() - 1) < instances@.len() <= 16383 * r@.len(),
        forall|c: int| 0 <= c < r@.len() ==> {
            let call = #[trigger] r@[c];
            &&& call.first_instance == 16383 * c
            &&& call.instance_count == chunk_len(instances@.len() as int, 16383 * c)
            &&& 0 < call.instance_count <= 16383
            &&& call.vertices@.len() == 4 * call.instance_count
            &&& forall|j: int, k: int| 0 <= j < call.instance_count && 0 <= k < 4
                ==> vertex_matches(
                instances@[16383 * c + j],
                *vp,
                k,
                #[trigger] call.vertices@[4 * j + k],
            )
        },
{
    let n = instances.len();
    let mut out: Vec<DrawCall> = Vec::new();
    let mut first: usize = 0;
    while first < n
        invariant
            first <= n,
            n == instances@.len(),
            vp.wf(),
            forall|i: int| 0 <= i < instances@.len() ==> (#[trigger] instances@[i]).wf(),
            first == 16383 * out@.len() || first == n,
            first <= n,
            out@.len() == 0 || 16383 * (out@.len() - 1) < first,
            first <= 16383 * out@.len(),
            forall|c: int| 0 <= c < out@.len() ==> {
                let call = #[trigger] out@[c];
                &&& call.first_instance == 16383 * c
                &&& call.instance_count == chunk_len(n as int, 16383 * c)
                &&& 0 < call.instance_count <= 16383
                &&& call.vertices@.len() == 4 * call.instance_count
                &&& forall|j: int, k: int| 0 <= j < call.instance_count && 0 <= k < 4
                    ==> vertex_matches(
                    instances@[16383 * c + j],
                    *vp,
                    k,
                    #[trigger] call.vertices@[4 * j + k],
                )
            },
        decreases n - first,
    {
        let count: usize = if n - first < 16383 {
            n - first
        } else {
            16383
        };
        let vertices = build_quad_vertices(instances, first, count, vp);
        let ghost pre = out@;
        out.push(DrawCall { first_instance: first, instance_count: count, vertices });
        proof {
            assert forall|c: int| 0 <= c < out@.len() implies {
                let call = #[trigger] out@[c];
                &&& call.first_instance == 16383 * c
                &&& call.instance_count == chunk_len(n as int, 16383 * c)
                &&& 0 < call.instance_count <= 16383
                &&& call.vertices@.len() == 4 * call.instance_count
                &&& forall|j: int, k: int| 0 <= j < call.instance_count && 0 <= k < 4
                    ==> vertex_matches(
                    instances@[16383 * c + j],
                    *vp,
                    k,
                    #[trigger] call.vertices@[4 * j + k],
                )
            } by {
                if c < pre.len() {
                    assert(out@[c] == pre[c]);
                } else {
                    assert(out@[c] == (DrawCall {
                        first_instance: first,
                        instance_count: count,
                        vertices,
                    }));
                }
            }
        }
        first = first + count;
    }
    proof {
        assert(first == n);
    }
    out
}

/// Sprite projection at the viewport center: a zero-rotation instance
/// anchored at the viewport's center whose extent spans half the viewport
/// each way projects exactly onto the corners of clip space, `(-1, -1)` to
/// `(1, 1)`, whatever the viewport's pixel size.  Corner `k`'s clip
/// coordinates are `(-1)` on the left and top sides and `1` on the right and
/// bottom sides of the extent, with the y axis flipped by the projection.
pub proof fn lemma_sprite_projection_centered(
    inst: Instance,
    vp: SpriteViewport,
    k: int,
    vert: SpriteVertex,
)
    requires
        inst.wf(),
        vp.wf(),
        0 <= k < 4,
        vertex_matches(inst, vp, k, vert),
        inst.rotation.sin_num == 0,
        inst.rotation.cos_num == inst.rotation.den,
        2 * (inst.anchor.0 - vp.x) == vp.width,
        2 * (inst.anchor.1 - vp.y) == vp.height,
        2 * inst.dimensions.0.start.num == -vp.width * inst.dimensions.0.start.den,
        2 * inst.dimensions.0.end.num == vp.width * inst.dimensions.0.end.den,
        2 * inst.dimensions.1.start.num == -vp.height * inst.dimensions.1.start.den,
        2 * inst.dimensions.1.end.num == vp.height * inst.dimensions.1.end.den,
    ensures
        vert.x.num as int == if k == 1 || k == 2 {
            vert.x.den as int
        } else {
            -(vert.x.den as int)
        },
        vert.y.num as int == if k == 2 || k == 3 {
            -(vert.y.den as int)
        } else {
            vert.y.den as int
        },
{
    let dxn = corner_dx(inst, k).num as int;
    let dxd = corner_dx(inst, k).den as int;
    let dyn_ = corner_dy(inst, k).num as int;
    let dyd = corner_dy(inst, k).den as int;
    let rd = inst.rotation.den as int;
    let d = corner_den(inst, k);
    let ax = inst.anchor.0 as int;
    let ay = inst.anchor.1 as int;
    let vx = vp.x as int;
    let vy = vp.y as int;
    let vw = vp.width as int;
    let vh = vp.height as int;
    let cn = inst.rotation.cos_num as int;
    let sn = inst.rotation.sin_num as int;
    assert(d == dxd * dyd * rd);
    lemma_pos_mul(dxd, dyd);
    lemma_pos_mul(dxd * dyd, rd);
    assert(0 < d);
    // With no rotation the corner sits at `anchor + extent corner`.
    assert(corner_x_num(inst, k) == ax * d + dxn * cn * dyd - dyn_ * sn * dxd);
    assert(ax * d + dxn * cn * dyd - dyn_ * sn * dxd == ax * d + dxn * rd * dyd)
        by (nonlinear_arith)
        requires
            cn == rd,
            sn == 0,
    ;
    assert(corner_x_num(inst, k) == ax * d + dxn * rd * dyd);
    assert(corner_y_num(inst, k) == ay * d + dyn_ * cn * dxd + dxn * sn * dyd);
    assert(ay * d + dyn_ * cn * dxd + dxn * sn * dyd == ay * d + dyn_ * rd * dxd)
        by (nonlinear_arith)
        requires
            cn == rd,
            sn == 0,
    ;
    assert(corner_y_num(inst, k) == ay * d + dyn_ * rd * dxd);
    // Centering: the anchor-to-viewport offset contributes exactly one half
    // of clip space.
    assert(2 * (ax * d) - 2 * (vx * d) == vw * d) by (nonlinear_arith)
        requires
            2 * (ax - vx) == vw,
    ;
    assert(2 * (ay * d) - 2 * (vy * d) == vh * d) by (nonlinear_arith)
        requires
            2 * (ay - vy) == vh,
    ;
    // The extent corner contributes the other half, with its sign.
    if k == 0 || k == 3 {
        assert(2 * (dxn * rd * dyd) == -(vw * d)) by (nonlinear_arith)
            requires
                2 * dxn == -vw * dxd,
                d == dxd * dyd * rd,
        ;
        assert(clip_x_num(inst, vp, k) == -(vw * d)) by (nonlinear_arith)
            requires
                clip_x_num(inst, vp, k) == 2 * (corner_x_num(inst, k) - vx * d) - vw * d,
                corner_x_num(inst, k) == ax * d + dxn * rd * dyd,
                2 * (ax * d) - 2 * (vx * d) == vw * d,
                2 * (dxn * rd * dyd) == -(vw * d),
        ;
    } else {
        assert(2 * (dxn * rd * dyd) == vw * d) by (nonlinear_arith)
            requires
                2 * dxn == vw * dxd,
                d == dxd * dyd * rd,
        ;
        assert(clip_x_num(inst, vp, k) == vw * d) by (nonlinear_arith)
            requires
                clip_x_num(inst, vp, k) == 2 * (corner_x_num(inst, k) - vx * d) - vw * d,
                corner_x_num(inst, k) == ax * d + dxn * rd * dyd,
                2 * (ax * d) - 2 * (vx * d) == vw * d,
                2 * (dxn * rd * dyd) == vw * d,
        ;
    }
    if k == 0 || k == 1 {
        assert(2 * (dyn_ * rd * dxd) == -(vh * d)) by (nonlinear_arith)
            requires
                2 * dyn_ == -vh * dyd,
                d == dxd * dyd * rd,
        ;
        assert(clip_y_num(inst, vp, k) == vh * d) by (nonlinear_arith)
            requires
                clip_y_num(inst, vp, k) == vh * d - 2 * (corner_y_num(inst, k) - vy * d),
                corner_y_num(inst, k) == ay * d + dyn_ * rd * dxd,
                2 * (ay * d) - 2 * (vy * d) == vh * d,
                2 * (dyn_ * rd * dxd) == -(vh * d),
        ;
    } else {
        assert(2 * (dyn_ * rd * dxd) == vh * d) by (nonlinear_arith)
            requires
                2 * dyn_ == vh * dyd,
                d == dxd * dyd * rd,
        ;
        assert(clip_y_num(inst, vp, k) == -(vh * d)) by (nonlinear_arith)
            requires
                clip_y_num(inst, vp, k) == vh * d - 2 * (corner_y_num(inst, k) - vy * d),
                corner_y_num(inst, k) == ay * d + dyn_ * rd * dxd,
                2 * (ay * d) - 2 * (vy * d) == vh * d,
                2 * (dyn_ * rd * dxd) == vh * d,
        ;
    }
    // Cancel the common positive denominator on both sides.
    lemma_pos_mul(vw, d);
    lemma_pos_mul(vh, d);
    if k == 1 || k == 2 {
        assert(vert.x.num * (vw * d) == (vw * d) * vert.x.den);
        assert(vert.x.num == vert.x.den as int) by (nonlinear_arith)
            requires
                vert.x.num * (vw * d) == (vw * d) * vert.x.den,
                0 < vw * d,
        ;
    } else {
        assert(vert.x.num * (vw * d) == -(vw * d) * vert.x.den);
        assert(vert.x.num == -(vert.x.den as int)) by (nonlinear_arith)
            requires
                vert.x.num * (vw * d) == -(vw * d) * vert.x.den,
                0 < vw * d,
        ;
    }
    if k == 2 || k == 3 {
        assert(vert.y.num * (vh * d) == -(vh * d) * vert.y.den);
        assert(vert.y.num == -(vert.y.den as int)) by (nonlinear_arith)
            requires
                vert.y.num * (vh * d) == -(vh * d) * vert.y.den,
                0 < vh * d,
        ;
    } else {
        assert(vert.y.num * (vh * d) == (vh * d) * vert.y.den);
        assert(vert.y.num == vert.y.den as int) by (nonlinear_arith)
            requires
                vert.y.num * (vh * d) == (vh * d) * vert.y.den,
                0 < vh * d,
        ;
    }
}

/// Sprite resources whose lifetime is tied to one device: the shared index
/// buffer, filled once with the index data for the largest batch.
#[derive(Debug)]
pub struct SpriteResources {
    /// The device the resources were created against.
    pub device_id: u64,
    /// Distinguishes this value from every one constructed before it.
    pub instance: u64,
    /// Index data for `MAX_QUADS_PER_DRAW + 1` quads.
    pub quads_ib: Vec<u16>,
}

impl SpriteResources {
    pub fn new(device_id: u64, instance: u64) -> (r: SpriteResources)
        ensures
            r.device_id == device_id,
            r.instance == instance,
            r.quads_ib@.len() == 6 * 16384,
            forall|q: int| 0 <= q <= 16383 ==> {
                &&& #[trigger] r.quads_ib@[6 * q] == 4 * q
                &&& r.quads_ib@[6 * q + 1] == 4 * q + 1
                &&& r.quads_ib@[6 * q + 2] == 4 * q + 2
                &&& r.quads_ib@[6 * q + 3] == 4 * q
                &&& r.quads_ib@[6 * q + 4] == 4 * q + 2
                &&& r.quads_ib@[6 * q + 5] == 4 * q + 3
            },
    {
        SpriteResources { device_id, instance, quads_ib: create_quads_index_data(16383) }
    }
}

/// Index data for `quads + 1` quads of four vertices each: two
/// counter-clockwise triangles per quad, six indices per quad.
pub fn create_quads_index_data(quads: u16) -> (r: Vec<u16>)
    requires
        quads <= 0x3FFF,
    ensures
        r@.len() == 6 * (quads + 1) as nat,
        forall|q: int| 0 <= q <= quads ==> {
            &&& #[trigger] r@[6 * q] == 4 * q
            &&& r@[6 * q + 1] == 4 * q + 1
            &&& r@[6 * q + 2] == 4 * q + 2
            &&& r@[6 * q + 3] == 4 * q
            &&& r@[6 * q + 4] == 4 * q + 2
            &&& r@[6 * q + 5] == 4 * q + 3
        },
{
    let mut indicies: Vec<u16> = Vec::new();
    let mut quad: u32 = 0;
    let end: u32 = quads as u32 + 1;
    while quad < end
        invariant
            end == quads as u32 + 1,
            quads <= 0x3FFF,
            quad <= end,
            indicies@.len() == 6 * quad as nat,
            forall|q: int| 0 <= q < quad ==> {
                &&& #[trigger] indicies@[6 * q] == 4 * q
                &&& indicies@[6 * q + 1] == 4 * q + 1
                &&& indicies@[6 * q + 2] == 4 * q + 2
                &&& indicies@[6 * q + 3] == 4 * q
                &&& indicies@[6 * q + 4] == 4 * q + 2
                &&& indicies@[6 * q + 5] == 4 * q + 3
            },
        decreases end - quad,
    {
        let ghost pre = indicies@;
        let base: u16 = 4 * (quad as u16);
        indicies.push(base);
        indicies.push(base + 1);
        indicies.push(base + 2);
        indicies.push(base);
        indicies.push(base + 2);
        indicies.push(base + 3);
        proof {
            let cur = indicies@;
            assert(cur =~= pre + seq![base, (base + 1) as u16, (base + 2) as u16, base, (base + 2) as u16, (base + 3) as u16]);
            assert forall|q: int| 0 <= q < quad + 1 implies {
                &&& #[trigger] cur[6 * q] == 4 * q
                &&& cur[6 * q + 1] == 4 * q + 1
                &&& cur[6 * q + 2] == 4 * q + 2
                &&& cur[6 * q + 3] == 4 * q
                &&& cur[6 * q + 4] == 4 * q + 2
                &&& cur[6 * q + 5] == 4 * q + 3
            } by {
                if q < quad {
                    assert(cur[6 * q] == pre[6 * q]);
                    assert(cur[6 * q + 1] == pre[6 * q + 1]);
                    assert(cur[6 * q + 2] == pre[6 * q + 2]);
                    assert(cur[6 * q + 3] == pre[6 * q + 3]);
                    assert(cur[6 * q + 4] == pre[6 * q + 4]);
                    assert(cur[6 * q + 5] == pre[6 * q + 5]);
                    assert(pre[6 * q] == 4 * q);
                } else {
                    assert(cur[6 * q] == base);
                    assert(cur[6 * q + 1] == base + 1);
                    assert(cur[6 * q + 2] == base + 2);
                    assert(cur[6 * q + 3] == base);
                    assert(cur[6 * q + 4] == base + 2);
                    assert(cur[6 * q + 5] == base + 3);
                }
            }
        }
        quad = quad + 1;
    }
    indicies
}

} // verus!
