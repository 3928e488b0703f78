use std::collections::VecDeque;
use vstd::prelude::*;

use crate::geometry::{
    Axis3,
    Point3,
    side_axis,
    spec_direction,
    spec_side_axis,
    tangent_between,
};
use crate::trail::TrailSample;

verus! {

/// Most samples a ribbon can be built from: its `2n` vertices must be
/// addressable by a 32-bit index buffer.
pub const MAX_SAMPLES: usize = 0x8000_0000;

/// One vertex of a ribbon, described exactly.
///
/// Its position is `anchor ± reach · side / |side|` with
/// `reach = reach_num / reach_den`, minus on the left (`outward == false`) and
/// plus on the right; a zero side axis places it on the anchor. Its normal is
/// `normal` and its texture coordinate is `(u, v_num / v_den)`.
#[derive(Clone, Copy, Debug, PartialEq, Eq, Structural)]
pub struct RibbonVertex {
    pub anchor: Point3,
    pub side: Axis3,
    pub outward: bool,
    pub reach_num: u64,
    pub reach_den: u64,
    pub normal: Point3,
    pub u: u32,
    pub v_num: u32,
    pub v_den: u32,
}

/// A triangle list: two vertices per sample, oldest first, and a 32-bit index
/// buffer.
#[derive(Debug)]
pub struct RibbonMesh {
    pub vertices: Vec<RibbonVertex>,
    pub indices: Vec<u32>,
}

/// The direction of travel at sample `i`: toward the next sample at the
/// oldest end, from the previous one at the newest end, and elsewhere the sum
/// of the two, `(p[i] - p[i-1]) + (p[i+1] - p[i]) = p[i+1] - p[i-1]`.
pub open spec fn spec_tangent_at(s: Seq<TrailSample>, i: int) -> Axis3 {
    if i == 0 {
        spec_direction(s[0].position, s[1].position)
    } else if i == s.len() - 1 {
        spec_direction(s[i - 1].position, s[i].position)
    } else {
        spec_direction(s[i - 1].position, s[i + 1].position)
    }
}

/// Vertex `k` of the ribbon over `s`: the left (even `k`) or right (odd `k`)
/// vertex of sample `k / 2`, whose progress is `i / (n - 1)` and whose
/// half-width is `(width / 2) · progress`.
pub open spec fn spec_vertex(s: Seq<TrailSample>, width: u32, k: int) -> RibbonVertex {
    let i = k / 2;
    let right = k % 2 == 1;
    RibbonVertex {
        anchor: s[i].position,
        side: spec_side_axis(spec_tangent_at(s, i)),
        outward: right,
        reach_num: (width * i) as u64,
        reach_den: (2 * (s.len() - 1)) as u64,
        normal: Point3::spec_up(),
        u: if right { 1 } else { 0 },
        v_num: i as u32,
        v_den: (s.len() - 1) as u32,
    }
}

/// The corner offsets of one quad: `(0, 1, 2)` then `(1, 3, 2)`.
pub open spec fn spec_corner(r: int) -> int {
    if r == 0 {
        0
    } else if r == 1 {
        1
    } else if r == 2 {
        2
    } else if r == 3 {
        1
    } else if r == 4 {
        3
    } else {
        2
    }
}

/// Index `k` of the index buffer: quad `k / 6` starts at vertex `2 (k / 6)`.
pub open spec fn spec_index(k: int) -> int {
    2 * (k / 6) + spec_corner(k % 6)
}

pub open spec fn spec_ribbon_vertices(s: Seq<TrailSample>, width: u32) -> Seq<RibbonVertex> {
    if s.len() < 2 {
        Seq::empty()
    } else {
        Seq::new((2 * s.len()) as nat, |k: int| spec_vertex(s, width, k))
    }
}

pub open spec fn spec_ribbon_indices(n: int) -> Seq<u32> {
    if n < 2 {
        Seq::empty()
    } else {
        Seq::new((6 * (n - 1)) as nat, |k: int| spec_index(k) as u32)
    }
}

impl RibbonMesh {
    /// The mesh is exactly the ribbon over `s` with full width `width`.
    pub open spec fn is_ribbon_of(&self, s: Seq<TrailSample>, width: u32) -> bool {
        &&& self.vertices@ == spec_ribbon_vertices(s, width)
        &&& self.indices@ == spec_ribbon_indices(s.len() as int)
    }
}

/// Builds the tapered ribbon over `points`, from scratch. With fewer than two
/// samples the mesh is empty.
pub fn create_trail_mesh(points: &VecDeque<TrailSample>, width: u32) -> (r: RibbonMesh)
    requires
        points@.len() <= MAX_SAMPLES,
    ensures
        r.is_ribbon_of(points@, width),
{
    let n = points.len();
    if n < 2 {
        let r = RibbonMesh { vertices: Vec::new(), indices: Vec::new() };
        assert(r.vertices@ =~= spec_ribbon_vertices(points@, width));
        assert(r.indices@ =~= spec_ribbon_indices(n as int));
        return r;
    }
    let last = n - 1;
    let mut vertices: Vec<RibbonVertex> = Vec::new();
    let mut i: usize = 0;
    while i < n
        invariant
            2 <= n <= MAX_SAMPLES,
            n == points@.len(),
            last == n - 1,
            i <= n,
            vertices@.len() == 2 * i,
            forall|k: int| 0 <= k < 2 * i ==> vertices@[k] == spec_vertex(points@, width, k),
        decreases n - i,
    {
        let p = points[i].position;
        let dir = if i == 0 {
            tangent_between(p, points[1].position)
        } else if i == last {
            tangent_between(points[i - 1].position, p)
        } else {
            tangent_between(points[i - 1].position, points[i + 1].position)
        };
        let side = side_axis(dir);
        proof {
            assert(width * i <= 0xffff_ffff * 0x8000_0000) by (nonlinear_arith)
                requires
                    width <= 0xffff_ffff,
                    i < 0x8000_0000,
            ;
        }
        let reach_num = width as u64 * i as u64;
        let reach_den = 2 * (last as u64);
        let left = RibbonVertex {
            anchor: p,
            side,
            outward: false,
            reach_num,
            reach_den,
            normal: Point3::up(),
            u: 0,
            v_num: i as u32,
            v_den: last as u32,
        };
        let right = RibbonVertex { outward: true, u: 1, ..left };
        vertices.push(left);
        vertices.push(right);
        proof {
            assert(spec_tangent_at(points@, i as int) == dir);
            assert(vertices@[2 * i as int] == spec_vertex(points@, width, 2 * i as int));
            assert(vertices@[2 * i + 1] == spec_vertex(points@, width, 2 * i + 1));
        }
        i += 1;
    }
    let mut indices: Vec<u32> = Vec::new();
    let mut q: usize = 0;
    while q < last
        invariant
            2 <= n <= MAX_SAMPLES,
            last == n - 1,
            q <= last,
            indices@.len() == 6 * q,
            forall|k: int| 0 <= k < 6 * q ==> indices@[k] == spec_index(k) as u32,
        decreases last - q,
    {
        let base = (2 * q) as u32;
        indices.push(base);
        indices.push(base + 1);
        indices.push(base + 2);
        indices.push(base + 1);
        indices.push(base + 3);
        indices.push(base + 2);
        proof {
            assert forall|k: int| 6 * q <= k < 6 * q + 6 implies indices@[k] == spec_index(k) as u32 by {
                assert(k / 6 == q);
            }
        }
        q += 1;
    }
    let r = RibbonMesh { vertices, indices };
    assert(r.vertices@ =~= spec_ribbon_vertices(points@, width));
    assert(r.indices@ =~= spec_ribbon_indices(n as int));
    r
}

/// A ribbon over `n >= 2` samples has `2n` vertices and `2(n - 1)`
/// triangles, that is `6(n - 1)` indices.
pub proof fn lemma_ribbon_sizes(s: Seq<TrailSample>, width: u32)
    requires
        2 <= s.len() <= MAX_SAMPLES,
    ensures
        spec_ribbon_vertices(s, width).len() == 2 * s.len(),
        spec_ribbon_indices(s.len() as int).len() == 6 * (s.len() - 1),
        spec_ribbon_indices(s.len() as int).len() == 3 * (2 * (s.len() - 1)),
{
}

/// Progress is exactly zero at the oldest sample and exactly one at the
/// newest, and everywhere the half-width is `width / 2` times the progress:
/// `reach_num / reach_den == (width / 2) · (v_num / v_den)`.
pub proof fn lemma_progress_and_taper(s: Seq<TrailSample>, width: u32)
    requires
        2 <= s.len() <= MAX_SAMPLES,
    ensures
        ({
            let v = spec_ribbon_vertices(s, width);
            let n = s.len() as int;
            &&& v[0].v_num == 0 && v[1].v_num == 0
            &&& v[0].reach_num == 0 && v[1].reach_num == 0
            &&& v[2 * n - 2].v_num == v[2 * n - 2].v_den
            &&& v[2 * n - 1].v_num == v[2 * n - 1].v_den
            &&& v[0].v_den > 0
            &&& forall|k: int|
                0 <= k < 2 * n ==> {
                    &&& (#[trigger] v[k]).reach_num == width * v[k].v_num
                    &&& v[k].reach_den == 2 * v[k].v_den
                    &&& v[k].v_den == n - 1
                }
        }),
{
    let v = spec_ribbon_vertices(s, width);
    let n = s.len() as int;
    assert forall|k: int| 0 <= k < 2 * n implies {
        &&& (#[trigger] v[k]).reach_num == width * v[k].v_num
        &&& v[k].reach_den == 2 * v[k].v_den
        &&& v[k].v_den == n - 1
    } by {
        let i = k / 2;
        assert(0 <= i < n);
        assert(width * i <= 0xffff_ffff * 0x8000_0000) by (nonlinear_arith)
            requires
                width <= 0xffff_ffff,
                0 <= i < 0x8000_0000,
        ;
    }
    assert(v[0].reach_num == width * 0);
}

/// Quad `q` is wound `(2q, 2q+1, 2q+2)` then `(2q+1, 2q+3, 2q+2)`.
pub proof fn lemma_quad_winding(n: int, q: int)
    requires
        2 <= n <= MAX_SAMPLES,
        0 <= q < n - 1,
    ensures
        ({
            let ix = spec_ribbon_indices(n);
            &&& ix[6 * q] == 2 * q
            &&& ix[6 * q + 1] == 2 * q + 1
            &&& ix[6 * q + 2] == 2 * q + 2
            &&& ix[6 * q + 3] == 2 * q + 1
            &&& ix[6 * q + 4] == 2 * q + 3
            &&& ix[6 * q + 5] == 2 * q + 2
        }),
{
    let ix = spec_ribbon_indices(n);
    assert(spec_index(6 * q) == 2 * q);
    assert(spec_index(6 * q + 1) == 2 * q + 1);
    assert(spec_index(6 * q + 2) == 2 * q + 2);
    assert(spec_index(6 * q + 3) == 2 * q + 1);
    assert(spec_index(6 * q + 4) == 2 * q + 3);
    assert(spec_index(6 * q + 5) == 2 * q + 2);
}

/// Building twice from an unchanged buffer gives the same vertex and index
/// data.
pub proof fn lemma_rebuild_identical(
    first: RibbonMesh,
    second: RibbonMesh,
    s: Seq<TrailSample>,
    width: u32,
)
    requires
        first.is_ribbon_of(s, width),
        second.is_ribbon_of(s, width),
    ensures
        first.vertices@ == second.vertices@,
        first.indices@ == second.indices@,
{
}

} // verus!
