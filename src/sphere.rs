//! Layout of a tessellated UV sphere: which lattice point each vertex stands
//! for, and how the index buffer stitches neighbouring rings into triangles.
use vstd::prelude::*;
use vstd::arithmetic::div_mod::{lemma_fundamental_div_mod, lemma_fundamental_div_mod_converse};

use crate::err::{ComponentError, Error};

verus! {

/// Number of vertices of a sphere lattice: `rings + 1` rows of `segments + 1` points.
pub open spec fn vertex_count(segments: int, rings: int) -> int {
    (rings + 1) * (segments + 1)
}

/// Number of entries in the index buffer: two triangles per lattice quad.
pub open spec fn index_count(segments: int, rings: int) -> int {
    6 * (rings * segments)
}

/// Position of lattice point `(ring, segment)` in the vertex buffer.
pub open spec fn lattice_index(segments: int, ring: int, segment: int) -> int {
    ring * (segments + 1) + segment
}

/// Corner `corner` (0..6) of the quad whose upper-left lattice point is
/// `(ring, segment)`: the triangles `(current, next, current + 1)` and
/// `(current + 1, next, next + 1)`, where `next` is the point one ring below.
pub open spec fn quad_corner(segments: int, ring: int, segment: int, corner: int) -> int {
    let current = lattice_index(segments, ring, segment);
    let next = current + segments + 1;
    if corner == 0 {
        current
    } else if corner == 1 {
        next
    } else if corner == 2 {
        current + 1
    } else if corner == 3 {
        current + 1
    } else if corner == 4 {
        next
    } else {
        next + 1
    }
}

/// Lattice point `k` of the vertex buffer is `(ring, segment)`, stored row by row.
pub open spec fn is_lattice_point(segments: int, k: int, p: (u32, u32)) -> bool {
    &&& p.0 as int == k / (segments + 1)
    &&& p.1 as int == k % (segments + 1)
}

/// Entry `k` of the index buffer: quads are emitted ring by ring, segment by
/// segment, six corners each.
pub open spec fn sphere_index(segments: int, k: int) -> int {
    let quad = k / 6;
    quad_corner(segments, quad / segments, quad % segments, k % 6)
}

/// Builds the index buffer of a sphere lattice with `segments` quads around and
/// `rings` quads from pole to pole.
pub fn generate_sphere_indices(segments: u32, rings: u32) -> (r: Vec<u32>)
    requires
        vertex_count(segments as int, rings as int) <= 0x1_0000_0000,
        index_count(segments as int, rings as int) <= usize::MAX,
    ensures
        r@.len() == index_count(segments as int, rings as int),
        forall|k: int| 0 <= k < r@.len() ==> #[trigger] r@[k] as int == sphere_index(segments as int, k),
{
    let mut indices: Vec<u32> = Vec::new();
    let ghost s = segments as int;
    let mut ring: u32 = 0;
    let mut row_start: u32 = 0;
    while ring < rings
        invariant
            s == segments as int,
            ring <= rings,
            row_start as int == ring * (s + 1),
            vertex_count(s, rings as int) <= 0x1_0000_0000,
            index_count(s, rings as int) <= usize::MAX,
            indices@.len() == 6 * (ring * s),
            forall|k: int| 0 <= k < indices@.len() ==> #[trigger] indices@[k] as int == sphere_index(s, k),
        decreases rings - ring,
    {
        let mut segment: u32 = 0;
        while segment < segments
            invariant
                s == segments as int,
                ring < rings,
                segment <= segments,
                row_start as int == ring * (s + 1),
                vertex_count(s, rings as int) <= 0x1_0000_0000,
                index_count(s, rings as int) <= usize::MAX,
                indices@.len() == 6 * (ring * s + segment),
                forall|k: int| 0 <= k < indices@.len() ==> #[trigger] indices@[k] as int == sphere_index(s, k),
            decreases segments - segment,
        {
            proof {
                let r = ring as int;
                let g = segment as int;
                let n = rings as int;
                assert(r * (s + 1) + (s + 1) <= n * (s + 1)) by (nonlinear_arith)
                    requires r < n, s >= 0;
                assert(n * (s + 1) + s < vertex_count(s, n)) by (nonlinear_arith)
                    requires s >= 0;
                assert(r * s + g + 1 <= n * s) by (nonlinear_arith)
                    requires 0 <= r < n, 0 <= g < s;
            }
            let current: u32 = row_start + segment;
            let next: u32 = current + segments + 1;
            let ghost base = indices@.len() as int;
            let ghost quad = ring as int * s + segment as int;
            indices.push(current);
            indices.push(next);
            indices.push(current + 1);
            indices.push(current + 1);
            indices.push(next);
            indices.push(next + 1);
            proof {
                assert forall|k: int| 0 <= k < indices@.len() implies #[trigger] indices@[k] as int
                    == sphere_index(s, k) by {
                    if k >= base {
                        let c = k - base;
                        lemma_fundamental_div_mod_converse(k, 6, quad, c);
                        lemma_fundamental_div_mod_converse(quad, s, ring as int, segment as int);
                    }
                }
            }
            segment = segment + 1;
        }
        proof {
            let r = ring as int;
            assert((r + 1) * s == r * s + s) by (nonlinear_arith);
            assert((r + 1) * (s + 1) == r * (s + 1) + (s + 1)) by (nonlinear_arith);
            assert((r + 1) * (s + 1) < vertex_count(s, rings as int)) by (nonlinear_arith)
                requires 0 <= r < rings, s >= 0;
        }
        ring = ring + 1;
        row_start = row_start + segments + 1;
    }
    indices
}

/// Lists the lattice points `(ring, segment)` of a sphere with `segments`
/// quads around and `rings` quads from pole to pole, ring by ring: ring `0`
/// is one pole, ring `rings` the other, and segment `segments` repeats
/// segment `0` to close the seam.
pub fn sphere_lattice(segments: u32, rings: u32) -> (r: Vec<(u32, u32)>)
    requires
        vertex_count(segments as int, rings as int) <= usize::MAX,
    ensures
        r@.len() == vertex_count(segments as int, rings as int),
        forall|k: int| 0 <= k < r@.len() ==> is_lattice_point(segments as int, k, #[trigger] r@[k]),
{
    let mut points: Vec<(u32, u32)> = Vec::new();
    let ghost s = segments as int;
    let mut ring: u64 = 0;
    while ring <= rings as u64
        invariant
            s == segments as int,
            ring <= rings as int + 1,
            vertex_count(s, rings as int) <= usize::MAX,
            points@.len() == ring * (s + 1),
            forall|k: int| 0 <= k < points@.len() ==> is_lattice_point(s, k, #[trigger] points@[k]),
        decreases rings as int + 1 - ring,
    {
        let mut segment: u64 = 0;
        while segment <= segments as u64
            invariant
                s == segments as int,
                ring <= rings as int,
                segment <= s + 1,
                vertex_count(s, rings as int) <= usize::MAX,
                points@.len() == ring * (s + 1) + segment,
                forall|k: int| 0 <= k < points@.len() ==> is_lattice_point(s, k, #[trigger] points@[k]),
            decreases s + 1 - segment,
        {
            proof {
                let r = ring as int;
                let g = segment as int;
                let n = rings as int;
                assert(r * (s + 1) + g < vertex_count(s, n)) by (nonlinear_arith)
                    requires 0 <= r <= n, 0 <= g <= s;
            }
            let ghost k = points@.len() as int;
            points.push((ring as u32, segment as u32));
            proof {
                lemma_fundamental_div_mod_converse(k, s + 1, ring as int, segment as int);
            }
            segment = segment + 1;
        }
        proof {
            let r = ring as int;
            assert((r + 1) * (s + 1) == r * (s + 1) + (s + 1)) by (nonlinear_arith);
        }
        ring = ring + 1;
    }
    points
}

/// The lattice and index buffer of a tessellated sphere.
pub struct SphereTopology {
    /// Quads around the axis.
    pub segments: u32,
    /// Quads from pole to pole.
    pub rings: u32,
    /// Lattice point `(ring, segment)` of each vertex, in buffer order.
    pub lattice: Vec<(u32, u32)>,
    /// Triangle corners, three per triangle, each the position of a vertex.
    pub indices: Vec<u32>,
}

/// Resolutions for which a sphere can be tessellated: at least one quad each
/// way, every vertex addressable by a `u32` index, and both buffers within
/// the address space.
pub open spec fn resolution_supported(segments: int, rings: int) -> bool {
    &&& segments > 0
    &&& rings > 0
    &&& vertex_count(segments, rings) <= 0x1_0000_0000
    &&& vertex_count(segments, rings) <= usize::MAX
    &&& index_count(segments, rings) <= usize::MAX
}

impl SphereTopology {
    /// The buffers are those of a sphere of `segments` by `rings` quads.
    pub open spec fn wf(&self) -> bool {
        let s = self.segments as int;
        let n = self.rings as int;
        &&& resolution_supported(s, n)
        &&& self.lattice@.len() == vertex_count(s, n)
        &&& forall|k: int| 0 <= k < self.lattice@.len() ==> is_lattice_point(s, k, #[trigger] self.lattice@[k])
        &&& self.indices@.len() == index_count(s, n)
        &&& forall|k: int| 0 <= k < self.indices@.len() ==> #[trigger] self.indices@[k] as int == sphere_index(s, k)
    }
}

/// Tessellates a sphere of `segments` quads around and `rings` quads from
/// pole to pole. A resolution of zero either way is rejected rather than
/// producing a degenerate mesh, as is one too fine to index with `u32`.
pub fn sphere_topology(segments: u32, rings: u32) -> (r: Result<SphereTopology, Error>)
    ensures
        r is Ok <==> resolution_supported(segments as int, rings as int),
        r matches Ok(t) ==> t.wf() && t.segments == segments && t.rings == rings,
        r matches Err(e) ==> e matches Error::Component(ComponentError::ValidationFailed(_)),
{
    if segments == 0 || rings == 0 {
        return Err(Error::Component(ComponentError::ValidationFailed("sphere resolution must be at least one quad each way".to_owned())));
    }
    let vertices: Option<u64> = (rings as u64 + 1).checked_mul(segments as u64 + 1);
    proof {
        let n = rings as int;
        let s = segments as int;
        assert(n * s <= 0xffff_ffff * 0xffff_ffff) by (nonlinear_arith)
            requires 0 <= n <= 0xffff_ffff, 0 <= s <= 0xffff_ffff;
    }
    let quads: u64 = rings as u64 * segments as u64;
    let fits = match vertices {
        Some(v) => v <= 0x1_0000_0000 && v <= usize::MAX as u64 && quads <= usize::MAX as u64 / 6,
        None => false,
    };
    if !fits {
        return Err(Error::Component(ComponentError::ValidationFailed("sphere resolution too fine to index".to_owned())));
    }
    let lattice = sphere_lattice(segments, rings);
    let indices = generate_sphere_indices(segments, rings);
    Ok(SphereTopology { segments, rings, lattice, indices })
}

/// Every entry of the index buffer names a vertex of the lattice.
pub proof fn lemma_indices_in_bounds(segments: int, rings: int, k: int)
    requires
        segments > 0,
        rings > 0,
        0 <= k < index_count(segments, rings),
    ensures
        0 <= sphere_index(segments, k) < vertex_count(segments, rings),
{
    let s = segments;
    let n = rings;
    let quad = k / 6;
    let c = k % 6;
    lemma_fundamental_div_mod(k, 6);
    assert(0 <= quad < n * s);
    let ring = quad / s;
    let seg = quad % s;
    lemma_fundamental_div_mod(quad, s);
    assert(0 <= seg < s);
    assert(0 <= ring < n) by (nonlinear_arith)
        requires quad == s * ring + seg, 0 <= seg < s, 0 <= quad < n * s, s > 0;
    assert((ring + 1) * (s + 1) + seg + 1 < vertex_count(s, n)) by (nonlinear_arith)
        requires 0 <= ring < n, 0 <= seg < s;
    assert(0 <= ring * (s + 1)) by (nonlinear_arith)
        requires 0 <= ring, s > 0;
    assert((ring + 1) * (s + 1) == ring * (s + 1) + s + 1) by (nonlinear_arith);
}

/// Every vertex of the lattice is a corner of some triangle.
pub proof fn lemma_every_vertex_referenced(segments: int, rings: int, v: int)
    requires
        segments > 0,
        rings > 0,
        0 <= v < vertex_count(segments, rings),
    ensures
        exists|k: int| 0 <= k < index_count(segments, rings) && sphere_index(segments, k) == v,
{
    let s = segments;
    let n = rings;
    let ring = v / (s + 1);
    let seg = v % (s + 1);
    lemma_fundamental_div_mod(v, s + 1);
    assert(0 <= ring <= n) by (nonlinear_arith)
        requires v == (s + 1) * ring + seg, 0 <= seg <= s, 0 <= v < (n + 1) * (s + 1), s > 0;
    // The quad that has `v` as a corner, and which corner it is.
    let qr = if ring < n { ring } else { ring - 1 };
    let qs = if seg < s { seg } else { seg - 1 };
    let corner: int = if ring < n {
        if seg < s { 0 } else { 2 }
    } else {
        if seg < s { 1 } else { 5 }
    };
    let quad = qr * s + qs;
    let k = quad * 6 + corner;
    assert(0 <= quad < n * s) by (nonlinear_arith)
        requires quad == qr * s + qs, 0 <= qr < n, 0 <= qs < s;
    lemma_fundamental_div_mod_converse(k, 6, quad, corner);
    lemma_fundamental_div_mod_converse(quad, s, qr, qs);
    assert(ring * (s + 1) == (ring - 1) * (s + 1) + s + 1) by (nonlinear_arith);
    assert(v == ring * (s + 1) + seg) by (nonlinear_arith)
        requires v == (s + 1) * ring + seg;
    assert(sphere_index(s, k) == v);
}

/// Tessellating the same resolution twice gives the same buffers.
pub proof fn lemma_topology_deterministic(a: &SphereTopology, b: &SphereTopology)
    requires
        a.wf(),
        b.wf(),
        a.segments == b.segments,
        a.rings == b.rings,
    ensures
        a.lattice@ == b.lattice@,
        a.indices@ == b.indices@,
{
    assert forall|k: int| 0 <= k < a.lattice@.len() implies a.lattice@[k] == b.lattice@[k] by {
        assert(is_lattice_point(a.segments as int, k, a.lattice@[k]));
        assert(is_lattice_point(b.segments as int, k, b.lattice@[k]));
    }
    assert(a.lattice@ =~= b.lattice@);
    assert forall|k: int| 0 <= k < a.indices@.len() implies a.indices@[k] == b.indices@[k] by {
        assert(a.indices@[k] as int == sphere_index(a.segments as int, k));
        assert(b.indices@[k] as int == sphere_index(b.segments as int, k));
    }
    assert(a.indices@ =~= b.indices@);
}

} // verus!
