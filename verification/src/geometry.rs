//! Per-vertex normal synthesis and bounding-extent tracking over exact
//! integer coordinates.
//!
//! A mesh is a flat list of vertex positions plus an index list whose length
//! is a multiple of three; each consecutive triple names one triangle's
//! vertices in winding order. For each triple `(a, b, c)` the face vector
//! `(Pb - Pa) x (Pc - Pb)` is added, unweighted, to the running sum of all
//! three vertices, while the componentwise maximum and minimum of every
//! position the triples visit is folded into the bounding extent. The sums
//! are the unnormalized per-vertex normals; dividing each by its length is a
//! floating-point step that belongs to the rendering front end, which also
//! owns the floating-point mirror of these coordinates.

use vstd::prelude::*;

verus! {

/// Largest magnitude a vertex coordinate may have. With coordinates bounded
/// by this and the index list bounded by `INDEX_LIMIT`, every intermediate
/// value of the synthesis fits in an `i64`.
pub const COORD_LIMIT: i64 = 1048576;

/// Largest accepted length of the index list (a multiple of three).
pub const INDEX_LIMIT: usize = 393216;

/// Largest magnitude of one component of a face cross product:
/// `8 * COORD_LIMIT * COORD_LIMIT`.
pub const CROSS_LIMIT: i64 = 8796093022208;

/// One vertex position.
#[derive(Clone, Copy, Debug, PartialEq, Eq)]
pub struct Vertex {
    pub position: (i64, i64, i64),
}

/// One per-vertex normal accumulator: the running, then final, sum of the
/// face cross products of every triangle the vertex takes part in.
#[derive(Clone, Copy, Debug, PartialEq, Eq)]
pub struct Normal {
    pub normal: (i64, i64, i64),
}

/// The componentwise maximum and minimum over every position visited by the
/// index triples. Starts at the sentinels `i64::MIN` (max) and `i64::MAX`
/// (min), which survive only when no triple visits anything.
#[derive(Clone, Copy, Debug, PartialEq, Eq)]
pub struct Extent {
    pub max: Vertex,
    pub min: Vertex,
}

/// A vertex's coordinates as mathematical integers.
pub open spec fn coords(v: Vertex) -> (int, int, int) {
    (v.position.0 as int, v.position.1 as int, v.position.2 as int)
}

/// A normal's components as mathematical integers.
pub open spec fn norm_coords(n: Normal) -> (int, int, int) {
    (n.normal.0 as int, n.normal.1 as int, n.normal.2 as int)
}

/// Componentwise difference.
pub open spec fn vdiff(a: (int, int, int), b: (int, int, int)) -> (int, int, int) {
    (a.0 - b.0, a.1 - b.1, a.2 - b.2)
}

/// Componentwise sum.
pub open spec fn vsum(a: (int, int, int), b: (int, int, int)) -> (int, int, int) {
    (a.0 + b.0, a.1 + b.1, a.2 + b.2)
}

/// Componentwise negation.
pub open spec fn vneg(a: (int, int, int)) -> (int, int, int) {
    (-a.0, -a.1, -a.2)
}

/// Every component scaled by `c`.
pub open spec fn vscale(c: int, a: (int, int, int)) -> (int, int, int) {
    (c * a.0, c * a.1, c * a.2)
}

/// The cross product of two vectors.
pub open spec fn cross(u: (int, int, int), v: (int, int, int)) -> (int, int, int) {
    (u.1 * v.2 - u.2 * v.1, u.2 * v.0 - u.0 * v.2, u.0 * v.1 - u.1 * v.0)
}

/// The face vector of a triangle with corners `pa`, `pb`, `pc` in winding
/// order: `(Pb - Pa) x (Pc - Pb)`.
pub open spec fn face_cross(pa: Vertex, pb: Vertex, pc: Vertex) -> (int, int, int) {
    cross(vdiff(coords(pb), coords(pa)), vdiff(coords(pc), coords(pb)))
}

/// How many triples the index list holds.
pub open spec fn triple_count(indices: Seq<u32>) -> int {
    indices.len() as int / 3
}

/// The `k`-th index triple.
pub open spec fn triple_at(indices: Seq<u32>, k: int) -> (u32, u32, u32) {
    (indices[3 * k], indices[3 * k + 1], indices[3 * k + 2])
}

/// How often vertex `v` occurs in the triple `t` (a degenerate triple may
/// name the same vertex more than once, and then contributes that many
/// times).
pub open spec fn triple_mult(t: (u32, u32, u32), v: int) -> int {
    (if t.0 as int == v {
        1int
    } else {
        0int
    }) + (if t.1 as int == v {
        1int
    } else {
        0int
    }) + (if t.2 as int == v {
        1int
    } else {
        0int
    })
}

/// The face vector of the `k`-th triple.
pub open spec fn triple_cross(verts: Seq<Vertex>, indices: Seq<u32>, k: int) -> (int, int, int) {
    let t = triple_at(indices, k);
    face_cross(verts[t.0 as int], verts[t.1 as int], verts[t.2 as int])
}

/// What the triple `t` adds to the running sum of vertex `v` when its face
/// vector is `c`: one `c` per corner of the triple that names `v`.
pub open spec fn triple_contrib(t: (u32, u32, u32), v: int, c: (int, int, int)) -> (
    int,
    int,
    int,
) {
    vsum(
        vsum(
            if t.0 as int == v {
                c
            } else {
                (0int, 0int, 0int)
            },
            if t.1 as int == v {
                c
            } else {
                (0int, 0int, 0int)
            },
        ),
        if t.2 as int == v {
            c
        } else {
            (0int, 0int, 0int)
        },
    )
}

/// The accumulated normal of vertex `v` after the first `k` triples: each
/// triple adds its face vector once per occurrence of `v` in it.
pub open spec fn accum_prefix(verts: Seq<Vertex>, indices: Seq<u32>, k: int, v: int) -> (
    int,
    int,
    int,
)
    decreases k,
{
    if k <= 0 {
        (0int, 0int, 0int)
    } else {
        vsum(
            accum_prefix(verts, indices, k - 1, v),
            triple_contrib(triple_at(indices, k - 1), v, triple_cross(verts, indices, k - 1)),
        )
    }
}

/// A triple's contribution is its face vector scaled by how often the triple
/// names the vertex.
pub proof fn lemma_contrib_is_scaled(t: (u32, u32, u32), v: int, c: (int, int, int))
    ensures
        triple_contrib(t, v, c) == vscale(triple_mult(t, v), c),
{
    let m = triple_mult(t, v);
    if m == 0 {
        assert(vscale(0, c) == (0int, 0int, 0int));
    } else if m == 1 {
        assert(vscale(1, c) == c);
    } else if m == 2 {
        assert(vscale(2, c) == vsum(c, c));
    } else {
        assert(m == 3);
        assert(vscale(3, c) == vsum(vsum(c, c), c));
    }
}

/// The accumulated normal of vertex `v` over the whole index list.
pub open spec fn accum(verts: Seq<Vertex>, indices: Seq<u32>, v: int) -> (int, int, int) {
    accum_prefix(verts, indices, triple_count(indices), v)
}

/// The larger of two integers.
pub open spec fn int_max(a: int, b: int) -> int {
    if a >= b {
        a
    } else {
        b
    }
}

/// The smaller of two integers.
pub open spec fn int_min(a: int, b: int) -> int {
    if a <= b {
        a
    } else {
        b
    }
}

/// Componentwise maximum.
pub open spec fn join_max(m: (int, int, int), p: (int, int, int)) -> (int, int, int) {
    (int_max(m.0, p.0), int_max(m.1, p.1), int_max(m.2, p.2))
}

/// Componentwise minimum.
pub open spec fn join_min(m: (int, int, int), p: (int, int, int)) -> (int, int, int) {
    (int_min(m.0, p.0), int_min(m.1, p.1), int_min(m.2, p.2))
}

/// The componentwise maximum after folding in the three corners of the
/// `k`-th triple, in the order the triple names them.
pub open spec fn fold_max_triple(
    m: (int, int, int),
    verts: Seq<Vertex>,
    indices: Seq<u32>,
    k: int,
) -> (int, int, int) {
    let t = triple_at(indices, k);
    join_max(
        join_max(join_max(m, coords(verts[t.0 as int])), coords(verts[t.1 as int])),
        coords(verts[t.2 as int]),
    )
}

/// The componentwise minimum after folding in the three corners of the
/// `k`-th triple.
pub open spec fn fold_min_triple(
    m: (int, int, int),
    verts: Seq<Vertex>,
    indices: Seq<u32>,
    k: int,
) -> (int, int, int) {
    let t = triple_at(indices, k);
    join_min(
        join_min(join_min(m, coords(verts[t.0 as int])), coords(verts[t.1 as int])),
        coords(verts[t.2 as int]),
    )
}

/// The componentwise maximum over every position visited by the first `k`
/// triples, from the sentinel `i64::MIN`.
pub open spec fn extent_max_prefix(verts: Seq<Vertex>, indices: Seq<u32>, k: int) -> (
    int,
    int,
    int,
)
    decreases k,
{
    if k <= 0 {
        (i64::MIN as int, i64::MIN as int, i64::MIN as int)
    } else {
        fold_max_triple(extent_max_prefix(verts, indices, k - 1), verts, indices, k - 1)
    }
}

/// The componentwise minimum over every position visited by the first `k`
/// triples, from the sentinel `i64::MAX`.
pub open spec fn extent_min_prefix(verts: Seq<Vertex>, indices: Seq<u32>, k: int) -> (
    int,
    int,
    int,
)
    decreases k,
{
    if k <= 0 {
        (i64::MAX as int, i64::MAX as int, i64::MAX as int)
    } else {
        fold_min_triple(extent_min_prefix(verts, indices, k - 1), verts, indices, k - 1)
    }
}

/// The componentwise maximum over everything the index list visits.
pub open spec fn extent_max(verts: Seq<Vertex>, indices: Seq<u32>) -> (int, int, int) {
    extent_max_prefix(verts, indices, triple_count(indices))
}

/// The componentwise minimum over everything the index list visits.
pub open spec fn extent_min(verts: Seq<Vertex>, indices: Seq<u32>) -> (int, int, int) {
    extent_min_prefix(verts, indices, triple_count(indices))
}

/// A well-formed mesh: the index list decomposes into triples and every
/// index names an existing vertex.
pub open spec fn mesh_well_formed(n_verts: int, indices: Seq<u32>) -> bool {
    &&& indices.len() % 3 == 0
    &&& forall|i: int| 0 <= i < indices.len() ==> (#[trigger] indices[i]) < n_verts
}

/// Every coordinate of this vertex is within `COORD_LIMIT` in magnitude.
pub open spec fn vertex_in_range(v: Vertex) -> bool {
    &&& -COORD_LIMIT <= v.position.0 <= COORD_LIMIT
    &&& -COORD_LIMIT <= v.position.1 <= COORD_LIMIT
    &&& -COORD_LIMIT <= v.position.2 <= COORD_LIMIT
}

/// Every vertex of the list is within coordinate range.
pub open spec fn verts_in_range(verts: Seq<Vertex>) -> bool {
    forall|i: int| 0 <= i < verts.len() ==> vertex_in_range(#[trigger] verts[i])
}

/// Whether the positions and indices form a mesh the synthesis accepts:
/// triples only, indices in bounds — a violation is a caller bug, checked
/// here so the caller can fail fast.
pub fn check_mesh(model_verts: &Vec<Vertex>, indices: &Vec<u32>) -> (ok: bool)
    ensures
        ok == mesh_well_formed(model_verts@.len() as int, indices@),
{
    if indices.len() % 3 != 0 {
        return false;
    }
    let n = model_verts.len();
    let mut i: usize = 0;
    while i < indices.len()
        invariant
            0 <= i <= indices@.len(),
            n == model_verts@.len(),
            forall|j: int| 0 <= j < i ==> (#[trigger] indices@[j]) < n,
        decreases indices@.len() - i,
    {
        if indices[i] as usize >= n {
            return false;
        }
        i = i + 1;
    }
    true
}

/// All three components within `c` in magnitude.
pub open spec fn bounded3(a: (int, int, int), c: int) -> bool {
    &&& -c <= a.0 <= c
    &&& -c <= a.1 <= c
    &&& -c <= a.2 <= c
}

/// Both extent corners within coordinate range.
pub open spec fn extent_in_range(e: Extent) -> bool {
    vertex_in_range(e.max) && vertex_in_range(e.min)
}

proof fn lemma_mul_bound(a: int, b: int, m: int)
    by (nonlinear_arith)
    requires
        0 <= m,
        -m <= a <= m,
        -m <= b <= m,
    ensures
        -(m * m) <= a * b <= m * m,
{
}

/// One face vector has every component within `CROSS_LIMIT`.
proof fn lemma_triple_cross_bound(verts: Seq<Vertex>, indices: Seq<u32>, k: int)
    requires
        0 <= k < triple_count(indices),
        indices.len() % 3 == 0,
        mesh_well_formed(verts.len() as int, indices),
        verts_in_range(verts),
    ensures
        bounded3(triple_cross(verts, indices, k), CROSS_LIMIT as int),
{
    let t = triple_at(indices, k);
    assert(3 * k + 2 < indices.len());
    assert(indices[3 * k] < verts.len());
    assert(indices[3 * k + 1] < verts.len());
    assert(indices[3 * k + 2] < verts.len());
    let pa = verts[t.0 as int];
    let pb = verts[t.1 as int];
    let pc = verts[t.2 as int];
    assert(vertex_in_range(pa));
    assert(vertex_in_range(pb));
    assert(vertex_in_range(pc));
    let u = vdiff(coords(pb), coords(pa));
    let v = vdiff(coords(pc), coords(pb));
    let m = 2 * (COORD_LIMIT as int);
    lemma_mul_bound(u.1, v.2, m);
    lemma_mul_bound(u.2, v.1, m);
    lemma_mul_bound(u.2, v.0, m);
    lemma_mul_bound(u.0, v.2, m);
    lemma_mul_bound(u.0, v.1, m);
    lemma_mul_bound(u.1, v.0, m);
}

/// The running sum of `k` triples has every component within
/// `3 * k * CROSS_LIMIT`.
proof fn lemma_accum_prefix_bound(verts: Seq<Vertex>, indices: Seq<u32>, k: int, v: int)
    requires
        0 <= k <= triple_count(indices),
        indices.len() % 3 == 0,
        mesh_well_formed(verts.len() as int, indices),
        verts_in_range(verts),
    ensures
        bounded3(accum_prefix(verts, indices, k, v), 3 * k * (CROSS_LIMIT as int)),
    decreases k,
{
    if k > 0 {
        lemma_accum_prefix_bound(verts, indices, k - 1, v);
        lemma_triple_cross_bound(verts, indices, k - 1);
    }
}

fn max_i64(a: i64, b: i64) -> (r: i64)
    ensures
        r as int == int_max(a as int, b as int),
{
    if b > a {
        b
    } else {
        a
    }
}

fn min_i64(a: i64, b: i64) -> (r: i64)
    ensures
        r as int == int_min(a as int, b as int),
{
    if b < a {
        b
    } else {
        a
    }
}

/// Folds one visited position into the running componentwise extent.
fn fold_extent(max_verts: &mut Vertex, min_verts: &mut Vertex, p: Vertex)
    ensures
        coords(*final(max_verts)) == join_max(coords(*old(max_verts)), coords(p)),
        coords(*final(min_verts)) == join_min(coords(*old(min_verts)), coords(p)),
{
    max_verts.position.0 = max_i64(max_verts.position.0, p.position.0);
    max_verts.position.1 = max_i64(max_verts.position.1, p.position.1);
    max_verts.position.2 = max_i64(max_verts.position.2, p.position.2);
    min_verts.position.0 = min_i64(min_verts.position.0, p.position.0);
    min_verts.position.1 = min_i64(min_verts.position.1, p.position.1);
    min_verts.position.2 = min_i64(min_verts.position.2, p.position.2);
}

/// Computes one triangle's face vector `(Pb - Pa) x (Pc - Pb)`.
fn face_vec(pa: Vertex, pb: Vertex, pc: Vertex) -> (c: (i64, i64, i64))
    requires
        vertex_in_range(pa),
        vertex_in_range(pb),
        vertex_in_range(pc),
    ensures
        (c.0 as int, c.1 as int, c.2 as int) == face_cross(pa, pb, pc),
        bounded3((c.0 as int, c.1 as int, c.2 as int), CROSS_LIMIT as int),
{
    let ux = pb.position.0 - pa.position.0;
    let uy = pb.position.1 - pa.position.1;
    let uz = pb.position.2 - pa.position.2;
    let vx = pc.position.0 - pb.position.0;
    let vy = pc.position.1 - pb.position.1;
    let vz = pc.position.2 - pb.position.2;
    proof {
        let m = 2 * (COORD_LIMIT as int);
        lemma_mul_bound(uy as int, vz as int, m);
        lemma_mul_bound(uz as int, vy as int, m);
        lemma_mul_bound(uz as int, vx as int, m);
        lemma_mul_bound(ux as int, vz as int, m);
        lemma_mul_bound(ux as int, vy as int, m);
        lemma_mul_bound(uy as int, vx as int, m);
    }
    (uy * vz - uz * vy, uz * vx - ux * vz, ux * vy - uy * vx)
}

/// Adds one face vector to the accumulator of vertex `i`.
fn add_face(normals: &mut Vec<Normal>, i: usize, c: (i64, i64, i64))
    requires
        i < old(normals)@.len(),
        i64::MIN <= old(normals)@[i as int].normal.0 + c.0 <= i64::MAX,
        i64::MIN <= old(normals)@[i as int].normal.1 + c.1 <= i64::MAX,
        i64::MIN <= old(normals)@[i as int].normal.2 + c.2 <= i64::MAX,
    ensures
        final(normals)@.len() == old(normals)@.len(),
        norm_coords(final(normals)@[i as int]) == vsum(
            norm_coords(old(normals)@[i as int]),
            (c.0 as int, c.1 as int, c.2 as int),
        ),
        forall|v: int|
            0 <= v < old(normals)@.len() && v != i ==> final(normals)@[v] == old(normals)@[v],
{
    let cur = normals[i];
    normals[i] = Normal {
        normal: (cur.normal.0 + c.0, cur.normal.1 + c.1, cur.normal.2 + c.2),
    };
}

/// The relation `norms_from_verts_and_index` establishes between its inputs
/// and its results: every vertex carries its accumulated normal, and the
/// extent is the componentwise maximum and minimum over everything the
/// index triples visit.
pub open spec fn synthesized(
    verts: Seq<Vertex>,
    indices: Seq<u32>,
    normals: Seq<Normal>,
    extent: Extent,
) -> bool {
    &&& normals.len() == verts.len()
    &&& forall|v: int|
        0 <= v < verts.len() ==> norm_coords(#[trigger] normals[v]) == accum(verts, indices, v)
    &&& coords(extent.max) == extent_max(verts, indices)
    &&& coords(extent.min) == extent_min(verts, indices)
}

/// Synthesizes the per-vertex normal sums and the bounding extent of a mesh.
///
/// For each index triple in order, the face vector `(Pb - Pa) x (Pc - Pb)`
/// is added to the running sum of all three named vertices — a vertex shared
/// by several triangles receives the unweighted sum of their face vectors,
/// so larger faces bias it more strongly — and the three positions are
/// folded into the componentwise extent. A vertex no triple names keeps the
/// zero sum and leaves no trace in the extent.
///
/// The result is a total function of the arguments: same mesh in, same
/// normals and extent out.
#[verifier::rlimit(100)]
pub fn norms_from_verts_and_index(model_verts: &Vec<Vertex>, indices: &Vec<u32>) -> (r: (
    Vec<Normal>,
    Extent,
))
    requires
        mesh_well_formed(model_verts@.len() as int, indices@),
        verts_in_range(model_verts@),
        indices@.len() <= INDEX_LIMIT,
    ensures
        synthesized(model_verts@, indices@, r.0@, r.1),
        indices@.len() > 0 ==> extent_in_range(r.1),
{
    let n = model_verts.len();
    let mut normals: Vec<Normal> = Vec::new();
    let mut i: usize = 0;
    while i < n
        invariant
            0 <= i <= n,
            normals@.len() == i,
            forall|v: int|
                0 <= v < i ==> norm_coords(#[trigger] normals@[v]) == (0int, 0int, 0int),
        decreases n - i,
    {
        normals.push(Normal { normal: (0, 0, 0) });
        i = i + 1;
    }

    let mut max_verts = Vertex { position: (i64::MIN, i64::MIN, i64::MIN) };
    let mut min_verts = Vertex { position: (i64::MAX, i64::MAX, i64::MAX) };

    let t = indices.len() / 3;
    let mut k: usize = 0;
    while k < t
        invariant
            0 <= k <= t,
            t == triple_count(indices@),
            indices@.len() % 3 == 0,
            indices@.len() <= INDEX_LIMIT,
            n == model_verts@.len(),
            normals@.len() == n,
            mesh_well_formed(n as int, indices@),
            verts_in_range(model_verts@),
            forall|v: int|
                0 <= v < n ==> norm_coords(#[trigger] normals@[v]) == accum_prefix(
                    model_verts@,
                    indices@,
                    k as int,
                    v,
                ),
            coords(max_verts) == extent_max_prefix(model_verts@, indices@, k as int),
            coords(min_verts) == extent_min_prefix(model_verts@, indices@, k as int),
            k > 0 ==> vertex_in_range(max_verts) && vertex_in_range(min_verts),
            max_verts.position.0 <= COORD_LIMIT && max_verts.position.1 <= COORD_LIMIT
                && max_verts.position.2 <= COORD_LIMIT,
            min_verts.position.0 >= -COORD_LIMIT && min_verts.position.1 >= -COORD_LIMIT
                && min_verts.position.2 >= -COORD_LIMIT,
        decreases t - k,
    {
        let base = 3 * k;
        let ia = indices[base] as usize;
        let ib = indices[base + 1] as usize;
        let ic = indices[base + 2] as usize;
        assert(indices@[base as int] < n);
        assert(indices@[base as int + 1] < n);
        assert(indices@[base as int + 2] < n);

        let pa = model_verts[ia];
        let pb = model_verts[ib];
        let pc = model_verts[ic];
        assert(vertex_in_range(model_verts@[ia as int]));
        assert(vertex_in_range(model_verts@[ib as int]));
        assert(vertex_in_range(model_verts@[ic as int]));

        fold_extent(&mut max_verts, &mut min_verts, pa);
        fold_extent(&mut max_verts, &mut min_verts, pb);
        fold_extent(&mut max_verts, &mut min_verts, pc);
        proof {
            assert(coords(max_verts) == extent_max_prefix(
                model_verts@,
                indices@,
                k as int + 1,
            ));
            assert(coords(min_verts) == extent_min_prefix(
                model_verts@,
                indices@,
                k as int + 1,
            ));
        }

        let c = face_vec(pa, pb, pc);
        proof {
            assert(triple_cross(model_verts@, indices@, k as int) == (
                c.0 as int,
                c.1 as int,
                c.2 as int,
            ));
            assert forall|v: int| 0 <= v < n implies bounded3(
                norm_coords(normals@[v]),
                3 * (k as int) * (CROSS_LIMIT as int),
            ) by {
                lemma_accum_prefix_bound(model_verts@, indices@, k as int, v);
            }
        }

        let ghost s0 = normals@;
        add_face(&mut normals, ia, c);
        let ghost s1 = normals@;
        add_face(&mut normals, ib, c);
        let ghost s2 = normals@;
        add_face(&mut normals, ic, c);

        proof {
            let c3 = (c.0 as int, c.1 as int, c.2 as int);
            let z3 = (0int, 0int, 0int);
            let tk = triple_at(indices@, k as int);
            assert forall|v: int| 0 <= v < n implies norm_coords(normals@[v]) == accum_prefix(
                model_verts@,
                indices@,
                k as int + 1,
                v,
            ) by {
                assert(norm_coords(s1[v]) == vsum(
                    norm_coords(s0[v]),
                    if v == ia as int {
                        c3
                    } else {
                        z3
                    },
                ));
                assert(norm_coords(s2[v]) == vsum(
                    norm_coords(s1[v]),
                    if v == ib as int {
                        c3
                    } else {
                        z3
                    },
                ));
                assert(norm_coords(normals@[v]) == vsum(
                    norm_coords(s2[v]),
                    if v == ic as int {
                        c3
                    } else {
                        z3
                    },
                ));
                assert(accum_prefix(model_verts@, indices@, k as int + 1, v) == vsum(
                    accum_prefix(model_verts@, indices@, k as int, v),
                    triple_contrib(tk, v, c3),
                ));
            }
        }
        k = k + 1;
    }
    (normals, Extent { max: max_verts, min: min_verts })
}

/// Law: the synthesis is a pure function of its inputs — any two results it
/// can return for the same mesh are identical, normals and extent alike.
pub proof fn lemma_synthesis_deterministic(
    verts: Seq<Vertex>,
    indices: Seq<u32>,
    normals1: Seq<Normal>,
    extent1: Extent,
    normals2: Seq<Normal>,
    extent2: Extent,
)
    requires
        synthesized(verts, indices, normals1, extent1),
        synthesized(verts, indices, normals2, extent2),
    ensures
        normals1 == normals2,
        extent1 == extent2,
{
    assert forall|v: int| 0 <= v < normals1.len() implies normals1[v] == normals2[v] by {
        assert(norm_coords(normals1[v]) == accum(verts, indices, v));
        assert(norm_coords(normals2[v]) == accum(verts, indices, v));
    }
    assert(normals1 =~= normals2);
}

proof fn lemma_accum_prefix_single(
    verts: Seq<Vertex>,
    indices: Seq<u32>,
    v: int,
    k0: int,
    k: int,
)
    requires
        0 <= k0 < triple_count(indices),
        0 <= k <= triple_count(indices),
        triple_mult(triple_at(indices, k0), v) == 1,
        forall|j: int|
            0 <= j < triple_count(indices) && j != k0 ==> triple_mult(
                #[trigger] triple_at(indices, j),
                v,
            ) == 0,
    ensures
        accum_prefix(verts, indices, k, v) == (if k <= k0 {
            (0int, 0int, 0int)
        } else {
            triple_cross(verts, indices, k0)
        }),
    decreases k,
{
    if k > 0 {
        lemma_accum_prefix_single(verts, indices, v, k0, k - 1);
        lemma_contrib_is_scaled(
            triple_at(indices, k - 1),
            v,
            triple_cross(verts, indices, k - 1),
        );
        let m = triple_mult(triple_at(indices, k - 1), v);
        if k - 1 == k0 {
            assert(m == 1);
            assert(vscale(1, triple_cross(verts, indices, k0)) == triple_cross(
                verts,
                indices,
                k0,
            ));
        } else {
            assert(m == 0);
        }
    }
}

/// Law: a vertex named exactly once, by exactly one triple, accumulates
/// exactly that triangle's face vector — its synthesized normal points where
/// that face's cross product points.
pub proof fn lemma_single_face_vertex(verts: Seq<Vertex>, indices: Seq<u32>, v: int, k0: int)
    requires
        0 <= k0 < triple_count(indices),
        triple_mult(triple_at(indices, k0), v) == 1,
        forall|j: int|
            0 <= j < triple_count(indices) && j != k0 ==> triple_mult(
                #[trigger] triple_at(indices, j),
                v,
            ) == 0,
    ensures
        accum(verts, indices, v) == triple_cross(verts, indices, k0),
{
    lemma_accum_prefix_single(verts, indices, v, k0, triple_count(indices));
}

proof fn lemma_accum_prefix_unreferenced(verts: Seq<Vertex>, indices: Seq<u32>, v: int, k: int)
    requires
        0 <= k <= triple_count(indices),
        forall|i: int| 0 <= i < indices.len() ==> (#[trigger] indices[i]) as int != v,
    ensures
        accum_prefix(verts, indices, k, v) == (0int, 0int, 0int),
    decreases k,
{
    if k > 0 {
        lemma_accum_prefix_unreferenced(verts, indices, v, k - 1);
        assert(indices[3 * (k - 1)] as int != v);
        assert(indices[3 * (k - 1) + 1] as int != v);
        assert(indices[3 * (k - 1) + 2] as int != v);
    }
}

/// Law: a vertex no index triple names keeps the zero accumulator — its
/// normal is the (non-unit) zero vector, and synthesizing does not fail on
/// its account.
pub proof fn lemma_unreferenced_vertex_zero(verts: Seq<Vertex>, indices: Seq<u32>, v: int)
    requires
        forall|i: int| 0 <= i < indices.len() ==> (#[trigger] indices[i]) as int != v,
    ensures
        accum(verts, indices, v) == (0int, 0int, 0int),
{
    lemma_accum_prefix_unreferenced(verts, indices, v, triple_count(indices));
}

proof fn lemma_extent_prefix_only_referenced(
    verts1: Seq<Vertex>,
    verts2: Seq<Vertex>,
    indices: Seq<u32>,
    k: int,
)
    requires
        0 <= k <= triple_count(indices),
        forall|i: int|
            0 <= i < indices.len() ==> verts1[(#[trigger] indices[i]) as int] == verts2[indices[i] as int],
    ensures
        extent_max_prefix(verts1, indices, k) == extent_max_prefix(verts2, indices, k),
        extent_min_prefix(verts1, indices, k) == extent_min_prefix(verts2, indices, k),
    decreases k,
{
    if k > 0 {
        lemma_extent_prefix_only_referenced(verts1, verts2, indices, k - 1);
        assert(verts1[indices[3 * (k - 1)] as int] == verts2[indices[3 * (k - 1)] as int]);
        assert(verts1[indices[3 * (k - 1) + 1] as int] == verts2[indices[3 * (k - 1) + 1] as int]);
        assert(verts1[indices[3 * (k - 1) + 2] as int] == verts2[indices[3 * (k - 1) + 2] as int]);
    }
}

/// Law: the extent reads only the positions the index triples visit — two
/// position lists that agree on every referenced vertex produce the same
/// extent, whatever the unreferenced positions hold.
pub proof fn lemma_extent_only_referenced(
    verts1: Seq<Vertex>,
    verts2: Seq<Vertex>,
    indices: Seq<u32>,
)
    requires
        forall|i: int|
            0 <= i < indices.len() ==> verts1[(#[trigger] indices[i]) as int] == verts2[indices[i] as int],
    ensures
        extent_max(verts1, indices) == extent_max(verts2, indices),
        extent_min(verts1, indices) == extent_min(verts2, indices),
{
    lemma_extent_prefix_only_referenced(verts1, verts2, indices, triple_count(indices));
}

/// Componentwise order.
pub open spec fn le3(a: (int, int, int), b: (int, int, int)) -> bool {
    a.0 <= b.0 && a.1 <= b.1 && a.2 <= b.2
}

proof fn lemma_extent_prefix_grows(verts: Seq<Vertex>, indices: Seq<u32>, k1: int, k2: int)
    requires
        0 <= k1 <= k2 <= triple_count(indices),
    ensures
        le3(extent_max_prefix(verts, indices, k1), extent_max_prefix(verts, indices, k2)),
        le3(extent_min_prefix(verts, indices, k2), extent_min_prefix(verts, indices, k1)),
    decreases k2 - k1,
{
    if k1 < k2 {
        lemma_extent_prefix_grows(verts, indices, k1, k2 - 1);
    }
}

/// Law: every position a triple visits lies inside the extent, componentwise
/// between `min` and `max`.
pub proof fn lemma_extent_covers_referenced(verts: Seq<Vertex>, indices: Seq<u32>, i: int)
    requires
        indices.len() % 3 == 0,
        0 <= i < indices.len(),
    ensures
        le3(coords(verts[indices[i] as int]), extent_max(verts, indices)),
        le3(extent_min(verts, indices), coords(verts[indices[i] as int])),
{
    let k = i / 3;
    assert(0 <= k < triple_count(indices));
    assert(3 * k == i - i % 3);
    let p = coords(verts[indices[i] as int]);
    assert(le3(p, extent_max_prefix(verts, indices, k + 1)) && le3(
        extent_min_prefix(verts, indices, k + 1),
        p,
    )) by {
        if i % 3 == 0 {
            assert(triple_at(indices, k).0 == indices[i]);
        } else if i % 3 == 1 {
            assert(triple_at(indices, k).1 == indices[i]);
        } else {
            assert(triple_at(indices, k).2 == indices[i]);
        }
    }
    lemma_extent_prefix_grows(verts, indices, k + 1, triple_count(indices));
}

/// The index list with every triple's winding reversed: each `(a, b, c)`
/// becomes `(a, c, b)`.
pub open spec fn swap_winding(indices: Seq<u32>) -> Seq<u32> {
    Seq::new(
        indices.len(),
        |i: int|
            if i % 3 == 0 {
                indices[i]
            } else if i % 3 == 1 {
                indices[i + 1]
            } else {
                indices[i - 1]
            },
    )
}

proof fn lemma_swap_comp(p1: int, p2: int, q1: int, q2: int, r1: int, r2: int)
    by (nonlinear_arith)
    ensures
        (r1 - p1) * (q2 - r2) - (r2 - p2) * (q1 - r1) == -((q1 - p1) * (r2 - q2) - (q2 - p2) * (
        r1 - q1)),
{
}

/// Reversing a triangle's winding negates its face vector exactly.
pub proof fn lemma_face_cross_swap(pa: Vertex, pb: Vertex, pc: Vertex)
    ensures
        face_cross(pa, pc, pb) == vneg(face_cross(pa, pb, pc)),
{
    let a = coords(pa);
    let b = coords(pb);
    let c = coords(pc);
    lemma_swap_comp(a.1, a.2, b.1, b.2, c.1, c.2);
    lemma_swap_comp(a.2, a.0, b.2, b.0, c.2, c.0);
    lemma_swap_comp(a.0, a.1, b.0, b.1, c.0, c.1);
}

proof fn lemma_triple_at_swap(indices: Seq<u32>, k: int)
    requires
        0 <= k < triple_count(indices),
    ensures
        triple_at(swap_winding(indices), k) == (
            triple_at(indices, k).0,
            triple_at(indices, k).2,
            triple_at(indices, k).1,
        ),
{
    assert((3 * k) % 3 == 0);
    assert((3 * k + 1) % 3 == 1);
    assert((3 * k + 2) % 3 == 2);
}

proof fn lemma_join_max_last_two(m: (int, int, int), p: (int, int, int), q: (int, int, int))
    ensures
        join_max(join_max(m, p), q) == join_max(join_max(m, q), p),
{
}

proof fn lemma_join_min_last_two(m: (int, int, int), p: (int, int, int), q: (int, int, int))
    ensures
        join_min(join_min(m, p), q) == join_min(join_min(m, q), p),
{
}

proof fn lemma_swap_winding_accum_prefix(verts: Seq<Vertex>, indices: Seq<u32>, v: int, k: int)
    requires
        0 <= k <= triple_count(indices),
    ensures
        accum_prefix(verts, swap_winding(indices), k, v) == vneg(
            accum_prefix(verts, indices, k, v),
        ),
    decreases k,
{
    let swapped = swap_winding(indices);
    assert(triple_count(swapped) == triple_count(indices));
    if k > 0 {
        lemma_swap_winding_accum_prefix(verts, indices, v, k - 1);
        lemma_triple_at_swap(indices, k - 1);
        let t = triple_at(indices, k - 1);
        lemma_face_cross_swap(verts[t.0 as int], verts[t.1 as int], verts[t.2 as int]);
        assert(triple_cross(verts, swapped, k - 1) == vneg(triple_cross(verts, indices, k - 1)));
    }
}

proof fn lemma_swap_winding_extent_prefix(verts: Seq<Vertex>, indices: Seq<u32>, k: int)
    requires
        0 <= k <= triple_count(indices),
    ensures
        extent_max_prefix(verts, swap_winding(indices), k) == extent_max_prefix(
            verts,
            indices,
            k,
        ),
        extent_min_prefix(verts, swap_winding(indices), k) == extent_min_prefix(
            verts,
            indices,
            k,
        ),
    decreases k,
{
    let swapped = swap_winding(indices);
    assert(triple_count(swapped) == triple_count(indices));
    if k > 0 {
        lemma_swap_winding_extent_prefix(verts, indices, k - 1);
        lemma_triple_at_swap(indices, k - 1);
        let t = triple_at(indices, k - 1);
        let pa = coords(verts[t.0 as int]);
        let pb = coords(verts[t.1 as int]);
        let pc = coords(verts[t.2 as int]);
        let mx = extent_max_prefix(verts, indices, k - 1);
        let mn = extent_min_prefix(verts, indices, k - 1);
        lemma_join_max_last_two(join_max(mx, pa), pb, pc);
        lemma_join_min_last_two(join_min(mn, pa), pb, pc);
        assert(fold_max_triple(mx, verts, swapped, k - 1) == fold_max_triple(
            mx,
            verts,
            indices,
            k - 1,
        ));
        assert(fold_min_triple(mn, verts, swapped, k - 1) == fold_min_triple(
            mn,
            verts,
            indices,
            k - 1,
        ));
    }
}

/// Law: reversing every triple's winding flips the sign of every accumulated
/// normal and leaves the extent unchanged, all else equal.
pub proof fn lemma_swap_winding_flips_normals(verts: Seq<Vertex>, indices: Seq<u32>, v: int)
    ensures
        accum(verts, swap_winding(indices), v) == vneg(accum(verts, indices, v)),
        extent_max(verts, swap_winding(indices)) == extent_max(verts, indices),
        extent_min(verts, swap_winding(indices)) == extent_min(verts, indices),
{
    assert(triple_count(swap_winding(indices)) == triple_count(indices));
    lemma_swap_winding_accum_prefix(verts, indices, v, triple_count(indices));
    lemma_swap_winding_extent_prefix(verts, indices, triple_count(indices));
}

} // verus!
