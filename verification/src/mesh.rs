//! Triangle meshes built from quads: an ordered vertex list plus an index
//! list, six indices per quad, with the quad's first index advancing by four
//! vertices per quad. Texture coordinates are exact rationals over the atlas
//! grid, so that mesh geometry is integer-exact; the GPU boundary converts
//! them to floating point.

use vstd::prelude::*;
use crate::math::Vec3i;

verus! {

/// An exact texture coordinate `(u, v) = (u_num / denom, v_num / denom)` on
/// the atlas grid.
#[derive(Clone, Copy, Debug, PartialEq, Eq, Structural)]
pub struct TexCoord {
    pub u_num: u32,
    pub v_num: u32,
    pub denom: u32,
}

/// A mesh vertex: an integer world-space corner position, an exact texture
/// coordinate, and a unit normal.
#[derive(Clone, Copy, Debug, PartialEq, Eq, Structural)]
pub struct Vertex {
    pub position: Vec3i,
    pub tex_coords: TexCoord,
    pub normal: Vec3i,
}

/// One quad: four vertices, emitted as two triangles (a, b, c) and
/// (a, c, d).
#[derive(Clone, Copy, Debug, PartialEq, Eq, Structural)]
pub struct Quad {
    pub a: Vertex,
    pub b: Vertex,
    pub c: Vertex,
    pub d: Vertex,
}

/// The vertex list of a sequence of quads: four vertices per quad, in order.
pub open spec fn quads_vertices(qs: Seq<Quad>) -> Seq<Vertex>
    decreases qs.len(),
{
    if qs.len() == 0 {
        Seq::empty()
    } else {
        quads_vertices(qs.drop_last()) + seq![qs.last().a, qs.last().b, qs.last().c, qs.last().d]
    }
}

/// The index list of `n` quads whose first quad starts at vertex `base`:
/// each quad contributes `[k, k+1, k+2, k, k+2, k+3]` with `k` advancing by
/// four per quad.
pub open spec fn quads_indices_from(base: int, n: nat) -> Seq<u32>
    decreases n,
{
    if n == 0 {
        Seq::empty()
    } else {
        let k = base + 4 * (n - 1);
        quads_indices_from(base, (n - 1) as nat) + seq![
            k as u32,
            (k + 1) as u32,
            (k + 2) as u32,
            k as u32,
            (k + 2) as u32,
            (k + 3) as u32,
        ]
    }
}

pub proof fn lemma_quads_vertices_len(qs: Seq<Quad>)
    ensures
        quads_vertices(qs).len() == 4 * qs.len(),
    decreases qs.len(),
{
    if qs.len() > 0 {
        lemma_quads_vertices_len(qs.drop_last());
    }
}

/// Quad vertex lists concatenate quad-wise.
pub proof fn lemma_quads_vertices_concat(qs1: Seq<Quad>, qs2: Seq<Quad>)
    ensures
        quads_vertices(qs1 + qs2) == quads_vertices(qs1) + quads_vertices(qs2),
    decreases qs2.len(),
{
    if qs2.len() == 0 {
        assert(qs1 + qs2 =~= qs1);
        assert(quads_vertices(qs1) + quads_vertices(qs2) =~= quads_vertices(qs1));
    } else {
        lemma_quads_vertices_concat(qs1, qs2.drop_last());
        assert((qs1 + qs2).drop_last() =~= qs1 + qs2.drop_last());
        assert((qs1 + qs2).last() == qs2.last());
        assert(quads_vertices(qs1) + quads_vertices(qs2.drop_last()) + seq![
            qs2.last().a,
            qs2.last().b,
            qs2.last().c,
            qs2.last().d,
        ] =~= quads_vertices(qs1) + quads_vertices(qs2));
    }
}

/// Quad index lists concatenate quad-wise, with the second run starting
/// where the first run's vertices end.
pub proof fn lemma_quads_indices_concat(base: int, n1: nat, n2: nat)
    ensures
        quads_indices_from(base, n1 + n2) == quads_indices_from(base, n1) + quads_indices_from(
            base + 4 * n1,
            n2,
        ),
    decreases n2,
{
    if n2 == 0 {
        assert(quads_indices_from(base, n1) + quads_indices_from(base + 4 * n1, 0)
            =~= quads_indices_from(base, n1));
    } else {
        lemma_quads_indices_concat(base, n1, (n2 - 1) as nat);
        let k = base + 4 * n1 + 4 * (n2 - 1);
        assert(base + 4 * ((n1 + n2) - 1) == k);
        assert(quads_indices_from(base, n1) + (quads_indices_from(base + 4 * n1, (n2 - 1) as nat)
            + seq![k as u32, (k + 1) as u32, (k + 2) as u32, k as u32, (k + 2) as u32, (k
            + 3) as u32]) =~= quads_indices_from(base, (n1 + n2 - 1) as nat) + seq![
            k as u32,
            (k + 1) as u32,
            (k + 2) as u32,
            k as u32,
            (k + 2) as u32,
            (k + 3) as u32,
        ]);
    }
}

/// `m1` extends `m0` by exactly the given quads.
pub open spec fn quad_extension(m0: Mesh, m1: Mesh, qs: Seq<Quad>) -> bool {
    &&& m1.spec_vertices() == m0.spec_vertices() + quads_vertices(qs)
    &&& m1.spec_indices() == m0.spec_indices() + quads_indices_from(
        m0.spec_vertices().len() as int,
        qs.len(),
    )
}

/// Extending by `qs1` and then by `qs2` extends by `qs1 + qs2`.
pub proof fn lemma_quad_extension_trans(m0: Mesh, m1: Mesh, m2: Mesh, qs1: Seq<Quad>, qs2: Seq<Quad>)
    requires
        quad_extension(m0, m1, qs1),
        quad_extension(m1, m2, qs2),
    ensures
        quad_extension(m0, m2, qs1 + qs2),
{
    lemma_quads_vertices_len(qs1);
    lemma_quads_vertices_concat(qs1, qs2);
    lemma_quads_indices_concat(m0.spec_vertices().len() as int, qs1.len(), qs2.len());
    assert(m2.spec_vertices() =~= m0.spec_vertices() + quads_vertices(qs1 + qs2));
    assert(m2.spec_indices() =~= m0.spec_indices() + quads_indices_from(
        m0.spec_vertices().len() as int,
        qs1.len() + qs2.len(),
    ));
}

/// A triangle mesh under construction: vertices plus triangle indices.
pub struct Mesh {
    vertices: Vec<Vertex>,
    indices: Vec<u32>,
}

impl Mesh {
    pub closed spec fn spec_vertices(self) -> Seq<Vertex> {
        self.vertices@
    }

    pub closed spec fn spec_indices(self) -> Seq<u32> {
        self.indices@
    }

    /// An empty mesh.
    pub fn new() -> (r: Mesh)
        ensures
            r.spec_vertices() == Seq::<Vertex>::empty(),
            r.spec_indices() == Seq::<u32>::empty(),
    {
        Mesh { vertices: Vec::new(), indices: Vec::new() }
    }

    /// Append one triangle: three vertices and their three indices.
    pub fn add_tri(&mut self, a: Vertex, b: Vertex, c: Vertex)
        requires
            old(self).spec_vertices().len() + 3 <= u32::MAX,
        ensures
            final(self).spec_vertices() == old(self).spec_vertices() + seq![a, b, c],
            final(self).spec_indices() == old(self).spec_indices() + seq![
                old(self).spec_vertices().len() as u32,
                (old(self).spec_vertices().len() + 1) as u32,
                (old(self).spec_vertices().len() + 2) as u32,
            ],
    {
        let base_index = self.vertices.len() as u32;
        self.vertices.push(a);
        self.vertices.push(b);
        self.vertices.push(c);
        self.indices.push(base_index);
        self.indices.push(base_index + 1);
        self.indices.push(base_index + 2);
        proof {
            assert(self.vertices@ =~= old(self).vertices@ + seq![a, b, c]);
            assert(self.indices@ =~= old(self).indices@ + seq![
                old(self).vertices@.len() as u32,
                (old(self).vertices@.len() + 1) as u32,
                (old(self).vertices@.len() + 2) as u32,
            ]);
        }
    }

    /// Append one quad: four vertices and the six indices of its two
    /// triangles.
    pub fn add_quad(&mut self, a: Vertex, b: Vertex, c: Vertex, d: Vertex)
        requires
            old(self).spec_vertices().len() + 4 <= u32::MAX,
        ensures
            quad_extension(*old(self), *final(self), seq![Quad { a, b, c, d }]),
            final(self).spec_vertices() == old(self).spec_vertices() + seq![a, b, c, d],
    {
        let base_index = self.vertices.len() as u32;
        self.vertices.push(a);
        self.vertices.push(b);
        self.vertices.push(c);
        self.vertices.push(d);
        self.indices.push(base_index);
        self.indices.push(base_index + 1);
        self.indices.push(base_index + 2);
        self.indices.push(base_index);
        self.indices.push(base_index + 2);
        self.indices.push(base_index + 3);
        proof {
            let q = Quad { a, b, c, d };
            let qs = seq![q];
            assert(qs.drop_last() =~= Seq::<Quad>::empty());
            assert(quads_vertices(Seq::<Quad>::empty()) =~= Seq::<Vertex>::empty());
            assert(quads_vertices(qs) =~= seq![a, b, c, d]);
            assert(self.vertices@ =~= old(self).vertices@ + quads_vertices(qs));
            let k = old(self).vertices@.len() as int;
            assert(quads_indices_from(k, 0) =~= Seq::<u32>::empty());
            assert(quads_indices_from(k, 1) =~= seq![
                k as u32,
                (k + 1) as u32,
                (k + 2) as u32,
                k as u32,
                (k + 2) as u32,
                (k + 3) as u32,
            ]);
            assert(self.indices@ =~= old(self).indices@ + quads_indices_from(k, 1));
        }
    }

    /// Number of triangle indices in the mesh.
    pub fn index_count(&self) -> (r: u32)
        requires
            self.spec_indices().len() <= u32::MAX,
        ensures
            r == self.spec_indices().len(),
    {
        self.indices.len() as u32
    }

    /// The vertex list, for handing to the GPU-upload boundary.
    pub fn vertices(&self) -> (r: &Vec<Vertex>)
        ensures
            r@ == self.spec_vertices(),
    {
        &self.vertices
    }

    /// The index list, for handing to the GPU-upload boundary.
    pub fn indices(&self) -> (r: &Vec<u32>)
        ensures
            r@ == self.spec_indices(),
    {
        &self.indices
    }
}

} // verus!
