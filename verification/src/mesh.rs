//! Triangle meshes: one vertex list, one index list.
//!
//! A model file lists positions, normals and texture coordinates as flat
//! arrays of numbers. This module merges them into one list of vertices and
//! checks that an index list draws whole triangles out of that list.
//!
//! Coordinates are single-precision floats. They are carried as their bit
//! patterns (what `f32::to_bits` returns), because a mesh only moves them
//! and never computes with them.

use vstd::prelude::*;

verus! {

/// One corner of a triangle. Every component is the bit pattern of a
/// single-precision float.
#[derive(Clone, Copy, Debug, PartialEq, Eq)]
pub struct Vertex {
    /// Position in model space: x, y, z.
    pub position: (u32, u32, u32),
    /// Surface normal: x, y, z.
    pub normal: (u32, u32, u32),
    /// Texture coordinate: u, v.
    pub uv: (u32, u32),
}

impl Default for Vertex {
    /// The vertex at the origin with a zero normal and texture coordinate.
    fn default() -> (vertex: Vertex)
        ensures
            vertex == (Vertex { position: (0, 0, 0), normal: (0, 0, 0), uv: (0, 0) }),
    {
        Vertex { position: (0, 0, 0), normal: (0, 0, 0), uv: (0, 0) }
    }
}

/// Why a mesh was refused.
#[derive(Clone, Copy, Debug, PartialEq, Eq, Structural)]
pub enum MeshError {
    /// There are not as many position numbers as normal numbers.
    MismatchedAttributeCount,
    /// The position numbers do not come in whole triples.
    PartialTriple,
    /// The indices do not come in whole triples.
    PartialTriangle,
    /// An index names a vertex that the mesh does not have.
    IndexOutOfRange,
    /// There are more indices than one draw can cover.
    TooManyIndices,
}

/// The texture coordinate of vertex `i`: its pair of numbers where the
/// array holds both, zero where it does not.
pub open spec fn uv_at(texcoords: Seq<u32>, i: int) -> (u32, u32) {
    if 2 * i + 1 < texcoords.len() {
        (texcoords[2 * i], texcoords[2 * i + 1])
    } else {
        (0, 0)
    }
}

/// Vertex `i` of the merged list: the `i`-th triple of positions, the
/// `i`-th triple of normals and the `i`-th pair of texture coordinates.
pub open spec fn vertex_at(
    positions: Seq<u32>,
    normals: Seq<u32>,
    texcoords: Seq<u32>,
    i: int,
) -> Vertex {
    Vertex {
        position: (positions[3 * i], positions[3 * i + 1], positions[3 * i + 2]),
        normal: (normals[3 * i], normals[3 * i + 1], normals[3 * i + 2]),
        uv: uv_at(texcoords, i),
    }
}

/// The merged vertex list: one vertex for every triple of positions.
pub open spec fn unified(positions: Seq<u32>, normals: Seq<u32>, texcoords: Seq<u32>) -> Seq<
    Vertex,
> {
    Seq::new((positions.len() / 3) as nat, |i: int| vertex_at(positions, normals, texcoords, i))
}

/// What merging the three arrays gives: the merged list when positions and
/// normals have the same length and come in whole triples, else the reason
/// why not.
pub open spec fn unify(positions: Seq<u32>, normals: Seq<u32>, texcoords: Seq<u32>) -> Result<
    Seq<Vertex>,
    MeshError,
> {
    if positions.len() != normals.len() {
        Err(MeshError::MismatchedAttributeCount)
    } else if positions.len() % 3 != 0 {
        Err(MeshError::PartialTriple)
    } else {
        Ok(unified(positions, normals, texcoords))
    }
}

/// An index list draws whole triangles out of `vertex_count` vertices:
/// its length is a multiple of three and every index names a vertex.
pub open spec fn valid_indices(indices: Seq<u32>, vertex_count: nat) -> bool {
    &&& indices.len() % 3 == 0
    &&& forall|i: int| 0 <= i < indices.len() ==> indices[i] < vertex_count
}

/// What checking an index list gives.
pub open spec fn check_indices(indices: Seq<u32>, vertex_count: nat) -> Result<(), MeshError> {
    if indices.len() % 3 != 0 {
        Err(MeshError::PartialTriangle)
    } else if exists|i: int| 0 <= i < indices.len() && indices[i] >= vertex_count {
        Err(MeshError::IndexOutOfRange)
    } else if indices.len() > u32::MAX {
        Err(MeshError::TooManyIndices)
    } else {
        Ok(())
    }
}

/// Merging `N` triples of positions with `N` triples of normals gives
/// exactly `N` vertices, whatever texture coordinates come with them, and
/// vertex `i` carries the `i`-th triple of each. Arrays of different length
/// are refused as mismatched.
pub proof fn lemma_unify_counts(
    positions: Seq<u32>,
    normals: Seq<u32>,
    texcoords: Seq<u32>,
    n: nat,
)
    ensures
        positions.len() == 3 * n && normals.len() == 3 * n ==> {
            &&& unify(positions, normals, texcoords) is Ok
            &&& unify(positions, normals, texcoords)->Ok_0.len() == n
            &&& forall|i: int|
                0 <= i < n ==> #[trigger] unify(positions, normals, texcoords)->Ok_0[i]
                    == vertex_at(positions, normals, texcoords, i)
        },
        positions.len() != normals.len() ==> unify(positions, normals, texcoords) == Err::<
            Seq<Vertex>,
            MeshError,
        >(MeshError::MismatchedAttributeCount),
{
    if positions.len() == 3 * n && normals.len() == 3 * n {
        assert((3 * n) % 3 == 0 && (3 * n) / 3 == n) by (nonlinear_arith);
    }
}

/// An index list passes the check exactly when it is valid and short
/// enough for one draw.
pub proof fn lemma_checked_indices_are_valid(indices: Seq<u32>, vertex_count: nat)
    ensures
        check_indices(indices, vertex_count) is Ok <==> valid_indices(indices, vertex_count)
            && indices.len() <= u32::MAX,
{
}

/// Merges flat arrays of positions, normals and texture coordinates into
/// one vertex list.
pub fn unify_vertices(positions: &[u32], normals: &[u32], texcoords: &[u32]) -> (r: Result<
    Vec<Vertex>,
    MeshError,
>)
    ensures
        match r {
            Ok(vertices) => unify(positions@, normals@, texcoords@) == Ok::<
                Seq<Vertex>,
                MeshError,
            >(vertices@),
            Err(error) => unify(positions@, normals@, texcoords@) == Err::<
                Seq<Vertex>,
                MeshError,
            >(error),
        },
{
    if positions.len() != normals.len() {
        return Err(MeshError::MismatchedAttributeCount);
    }
    if positions.len() % 3 != 0 {
        return Err(MeshError::PartialTriple);
    }
    let count: usize = positions.len() / 3;
    let mut vertices: Vec<Vertex> = Vec::new();
    let mut i: usize = 0;
    while i < count
        invariant
            i <= count,
            count == positions.len() / 3,
            positions.len() == normals.len(),
            positions.len() % 3 == 0,
            vertices@.len() == i,
            forall|k: int|
                0 <= k < i ==> #[trigger] vertices@[k] == vertex_at(
                    positions@,
                    normals@,
                    texcoords@,
                    k,
                ),
        decreases count - i,
    {
        let p: usize = 3 * i;
        let uv: (u32, u32) = if i < texcoords.len() / 2 {
            (texcoords[2 * i], texcoords[2 * i + 1])
        } else {
            (0, 0)
        };
        vertices.push(
            Vertex {
                position: (positions[p], positions[p + 1], positions[p + 2]),
                normal: (normals[p], normals[p + 1], normals[p + 2]),
                uv,
            },
        );
        i = i + 1;
    }
    assert(vertices@ =~= unified(positions@, normals@, texcoords@));
    Ok(vertices)
}

/// Checks that an index list draws whole triangles out of `vertex_count`
/// vertices and is short enough for one draw.
pub fn validate_indices(indices: &[u32], vertex_count: usize) -> (r: Result<(), MeshError>)
    ensures
        r == check_indices(indices@, vertex_count as nat),
        r is Ok ==> valid_indices(indices@, vertex_count as nat),
{
    if indices.len() % 3 != 0 {
        return Err(MeshError::PartialTriangle);
    }
    let mut i: usize = 0;
    while i < indices.len()
        invariant
            i <= indices.len(),
            indices.len() % 3 == 0,
            forall|k: int| 0 <= k < i ==> indices@[k] < vertex_count,
        decreases indices.len() - i,
    {
        if indices[i] as usize >= vertex_count {
            assert(indices@[i as int] >= vertex_count);
            return Err(MeshError::IndexOutOfRange);
        }
        i = i + 1;
    }
    if indices.len() > u32::MAX as usize {
        return Err(MeshError::TooManyIndices);
    }
    Ok(())
}

/// What a mesh is, as plain values.
pub struct MeshView {
    /// The vertices, in the order the indices count them.
    pub vertices: Seq<Vertex>,
    /// The indices, three to a triangle.
    pub indices: Seq<u32>,
}

impl MeshView {
    /// The indices draw whole triangles out of the vertices, and one draw
    /// can cover them.
    pub open spec fn wf(self) -> bool {
        &&& valid_indices(self.indices, self.vertices.len())
        &&& self.indices.len() <= u32::MAX
    }

    /// Number of triangles.
    pub open spec fn triangles(self) -> int {
        self.indices.len() as int / 3
    }
}

/// What putting a vertex list and an index list together gives.
pub open spec fn build(vertices: Seq<Vertex>, indices: Seq<u32>) -> Result<MeshView, MeshError> {
    match check_indices(indices, vertices.len()) {
        Ok(_) => Ok(MeshView { vertices, indices }),
        Err(error) => Err(error),
    }
}

/// What loading a mesh from flat arrays gives: the arrays are merged, then
/// the indices are checked against the merged list.
pub open spec fn assemble(
    positions: Seq<u32>,
    normals: Seq<u32>,
    texcoords: Seq<u32>,
    indices: Seq<u32>,
) -> Result<MeshView, MeshError> {
    match unify(positions, normals, texcoords) {
        Ok(vertices) => build(vertices, indices),
        Err(error) => Err(error),
    }
}

/// A mesh, once built or loaded, is well formed: every index is below the
/// number of vertices and the indices come in whole triples.
pub proof fn lemma_assembled_mesh_is_valid(
    positions: Seq<u32>,
    normals: Seq<u32>,
    texcoords: Seq<u32>,
    indices: Seq<u32>,
)
    ensures
        assemble(positions, normals, texcoords, indices) matches Ok(mesh) ==> {
            &&& mesh.wf()
            &&& mesh.indices == indices
            &&& mesh.vertices.len() * 3 == positions.len()
            &&& mesh.indices.len() % 3 == 0
            &&& forall|i: int|
                0 <= i < mesh.indices.len() ==> #[trigger] mesh.indices[i] < mesh.vertices.len()
        },
{
}

/// A triangle mesh whose indices are known to be valid. It does not change
/// once it is built.
#[derive(Debug)]
pub struct Mesh {
    vertices: Vec<Vertex>,
    indices: Vec<u32>,
}

impl View for Mesh {
    type V = MeshView;

    closed spec fn view(&self) -> MeshView {
        MeshView { vertices: self.vertices@, indices: self.indices@ }
    }
}

impl Mesh {
    #[verifier::type_invariant]
    spec fn inv(self) -> bool {
        self@.wf()
    }

    /// Puts a vertex list and an index list together, if the indices draw
    /// whole triangles out of the vertices.
    pub fn new(vertices: Vec<Vertex>, indices: Vec<u32>) -> (r: Result<Mesh, MeshError>)
        ensures
            match r {
                Ok(mesh) => build(vertices@, indices@) == Ok::<MeshView, MeshError>(mesh@)
                    && mesh@.wf(),
                Err(error) => build(vertices@, indices@) == Err::<MeshView, MeshError>(error),
            },
    {
        match validate_indices(indices.as_slice(), vertices.len()) {
            Ok(()) => Ok(Mesh { vertices, indices }),
            Err(error) => Err(error),
        }
    }

    /// Loads a mesh from the flat arrays of a model file: positions and
    /// normals three numbers to a vertex, texture coordinates two.
    pub fn load(positions: &[u32], normals: &[u32], texcoords: &[u32], indices: Vec<u32>) -> (r:
        Result<Mesh, MeshError>)
        ensures
            match r {
                Ok(mesh) => assemble(positions@, normals@, texcoords@, indices@) == Ok::<
                    MeshView,
                    MeshError,
                >(mesh@) && mesh@.wf(),
                Err(error) => assemble(positions@, normals@, texcoords@, indices@) == Err::<
                    MeshView,
                    MeshError,
                >(error),
            },
    {
        match unify_vertices(positions, normals, texcoords) {
            Ok(vertices) => Mesh::new(vertices, indices),
            Err(error) => Err(error),
        }
    }

    /// The vertices.
    pub fn vertices(&self) -> (vertices: &Vec<Vertex>)
        ensures
            vertices@ == self@.vertices,
    {
        &self.vertices
    }

    /// The indices: whole triples, each index below the number of vertices.
    pub fn indices(&self) -> (indices: &Vec<u32>)
        ensures
            indices@ == self@.indices,
            valid_indices(indices@, self@.vertices.len()),
    {
        proof {
            use_type_invariant(self);
        }
        &self.indices
    }

    /// Number of vertices.
    pub fn vertex_count(&self) -> (count: usize)
        ensures
            count == self@.vertices.len(),
    {
        self.vertices.len()
    }

    /// Number of indices, which one indexed draw covers.
    pub fn index_count(&self) -> (count: u32)
        ensures
            count == self@.indices.len(),
            count % 3 == 0,
    {
        proof {
            use_type_invariant(self);
        }
        self.indices.len() as u32
    }

    /// Number of triangles.
    pub fn triangle_count(&self) -> (count: u32)
        ensures
            count == self@.triangles(),
            count * 3 == self@.indices.len(),
    {
        proof {
            use_type_invariant(self);
        }
        (self.indices.len() / 3) as u32
    }
}

} // verus!
