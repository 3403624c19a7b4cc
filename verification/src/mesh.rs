//! The exporters' output: a compact vertex buffer with one or more index
//! streams.
use vstd::prelude::*;

verus! {

/// Sum of a sequence of `u32` arities, as an unbounded integer.
pub open spec fn sum_u32(s: Seq<u32>) -> int
    decreases s.len(),
{
    if s.len() == 0 {
        0
    } else {
        sum_u32(s.drop_last()) + s.last()
    }
}

pub proof fn lemma_sum_u32_push(s: Seq<u32>, x: u32)
    ensures
        sum_u32(s.push(x)) == sum_u32(s) + x,
{
    assert(s.push(x).drop_last() =~= s);
    assert(s.push(x).last() == x);
}

/// Every index in `s` is below `bound`.
pub open spec fn indices_in_range(s: Seq<u32>, bound: int) -> bool {
    forall|i: int| 0 <= i < s.len() ==> s[i] < bound
}

/// A mesh loaded from an `OBJ` object: flat stride-packed attribute
/// buffers and `u32` index streams.  Scalar components are raw bit
/// patterns: positions, normals and texture coordinates are 64-bit
/// patterns, vertex colors are 32-bit patterns widened to `u64`.
#[derive(Debug, Clone, PartialEq)]
pub struct Mesh {
    /// Flattened 3-component vectors: the positions of the vertices.
    pub positions: Vec<u64>,
    /// Flattened 3-component vectors: vertex colors, empty when the
    /// source specifies none.
    pub vertex_color: Vec<u64>,
    /// Flattened 3-component vectors: vertex normals, empty when the
    /// source specifies none.
    pub normals: Vec<u64>,
    /// Flattened 2-component vectors: texture coordinates, empty when
    /// the source specifies none.
    pub texcoords: Vec<u64>,
    /// Indices for the vertices of each face; with a single shared index
    /// they address all attributes at once.
    pub indices: Vec<u32>,
    /// The vertex count of each face; empty when every face is a
    /// triangle (in particular whenever faces were triangulated).
    pub face_arities: Vec<u32>,
    /// Indices for vertex colors, filled only by the point-merging pass.
    pub vertex_color_indices: Vec<u32>,
    /// Separate indices for texture coordinates, when no single shared
    /// index was requested.
    pub texcoord_indices: Vec<u32>,
    /// Separate indices for normals, when no single shared index was
    /// requested.
    pub normal_indices: Vec<u32>,
    /// Index of this mesh's material in the loaded material list.
    pub material_id: Option<usize>,
}

impl Mesh {
    /// Structural soundness of a mesh: attribute buffers are whole
    /// tuples, every index stream addresses within its buffer, and the
    /// face arities, when stored, account exactly for the index stream.
    pub open spec fn wf(self) -> bool {
        &&& self.positions@.len() % 3 == 0
        &&& indices_in_range(self.indices@, self.positions@.len() as int / 3)
        &&& indices_in_range(self.normal_indices@, self.normals@.len() as int / 3)
        &&& indices_in_range(self.texcoord_indices@, self.texcoords@.len() as int / 2)
        &&& indices_in_range(self.vertex_color_indices@, self.vertex_color@.len() as int / 3)
        &&& (self.face_arities@.len() > 0 ==> sum_u32(self.face_arities@) == self.indices@.len())
    }

    /// All fields empty and no material.
    pub open spec fn is_empty_spec(self) -> bool {
        &&& self.positions@ == Seq::<u64>::empty()
        &&& self.vertex_color@ == Seq::<u64>::empty()
        &&& self.normals@ == Seq::<u64>::empty()
        &&& self.texcoords@ == Seq::<u64>::empty()
        &&& self.indices@ == Seq::<u32>::empty()
        &&& self.face_arities@ == Seq::<u32>::empty()
        &&& self.vertex_color_indices@ == Seq::<u32>::empty()
        &&& self.texcoord_indices@ == Seq::<u32>::empty()
        &&& self.normal_indices@ == Seq::<u32>::empty()
        &&& self.material_id is None
    }
}

impl Default for Mesh {
    /// Create a new, empty mesh.
    fn default() -> (r: Self)
        ensures
            r.is_empty_spec(),
            r.wf(),
    {
        let r = Mesh {
            positions: Vec::new(),
            vertex_color: Vec::new(),
            normals: Vec::new(),
            texcoords: Vec::new(),
            indices: Vec::new(),
            face_arities: Vec::new(),
            vertex_color_indices: Vec::new(),
            normal_indices: Vec::new(),
            texcoord_indices: Vec::new(),
            material_id: None,
        };
        proof {
            assert(r.positions@ =~= Seq::<u64>::empty());
            assert(r.vertex_color@ =~= Seq::<u64>::empty());
            assert(r.normals@ =~= Seq::<u64>::empty());
            assert(r.texcoords@ =~= Seq::<u64>::empty());
            assert(r.indices@ =~= Seq::<u32>::empty());
            assert(r.face_arities@ =~= Seq::<u32>::empty());
            assert(r.vertex_color_indices@ =~= Seq::<u32>::empty());
            assert(r.texcoord_indices@ =~= Seq::<u32>::empty());
            assert(r.normal_indices@ =~= Seq::<u32>::empty());
        }
        r
    }
}

/// A named model: a mesh together with the name given by the `o` or `g`
/// statement it was read under.
#[derive(Debug, Clone)]
pub struct Model {
    /// The model's geometry.
    pub mesh: Mesh,
    /// The name assigned to this mesh.
    pub name: String,
}

impl Model {
    /// Create a new model, associating a name with a mesh.
    pub fn new(mesh: Mesh, name: String) -> (r: Model)
        ensures
            r.mesh == mesh,
            r.name == name,
    {
        Model { mesh, name }
    }
}

} // verus!
