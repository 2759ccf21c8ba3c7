//! The mesh store: vertex records assembled from loaded geometry.
//!
//! Scalars are carried as IEEE-754 binary32 bit patterns (`u32`), the form in
//! which they are laid out in a vertex buffer. Nothing here does arithmetic on
//! them: records are assembled by moving components, and a missing channel is
//! filled with the pattern of positive zero.

use crate::layout::{Vertex, VertexAttribute, VertexBufferLayout, VertexFormat, VertexStepMode};
use vstd::prelude::*;

verus! {

/// Bit pattern of the scalar `0.0`.
pub const ZERO_BITS: u32 = 0;

/// One vertex record as the geometry pass consumes it.
#[derive(Clone, Copy, Debug, PartialEq, Eq)]
pub struct ModelVertex {
    pub position: [u32; 3],
    /// Reserved channel, always zero.
    pub color: [u32; 3],
    pub normal: [u32; 3],
}

impl ModelVertex {
    /// Bytes in one record: nine 32-bit scalars.
    pub const RECORD_BYTES: u64 = 36;
}

impl Vertex for ModelVertex {
    /// Position, color and normal, three floats each, packed in that order
    /// and fed to shader inputs 0, 1 and 2.
    fn desc() -> (layout: VertexBufferLayout)
        ensures
            layout.array_stride == ModelVertex::RECORD_BYTES,
            layout.step_mode == VertexStepMode::Vertex,
            layout.attributes@ == seq![
                VertexAttribute { format: VertexFormat::Float32x3, offset: 0, shader_location: 0 },
                VertexAttribute { format: VertexFormat::Float32x3, offset: 12, shader_location: 1 },
                VertexAttribute { format: VertexFormat::Float32x3, offset: 24, shader_location: 2 },
            ],
            layout.is_packed(),
    {
        let mut attributes: Vec<VertexAttribute> = Vec::new();
        attributes.push(
            VertexAttribute { format: VertexFormat::Float32x3, offset: 0, shader_location: 0 },
        );
        attributes.push(
            VertexAttribute { format: VertexFormat::Float32x3, offset: 12, shader_location: 1 },
        );
        attributes.push(
            VertexAttribute { format: VertexFormat::Float32x3, offset: 24, shader_location: 2 },
        );
        VertexBufferLayout {
            array_stride: ModelVertex::RECORD_BYTES,
            step_mode: VertexStepMode::Vertex,
            attributes,
        }
    }
}

/// Geometry of one mesh as a loader hands it over: flattened three-component
/// positions and normals, and the index list of its triangles.
#[derive(Debug, PartialEq, Eq)]
pub struct LoadedMesh {
    pub positions: Vec<u32>,
    /// Empty when the source carries no normals.
    pub normals: Vec<u32>,
    pub indices: Vec<u32>,
}

impl LoadedMesh {
    /// Geometry that a model can be built from: normals are absent or cover
    /// every vertex, and the index count fits the 32-bit counter of a draw.
    pub open spec fn loadable(self) -> bool {
        &&& normals_cover(self.positions@, self.normals@)
        &&& self.indices@.len() <= u32::MAX
    }

    /// Executable form of [`LoadedMesh::loadable`].
    pub fn is_loadable(&self) -> (ok: bool)
        ensures
            ok == self.loadable(),
    {
        let count: usize = self.positions.len() / 3;
        let normals_ok: bool = self.normals.len() == 0 || self.normals.len() / 3 >= count;
        normals_ok && self.indices.len() <= u32::MAX as usize
    }
}

/// Number of whole vertices in a flattened position list.
pub open spec fn vertex_count(positions: Seq<u32>) -> nat {
    (positions.len() / 3) as nat
}

/// The three components of entry `i` of a flattened list.
pub open spec fn triple(flat: Seq<u32>, i: int) -> Seq<u32> {
    flat.subrange(3 * i, 3 * i + 3)
}

/// Three zero scalars.
pub open spec fn zero_triple() -> Seq<u32> {
    seq![ZERO_BITS, ZERO_BITS, ZERO_BITS]
}

/// Normals are either absent or cover every vertex.
pub open spec fn normals_cover(positions: Seq<u32>, normals: Seq<u32>) -> bool {
    normals.len() == 0 || normals.len() >= 3 * vertex_count(positions)
}

/// Whether `v` is vertex `i` of the geometry: its position and normal are
/// entry `i` of the lists, the normal is zero when normals are absent, and the
/// color is zero.
pub open spec fn is_vertex_of(v: ModelVertex, positions: Seq<u32>, normals: Seq<u32>, i: int) -> bool {
    &&& v.position@ == triple(positions, i)
    &&& v.color@ == zero_triple()
    &&& v.normal@ == if normals.len() == 0 {
        zero_triple()
    } else {
        triple(normals, i)
    }
}

/// Interleaves flattened positions and normals into vertex records.
pub fn assemble_vertices(positions: &Vec<u32>, normals: &Vec<u32>) -> (vertices: Vec<ModelVertex>)
    requires
        normals_cover(positions@, normals@),
    ensures
        vertices@.len() == vertex_count(positions@),
        forall|i: int|
            0 <= i < vertices@.len() ==> is_vertex_of(#[trigger] vertices@[i], positions@, normals@, i),
{
    let len: usize = positions.len();
    let count: usize = len / 3;
    let with_normals: bool = normals.len() != 0;
    let mut vertices: Vec<ModelVertex> = Vec::new();
    let mut i: usize = 0;
    while i < count
        invariant
            count == vertex_count(positions@),
            3 * count <= len == positions@.len(),
            with_normals == (normals@.len() != 0),
            normals_cover(positions@, normals@),
            i <= count,
            vertices@.len() == i,
            forall|k: int|
                0 <= k < i ==> is_vertex_of(#[trigger] vertices@[k], positions@, normals@, k),
        decreases count - i,
    {
        let position: [u32; 3] = [positions[3 * i], positions[3 * i + 1], positions[3 * i + 2]];
        let normal: [u32; 3] = if with_normals {
            [normals[3 * i], normals[3 * i + 1], normals[3 * i + 2]]
        } else {
            [ZERO_BITS, ZERO_BITS, ZERO_BITS]
        };
        let vertex = ModelVertex { position, color: [ZERO_BITS, ZERO_BITS, ZERO_BITS], normal };
        proof {
            assert(vertex.position@ =~= triple(positions@, i as int));
            assert(vertex.color@ =~= zero_triple());
            if with_normals {
                assert(vertex.normal@ =~= triple(normals@, i as int));
            } else {
                assert(vertex.normal@ =~= zero_triple());
            }
        }
        vertices.push(vertex);
        i += 1;
    }
    vertices
}

/// What a model holds, as contracts speak of it.
pub struct ModelView {
    pub name: Seq<char>,
    pub vertices: Seq<ModelVertex>,
    pub indices: Seq<u32>,
}

/// One loaded mesh: its name, its vertex records and its index list, all
/// fixed at load time.
#[derive(Debug)]
pub struct Model {
    name: String,
    vertices: Vec<ModelVertex>,
    indices: Vec<u32>,
    num_indices: u32,
}

impl View for Model {
    type V = ModelView;

    closed spec fn view(&self) -> ModelView {
        ModelView { name: self.name@, vertices: self.vertices@, indices: self.indices@ }
    }
}

/// The single indexed draw that renders a model.
#[derive(Clone, Copy, Debug, PartialEq, Eq, Structural)]
pub struct IndexedDraw {
    pub first_index: u32,
    pub index_count: u32,
    pub base_vertex: i32,
    pub first_instance: u32,
    pub instance_count: u32,
}

/// Whether `view` is the model named `name` built from `mesh`: the indices
/// are taken over as they are and the vertices are the mesh's geometry,
/// record by record.
pub open spec fn is_model_of(view: ModelView, name: Seq<char>, mesh: LoadedMesh) -> bool {
    &&& view.name == name
    &&& view.indices == mesh.indices@
    &&& view.vertices.len() == vertex_count(mesh.positions@)
    &&& forall|i: int|
        0 <= i < view.vertices.len() ==> is_vertex_of(
            #[trigger] view.vertices[i],
            mesh.positions@,
            mesh.normals@,
            i,
        )
}

impl Model {
    #[verifier::type_invariant]
    spec fn counts_indices(self) -> bool {
        self.num_indices == self.indices@.len()
    }

    /// Builds the model named `file_name` from the first of the meshes that
    /// were loaded from it; any further meshes are not used.
    pub fn load(file_name: &str, meshes: &Vec<LoadedMesh>) -> (model: Model)
        requires
            meshes@.len() > 0,
            meshes@[0].loadable(),
        ensures
            is_model_of(model@, file_name@, meshes@[0]),
    {
        let mesh = &meshes[0];
        let vertices = assemble_vertices(&mesh.positions, &mesh.normals);
        let indices = mesh.indices.clone();
        assert(indices@ =~= mesh.indices@);
        let num_indices: u32 = indices.len() as u32;
        Model { name: file_name.to_string(), vertices, indices, num_indices }
    }

    /// The model's name.
    pub fn name(&self) -> (name: &String)
        ensures
            name@ == self@.name,
    {
        &self.name
    }

    /// The vertex records, in index order.
    pub fn vertices(&self) -> (vertices: &Vec<ModelVertex>)
        ensures
            vertices@ == self@.vertices,
    {
        &self.vertices
    }

    /// The index list.
    pub fn indices(&self) -> (indices: &Vec<u32>)
        ensures
            indices@ == self@.indices,
    {
        &self.indices
    }

    /// How many indices the model has.
    pub fn num_indices(&self) -> (count: u32)
        ensures
            count == self@.indices.len(),
    {
        proof {
            use_type_invariant(self);
        }
        self.num_indices
    }

    /// The draw that covers the whole mesh once.
    pub fn draw_call(&self) -> (draw: IndexedDraw)
        ensures
            draw == (IndexedDraw {
                first_index: 0,
                index_count: self@.indices.len() as u32,
                base_vertex: 0,
                first_instance: 0,
                instance_count: 1,
            }),
            draw.index_count == self@.indices.len(),
    {
        IndexedDraw {
            first_index: 0,
            index_count: self.num_indices(),
            base_vertex: 0,
            first_instance: 0,
            instance_count: 1,
        }
    }
}

} // verus!
