//! The OBJ mesh format: from the bytes of a document to mesh vertex buffers.
use crate::free_form::{uses_free_form, uses_free_form_statements};
use crate::mesh::{build_buffers, placeholder_tex_coord, MeshBuffers, ParsedVertex};
use crate::obj_reader::{error_of_obj_error, obj_vertices, read_obj_vertices, ImportError};
use vstd::prelude::*;

verus! {

/// The OBJ mesh format. It keeps no state between imports.
#[derive(Clone, Copy, Debug)]
pub struct ObjMesh;

impl ObjMesh {
    /// The name under which the format registers with an asset pipeline.
    pub fn name(&self) -> (r: &'static str)
        ensures
            r@ == "OBJ"@,
    {
        "OBJ"
    }

    /// Reads a document and builds its vertex buffers: one entry per vertex
    /// that the reader resolves, each position and normal unchanged, and the
    /// texture coordinate `(0.0, 0.0)`. All or nothing: on a failure no
    /// buffers come back.
    pub fn import_simple(&self, bytes: Vec<u8>) -> (r: Result<MeshBuffers, ImportError>)
        ensures
            uses_free_form(bytes@) ==> r == Err::<MeshBuffers, ImportError>(
                ImportError::FreeFormGeometry,
            ),
            !uses_free_form(bytes@) ==> (r is Ok <==> obj_vertices(bytes@) is Some),
            !uses_free_form(bytes@) && r is Err ==> r->Err_0 != ImportError::FreeFormGeometry,
            r is Ok ==> r->Ok_0.well_formed() && r->Ok_0.describes(obj_vertices(bytes@)->Some_0),
            bytes@.len() == 0 ==> r is Ok && r->Ok_0.positions@.len() == 0
                && r->Ok_0.normals@.len() == 0 && r->Ok_0.tex_coords@.len() == 0,
    {
        if uses_free_form_statements(&bytes) {
            return Err(ImportError::FreeFormGeometry);
        }
        match read_obj_vertices(bytes) {
            Ok(vertices) => Ok(build_buffers(&vertices)),
            Err(e) => Err(error_of_obj_error(&e)),
        }
    }
}

/// Buffers that describe a list of vertices have one entry per vertex in
/// each of the three buffers; entry `i` holds the position and the normal of
/// vertex `i` bit for bit, and the texture coordinate `(0.0, 0.0)`.
pub proof fn lemma_buffers_follow_vertices(m: MeshBuffers, vertices: Seq<ParsedVertex>)
    requires
        m.describes(vertices),
    ensures
        m.positions@.len() == vertices.len(),
        m.normals@.len() == vertices.len(),
        m.tex_coords@.len() == vertices.len(),
        forall|i: int| 0 <= i < vertices.len() ==> m.positions@[i] == #[trigger] vertices[i].position,
        forall|i: int| 0 <= i < vertices.len() ==> m.normals@[i] == #[trigger] vertices[i].normal,
        forall|i: int| 0 <= i < vertices.len() ==> #[trigger] m.tex_coords@[i] == placeholder_tex_coord(),
{
}

} // verus!
