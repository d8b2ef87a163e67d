//! The OBJ reader of the `obj` crate, as the importer relies on it, and the
//! errors that it reports.
use crate::free_form::uses_free_form;
use crate::mesh::ParsedVertex;
use vstd::prelude::*;

verus! {

/// Declares `std::io::Error`, carried inside the reader's error.
#[verifier::external_type_specification]
#[verifier::external_body]
pub struct ExIoError(std::io::Error);

/// Declares `core::num::ParseIntError`, carried inside the reader's error.
#[verifier::external_type_specification]
#[verifier::external_body]
pub struct ExParseIntError(core::num::ParseIntError);

/// Declares `core::num::ParseFloatError`, carried inside the reader's error.
#[verifier::external_type_specification]
#[verifier::external_body]
pub struct ExParseFloatError(core::num::ParseFloatError);

/// Declares `obj::LoadError`, whose fields are private.
#[verifier::external_type_specification]
#[verifier::external_body]
pub struct ExLoadError(obj::LoadError);

/// Declares `obj::LoadErrorKind`, a plain enum whose variants are read.
#[verifier::external_type_specification]
pub struct ExLoadErrorKind(obj::LoadErrorKind);

/// Declares `obj::ObjError`, an enum whose variants are read.
#[verifier::external_type_specification]
pub struct ExObjError(obj::ObjError);

/// Relies on `obj::LoadError::kind`, which returns the kind that the error was made with.
pub assume_specification[ obj::LoadError::kind ](e: &obj::LoadError) -> (r: &obj::LoadErrorKind);

/// The vertices that the `obj` crate's reader resolves from a document, or
/// `None` where it refuses the document.
pub uninterp spec fn obj_vertices(bytes: Seq<u8>) -> Option<Seq<ParsedVertex>>;

/// Relies on `obj::load_obj`, read as `Obj<Vertex, u32>`: it resolves each
/// distinct (position, normal) pair of the faces to one vertex, or fails;
/// the outcome depends on the bytes alone, and a document with no bytes has
/// no vertices. It stops with `unimplemented!` on the free-form statements,
/// which the requirement leaves out.
#[verifier::external_body]
pub(crate) fn read_obj_vertices(bytes: Vec<u8>) -> (r: Result<Vec<ParsedVertex>, obj::ObjError>)
    requires
        !uses_free_form(bytes@),
    ensures
        r is Ok <==> obj_vertices(bytes@) is Some,
        r is Ok ==> obj_vertices(bytes@) == Some(r->Ok_0@),
        bytes@.len() == 0 ==> r is Ok && r->Ok_0@.len() == 0,
{
    match obj::load_obj::<obj::Vertex, _, u32>(std::io::Cursor::new(bytes)) {
        Ok(model) => Ok(model.vertices.iter().map(|v| ParsedVertex::from_bits(
            v.position.map(|c| c.to_bits()),
            v.normal.map(|c| c.to_bits()),
        )).collect()),
        Err(e) => Err(e),
    }
}

/// Why a document could not be imported.
#[derive(Clone, Copy, Debug, PartialEq, Eq, Structural)]
pub enum ImportError {
    /// The document is not valid OBJ text: bytes that are not UTF-8, an
    /// unknown statement, an index out of range, a face that is not a
    /// triangle or has no normals, a line continued past the end.
    Malformed,
    /// A record has the wrong number of fields, or a field of the wrong kind
    /// (a coordinate or an index that is not a number).
    InvalidRecord,
    /// The document uses free-form geometry (curves and surfaces), which the
    /// reader does not support: some line opens with one of its keywords.
    FreeFormGeometry,
}

/// The error reported for a reader error of the given kind.
pub open spec fn load_kind_error(k: obj::LoadErrorKind) -> ImportError {
    match k {
        obj::LoadErrorKind::WrongNumberOfArguments => ImportError::InvalidRecord,
        obj::LoadErrorKind::WrongTypeOfArguments => ImportError::InvalidRecord,
        _ => ImportError::Malformed,
    }
}

/// The error reported for a reader error of the given kind.
pub fn error_of_load_kind(k: &obj::LoadErrorKind) -> (r: ImportError)
    ensures
        r == load_kind_error(*k),
{
    match k {
        obj::LoadErrorKind::WrongNumberOfArguments => ImportError::InvalidRecord,
        obj::LoadErrorKind::WrongTypeOfArguments => ImportError::InvalidRecord,
        _ => ImportError::Malformed,
    }
}

/// The error reported for an error of the reader: an unreadable document is
/// malformed, a number that does not parse makes an invalid record, and a
/// load error goes by its kind.
pub fn error_of_obj_error(e: &obj::ObjError) -> (r: ImportError)
    ensures
        e is Io ==> r == ImportError::Malformed,
        e is ParseInt ==> r == ImportError::InvalidRecord,
        e is ParseFloat ==> r == ImportError::InvalidRecord,
        e is Load ==> r != ImportError::FreeFormGeometry,
{
    match e {
        obj::ObjError::Io(_) => ImportError::Malformed,
        obj::ObjError::ParseInt(_) => ImportError::InvalidRecord,
        obj::ObjError::ParseFloat(_) => ImportError::InvalidRecord,
        obj::ObjError::Load(le) => error_of_load_kind(le.kind()),
    }
}

} // verus!
