use obj_mesh::free_form::uses_free_form_statements;
use obj_mesh::importer::ObjMesh;
use obj_mesh::mesh::{build_buffers, BitPair, BitTriple, MeshBuffers, ParsedVertex, ZERO_BITS};
use obj_mesh::obj_reader::{error_of_load_kind, error_of_obj_error, ImportError};

fn triple(x: f32, y: f32, z: f32) -> BitTriple {
    BitTriple { x: x.to_bits(), y: y.to_bits(), z: z.to_bits() }
}

fn import(text: &str) -> Result<MeshBuffers, ImportError> {
    ObjMesh.import_simple(text.as_bytes().to_vec())
}

const TRIANGLE: &str = "v 0.0 0.0 0.0\nv 1.0 0.0 0.0\nv 0.0 1.0 0.0\nvn 0.0 0.0 1.0\nf 1//1 2//1 3//1\n";

#[test]
fn format_name_is_obj() {
    assert_eq!(ObjMesh.name(), "OBJ");
}

#[test]
fn empty_document_gives_empty_buffers() {
    let m = ObjMesh.import_simple(Vec::new()).unwrap();
    assert!(m.positions.is_empty());
    assert!(m.normals.is_empty());
    assert!(m.tex_coords.is_empty());
}

#[test]
fn document_without_vertex_lines_gives_empty_buffers() {
    let m = import("# nothing but a comment\no empty\n").unwrap();
    assert_eq!(m.vertex_count(), 0);
    assert!(m.tex_coords.is_empty());
}

#[test]
fn vertex_line_missing_a_coordinate_fails() {
    let r = import("v 1.0 2.0\n");
    assert!(matches!(r, Err(ImportError::InvalidRecord)));
}

#[test]
fn non_numeric_coordinate_fails() {
    let r = import("v 1.0 x 3.0\n");
    assert!(matches!(r, Err(ImportError::InvalidRecord)));
}

#[test]
fn one_vertex_document_round_trips() {
    let m = import("v 1.0 2.0 3.0\nvn 0.0 0.0 1.0\nf 1//1 1//1 1//1\n").unwrap();
    assert_eq!(m.positions, vec![triple(1.0, 2.0, 3.0)]);
    assert_eq!(m.normals, vec![triple(0.0, 0.0, 1.0)]);
    assert_eq!(m.tex_coords, vec![BitPair { u: 0.0f32.to_bits(), v: 0.0f32.to_bits() }]);
}

#[test]
fn three_buffers_have_one_entry_per_vertex() {
    let m = import(TRIANGLE).unwrap();
    assert_eq!(m.positions.len(), 3);
    assert_eq!(m.normals.len(), 3);
    assert_eq!(m.tex_coords.len(), 3);
    assert_eq!(m.vertex_count(), 3);
}

#[test]
fn shared_position_and_normal_make_one_vertex() {
    let text = "v 0 0 0\nv 1 0 0\nv 0 1 0\nv 1 1 0\nvn 0 0 1\nf 1//1 2//1 3//1\nf 2//1 4//1 3//1\n";
    let m = import(text).unwrap();
    assert_eq!(m.vertex_count(), 4);
}

#[test]
fn coordinates_pass_through_bit_for_bit() {
    let text = "v -0.0 1e-7 -123.456\nv 3.5 -2.25 1e30\nv 0.1 0.2 0.3\nvn -1.0 0.0 -0.0\nvn 0.6 0.8 0.0\nf 1//1 2//2 3//1\n";
    let m = import(text).unwrap();
    assert_eq!(
        m.positions,
        vec![triple(-0.0, 1e-7, -123.456), triple(3.5, -2.25, 1e30), triple(0.1, 0.2, 0.3)]
    );
    assert_eq!(m.normals, vec![triple(-1.0, 0.0, -0.0), triple(0.6, 0.8, 0.0), triple(-1.0, 0.0, -0.0)]);
    assert_eq!(m.positions[0].x, 0x8000_0000);
}

#[test]
fn texture_coordinates_are_all_zero() {
    let text = "v 0 0 0\nv 1 0 0\nv 0 1 0\nvt 0.5 0.5\nvt 1 1\nvn 0 0 1\nf 1/1/1 2/2/1 3/1/1\n";
    let m = import(text).unwrap();
    assert_eq!(m.tex_coords.len(), 3);
    for t in &m.tex_coords {
        assert_eq!(*t, BitPair { u: ZERO_BITS, v: ZERO_BITS });
        assert_eq!(f32::from_bits(t.u), 0.0);
    }
}

#[test]
fn unknown_statement_is_malformed() {
    assert!(matches!(import("frobnicate 1 2\n"), Err(ImportError::Malformed)));
}

#[test]
fn face_without_normals_is_malformed() {
    assert!(matches!(import("v 0 0 0\nv 1 0 0\nv 0 1 0\nf 1 2 3\n"), Err(ImportError::Malformed)));
}

#[test]
fn face_index_out_of_range_is_malformed() {
    assert!(matches!(import("v 0 0 0\nvn 0 0 1\nf 1//1 2//1 3//1\n"), Err(ImportError::Malformed)));
}

#[test]
fn quad_face_is_malformed() {
    let text = "v 0 0 0\nv 1 0 0\nv 0 1 0\nv 1 1 0\nvn 0 0 1\nf 1//1 2//1 4//1 3//1\n";
    assert!(matches!(import(text), Err(ImportError::Malformed)));
}

#[test]
fn bytes_that_are_not_text_are_malformed() {
    let r = ObjMesh.import_simple(vec![b'v', b' ', 0xff, 0xfe, b'\n']);
    assert!(matches!(r, Err(ImportError::Malformed)));
}

#[test]
fn non_numeric_face_index_is_invalid_record() {
    assert!(matches!(import("v 0 0 0\nvn 0 0 1\nf a//1 1//1 1//1\n"), Err(ImportError::InvalidRecord)));
}

#[test]
fn free_form_curve_is_refused() {
    let r = import("v 0 0 0\nv 1 0 0\ncurv 0.0 1.0 1 2\n");
    assert!(matches!(r, Err(ImportError::FreeFormGeometry)));
}

#[test]
fn free_form_statement_after_continuation_is_refused() {
    let r = import("v 0 0 0 \\\n\nend\n");
    assert!(matches!(r, Err(ImportError::FreeFormGeometry)));
}

#[test]
fn keyword_in_comment_or_inside_a_word_is_no_free_form() {
    let text = "# end of the header\no sphere_end\nv 0.0 0.0 0.0 # step\nv 1 0 0\nv 0 1 0\nvn 0 0 1\nf 1//1 2//1 3//1\n";
    assert!(!uses_free_form_statements(&text.as_bytes().to_vec()));
    assert_eq!(import(text).unwrap().vertex_count(), 3);
}

#[test]
fn free_form_words_are_found() {
    assert!(uses_free_form_statements(&b"surf 0 1 0 1 1 2 3".to_vec()));
    assert!(uses_free_form_statements(&b"g a\r\nbmat u 1\r\n".to_vec()));
    assert!(uses_free_form_statements(&b"v 1 2 3\nsp#x".to_vec()));
    assert!(uses_free_form_statements(&b"curv2".to_vec()));
    assert!(!uses_free_form_statements(&b"curv3 sph ends".to_vec()));
    assert!(!uses_free_form_statements(&b"o end".to_vec()));
    assert!(!uses_free_form_statements(&b"#curv\n#end".to_vec()));
    assert!(!uses_free_form_statements(&Vec::new()));
}

#[test]
fn load_error_kinds_map_to_errors() {
    assert_eq!(error_of_load_kind(&obj::LoadErrorKind::WrongNumberOfArguments), ImportError::InvalidRecord);
    assert_eq!(error_of_load_kind(&obj::LoadErrorKind::WrongTypeOfArguments), ImportError::InvalidRecord);
    assert_eq!(error_of_load_kind(&obj::LoadErrorKind::UnexpectedStatement), ImportError::Malformed);
    assert_eq!(error_of_load_kind(&obj::LoadErrorKind::IndexOutOfRange), ImportError::Malformed);
    assert_eq!(error_of_load_kind(&obj::LoadErrorKind::BackslashAtEOF), ImportError::Malformed);
}

#[test]
fn reader_errors_map_to_errors() {
    let io = obj::ObjError::Io(std::io::Error::new(std::io::ErrorKind::InvalidData, "bad"));
    assert_eq!(error_of_obj_error(&io), ImportError::Malformed);
    let float = obj::ObjError::ParseFloat("x".parse::<f32>().unwrap_err());
    assert_eq!(error_of_obj_error(&float), ImportError::InvalidRecord);
    let int = obj::ObjError::ParseInt("x".parse::<i32>().unwrap_err());
    assert_eq!(error_of_obj_error(&int), ImportError::InvalidRecord);
}

#[test]
fn build_buffers_copies_each_vertex() {
    let a = ParsedVertex::from_bits([1, 2, 3], [4, 5, 6]);
    let b = ParsedVertex::from_bits([7, 8, 9], [10, 11, 12]);
    let m = build_buffers(&vec![a, b, a]);
    assert_eq!(m.positions, vec![BitTriple { x: 1, y: 2, z: 3 }, BitTriple { x: 7, y: 8, z: 9 }, BitTriple { x: 1, y: 2, z: 3 }]);
    assert_eq!(m.normals, vec![BitTriple { x: 4, y: 5, z: 6 }, BitTriple { x: 10, y: 11, z: 12 }, BitTriple { x: 4, y: 5, z: 6 }]);
    assert_eq!(m.tex_coords, vec![BitPair { u: 0, v: 0 }; 3]);
}

#[test]
fn build_buffers_of_nothing_is_empty() {
    let m = build_buffers(&Vec::new());
    assert_eq!(m.vertex_count(), 0);
}

#[test]
fn keyword_as_an_argument_is_no_free_form() {
    let m = import("o end\n").unwrap();
    assert!(m.positions.is_empty());
    assert!(m.normals.is_empty());
    assert!(m.tex_coords.is_empty());
    let text = "g step\nusemtl surf\no \u{f1}sp\nv 0 0 0\nv 1 0 0\nv 0 1 0\nvn 0 0 1\nf 1//1 2//1 3//1\n";
    assert!(!uses_free_form_statements(&text.as_bytes().to_vec()));
    assert_eq!(import(text).unwrap().vertex_count(), 3);
}

#[test]
fn keyword_after_leading_blanks_is_found() {
    assert!(uses_free_form_statements(&b"v 0 0 0\n  \tcurv 1 2\n".to_vec()));
    assert!(matches!(import("  \tend\n"), Err(ImportError::FreeFormGeometry)));
    assert!(!uses_free_form_statements(&b"o a\\curv\n".to_vec()));
}

#[test]
fn keyword_on_a_continued_line_is_an_argument() {
    for text in ["o \\\nend\n", "o \\\r\nend\r\n", "o a \\# note\nend\n", "g \\\n  step\n"] {
        assert!(!uses_free_form_statements(&text.as_bytes().to_vec()), "{:?}", text);
        let m = import(text).unwrap();
        assert!(m.positions.is_empty());
        assert!(m.normals.is_empty());
        assert!(m.tex_coords.is_empty());
    }
}

#[test]
fn statement_after_a_line_that_does_not_continue_is_found() {
    assert!(uses_free_form_statements(&b"o a \\\r#c\nend\n".to_vec()));
    assert!(uses_free_form_statements(&b"o a \\ \nend\n".to_vec()));
    assert!(uses_free_form_statements(&b"  \\\ncurv 1 2\n".to_vec()));
    assert!(uses_free_form_statements(&b"curv\\\n 1 2\n".to_vec()));
    assert!(!uses_free_form_statements(&b"cu\\\nrv 1 2\n".to_vec()));
}
