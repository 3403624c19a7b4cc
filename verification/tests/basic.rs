use tobj64::loader::load_obj_buf;
use tobj64::LoadError;
use tobj64::LoadOptions;

fn rd(t: &Vec<u8>) -> Option<u64> {
    std::str::from_utf8(t).ok()?.parse::<f64>().ok().map(|v| v.to_bits())
}

fn rc(t: &Vec<u8>) -> Option<u64> {
    std::str::from_utf8(t).ok()?.parse::<f32>().ok().map(|v| v.to_bits() as u64)
}

fn no_mtl(_p: &String) -> Result<tobj64::loader::MtlLibrary, LoadError> {
    Err(LoadError::OpenFileFailed)
}

fn b64(x: f64) -> u64 {
    x.to_bits()
}

fn b32(x: f32) -> u64 {
    x.to_bits() as u64
}

fn bits64(xs: &[f64]) -> Vec<u64> {
    xs.iter().map(|&x| b64(x)).collect()
}

fn bits32(xs: &[f32]) -> Vec<u64> {
    xs.iter().map(|&x| b32(x)).collect()
}

const TRIANGLE_OBJ: &str = "o Triangle\nv 0 0 0\nv 1 0 0\nv 0 1 0\nf 1 2 3\n";

#[test]
fn simple_triangle() {
    let m = load_obj_buf(
        TRIANGLE_OBJ.as_bytes(),
        &LoadOptions { single_index: true, ..Default::default() },
        rd,
        rc,
        no_mtl,
    );
    assert!(m.is_ok());
    let (models, mats) = m.unwrap();
    let mats = mats.unwrap();
    assert_eq!(models.len(), 1);
    assert!(mats.is_empty());
    assert_eq!(models[0].name, "Triangle");
    let mesh = &models[0].mesh;
    assert!(mesh.normals.is_empty());
    assert!(mesh.texcoords.is_empty());
    assert_eq!(mesh.material_id, None);
    let expect_pos = bits64(&[0.0, 0.0, 0.0, 1.0, 0.0, 0.0, 0.0, 1.0, 0.0]);
    assert_eq!(mesh.positions, expect_pos);
    let expect_idx = vec![0u32, 1, 2];
    assert_eq!(mesh.indices, expect_idx);
    assert!(mesh.vertex_color.is_empty());
}

#[test]
fn simple_triangle_colored() {
    let obj = "o Triangle\nv 0 0 0 1 0 0\nv 1 0 0 0 1 0\nv 0 1 0 0 0 1\nf 1 2 3\n";
    let m = load_obj_buf(
        obj.as_bytes(),
        &LoadOptions { single_index: true, ..Default::default() },
        rd,
        rc,
        no_mtl,
    );
    assert!(m.is_ok());
    let (models, mats) = m.unwrap();
    let mats = mats.unwrap();
    assert_eq!(models.len(), 1);
    assert!(mats.is_empty());
    assert_eq!(models[0].name, "Triangle");
    let mesh = &models[0].mesh;
    assert!(mesh.normals.is_empty());
    assert!(mesh.texcoords.is_empty());
    assert_eq!(mesh.material_id, None);
    let expect_pos = bits64(&[0.0, 0.0, 0.0, 1.0, 0.0, 0.0, 0.0, 1.0, 0.0]);
    assert_eq!(mesh.positions, expect_pos);
    assert_eq!(mesh.indices, vec![0u32, 1, 2]);
    let expect_vertex_color = bits32(&[1.0, 0.0, 0.0, 0.0, 1.0, 0.0, 0.0, 0.0, 1.0]);
    assert_eq!(mesh.vertex_color, expect_vertex_color);
}

#[test]
fn simple_quad_colored_merge() {
    let obj = "o Quad\nvn 0 0 1\n\
v 0 0 0 1 0 0\nv 1 0 0 0 1 0\nv 0 1 0 0 0 1\n\
v 1 0 0 0 0 0\nv 0 1 0 0 0 1\nv 1 1 0 1 1 1\n\
f 1 2 3\nf 4 5 6\n";
    let m = load_obj_buf(
        obj.as_bytes(),
        &LoadOptions { merge_identical_points: true, ..Default::default() },
        |t: &Vec<u8>| std::str::from_utf8(t).ok()?.parse::<f32>().ok().map(|v| v.to_bits() as u64),
        rc,
        no_mtl,
    );
    assert!(m.is_ok());
    let (models, mats) = m.unwrap();
    let mats = mats.unwrap();
    assert_eq!(models.len(), 1);
    assert!(mats.is_empty());
    assert_eq!(models[0].name, "Quad");
    let mesh = &models[0].mesh;
    assert_eq!(mesh.normals.len(), 3);
    assert!(mesh.texcoords.is_empty());
    assert_eq!(mesh.material_id, None);
    let expect_pos = bits32(&[0.0, 0.0, 0.0, 1.0, 0.0, 0.0, 0.0, 1.0, 0.0, 1.0, 1.0, 0.0]);
    assert_eq!(mesh.positions, expect_pos);
    let expect_idx = vec![0u32, 1, 2, 1, 2, 3];
    assert_eq!(mesh.indices, expect_idx);
    let expect_vertex_color = bits32(&[
        1.0, 0.0, 0.0, 0.0, 1.0, 0.0, 0.0, 0.0, 1.0, 0.0, 0.0, 0.0, 1.0, 1.0, 1.0,
    ]);
    assert_eq!(mesh.vertex_color, expect_vertex_color);
    let expect_vertex_color_index = vec![0u32, 1, 2, 3, 2, 4];
    assert_eq!(mesh.vertex_color_indices, expect_vertex_color_index);
}

#[test]
fn empty_name_triangle() {
    let obj = "o\nv 0 0 0\nv 1 0 0\nv 0 1 0\nf 1 2 3\n";
    let m = load_obj_buf(
        obj.as_bytes(),
        &LoadOptions { single_index: true, ..Default::default() },
        rd,
        rc,
        no_mtl,
    );
    assert!(m.is_ok());
    let (models, mats) = m.unwrap();
    let mats = mats.unwrap();
    assert_eq!(models.len(), 1);
    assert!(mats.is_empty());
    assert_eq!(models[0].name, "unnamed_object");
    let mesh = &models[0].mesh;
    assert!(mesh.normals.is_empty());
    assert!(mesh.texcoords.is_empty());
    assert_eq!(mesh.material_id, None);
    let expect_pos = bits64(&[0.0, 0.0, 0.0, 1.0, 0.0, 0.0, 0.0, 1.0, 0.0]);
    assert_eq!(mesh.positions, expect_pos);
    assert_eq!(mesh.indices, vec![0u32, 1, 2]);
}

#[test]
fn test_lines() {
    let obj = "o Lines\nv 0 0 0\nv 1 0 0\nv 0 1 0\nl 1 2\nl 2 3\nl 3 1\n";
    let m = load_obj_buf(
        obj.as_bytes(),
        &LoadOptions { single_index: true, ..Default::default() },
        rd,
        rc,
        no_mtl,
    );
    assert!(m.is_ok());
    let (models, mats) = m.unwrap();
    let mats = mats.unwrap();
    assert_eq!(models.len(), 1);
    assert!(mats.is_empty());
    assert_eq!(models[0].name, "Lines");
    let mesh = &models[0].mesh;
    assert!(mesh.normals.is_empty());
    assert!(mesh.texcoords.is_empty());
    assert_eq!(mesh.material_id, None);
    let expect_pos = bits64(&[0.0, 0.0, 0.0, 1.0, 0.0, 0.0, 0.0, 1.0, 0.0]);
    assert_eq!(mesh.positions, expect_pos);
    let expect_idx = vec![0u32, 1, 1, 2, 2, 0];
    assert_eq!(mesh.indices, expect_idx);
}

const QUAD_OBJ: &str = "o Quad\n\
v 0 1 0\nv 0 0 0\nv 1 0 0\nv 1 1 0\n\
vt 0 1\nvt 0 0\nvt 1 0\nvt 1 1\n\
f 1/1 2/2 3/3\nf 1/1 3/3 4/4\n\
o Quad_face\n\
vn 0 0 1\n\
f 1/1/1 2/2/1 3/3/1 4/4/1\n\
o Tri_v_vn\n\
f 1//1 2//1 3//1\n";

#[test]
fn non_triangulated_quad() {
    let m = load_obj_buf(
        QUAD_OBJ.as_bytes(),
        &LoadOptions { single_index: true, ..Default::default() },
        rd,
        rc,
        no_mtl,
    );
    assert!(m.is_ok());
    let (models, mats) = m.unwrap();
    let mats = mats.unwrap();
    assert_eq!(models.len(), 3);
    assert!(mats.is_empty());
    // two triangle faces: the arity list collapses to empty
    assert!(models[0].mesh.face_arities.is_empty());
    // one quad face
    assert_eq!(models[1].mesh.face_arities.len(), 1);
    assert_eq!(models[1].mesh.face_arities[0], 4);
    let expect_quad_indices = vec![0u32, 1, 2, 3];
    assert_eq!(models[1].mesh.indices, expect_quad_indices);
    // a triangle
    assert!(models[2].mesh.face_arities.is_empty());
}

#[test]
fn multiple_face_formats() {
    let m = load_obj_buf(
        QUAD_OBJ.as_bytes(),
        &LoadOptions { triangulate: true, single_index: true, ..Default::default() },
        rd,
        rc,
        no_mtl,
    );
    assert!(m.is_ok());
    let (models, mats) = m.unwrap();
    let mats = mats.unwrap();
    assert_eq!(models.len(), 3);
    assert!(mats.is_empty());

    assert_eq!(models[0].name, "Quad");
    let quad = &models[0].mesh;
    assert!(quad.normals.is_empty());
    assert_eq!(quad.material_id, None);
    let quad_expect_pos = bits64(&[0.0, 1.0, 0.0, 0.0, 0.0, 0.0, 1.0, 0.0, 0.0, 1.0, 1.0, 0.0]);
    let quad_expect_tex = bits64(&[0.0, 1.0, 0.0, 0.0, 1.0, 0.0, 1.0, 1.0]);
    let quad_expect_idx = vec![0u32, 1, 2, 0, 2, 3];
    assert_eq!(quad.positions, quad_expect_pos);
    assert_eq!(quad.texcoords, quad_expect_tex);
    assert_eq!(quad.indices, quad_expect_idx);

    assert_eq!(models[1].name, "Quad_face");
    let quad_face = &models[1].mesh;
    let quad_expect_normals = bits64(&[
        0.0, 0.0, 1.0, 0.0, 0.0, 1.0, 0.0, 0.0, 1.0, 0.0, 0.0, 1.0,
    ]);
    assert_eq!(quad_face.material_id, None);
    assert_eq!(quad_face.positions, quad_expect_pos);
    assert_eq!(quad_face.texcoords, quad_expect_tex);
    assert_eq!(quad_face.normals, quad_expect_normals);
    assert_eq!(quad_face.indices, quad_expect_idx);

    assert_eq!(models[2].name, "Tri_v_vn");
    let tri = &models[2].mesh;
    let tri_expect_pos = bits64(&[0.0, 1.0, 0.0, 0.0, 0.0, 0.0, 1.0, 0.0, 0.0]);
    let tri_expect_normals = bits64(&[0.0, 0.0, 1.0, 0.0, 0.0, 1.0, 0.0, 0.0, 1.0]);
    let tri_expect_idx = vec![0u32, 1, 2];
    assert_eq!(tri.material_id, None);
    assert_eq!(tri.positions, tri_expect_pos);
    assert_eq!(tri.normals, tri_expect_normals);
    assert_eq!(tri.indices, tri_expect_idx);
    assert!(tri.texcoords.is_empty());
}

#[test]
fn test_invalid_index() {
    let obj = "o Triangle\nv 0 0 0\nv 1 0 0\nv 0 1 0\nf 1 2 99\n";
    let m = load_obj_buf(
        obj.as_bytes(),
        &LoadOptions { triangulate: true, single_index: true, ..Default::default() },
        rd,
        rc,
        no_mtl,
    );
    assert!(m.is_err());
    let err = m.err().unwrap();
    assert_eq!(err, LoadError::FaceVertexOutOfBounds);
}
