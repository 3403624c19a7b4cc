use tobj64::load_obj_buf;
use tobj64::LoadError;
use tobj64::LoadOptions;

fn rd(t: &Vec<u8>) -> Option<u64> {
    std::str::from_utf8(t).ok()?.parse::<f64>().ok().map(|v| v.to_bits())
}

fn rc(t: &Vec<u8>) -> Option<u64> {
    std::str::from_utf8(t).ok()?.parse::<f32>().ok().map(|v| v.to_bits() as u64)
}

fn no_mtl(_p: &String) -> Result<tobj64::loader::MtlLibrary, LoadError> {
    Err(LoadError::OpenFileFailed)
}

fn bits64(xs: &[f64]) -> Vec<u64> {
    xs.iter().map(|&x| x.to_bits()).collect()
}

#[test]
fn gpu_options_drop_points_and_lines() {
    let obj = "v 0 0 0\nv 1 0 0\nv 0 1 0\nf 1\nl 1 2\nf 1 2 3\n";
    let m = load_obj_buf(obj.as_bytes(), &tobj64::gpu_load_options(), rd, rc, no_mtl);
    let (models, _) = m.unwrap();
    let mesh = &models[0].mesh;
    // only the triangle survives
    assert_eq!(mesh.indices, vec![0u32, 1, 2]);
    assert!(mesh.face_arities.is_empty());
}

#[test]
fn point_and_line_triangulation_repeats_vertices() {
    let obj = "v 0 0 0\nv 1 0 0\nf 1\nl 1 2\n";
    let opts = LoadOptions { triangulate: true, single_index: true, ..Default::default() };
    let m = load_obj_buf(obj.as_bytes(), &opts, rd, rc, no_mtl);
    let (models, _) = m.unwrap();
    let mesh = &models[0].mesh;
    // the point becomes a degenerate triangle, the line repeats its end
    assert_eq!(mesh.indices, vec![0u32, 0, 0, 0, 1, 1]);
    assert_eq!(mesh.indices.len() % 3, 0);
    assert!(mesh.face_arities.is_empty());
}

#[test]
fn shared_vertices_are_deduplicated() {
    let obj = "v 0 0 0\nv 1 0 0\nv 0 1 0\nv 1 1 0\nf 1 2 3\nf 2 4 3\n";
    let opts = LoadOptions { single_index: true, ..Default::default() };
    let m = load_obj_buf(obj.as_bytes(), &opts, rd, rc, no_mtl);
    let (models, _) = m.unwrap();
    let mesh = &models[0].mesh;
    // four unique vertices serve six face corners
    assert_eq!(mesh.positions.len(), 12);
    assert_eq!(mesh.indices, vec![0u32, 1, 2, 1, 3, 2]);
}

#[test]
fn texcoord_out_of_bounds_is_reported() {
    let obj = "v 0 0 0\nv 1 0 0\nv 0 1 0\nvt 0 0\nf 1/1 2/2 3/1\n";
    let opts = LoadOptions { single_index: true, ..Default::default() };
    let m = load_obj_buf(obj.as_bytes(), &opts, rd, rc, no_mtl);
    assert_eq!(m.err(), Some(LoadError::FaceTexCoordOutOfBounds));
}

#[test]
fn normal_out_of_bounds_is_reported() {
    let obj = "v 0 0 0\nv 1 0 0\nv 0 1 0\nvn 0 0 1\nf 1//1 2//5 3//1\n";
    let opts = LoadOptions { single_index: true, ..Default::default() };
    let m = load_obj_buf(obj.as_bytes(), &opts, rd, rc, no_mtl);
    assert_eq!(m.err(), Some(LoadError::FaceNormalOutOfBounds));
}

#[test]
fn bad_position_line_is_reported() {
    let obj = "v 0 zero 0\nf 1 1 1\n";
    let m = load_obj_buf(obj.as_bytes(), &LoadOptions::default(), rd, rc, no_mtl);
    assert_eq!(m.err(), Some(LoadError::PositionParseError));
}

#[test]
fn bad_face_token_is_reported() {
    let obj = "v 0 0 0\nf 1/2/3/4\n";
    let m = load_obj_buf(obj.as_bytes(), &LoadOptions::default(), rd, rc, no_mtl);
    assert_eq!(m.err(), Some(LoadError::FaceParseError));
}

#[test]
fn mtllib_without_argument_is_reported() {
    let m = load_obj_buf("mtllib\n".as_bytes(), &LoadOptions::default(), rd, rc, no_mtl);
    assert_eq!(m.err(), Some(LoadError::MaterialParseError));
}

#[test]
fn usemtl_without_name_is_reported() {
    let m = load_obj_buf("usemtl \n".as_bytes(), &LoadOptions::default(), rd, rc, no_mtl);
    assert_eq!(m.err(), Some(LoadError::MaterialParseError));
}

#[test]
fn empty_buffer_yields_one_empty_model() {
    let m = load_obj_buf("".as_bytes(), &LoadOptions::default(), rd, rc, no_mtl);
    let (models, mats) = m.unwrap();
    assert_eq!(models.len(), 1);
    assert_eq!(models[0].name, "unnamed_object");
    assert!(models[0].mesh.positions.is_empty());
    assert!(mats.unwrap().is_empty());
}

#[test]
fn boundary_only_buffer_yields_named_empty_model() {
    let m = load_obj_buf("# header\no Top\n".as_bytes(), &LoadOptions::default(), rd, rc, no_mtl);
    let (models, mats) = m.unwrap();
    assert_eq!(models.len(), 1);
    assert_eq!(models[0].name, "Top");
    assert!(models[0].mesh.positions.is_empty());
    assert!(models[0].mesh.indices.is_empty());
    assert!(mats.unwrap().is_empty());
}

#[test]
fn multi_index_sparse_texcoord_fallback() {
    // the second corner omits its texture coordinate: the exporter
    // reuses the previously emitted index
    let obj = "v 0 0 0\nv 1 0 0\nv 0 1 0\nvt 0 0\nvt 1 0\nf 1/1 2 3/2\n";
    let m = load_obj_buf(obj.as_bytes(), &LoadOptions::default(), rd, rc, no_mtl);
    let (models, _) = m.unwrap();
    let mesh = &models[0].mesh;
    assert_eq!(mesh.indices, vec![0u32, 1, 2]);
    assert_eq!(mesh.texcoord_indices, vec![0u32, 0, 1]);
    assert_eq!(mesh.texcoords, bits64(&[0.0, 0.0, 1.0, 0.0]));
}

#[test]
fn unrecognized_keywords_are_ignored() {
    let obj = "s off\nwhatever 1 2 3\nv 0 0 0\nv 1 0 0\nv 0 1 0\nf 1 2 3\n";
    let m = load_obj_buf(
        obj.as_bytes(),
        &LoadOptions { single_index: true, ..Default::default() },
        rd,
        rc,
        no_mtl,
    );
    let (models, _) = m.unwrap();
    assert_eq!(models[0].mesh.indices, vec![0u32, 1, 2]);
}
