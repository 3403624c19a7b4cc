use tobj64::loader::load_obj_buf;
use tobj64::material::load_mtl_buf;
use tobj64::merge::merge_identical_points;
use tobj64::LoadError;
use tobj64::LoadOptions;

fn rd(t: &Vec<u8>) -> Option<u64> {
    std::str::from_utf8(t).ok()?.parse::<f64>().ok().map(|v| v.to_bits())
}

fn rc(t: &Vec<u8>) -> Option<u64> {
    std::str::from_utf8(t).ok()?.parse::<f32>().ok().map(|v| v.to_bits() as u64)
}

fn b32(x: f32) -> u64 {
    x.to_bits() as u64
}

#[test]
fn mtl_fields_and_unknown_params() {
    let mtl = "newmtl red\nKa 0 0 0\nKd 1 0 0\nKs 0 0 0\nNs 10\nNi 1.25\nd 0.8\n\
illum 2\nmap_Kd this diffuse texture has spaces.jpg\n\
crazy_unknown Wierd stuff here\n\
newmtl blue\nKd 0 0 1\n";
    let r = load_mtl_buf(mtl.as_bytes(), rc);
    assert!(r.is_ok());
    let (mats, map) = r.unwrap();
    assert_eq!(mats.len(), 2);
    assert_eq!(mats[0].name, "red");
    assert_eq!(mats[0].diffuse.r, b32(1.0));
    assert_eq!(mats[0].diffuse.g, b32(0.0));
    assert_eq!(mats[0].diffuse.b, b32(0.0));
    assert_eq!(mats[0].shininess, b32(10.0));
    assert_eq!(mats[0].optical_density, b32(1.25));
    assert_eq!(mats[0].dissolve, b32(0.8));
    assert_eq!(mats[0].illumination_model, Some(2));
    assert_eq!(mats[0].diffuse_texture, "this diffuse texture has spaces.jpg");
    assert_eq!(
        mats[0].unknown_param.inner.get("crazy_unknown"),
        Some(&"Wierd stuff here".to_string())
    );
    assert_eq!(mats[1].name, "blue");
    // defaults of the second material are untouched
    assert_eq!(mats[1].dissolve, b32(1.0));
    assert_eq!(mats[1].ambient.r, 0);
    assert_eq!(map.inner.get("red"), Some(&0usize));
    assert_eq!(map.inner.get("blue"), Some(&1usize));
}

#[test]
fn mtl_empty_name_is_rejected() {
    let r = load_mtl_buf("newmtl\nKd 1 1 1\n".as_bytes(), rc);
    assert_eq!(r.err(), Some(LoadError::InvalidObjectName));
}

#[test]
fn mtl_bad_color_is_rejected() {
    let r = load_mtl_buf("newmtl a\nKd 1 x 1\n".as_bytes(), rc);
    assert_eq!(r.err(), Some(LoadError::MaterialParseError));
}

#[test]
fn usemtl_switch_splits_models() {
    let obj = "mtllib m.mtl\no Cube\nv 0 0 0\nv 1 0 0\nv 0 1 0\n\
usemtl red\nf 1 2 3\nusemtl blue\nf 3 2 1\n";
    let m = load_obj_buf(
        obj.as_bytes(),
        &LoadOptions { triangulate: true, single_index: true, ..Default::default() },
        rd,
        rc,
        |p: &String| {
            assert_eq!(p, "m.mtl");
            load_mtl_buf("newmtl red\nKd 1 0 0\nnewmtl blue\nKd 0 0 1\n".as_bytes(), rc)
        },
    );
    assert!(m.is_ok());
    let (models, mats) = m.unwrap();
    let mats = mats.unwrap();
    assert_eq!(mats.len(), 2);
    assert_eq!(models.len(), 2);
    assert_eq!(models[0].name, "Cube");
    assert_eq!(models[1].name, "Cube");
    assert_eq!(models[0].mesh.material_id, Some(0));
    assert_eq!(models[1].mesh.material_id, Some(1));
}

#[test]
fn mtl_load_failure_keeps_geometry() {
    let obj = "mtllib missing.mtl\nv 0 0 0\nv 1 0 0\nv 0 1 0\nf 1 2 3\n";
    let m = load_obj_buf(
        obj.as_bytes(),
        &LoadOptions { triangulate: true, single_index: true, ..Default::default() },
        rd,
        rc,
        |_: &String| Err(LoadError::OpenFileFailed),
    );
    assert!(m.is_ok());
    let (models, mats) = m.unwrap();
    assert_eq!(models.len(), 1);
    assert_eq!(models[0].mesh.indices, vec![0u32, 1, 2]);
    assert_eq!(mats.err(), Some(LoadError::OpenFileFailed));
}

#[test]
fn mtl_load_failure_is_reported_beside_loaded_materials() {
    // the first library loads, the second fails: the failure is still
    // reported, and the geometry with it
    let obj = "mtllib good.mtl\nmtllib bad.mtl\nv 0 0 0\nv 1 0 0\nv 0 1 0\nf 1 2 3\n";
    let m = load_obj_buf(
        obj.as_bytes(),
        &LoadOptions { triangulate: true, single_index: true, ..Default::default() },
        rd,
        rc,
        |p: &String| {
            if p == "good.mtl" {
                load_mtl_buf("newmtl white\nKd 1 1 1\n".as_bytes(), rc)
            } else {
                Err(LoadError::OpenFileFailed)
            }
        },
    );
    let (models, mats) = m.unwrap();
    assert_eq!(models.len(), 1);
    assert_eq!(mats.err(), Some(LoadError::OpenFileFailed));
}

#[test]
fn invalid_option_combination_is_rejected() {
    let m = load_obj_buf(
        "v 0 0 0\n".as_bytes(),
        &LoadOptions { single_index: true, merge_identical_points: true, ..Default::default() },
        rd,
        rc,
        |_: &String| Err(LoadError::OpenFileFailed),
    );
    assert_eq!(m.err(), Some(LoadError::InvalidLoadOptionConfig));
}

#[test]
fn negative_references_match_positive() {
    let pos = "v 0 0 0\nv 1 0 0\nv 0 1 0\nf 1 2 3\n";
    let neg = "v 0 0 0\nv 1 0 0\nv 0 1 0\nf -3 -2 -1\n";
    let opts = LoadOptions { triangulate: true, single_index: true, ..Default::default() };
    let a = load_obj_buf(pos.as_bytes(), &opts, rd, rc, |_: &String| {
        Err(LoadError::OpenFileFailed)
    })
    .unwrap();
    let b = load_obj_buf(neg.as_bytes(), &opts, rd, rc, |_: &String| {
        Err(LoadError::OpenFileFailed)
    })
    .unwrap();
    assert_eq!(a.0[0].mesh.positions, b.0[0].mesh.positions);
    assert_eq!(a.0[0].mesh.indices, b.0[0].mesh.indices);
}

#[test]
fn merge_pass_is_idempotent_on_merged_data() {
    let mut points: Vec<u64> = vec![1, 2, 3, 1, 2, 3, 4, 5, 6, 1, 2, 3];
    let mut indices: Vec<u32> = vec![0, 1, 2, 3];
    merge_identical_points(&mut points, &mut indices, 3);
    assert_eq!(points, vec![1, 2, 3, 4, 5, 6]);
    assert_eq!(indices, vec![0, 0, 1, 0]);
    // a second pass changes nothing and remaps every tuple to itself
    let again_points = points.clone();
    let mut idx2: Vec<u32> = vec![1, 0, 1];
    merge_identical_points(&mut points, &mut idx2, 3);
    assert_eq!(points, again_points);
    assert_eq!(idx2, vec![1, 0, 1]);
}

#[test]
fn reorder_gathers_per_face_normals() {
    // two triangles over three vertices with six distinct normals:
    // finer granularity than positions, so the reorder pass gathers
    let obj = "v 0 0 0\nv 1 0 0\nv 0 1 0\n\
vn 1 0 0\nvn 0 1 0\nvn 0 0 1\nvn 1 1 0\nvn 0 1 1\nvn 1 0 1\n\
f 1//1 2//2 3//3\nf 1//4 2//5 3//6\n";
    let m = load_obj_buf(
        obj.as_bytes(),
        &LoadOptions { reorder_data: true, ..Default::default() },
        rd,
        rc,
        |_: &String| Err(LoadError::OpenFileFailed),
    );
    assert!(m.is_ok());
    let (models, _) = m.unwrap();
    let mesh = &models[0].mesh;
    // the separate index streams are gone
    assert!(mesh.normal_indices.is_empty());
    assert!(mesh.texcoord_indices.is_empty());
    // gathered: one normal tuple per original normal-index entry
    assert_eq!(mesh.normals.len(), 18);
    assert_eq!(mesh.positions.len(), 9);
}

#[test]
fn polygon_fan_triangulation() {
    let obj = "o Pent\nv 0 0 0\nv 1 0 0\nv 2 1 0\nv 1 2 0\nv 0 1 0\nf 1 2 3 4 5\n";
    let m = load_obj_buf(
        obj.as_bytes(),
        &LoadOptions { triangulate: true, single_index: true, ..Default::default() },
        rd,
        rc,
        |_: &String| Err(LoadError::OpenFileFailed),
    );
    let (models, _) = m.unwrap();
    let mesh = &models[0].mesh;
    assert!(mesh.face_arities.is_empty());
    assert_eq!(mesh.indices, vec![0u32, 1, 2, 0, 2, 3, 0, 3, 4]);
}
