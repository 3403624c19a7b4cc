//! The line-oriented `OBJ` reader: accumulates raw attribute arrays and
//! faces and exports a model at each object boundary or material
//! switch.
use crate::err::LoadError;
use crate::export_multi::export_faces_multi_index;
use crate::export_multi::export_multi_spec;
use crate::export_multi::mesh_v;
use crate::export_multi::mi_export_from;
use crate::export_multi::mi_init;
use crate::export_single::export_faces;
use crate::export_single::export_faces_spec;
use crate::export_single::si_export_from;
use crate::export_single::si_init;
use crate::maps::NameMap;
use crate::material::bytes_to_string;
use crate::material::chars_of;
use crate::material::clone_string;
use crate::material::default_object_name;
use crate::material::keyword_matches;
use crate::material::parse_floatn;
use crate::material::slice_from;
use crate::material::trim_bytes;
use crate::material::trim_spec;
use crate::material::Material;
use crate::mesh::Mesh;
use crate::mesh::Model;
use crate::options::LoadOptions;
use crate::tokenize::find_byte;
use crate::tokenize::kwb;
use crate::tokenize::line_keyword_is;
use crate::tokenize::lines_exec;
use crate::tokenize::lines_of;
use crate::tokenize::words_exec;
use crate::tokenize::words_of;
use crate::vertex::parse_face;
use crate::vertex::Face;
use vstd::prelude::*;

verus! {

/// The pair a loader call yields: all models read, and the material
/// list, or the error of the last material library that failed to
/// load (geometry is returned either way).
pub type LoadResult = Result<(Vec<Model>, Result<Vec<Material>, LoadError>), LoadError>;

/// The pair a material-library load yields: the materials and a map
/// from material name to list index.
pub type MtlLibrary = (Vec<Material>, NameMap);

/// A statement line: one of the seven keywords the reader acts on.
/// Everything else — blank lines, comments, object boundaries and
/// unrecognized keywords — leaves the accumulated geometry untouched.
pub open spec fn obj_line_active(l: Seq<u8>) -> bool {
    ||| line_keyword_is(l, "v"@)
    ||| line_keyword_is(l, "vt"@)
    ||| line_keyword_is(l, "vn"@)
    ||| line_keyword_is(l, "f"@)
    ||| line_keyword_is(l, "l"@)
    ||| line_keyword_is(l, "mtllib"@)
    ||| line_keyword_is(l, "usemtl"@)
}

/// No line of the buffer is a statement line.
pub open spec fn obj_all_inert(buf: Seq<u8>) -> bool {
    forall|i: int| 0 <= i < lines_of(buf).len() ==> !obj_line_active(#[trigger] lines_of(buf)[i])
}

/// Some line of the buffer carries the given keyword.
pub open spec fn buf_has_keyword(buf: Seq<u8>, k: Seq<char>) -> bool {
    exists|i: int| 0 <= i < lines_of(buf).len() && line_keyword_is(#[trigger] lines_of(buf)[i], k)
}

/// The object name an `o`/`g` line assigns: the line's text after the
/// keyword byte, trimmed, or the default name when that is blank.
pub open spec fn og_line_name(l: Seq<u8>) -> Seq<char> {
    if trim_spec(l.skip(1)).len() == 0 {
        "unnamed_object"@
    } else {
        chars_of(trim_spec(l.skip(1)))
    }
}

/// The name is the default or one assigned by some `o`/`g` line of the
/// buffer.
pub open spec fn obj_name_from(buf: Seq<u8>, nm: Seq<char>) -> bool {
    ||| nm == "unnamed_object"@
    ||| exists|i: int|
        0 <= i < lines_of(buf).len() && (line_keyword_is(#[trigger] lines_of(buf)[i], "o"@)
            || line_keyword_is(lines_of(buf)[i], "g"@)) && nm == og_line_name(lines_of(buf)[i])
}

/// The name the last model of the stream carries: assigned by the last
/// `o`/`g` line, or the default when there is none.
pub open spec fn obj_last_name(ls: Seq<Seq<u8>>) -> Seq<char>
    decreases ls.len(),
{
    if ls.len() == 0 {
        "unnamed_object"@
    } else if line_keyword_is(ls.last(), "o"@) || line_keyword_is(ls.last(), "g"@) {
        og_line_name(ls.last())
    } else {
        obj_last_name(ls.drop_last())
    }
}

/// The errors a load can end with: the option check, the per-keyword
/// parse failures, or one of the exporters' errors.
pub open spec fn is_loader_error(e: LoadError) -> bool {
    ||| e is InvalidLoadOptionConfig
    ||| e is PositionParseError
    ||| e is TexcoordParseError
    ||| e is NormalParseError
    ||| e is FaceParseError
    ||| e is MaterialParseError
    ||| e.is_export_error()
}

/// Index of the first occurrence of `sep`, or the length if absent.
fn find_byte_exec(s: &[u8], sep: u8) -> (r: usize)
    ensures
        r == find_byte(s@, sep),
        r <= s@.len(),
{
    proof {
        crate::tokenize::lemma_find_byte(s@, sep);
    }
    let n = s.len();
    let mut i: usize = 0;
    while i < n
        invariant
            0 <= i <= n,
            n == s@.len(),
            forall|j: int| 0 <= j < i ==> s@[j] != sep,
        decreases n - i,
    {
        if s[i] == sep {
            proof {
                crate::tokenize::lemma_find_byte_at(s@, sep, i as int);
            }
            return i;
        }
        i = i + 1;
    }
    proof {
        crate::tokenize::lemma_find_byte_at(s@, sep, n as int);
    }
    n
}

/// Whether two optional material indices differ.
fn opt_usize_neq(a: &Option<usize>, b: &Option<usize>) -> (r: bool)
    ensures
        r == (*a != *b),
{
    match (a, b) {
        (Some(x), Some(y)) => *x != *y,
        (None, None) => false,
        _ => true,
    }
}

/// Exports the accumulated faces with the exporter the options select.
/// The produced mesh is well formed; triangulated exports hold a whole
/// number of triangles and no arity list; an empty face list with no
/// material always exports as the empty mesh; a failure is one of the
/// exporters' errors.
fn export_model(
    pos: &Vec<u64>,
    v_color: &Vec<u64>,
    texcoord: &Vec<u64>,
    normal: &Vec<u64>,
    faces: &Vec<Face>,
    mat_id: Option<usize>,
    load_options: &LoadOptions,
) -> (r: Result<Mesh, LoadError>)
    requires
        texcoord@.len() as int % 2 == 0,
        normal@.len() as int % 3 == 0,
    ensures
        r matches Ok(m) ==> m.wf() && (load_options.triangulate ==> m.face_arities@.len() == 0
            && m.indices@.len() % 3 == 0),
        r matches Err(e) ==> e.is_export_error(),
        r matches Ok(m) ==> m.material_id == mat_id,
        faces@.len() == 0 ==> r is Ok,
        (faces@.len() == 0 && mat_id is None) ==> (r matches Ok(m) && m.is_empty_spec()),
{
    if load_options.single_index {
        let r = export_faces(
            pos.as_slice(),
            v_color.as_slice(),
            texcoord.as_slice(),
            normal.as_slice(),
            faces.as_slice(),
            mat_id,
            load_options,
        );
        proof {
            if faces@.len() == 0 {
                assert(si_export_from(
                    si_init(),
                    faces@,
                    0,
                    pos@,
                    v_color@,
                    texcoord@,
                    normal@,
                    *load_options,
                ) == Ok::<crate::export_single::SiState, LoadError>(si_init()));
                match &r {
                    Ok(m) => {
                        if mat_id is None {
                            assert(m.is_empty_spec());
                        }
                    },
                    Err(_) => {
                        assert(false);
                    },
                }
            }
        }
        r
    } else {
        let r = export_faces_multi_index(
            pos.as_slice(),
            v_color.as_slice(),
            texcoord.as_slice(),
            normal.as_slice(),
            faces.as_slice(),
            mat_id,
            load_options,
        );
        proof {
            if faces@.len() == 0 {
                assert(mi_export_from(
                    mi_init(),
                    faces@,
                    0,
                    pos@,
                    v_color@,
                    texcoord@,
                    normal@,
                    *load_options,
                ) == Ok::<crate::export_multi::MiState, LoadError>(mi_init()));
                match &r {
                    Ok(m) => {
                        if mat_id is None {
                            assert(mesh_v(*m).positions =~= Seq::<u64>::empty());
                            assert(mesh_v(*m).vertex_color =~= Seq::<u64>::empty());
                            assert(mesh_v(*m).normals =~= Seq::<u64>::empty());
                            assert(mesh_v(*m).texcoords =~= Seq::<u64>::empty());
                            assert(mesh_v(*m).indices =~= Seq::<u32>::empty());
                            assert(mesh_v(*m).face_arities =~= Seq::<u32>::empty());
                            assert(m.is_empty_spec());
                        }
                    },
                    Err(_) => {
                        assert(false);
                    },
                }
            }
        }
        r
    }
}

/// Loads the models of an `OBJ` text.  Scalar tokens are read by the
/// caller's readers (positions, texture coordinates and normals with
/// `read_scalar`, vertex colors with `read_color`); material libraries
/// named by `mtllib` statements are fetched through `material_loader`,
/// whose failure is reported beside the geometry rather than aborting
/// it.
///
/// The contract fixes what does not depend on the caller's closures: a
/// mutually exclusive option combination is rejected up front and is
/// the only source of that error; every other failure is one of the
/// reader's or the exporters' errors; every returned model's mesh is
/// well formed, triangulated loads return only whole triangles with no
/// arity lists, and every model name comes from an `o`/`g` line or is
/// the default; a buffer without `mtllib` lines yields no materials
/// and no material error; and a buffer with no statement lines at all
/// yields exactly one empty model, named by the last `o`/`g` line.
#[verifier::rlimit(100)]
pub fn load_obj_buf<FP, FC, ML>(
    buf: &[u8],
    load_options: &LoadOptions,
    read_scalar: FP,
    read_color: FC,
    material_loader: ML,
) -> (r: LoadResult) where
    FP: Fn(&Vec<u8>) -> Option<u64>,
    FC: Fn(&Vec<u8>) -> Option<u64>,
    ML: Fn(&String) -> Result<MtlLibrary, LoadError>,

    requires
        forall|a: &Vec<u8>| #[trigger] call_requires(read_scalar, (a,)),
        forall|a: &Vec<u8>| #[trigger] call_requires(read_color, (a,)),
        forall|a: &String| #[trigger] call_requires(material_loader, (a,)),
    ensures
        (r matches Err(e) && e == LoadError::InvalidLoadOptionConfig)
            <==> !load_options.is_valid_spec(),
        r matches Err(e) ==> is_loader_error(e),
        r matches Err(e) ==> ({
            &&& e is PositionParseError ==> buf_has_keyword(buf@, "v"@)
            &&& e is TexcoordParseError ==> buf_has_keyword(buf@, "vt"@)
            &&& e is NormalParseError ==> buf_has_keyword(buf@, "vn"@)
            &&& e is FaceParseError ==> (buf_has_keyword(buf@, "f"@) || buf_has_keyword(
                buf@,
                "l"@,
            ))
            &&& e is MaterialParseError ==> (buf_has_keyword(buf@, "mtllib"@) || buf_has_keyword(
                buf@,
                "usemtl"@,
            ))
            &&& e.is_export_error() ==> (buf_has_keyword(buf@, "f"@) || buf_has_keyword(
                buf@,
                "l"@,
            ))
        }),
        r matches Ok(p) ==> (p.0@.len() >= 1 && (forall|i: int|
            0 <= i < p.0@.len() ==> (#[trigger] p.0@[i]).mesh.wf() && obj_name_from(
                buf@,
                p.0@[i].name@,
            ) && (load_options.triangulate ==> p.0@[i].mesh.face_arities@.len() == 0
                && p.0@[i].mesh.indices@.len() % 3 == 0))),
        r matches Ok(p) ==> (!buf_has_keyword(buf@, "mtllib"@) ==> (p.1 matches Ok(v)
            && v@.len() == 0)),
        r matches Ok(p) ==> ((!buf_has_keyword(buf@, "o"@) && !buf_has_keyword(buf@, "g"@)
            && !buf_has_keyword(buf@, "usemtl"@)) ==> (p.0@.len() == 1 && p.0@[0].name@
            == "unnamed_object"@ && p.0@[0].mesh.material_id is None)),
        (load_options.is_valid_spec() && obj_all_inert(buf@)) ==> (r matches Ok(p) && p.0@.len()
            == 1 && p.0@[0].mesh.is_empty_spec() && p.0@[0].name@ == obj_last_name(lines_of(buf@))
            && (p.1 matches Ok(v) && v@.len() == 0)),
{
    if !load_options.is_valid() {
        return Err(LoadError::InvalidLoadOptionConfig);
    }
    let mut models: Vec<Model> = Vec::new();
    let mut materials: Vec<Material> = Vec::new();
    let mut mat_map = NameMap::new();
    let mut tmp_pos: Vec<u64> = Vec::new();
    let mut tmp_v_color: Vec<u64> = Vec::new();
    let mut tmp_texcoord: Vec<u64> = Vec::new();
    let mut tmp_normal: Vec<u64> = Vec::new();
    let mut tmp_faces: Vec<Face> = Vec::new();
    let mut name = default_object_name();
    let mut mat_id: Option<usize> = None;
    let mut mtl_failure: Option<LoadError> = None;
    let lines = lines_exec(buf);
    let nlines = lines.len();
    let mut li: usize = 0;
    proof {
        assert(lines.deep_view().len() == lines@.len());
        assert(lines_of(buf@).take(0) =~= Seq::<Seq<u8>>::empty());
    }
    while li < nlines
        invariant
            0 <= li <= nlines,
            nlines == lines@.len(),
            lines.deep_view() == lines_of(buf@),
            load_options.is_valid_spec(),
            tmp_texcoord@.len() as int % 2 == 0,
            tmp_normal@.len() as int % 3 == 0,
            mat_map@.dom().finite(),
            forall|a: &Vec<u8>| #[trigger] call_requires(read_scalar, (a,)),
            forall|a: &Vec<u8>| #[trigger] call_requires(read_color, (a,)),
            forall|a: &String| #[trigger] call_requires(material_loader, (a,)),
            forall|i: int|
                0 <= i < models@.len() ==> (#[trigger] models@[i]).mesh.wf() && obj_name_from(
                    buf@,
                    models@[i].name@,
                ) && (load_options.triangulate ==> models@[i].mesh.face_arities@.len() == 0
                    && models@[i].mesh.indices@.len() % 3 == 0),
            obj_name_from(buf@, name@),
            tmp_faces@.len() > 0 ==> (buf_has_keyword(buf@, "f"@) || buf_has_keyword(
                buf@,
                "l"@,
            )),
            (!buf_has_keyword(buf@, "o"@) && !buf_has_keyword(buf@, "g"@) && !buf_has_keyword(
                buf@,
                "usemtl"@,
            )) ==> (models@.len() == 0 && name@ == "unnamed_object"@ && mat_id is None),
            !buf_has_keyword(buf@, "mtllib"@) ==> materials@.len() == 0 && mtl_failure is None,
            obj_all_inert(buf@) ==> models@.len() == 0 && tmp_faces@.len() == 0 && mat_id is None
                && name@ == obj_last_name(lines_of(buf@).take(li as int)),
        decreases nlines - li,
    {
        let ghost lid = li as int;
        let ghost lv = lines_of(buf@)[lid];
        let ghost pref = lines_of(buf@).take(lid);
        let ghost pref2 = lines_of(buf@).take(lid + 1);
        proof {
            reveal_strlit("#");
            reveal_strlit("v");
            reveal_strlit("vt");
            reveal_strlit("vn");
            reveal_strlit("f");
            reveal_strlit("l");
            reveal_strlit("o");
            reveal_strlit("g");
            reveal_strlit("mtllib");
            reveal_strlit("usemtl");
            reveal_strlit("unnamed_object");
            assert(pref2.drop_last() =~= pref);
            assert(pref2.last() == lv);
        }
        let line = &lines[li];
        li = li + 1;
        proof {
            assert(line@ == lines.deep_view()[lid]);
        }
        let words = words_exec(line.as_slice());
        if words.len() == 0 {
            proof {
                if obj_all_inert(buf@) {
                    assert(obj_last_name(pref2) == obj_last_name(pref));
                }
            }
            continue ;
        }
        let kw = &words[0];
        proof {
            assert(kw@ == words_of(line@)[0]);
        }
        if keyword_matches(kw.as_slice(), "#") {
            proof {
                if obj_all_inert(buf@) {
                    assert(kwb("#"@) != kwb("o"@)) by {
                        assert(kwb("#"@)[0] == 35);
                        assert(kwb("o"@)[0] == 111);
                    }
                    assert(kwb("#"@) != kwb("g"@)) by {
                        assert(kwb("#"@)[0] == 35);
                        assert(kwb("g"@)[0] == 103);
                    }
                    assert(obj_last_name(pref2) == obj_last_name(pref));
                }
            }
            continue ;
        } else if keyword_matches(kw.as_slice(), "v") {
            proof {
                assert(obj_line_active(lv));
                assert(!obj_all_inert(buf@));
                assert(buf_has_keyword(buf@, "v"@));
            }
            if !parse_floatn(&read_scalar, words.as_slice(), 1, &mut tmp_pos, 3) {
                return Err(LoadError::PositionParseError);
            }
            // inline vertex colors, when present
            let _ = parse_floatn(&read_color, words.as_slice(), 4, &mut tmp_v_color, 3);
        } else if keyword_matches(kw.as_slice(), "vt") {
            proof {
                assert(obj_line_active(lv));
                assert(!obj_all_inert(buf@));
                assert(buf_has_keyword(buf@, "vt"@));
            }
            if !parse_floatn(&read_scalar, words.as_slice(), 1, &mut tmp_texcoord, 2) {
                return Err(LoadError::TexcoordParseError);
            }
        } else if keyword_matches(kw.as_slice(), "vn") {
            proof {
                assert(obj_line_active(lv));
                assert(!obj_all_inert(buf@));
                assert(buf_has_keyword(buf@, "vn"@));
            }
            if !parse_floatn(&read_scalar, words.as_slice(), 1, &mut tmp_normal, 3) {
                return Err(LoadError::NormalParseError);
            }
        } else if keyword_matches(kw.as_slice(), "f") || keyword_matches(kw.as_slice(), "l") {
            proof {
                assert(obj_line_active(lv));
                assert(!obj_all_inert(buf@));
                assert(buf_has_keyword(buf@, "f"@) || buf_has_keyword(buf@, "l"@));
            }
            if !parse_face(
                words.as_slice(),
                1,
                &mut tmp_faces,
                tmp_pos.len() / 3,
                tmp_texcoord.len() / 2,
                tmp_normal.len() / 3,
            ) {
                return Err(LoadError::FaceParseError);
            }
        } else if keyword_matches(kw.as_slice(), "o") || keyword_matches(kw.as_slice(), "g") {
            proof {
                assert(buf_has_keyword(buf@, "o"@) || buf_has_keyword(buf@, "g"@));
            }
            // a new object name ends the current accumulation
            if tmp_faces.len() > 0 {
                let mesh = match export_model(
                    &tmp_pos,
                    &tmp_v_color,
                    &tmp_texcoord,
                    &tmp_normal,
                    &tmp_faces,
                    mat_id,
                    load_options,
                ) {
                    Ok(m) => m,
                    Err(e) => {
                        return Err(e);
                    },
                };
                models.push(Model::new(mesh, name));
                name = default_object_name();
                tmp_faces = Vec::new();
            }
            proof {
                assert(line@.len() > 0) by {
                    if line@.len() == 0 {
                        assert(words_of(line@) =~= Seq::<Seq<u8>>::empty());
                    }
                }
            }
            let rest = slice_from(line.as_slice(), 1);
            let trimmed = trim_bytes(rest);
            if trimmed.len() == 0 {
                name = default_object_name();
            } else {
                name = bytes_to_string(trimmed.as_slice());
            }
            proof {
                assert(name@ == og_line_name(lv));
                assert(obj_name_from(buf@, name@));
                if obj_all_inert(buf@) {
                    assert(obj_last_name(pref2) == og_line_name(lv));
                }
            }
        } else if keyword_matches(kw.as_slice(), "mtllib") {
            proof {
                assert(obj_line_active(lv));
                assert(!obj_all_inert(buf@));
                assert(buf_has_keyword(buf@, "mtllib"@));
            }
            if words.len() > 1 {
                let path = bytes_to_string(words[1].as_slice());
                match material_loader(&path) {
                    Ok(lib) => {
                        let (mut mats, map) = lib;
                        let mat_offset = materials.len();
                        while mats.len() > 0
                            decreases mats@.len(),
                        {
                            let m = mats.remove(0);
                            materials.push(m);
                        }
                        let items = map.items();
                        let ni = items.len();
                        let mut ii: usize = 0;
                        while ii < ni
                            invariant
                                0 <= ii <= ni,
                                ni == items@.len(),
                                mat_map@.dom().finite(),
                            decreases ni - ii,
                        {
                            let nm2 = clone_string(&items[ii].0);
                            let iv = items[ii].1;
                            mat_map.insert(nm2, iv.wrapping_add(mat_offset));
                            ii = ii + 1;
                        }
                    },
                    Err(e) => {
                        mtl_failure = Some(e);
                    },
                }
            } else {
                return Err(LoadError::MaterialParseError);
            }
        } else if keyword_matches(kw.as_slice(), "usemtl") {
            proof {
                assert(obj_line_active(lv));
                assert(!obj_all_inert(buf@));
                assert(buf_has_keyword(buf@, "usemtl"@));
            }
            let sp = find_byte_exec(line.as_slice(), 0x20);
            let mat_name_bytes = if sp < line.len() {
                trim_bytes(slice_from(line.as_slice(), sp + 1))
            } else {
                Vec::new()
            };
            if mat_name_bytes.len() > 0 {
                let mat_name = bytes_to_string(mat_name_bytes.as_slice());
                let new_mat = mat_map.get(&mat_name);
                // a new material within an object emits a model under the
                // same name
                if opt_usize_neq(&mat_id, &new_mat) && tmp_faces.len() > 0 {
                    let mesh = match export_model(
                        &tmp_pos,
                        &tmp_v_color,
                        &tmp_texcoord,
                        &tmp_normal,
                        &tmp_faces,
                        mat_id,
                        load_options,
                    ) {
                        Ok(m) => m,
                        Err(e) => {
                            return Err(e);
                        },
                    };
                    models.push(Model::new(mesh, clone_string(&name)));
                    tmp_faces = Vec::new();
                }
                mat_id = new_mat;
            } else {
                return Err(LoadError::MaterialParseError);
            }
        } else {
            // unrecognized keywords are ignored
            proof {
                if obj_all_inert(buf@) {
                    assert(obj_last_name(pref2) == obj_last_name(pref));
                }
            }
        }
    }
    proof {
        assert(lines_of(buf@).take(li as int) =~= lines_of(buf@));
    }
    // the last accumulation has no terminating boundary statement
    let mesh = match export_model(
        &tmp_pos,
        &tmp_v_color,
        &tmp_texcoord,
        &tmp_normal,
        &tmp_faces,
        mat_id,
        load_options,
    ) {
        Ok(m) => m,
        Err(e) => {
            return Err(e);
        },
    };
    models.push(Model::new(mesh, name));
    // a failed material library is reported beside the geometry, even
    // when other libraries loaded
    let mtlresult: Result<Vec<Material>, LoadError> = match mtl_failure {
        Some(e) => Err(e),
        None => Ok(materials),
    };
    proof {
        if obj_all_inert(buf@) {
            assert(!buf_has_keyword(buf@, "mtllib"@)) by {
                if buf_has_keyword(buf@, "mtllib"@) {
                    let i = choose|i: int|
                        0 <= i < lines_of(buf@).len() && line_keyword_is(
                            #[trigger] lines_of(buf@)[i],
                            "mtllib"@,
                        );
                    assert(obj_line_active(lines_of(buf@)[i]));
                }
            }
        }
    }
    Ok((models, mtlresult))
}

} // verus!
