//! The single-index exporter: deduplicates complete vertex-reference
//! tuples into one compact vertex buffer with one shared index stream.
use crate::err::LoadError;
use crate::maps::ViMap;
use crate::mesh::indices_in_range;
use crate::mesh::lemma_sum_u32_push;
use crate::mesh::sum_u32;
use crate::mesh::Mesh;
use crate::options::LoadOptions;
use crate::vertex::Face;
use crate::vertex::VertexIndices;
use crate::vertex::MISSING_INDEX;
use vstd::prelude::*;

verus! {

/// The growing buffers and dedup map of the single-index exporter.
pub ghost struct SiVert {
    pub positions: Seq<u64>,
    pub vertex_color: Seq<u64>,
    pub normals: Seq<u64>,
    pub texcoords: Seq<u64>,
    pub indices: Seq<u32>,
    pub imap: Map<VertexIndices, u32>,
}

/// Internal soundness of the exporter state: the dedup map is the
/// authority for the compact vertex count, buffers hold whole tuples,
/// and every emitted index is a compact index.
pub open spec fn si_vert_inv(st: SiVert) -> bool {
    &&& st.imap.dom().finite()
    &&& st.imap.len() <= 0x1_0000_0000
    &&& st.positions.len() == st.imap.len() * 3
    &&& st.vertex_color.len() % 3 == 0
    &&& st.normals.len() % 3 == 0
    &&& st.texcoords.len() % 2 == 0
    &&& (forall|w: VertexIndices| st.imap.contains_key(w) ==> st.imap[w] < st.imap.len())
    &&& indices_in_range(st.indices, st.imap.len() as int)
}

pub open spec fn si_vert_init() -> SiVert {
    SiVert {
        positions: Seq::empty(),
        vertex_color: Seq::empty(),
        normals: Seq::empty(),
        texcoords: Seq::empty(),
        indices: Seq::empty(),
        imap: Map::empty(),
    }
}

/// One vertex added to the single-index state: a known reference re-uses
/// its compact index; a new one is bounds-checked against each attribute
/// buffer it references, its tuples are appended, and it is assigned the
/// next compact index.
pub open spec fn si_add_vertex(
    st: SiVert,
    vert: VertexIndices,
    pos: Seq<u64>,
    vcol: Seq<u64>,
    tex: Seq<u64>,
    norm: Seq<u64>,
) -> Result<SiVert, LoadError> {
    if st.imap.contains_key(vert) {
        Ok(SiVert { indices: st.indices.push(st.imap[vert]), ..st })
    } else if vert.v >= pos.len() as int / 3 {
        Err(LoadError::FaceVertexOutOfBounds)
    } else if tex.len() > 0 && vert.vt != MISSING_INDEX && vert.vt >= tex.len() as int / 2 {
        Err(LoadError::FaceTexCoordOutOfBounds)
    } else if norm.len() > 0 && vert.vn != MISSING_INDEX && vert.vn >= norm.len() as int / 3 {
        Err(LoadError::FaceNormalOutOfBounds)
    } else if vcol.len() > 0 && vcol.len() != 3 && vcol.len() != 4 && vert.v >= vcol.len() as int
        / 3 {
        Err(LoadError::FaceColorOutOfBounds)
    } else if st.imap.len() > u32::MAX {
        Err(LoadError::GenericFailure)
    } else {
        Ok(
            (SiVert {
                positions: st.positions + pos.subrange(vert.v * 3, vert.v * 3 + 3),
                texcoords: if tex.len() > 0 && vert.vt != MISSING_INDEX {
                    st.texcoords + tex.subrange(vert.vt * 2, vert.vt * 2 + 2)
                } else {
                    st.texcoords
                },
                normals: if norm.len() > 0 && vert.vn != MISSING_INDEX {
                    st.normals + norm.subrange(vert.vn * 3, vert.vn * 3 + 3)
                } else {
                    st.normals
                },
                vertex_color: if vcol.len() == 0 {
                    st.vertex_color
                } else if vcol.len() == 3 || vcol.len() == 4 {
                    st.vertex_color + vcol.subrange(0, 3)
                } else {
                    st.vertex_color + vcol.subrange(vert.v * 3, vert.v * 3 + 3)
                },
                indices: st.indices.push(st.imap.len() as u32),
                imap: st.imap.insert(vert, st.imap.len() as u32),
            }),
        )
    }
}

/// Two vertices added in order.
pub open spec fn si_add2(
    st: SiVert,
    a: VertexIndices,
    b: VertexIndices,
    pos: Seq<u64>,
    vcol: Seq<u64>,
    tex: Seq<u64>,
    norm: Seq<u64>,
) -> Result<SiVert, LoadError> {
    match si_add_vertex(st, a, pos, vcol, tex, norm) {
        Ok(s) => si_add_vertex(s, b, pos, vcol, tex, norm),
        Err(e) => Err(e),
    }
}

/// Three vertices added in order.
pub open spec fn si_add3(
    st: SiVert,
    a: VertexIndices,
    b: VertexIndices,
    c: VertexIndices,
    pos: Seq<u64>,
    vcol: Seq<u64>,
    tex: Seq<u64>,
    norm: Seq<u64>,
) -> Result<SiVert, LoadError> {
    match si_add2(st, a, b, pos, vcol, tex, norm) {
        Ok(s) => si_add_vertex(s, c, pos, vcol, tex, norm),
        Err(e) => Err(e),
    }
}

/// The references from position `i` on, added in order.
pub open spec fn si_add_from(
    st: SiVert,
    refs: Seq<VertexIndices>,
    i: int,
    pos: Seq<u64>,
    vcol: Seq<u64>,
    tex: Seq<u64>,
    norm: Seq<u64>,
) -> Result<SiVert, LoadError>
    decreases refs.len() - i,
{
    if i < 0 || i >= refs.len() {
        Ok(st)
    } else {
        match si_add_vertex(st, refs[i], pos, vcol, tex, norm) {
            Ok(s) => si_add_from(s, refs, i + 1, pos, vcol, tex, norm),
            Err(e) => Err(e),
        }
    }
}

/// The triangle fan over `refs` from corner `i` on: each step emits the
/// fan origin, the previous corner and the current one.
pub open spec fn si_fan_from(
    st: SiVert,
    refs: Seq<VertexIndices>,
    i: int,
    pos: Seq<u64>,
    vcol: Seq<u64>,
    tex: Seq<u64>,
    norm: Seq<u64>,
) -> Result<SiVert, LoadError>
    decreases refs.len() - i,
{
    if i < 2 || i >= refs.len() {
        Ok(st)
    } else {
        match si_add3(st, refs[0], refs[i - 1], refs[i], pos, vcol, tex, norm) {
            Ok(s) => si_fan_from(s, refs, i + 1, pos, vcol, tex, norm),
            Err(e) => Err(e),
        }
    }
}

/// The whole exporter state: the vertex buffers plus the face-arity
/// bookkeeping.
pub ghost struct SiState {
    pub vert: SiVert,
    pub face_arities: Seq<u32>,
    pub all_triangles: bool,
}

pub open spec fn si_init() -> SiState {
    SiState { vert: si_vert_init(), face_arities: Seq::empty(), all_triangles: true }
}

/// One face processed under the given options: its vertices are added
/// (expanded to a fan when triangulating), and when not triangulating
/// its arity is recorded; faces other than triangles clear the
/// pure-triangle flag.
pub open spec fn si_face(
    st: SiState,
    f: Face,
    pos: Seq<u64>,
    vcol: Seq<u64>,
    tex: Seq<u64>,
    norm: Seq<u64>,
    opts: LoadOptions,
) -> Result<SiState, LoadError> {
    match f {
        Face::Point(a) => {
            if opts.ignore_points {
                Ok(st)
            } else if opts.triangulate {
                match si_add3(st.vert, a, a, a, pos, vcol, tex, norm) {
                    Ok(s) => Ok(SiState { vert: s, ..st }),
                    Err(e) => Err(e),
                }
            } else {
                match si_add_vertex(st.vert, a, pos, vcol, tex, norm) {
                    Ok(s) => Ok(
                        (SiState {
                            vert: s,
                            face_arities: st.face_arities.push(1),
                            all_triangles: false,
                        }),
                    ),
                    Err(e) => Err(e),
                }
            }
        },
        Face::Line(a, b) => {
            if opts.ignore_lines {
                Ok(st)
            } else if opts.triangulate {
                match si_add3(st.vert, a, b, b, pos, vcol, tex, norm) {
                    Ok(s) => Ok(SiState { vert: s, ..st }),
                    Err(e) => Err(e),
                }
            } else {
                match si_add2(st.vert, a, b, pos, vcol, tex, norm) {
                    Ok(s) => Ok(
                        (SiState {
                            vert: s,
                            face_arities: st.face_arities.push(2),
                            all_triangles: false,
                        }),
                    ),
                    Err(e) => Err(e),
                }
            }
        },
        Face::Triangle(a, b, c) => {
            match si_add3(st.vert, a, b, c, pos, vcol, tex, norm) {
                Ok(s) => if opts.triangulate {
                    Ok(SiState { vert: s, ..st })
                } else {
                    Ok(SiState { vert: s, face_arities: st.face_arities.push(3), ..st })
                },
                Err(e) => Err(e),
            }
        },
        Face::Quad(a, b, c, d) => {
            match si_add3(st.vert, a, b, c, pos, vcol, tex, norm) {
                Ok(s1) => if opts.triangulate {
                    match si_add3(s1, a, c, d, pos, vcol, tex, norm) {
                        Ok(s2) => Ok(SiState { vert: s2, ..st }),
                        Err(e) => Err(e),
                    }
                } else {
                    match si_add_vertex(s1, d, pos, vcol, tex, norm) {
                        Ok(s2) => Ok(
                            (SiState {
                                vert: s2,
                                face_arities: st.face_arities.push(4),
                                all_triangles: false,
                            }),
                        ),
                        Err(e) => Err(e),
                    }
                },
                Err(e) => Err(e),
            }
        },
        Face::Polygon(v) => {
            if opts.triangulate {
                if v@.len() < 2 {
                    Err(LoadError::InvalidPolygon)
                } else {
                    match si_fan_from(st.vert, v@, 2, pos, vcol, tex, norm) {
                        Ok(s) => Ok(SiState { vert: s, ..st }),
                        Err(e) => Err(e),
                    }
                }
            } else {
                match si_add_from(st.vert, v@, 0, pos, vcol, tex, norm) {
                    Ok(s) => if v@.len() > u32::MAX {
                        Err(LoadError::GenericFailure)
                    } else {
                        Ok(
                            (SiState {
                                vert: s,
                                face_arities: st.face_arities.push(v@.len() as u32),
                                all_triangles: false,
                            }),
                        )
                    },
                    Err(e) => Err(e),
                }
            }
        },
    }
}

/// The faces from position `i` on, processed in order.
pub open spec fn si_export_from(
    st: SiState,
    faces: Seq<Face>,
    i: int,
    pos: Seq<u64>,
    vcol: Seq<u64>,
    tex: Seq<u64>,
    norm: Seq<u64>,
    opts: LoadOptions,
) -> Result<SiState, LoadError>
    decreases faces.len() - i,
{
    if i < 0 || i >= faces.len() {
        Ok(st)
    } else {
        match si_face(st, faces[i], pos, vcol, tex, norm, opts) {
            Ok(s) => si_export_from(s, faces, i + 1, pos, vcol, tex, norm, opts),
            Err(e) => Err(e),
        }
    }
}

/// The final arity bookkeeping: a mesh that ended up entirely triangles
/// drops its arity list, the canonical pure-triangle signal.
pub open spec fn si_finish(st: SiState) -> SiState {
    if st.all_triangles {
        SiState { face_arities: Seq::empty(), ..st }
    } else {
        st
    }
}

/// What the single-index exporter produces for a face list.
pub open spec fn export_faces_spec(
    faces: Seq<Face>,
    pos: Seq<u64>,
    vcol: Seq<u64>,
    tex: Seq<u64>,
    norm: Seq<u64>,
    opts: LoadOptions,
) -> Result<SiState, LoadError> {
    match si_export_from(si_init(), faces, 0, pos, vcol, tex, norm, opts) {
        Ok(st) => Ok(si_finish(st)),
        Err(e) => Err(e),
    }
}

/// The mesh holds exactly the exporter state: the shared index stream,
/// the compact buffers, the arities, and no per-attribute indices.
pub open spec fn mesh_matches_si(m: Mesh, st: SiState, mat_id: Option<usize>) -> bool {
    &&& m.positions@ == st.vert.positions
    &&& m.vertex_color@ == st.vert.vertex_color
    &&& m.normals@ == st.vert.normals
    &&& m.texcoords@ == st.vert.texcoords
    &&& m.indices@ == st.vert.indices
    &&& m.face_arities@ == st.face_arities
    &&& m.vertex_color_indices@ == Seq::<u32>::empty()
    &&& m.texcoord_indices@ == Seq::<u32>::empty()
    &&& m.normal_indices@ == Seq::<u32>::empty()
    &&& m.material_id == mat_id
}

/// Every face of the list is a triangle.
pub open spec fn all_faces_triangular(faces: Seq<Face>) -> bool {
    forall|i: int| 0 <= i < faces.len() ==> faces[i] is Triangle
}

/// [`si_add_vertex`] preserves the state invariant and emits exactly one
/// index; the arity list is untouched because it is not part of the
/// vertex state.
pub proof fn lemma_si_add_vertex(
    st: SiVert,
    vert: VertexIndices,
    pos: Seq<u64>,
    vcol: Seq<u64>,
    tex: Seq<u64>,
    norm: Seq<u64>,
)
    requires
        si_vert_inv(st),
    ensures
        si_add_vertex(st, vert, pos, vcol, tex, norm) matches Ok(s) ==> si_vert_inv(s)
            && s.indices.len() == st.indices.len() + 1,
        si_add_vertex(st, vert, pos, vcol, tex, norm) matches Err(e) ==> e.is_export_error(),
{
    match si_add_vertex(st, vert, pos, vcol, tex, norm) {
        Ok(s) => {
            if st.imap.contains_key(vert) {
            } else {
                assert(st.imap.len() <= u32::MAX);
                vstd::set::axiom_set_insert_len(st.imap.dom(), vert);
                assert(s.imap.dom() =~= st.imap.dom().insert(vert));
                assert(s.imap.len() == st.imap.len() + 1);
                assert(s.positions.len() == st.positions.len() + 3);
            }
        },
        Err(_) => {},
    }
}

/// [`si_add_from`] preserves the invariant and emits one index per
/// reference.
pub proof fn lemma_si_add_from(
    st: SiVert,
    refs: Seq<VertexIndices>,
    i: int,
    pos: Seq<u64>,
    vcol: Seq<u64>,
    tex: Seq<u64>,
    norm: Seq<u64>,
)
    requires
        si_vert_inv(st),
        0 <= i <= refs.len(),
    ensures
        si_add_from(st, refs, i, pos, vcol, tex, norm) matches Ok(s) ==> si_vert_inv(s)
            && s.indices.len() == st.indices.len() + (refs.len() - i),
    decreases refs.len() - i,
{
    if i < refs.len() {
        lemma_si_add_vertex(st, refs[i], pos, vcol, tex, norm);
        match si_add_vertex(st, refs[i], pos, vcol, tex, norm) {
            Ok(s) => {
                lemma_si_add_from(s, refs, i + 1, pos, vcol, tex, norm);
            },
            Err(_) => {},
        }
    }
}

/// [`si_fan_from`] preserves the invariant and emits three indices per
/// fan triangle.
pub proof fn lemma_si_fan_from(
    st: SiVert,
    refs: Seq<VertexIndices>,
    i: int,
    pos: Seq<u64>,
    vcol: Seq<u64>,
    tex: Seq<u64>,
    norm: Seq<u64>,
)
    requires
        si_vert_inv(st),
        2 <= i <= refs.len(),
    ensures
        si_fan_from(st, refs, i, pos, vcol, tex, norm) matches Ok(s) ==> si_vert_inv(s)
            && s.indices.len() == st.indices.len() + 3 * (refs.len() - i),
    decreases refs.len() - i,
{
    if i < refs.len() {
        lemma_si_add_vertex(st, refs[0], pos, vcol, tex, norm);
        match si_add_vertex(st, refs[0], pos, vcol, tex, norm) {
            Ok(s1) => {
                lemma_si_add_vertex(s1, refs[i - 1], pos, vcol, tex, norm);
                match si_add_vertex(s1, refs[i - 1], pos, vcol, tex, norm) {
                    Ok(s2) => {
                        lemma_si_add_vertex(s2, refs[i], pos, vcol, tex, norm);
                        match si_add_vertex(s2, refs[i], pos, vcol, tex, norm) {
                            Ok(s3) => {
                                lemma_si_fan_from(s3, refs, i + 1, pos, vcol, tex, norm);
                            },
                            Err(_) => {},
                        }
                    },
                    Err(_) => {},
                }
            },
            Err(_) => {},
        }
    }
}

/// Adds a vertex to the mesh, re-using the compact index of a reference
/// already in `index_map` or appending the referenced attribute tuples
/// and assigning the next compact index.
fn add_vertex(
    mesh: &mut Mesh,
    index_map: &mut ViMap,
    vert: &VertexIndices,
    pos: &[u64],
    v_color: &[u64],
    texcoord: &[u64],
    normal: &[u64],
) -> (r: Result<(), LoadError>)
    requires
        old(index_map)@.dom().finite(),
        old(index_map)@.len() <= 0x1_0000_0000,
    ensures
        ({
            let pre = SiVert {
                positions: old(mesh).positions@,
                vertex_color: old(mesh).vertex_color@,
                normals: old(mesh).normals@,
                texcoords: old(mesh).texcoords@,
                indices: old(mesh).indices@,
                imap: old(index_map)@,
            };
            match r {
                Ok(_) => {
                    let post = SiVert {
                        positions: final(mesh).positions@,
                        vertex_color: final(mesh).vertex_color@,
                        normals: final(mesh).normals@,
                        texcoords: final(mesh).texcoords@,
                        indices: final(mesh).indices@,
                        imap: final(index_map)@,
                    };
                    &&& si_add_vertex(pre, *vert, pos@, v_color@, texcoord@, normal@) == Ok::<
                        SiVert,
                        LoadError,
                    >(post)
                    &&& final(mesh).face_arities@ == old(mesh).face_arities@
                    &&& final(mesh).vertex_color_indices@ == old(mesh).vertex_color_indices@
                    &&& final(mesh).texcoord_indices@ == old(mesh).texcoord_indices@
                    &&& final(mesh).normal_indices@ == old(mesh).normal_indices@
                    &&& final(mesh).material_id == old(mesh).material_id
                },
                Err(e) => si_add_vertex(pre, *vert, pos@, v_color@, texcoord@, normal@) == Err::<
                    SiVert,
                    LoadError,
                >(e),
            }
        }),
{
    let ghost pre = SiVert {
        positions: mesh.positions@,
        vertex_color: mesh.vertex_color@,
        normals: mesh.normals@,
        texcoords: mesh.texcoords@,
        indices: mesh.indices@,
        imap: index_map@,
    };
    match index_map.get(vert) {
        Some(i) => {
            mesh.indices.push(i);
            Ok(())
        },
        None => {
            let v = vert.v;
            if v >= pos.len() / 3 {
                return Err(LoadError::FaceVertexOutOfBounds);
            }
            proof {
                assert(v * 3 + 2 < pos@.len());
            }
            mesh.positions.push(pos[v * 3]);
            mesh.positions.push(pos[v * 3 + 1]);
            mesh.positions.push(pos[v * 3 + 2]);
            proof {
                assert(mesh.positions@ =~= pre.positions + pos@.subrange(
                    v * 3,
                    v * 3 + 3,
                ));
            }
            if texcoord.len() > 0 && vert.vt != MISSING_INDEX {
                let vt = vert.vt;
                if vt >= texcoord.len() / 2 {
                    return Err(LoadError::FaceTexCoordOutOfBounds);
                }
                proof {
                    assert(vt * 2 + 1 < texcoord@.len());
                }
                mesh.texcoords.push(texcoord[vt * 2]);
                mesh.texcoords.push(texcoord[vt * 2 + 1]);
                proof {
                    assert(mesh.texcoords@ =~= pre.texcoords + texcoord@.subrange(
                        vt * 2,
                        vt * 2 + 2,
                    ));
                }
            }
            if normal.len() > 0 && vert.vn != MISSING_INDEX {
                let vn = vert.vn;
                if vn >= normal.len() / 3 {
                    return Err(LoadError::FaceNormalOutOfBounds);
                }
                proof {
                    assert(vn * 3 + 2 < normal@.len());
                }
                mesh.normals.push(normal[vn * 3]);
                mesh.normals.push(normal[vn * 3 + 1]);
                mesh.normals.push(normal[vn * 3 + 2]);
                proof {
                    assert(mesh.normals@ =~= pre.normals + normal@.subrange(
                        vn * 3,
                        vn * 3 + 3,
                    ));
                }
            }
            if v_color.len() > 0 {
                if v_color.len() == 3 || v_color.len() == 4 {
                    mesh.vertex_color.push(v_color[0]);
                    mesh.vertex_color.push(v_color[1]);
                    mesh.vertex_color.push(v_color[2]);
                    proof {
                        assert(mesh.vertex_color@ =~= pre.vertex_color + v_color@.subrange(0, 3));
                    }
                } else if v >= v_color.len() / 3 {
                    return Err(LoadError::FaceColorOutOfBounds);
                } else {
                    proof {
                        assert(v * 3 + 2 < v_color@.len());
                    }
                    mesh.vertex_color.push(v_color[v * 3]);
                    mesh.vertex_color.push(v_color[v * 3 + 1]);
                    mesh.vertex_color.push(v_color[v * 3 + 2]);
                    proof {
                        assert(mesh.vertex_color@ =~= pre.vertex_color + v_color@.subrange(
                            v * 3,
                            v * 3 + 3,
                        ));
                    }
                }
            }
            let next_usize = index_map.len();
            if next_usize > (u32::MAX as usize) {
                return Err(LoadError::GenericFailure);
            }
            let next = next_usize as u32;
            mesh.indices.push(next);
            index_map.insert(*vert, next);
            Ok(())
        },
    }
}


/// The exporter state assembled from the growing mesh, the dedup map and
/// the pure-triangle flag.
pub open spec fn si_cur(mesh: Mesh, imap: Map<VertexIndices, u32>, flag: bool) -> SiState {
    SiState {
        vert: SiVert {
            positions: mesh.positions@,
            vertex_color: mesh.vertex_color@,
            normals: mesh.normals@,
            texcoords: mesh.texcoords@,
            indices: mesh.indices@,
            imap: imap,
        },
        face_arities: mesh.face_arities@,
        all_triangles: flag,
    }
}

/// The mesh fields that [`add_vertex`] and the face loops never touch.
pub open spec fn si_untouched(m0: Mesh, m1: Mesh) -> bool {
    &&& m1.face_arities@ == m0.face_arities@
    &&& m1.vertex_color_indices@ == m0.vertex_color_indices@
    &&& m1.texcoord_indices@ == m0.texcoord_indices@
    &&& m1.normal_indices@ == m0.normal_indices@
    &&& m1.material_id == m0.material_id
}

/// Adds the triangle fan over a polygon's corners: for each corner past
/// the second, the fan origin, the previous corner and the corner
/// itself.
fn add_fan(
    mesh: &mut Mesh,
    index_map: &mut ViMap,
    poly: &Vec<VertexIndices>,
    pos: &[u64],
    v_color: &[u64],
    texcoord: &[u64],
    normal: &[u64],
) -> (r: Result<(), LoadError>)
    requires
        poly@.len() >= 2,
        si_vert_inv(si_cur(*old(mesh), old(index_map)@, true).vert),
    ensures
        ({
            let pre = si_cur(*old(mesh), old(index_map)@, true).vert;
            let post = si_cur(*final(mesh), final(index_map)@, true).vert;
            match r {
                Ok(_) => {
                    &&& si_fan_from(pre, poly@, 2, pos@, v_color@, texcoord@, normal@) == Ok::<
                        SiVert,
                        LoadError,
                    >(post)
                    &&& si_vert_inv(post)
                    &&& si_untouched(*old(mesh), *final(mesh))
                    &&& post.indices.len() == pre.indices.len() + 3 * (poly@.len() - 2)
                },
                Err(e) => si_fan_from(pre, poly@, 2, pos@, v_color@, texcoord@, normal@) == Err::<
                    SiVert,
                    LoadError,
                >(e) && e.is_export_error(),
            }
        }),
{
    let ghost pre = si_cur(*mesh, index_map@, true).vert;
    let a = poly[0];
    let mut j: usize = 2;
    while j < poly.len()
        invariant
            2 <= j <= poly@.len(),
            poly@.len() >= 2,
            a == poly@[0],
            si_vert_inv(si_cur(*mesh, index_map@, true).vert),
            pre == si_cur(*old(mesh), old(index_map)@, true).vert,
            si_vert_inv(pre),
            si_fan_from(pre, poly@, 2, pos@, v_color@, texcoord@, normal@) == si_fan_from(
                si_cur(*mesh, index_map@, true).vert,
                poly@,
                j as int,
                pos@,
                v_color@,
                texcoord@,
                normal@,
            ),
            si_untouched(*old(mesh), *mesh),
            si_cur(*mesh, index_map@, true).vert.indices.len() == pre.indices.len() + 3 * (j - 2),
        decreases poly@.len() - j,
    {
        let prev = poly[j - 1];
        let cc = poly[j];
        let ghost w0 = si_cur(*mesh, index_map@, true).vert;
        proof {
            lemma_si_add_vertex(w0, a, pos@, v_color@, texcoord@, normal@);
        }
        match add_vertex(mesh, index_map, &a, pos, v_color, texcoord, normal) {
            Ok(_) => {},
            Err(e) => {
                proof {
                    assert(si_fan_from(pre, poly@, 2, pos@, v_color@, texcoord@, normal@)
                        == Err::<SiVert, LoadError>(e));
                }
                return Err(e);
            },
        }
        let ghost w1 = si_cur(*mesh, index_map@, true).vert;
        proof {
            lemma_si_add_vertex(w1, prev, pos@, v_color@, texcoord@, normal@);
        }
        match add_vertex(mesh, index_map, &prev, pos, v_color, texcoord, normal) {
            Ok(_) => {},
            Err(e) => {
                proof {
                    assert(si_fan_from(pre, poly@, 2, pos@, v_color@, texcoord@, normal@)
                        == Err::<SiVert, LoadError>(e));
                }
                return Err(e);
            },
        }
        let ghost w2 = si_cur(*mesh, index_map@, true).vert;
        proof {
            lemma_si_add_vertex(w2, cc, pos@, v_color@, texcoord@, normal@);
        }
        match add_vertex(mesh, index_map, &cc, pos, v_color, texcoord, normal) {
            Ok(_) => {},
            Err(e) => {
                proof {
                    assert(si_fan_from(pre, poly@, 2, pos@, v_color@, texcoord@, normal@)
                        == Err::<SiVert, LoadError>(e));
                }
                return Err(e);
            },
        }
        j = j + 1;
    }
    proof {
        assert(si_fan_from(si_cur(*mesh, index_map@, true).vert, poly@, j as int, pos@, v_color@,
            texcoord@, normal@) == Ok::<SiVert, LoadError>(si_cur(*mesh, index_map@, true).vert));
    }
    Ok(())
}

/// Adds every corner of a polygon in order, without triangulation.
fn add_poly_all(
    mesh: &mut Mesh,
    index_map: &mut ViMap,
    poly: &Vec<VertexIndices>,
    pos: &[u64],
    v_color: &[u64],
    texcoord: &[u64],
    normal: &[u64],
) -> (r: Result<(), LoadError>)
    requires
        si_vert_inv(si_cur(*old(mesh), old(index_map)@, true).vert),
    ensures
        ({
            let pre = si_cur(*old(mesh), old(index_map)@, true).vert;
            let post = si_cur(*final(mesh), final(index_map)@, true).vert;
            match r {
                Ok(_) => {
                    &&& si_add_from(pre, poly@, 0, pos@, v_color@, texcoord@, normal@) == Ok::<
                        SiVert,
                        LoadError,
                    >(post)
                    &&& si_vert_inv(post)
                    &&& si_untouched(*old(mesh), *final(mesh))
                    &&& post.indices.len() == pre.indices.len() + poly@.len()
                },
                Err(e) => si_add_from(pre, poly@, 0, pos@, v_color@, texcoord@, normal@) == Err::<
                    SiVert,
                    LoadError,
                >(e) && e.is_export_error(),
            }
        }),
{
    let ghost pre = si_cur(*mesh, index_map@, true).vert;
    let mut j: usize = 0;
    while j < poly.len()
        invariant
            0 <= j <= poly@.len(),
            si_vert_inv(si_cur(*mesh, index_map@, true).vert),
            pre == si_cur(*old(mesh), old(index_map)@, true).vert,
            si_vert_inv(pre),
            si_add_from(pre, poly@, 0, pos@, v_color@, texcoord@, normal@) == si_add_from(
                si_cur(*mesh, index_map@, true).vert,
                poly@,
                j as int,
                pos@,
                v_color@,
                texcoord@,
                normal@,
            ),
            si_untouched(*old(mesh), *mesh),
            si_cur(*mesh, index_map@, true).vert.indices.len() == pre.indices.len() + j,
        decreases poly@.len() - j,
    {
        let cc = poly[j];
        let ghost w0 = si_cur(*mesh, index_map@, true).vert;
        proof {
            lemma_si_add_vertex(w0, cc, pos@, v_color@, texcoord@, normal@);
        }
        match add_vertex(mesh, index_map, &cc, pos, v_color, texcoord, normal) {
            Ok(_) => {},
            Err(e) => {
                proof {
                    assert(si_add_from(pre, poly@, 0, pos@, v_color@, texcoord@, normal@)
                        == Err::<SiVert, LoadError>(e));
                }
                return Err(e);
            },
        }
        j = j + 1;
    }
    proof {
        assert(si_add_from(si_cur(*mesh, index_map@, true).vert, poly@, j as int, pos@, v_color@,
            texcoord@, normal@) == Ok::<SiVert, LoadError>(si_cur(*mesh, index_map@, true).vert));
    }
    Ok(())
}

/// Processes a point face as [`si_face`] describes for it.
#[verifier::rlimit(100)]
fn export_point(
    mesh: &mut Mesh,
    index_map: &mut ViMap,
    is_all_triangles: &mut bool,
    a: &VertexIndices,
    pos: &[u64],
    v_color: &[u64],
    texcoord: &[u64],
    normal: &[u64],
    load_options: &LoadOptions,
) -> (r: Result<(), LoadError>)
    requires
        si_vert_inv(si_cur(*old(mesh), old(index_map)@, *old(is_all_triangles)).vert),
    ensures
        ({
            let cur0 = si_cur(*old(mesh), old(index_map)@, *old(is_all_triangles));
            let cur1 = si_cur(*final(mesh), final(index_map)@, *final(is_all_triangles));
            let opts = *load_options;
            let fv = Face::Point(*a);
            match r {
                Ok(_) => {
                    &&& si_face(cur0, fv, pos@, v_color@, texcoord@, normal@, opts) == Ok::<
                        SiState,
                        LoadError,
                    >(cur1)
                    &&& si_vert_inv(cur1.vert)
                    &&& final(mesh).vertex_color_indices@ == old(mesh).vertex_color_indices@
                    &&& final(mesh).texcoord_indices@ == old(mesh).texcoord_indices@
                    &&& final(mesh).normal_indices@ == old(mesh).normal_indices@
                    &&& final(mesh).material_id == old(mesh).material_id
                    &&& (opts.triangulate ==> cur1.face_arities == cur0.face_arities
                        && cur1.all_triangles == cur0.all_triangles && cur1.vert.indices.len() % 3
                        == cur0.vert.indices.len() % 3)
                    &&& (!opts.triangulate && sum_u32(cur0.face_arities)
                        == cur0.vert.indices.len() ==> sum_u32(cur1.face_arities)
                        == cur1.vert.indices.len())
                },
                Err(e) => si_face(cur0, fv, pos@, v_color@, texcoord@, normal@, opts) == Err::<
                    SiState,
                    LoadError,
                >(e) && e.is_export_error(),
            }
        }),
{
    let ghost cur0 = si_cur(*mesh, index_map@, *is_all_triangles);
    let opts_x = *load_options;
    let tri = load_options.triangulate;

                if !opts_x.ignore_points {
                    let ghost v0 = cur0.vert;
                    proof {
                        lemma_si_add_vertex(v0, *a, pos@, v_color@, texcoord@, normal@);
                    }
                    match add_vertex(mesh, index_map, a, pos, v_color, texcoord, normal)
                    {
                        Ok(_) => {},
                        Err(e) => {
                            return Err(e);
                        },
                    }
                    let ghost v1 = si_cur(*mesh, index_map@, *is_all_triangles).vert;
                    if tri {
                        proof {
                            lemma_si_add_vertex(v1, *a, pos@, v_color@, texcoord@, normal@);
                        }
                        match add_vertex(
                            mesh,
                            index_map,
                            a,
                            pos,
                            v_color,
                            texcoord,
                            normal,
                        ) {
                            Ok(_) => {},
                            Err(e) => {
                                return Err(e);
                            },
                        }
                        let ghost v2 = si_cur(*mesh, index_map@, *is_all_triangles).vert;
                        proof {
                            lemma_si_add_vertex(v2, *a, pos@, v_color@, texcoord@, normal@);
                        }
                        match add_vertex(
                            mesh,
                            index_map,
                            a,
                            pos,
                            v_color,
                            texcoord,
                            normal,
                        ) {
                            Ok(_) => {},
                            Err(e) => {
                                return Err(e);
                            },
                        }
                    } else {
                        *is_all_triangles = false;
                        mesh.face_arities.push(1);
                        proof {
                            lemma_sum_u32_push(cur0.face_arities, 1);
                        }
                    }
                }
                proof {
        let curn = si_cur(*mesh, index_map@, *is_all_triangles);
        assert(si_face(cur0, Face::Point(*a), pos@, v_color@, texcoord@, normal@,
            *load_options) == Ok::<SiState, LoadError>(curn));
        if !load_options.triangulate && sum_u32(cur0.face_arities) == cur0.vert.indices.len() {
            assert(sum_u32(curn.face_arities) == curn.vert.indices.len());
        }
    }
    Ok(())
}

/// Processes a line face as [`si_face`] describes for it.
#[verifier::rlimit(100)]
fn export_line(
    mesh: &mut Mesh,
    index_map: &mut ViMap,
    is_all_triangles: &mut bool,
    a: &VertexIndices,
    b: &VertexIndices,
    pos: &[u64],
    v_color: &[u64],
    texcoord: &[u64],
    normal: &[u64],
    load_options: &LoadOptions,
) -> (r: Result<(), LoadError>)
    requires
        si_vert_inv(si_cur(*old(mesh), old(index_map)@, *old(is_all_triangles)).vert),
    ensures
        ({
            let cur0 = si_cur(*old(mesh), old(index_map)@, *old(is_all_triangles));
            let cur1 = si_cur(*final(mesh), final(index_map)@, *final(is_all_triangles));
            let opts = *load_options;
            let fv = Face::Line(*a, *b);
            match r {
                Ok(_) => {
                    &&& si_face(cur0, fv, pos@, v_color@, texcoord@, normal@, opts) == Ok::<
                        SiState,
                        LoadError,
                    >(cur1)
                    &&& si_vert_inv(cur1.vert)
                    &&& final(mesh).vertex_color_indices@ == old(mesh).vertex_color_indices@
                    &&& final(mesh).texcoord_indices@ == old(mesh).texcoord_indices@
                    &&& final(mesh).normal_indices@ == old(mesh).normal_indices@
                    &&& final(mesh).material_id == old(mesh).material_id
                    &&& (opts.triangulate ==> cur1.face_arities == cur0.face_arities
                        && cur1.all_triangles == cur0.all_triangles && cur1.vert.indices.len() % 3
                        == cur0.vert.indices.len() % 3)
                    &&& (!opts.triangulate && sum_u32(cur0.face_arities)
                        == cur0.vert.indices.len() ==> sum_u32(cur1.face_arities)
                        == cur1.vert.indices.len())
                },
                Err(e) => si_face(cur0, fv, pos@, v_color@, texcoord@, normal@, opts) == Err::<
                    SiState,
                    LoadError,
                >(e) && e.is_export_error(),
            }
        }),
{
    let ghost cur0 = si_cur(*mesh, index_map@, *is_all_triangles);
    let opts_x = *load_options;
    let tri = load_options.triangulate;

                if !opts_x.ignore_lines {
                    let ghost v0 = cur0.vert;
                    proof {
                        lemma_si_add_vertex(v0, *a, pos@, v_color@, texcoord@, normal@);
                    }
                    match add_vertex(mesh, index_map, a, pos, v_color, texcoord, normal)
                    {
                        Ok(_) => {},
                        Err(e) => {
                            return Err(e);
                        },
                    }
                    let ghost v1 = si_cur(*mesh, index_map@, *is_all_triangles).vert;
                    proof {
                        lemma_si_add_vertex(v1, *b, pos@, v_color@, texcoord@, normal@);
                    }
                    match add_vertex(mesh, index_map, b, pos, v_color, texcoord, normal)
                    {
                        Ok(_) => {},
                        Err(e) => {
                            return Err(e);
                        },
                    }
                    if tri {
                        let ghost v2 = si_cur(*mesh, index_map@, *is_all_triangles).vert;
                        proof {
                            lemma_si_add_vertex(v2, *b, pos@, v_color@, texcoord@, normal@);
                        }
                        match add_vertex(
                            mesh,
                            index_map,
                            b,
                            pos,
                            v_color,
                            texcoord,
                            normal,
                        ) {
                            Ok(_) => {},
                            Err(e) => {
                                return Err(e);
                            },
                        }
                    } else {
                        *is_all_triangles = false;
                        mesh.face_arities.push(2);
                        proof {
                            lemma_sum_u32_push(cur0.face_arities, 2);
                        }
                    }
                }
                proof {
        let curn = si_cur(*mesh, index_map@, *is_all_triangles);
        assert(si_face(cur0, Face::Line(*a, *b), pos@, v_color@, texcoord@, normal@,
            *load_options) == Ok::<SiState, LoadError>(curn));
        if !load_options.triangulate && sum_u32(cur0.face_arities) == cur0.vert.indices.len() {
            assert(sum_u32(curn.face_arities) == curn.vert.indices.len());
        }
    }
    Ok(())
}

/// Processes a triangle face as [`si_face`] describes for it.
#[verifier::rlimit(100)]
fn export_triangle(
    mesh: &mut Mesh,
    index_map: &mut ViMap,
    is_all_triangles: &mut bool,
    a: &VertexIndices,
    b: &VertexIndices,
    c: &VertexIndices,
    pos: &[u64],
    v_color: &[u64],
    texcoord: &[u64],
    normal: &[u64],
    load_options: &LoadOptions,
) -> (r: Result<(), LoadError>)
    requires
        si_vert_inv(si_cur(*old(mesh), old(index_map)@, *old(is_all_triangles)).vert),
    ensures
        ({
            let cur0 = si_cur(*old(mesh), old(index_map)@, *old(is_all_triangles));
            let cur1 = si_cur(*final(mesh), final(index_map)@, *final(is_all_triangles));
            let opts = *load_options;
            let fv = Face::Triangle(*a, *b, *c);
            match r {
                Ok(_) => {
                    &&& si_face(cur0, fv, pos@, v_color@, texcoord@, normal@, opts) == Ok::<
                        SiState,
                        LoadError,
                    >(cur1)
                    &&& si_vert_inv(cur1.vert)
                    &&& final(mesh).vertex_color_indices@ == old(mesh).vertex_color_indices@
                    &&& final(mesh).texcoord_indices@ == old(mesh).texcoord_indices@
                    &&& final(mesh).normal_indices@ == old(mesh).normal_indices@
                    &&& final(mesh).material_id == old(mesh).material_id
                    &&& (opts.triangulate ==> cur1.face_arities == cur0.face_arities
                        && cur1.all_triangles == cur0.all_triangles && cur1.vert.indices.len() % 3
                        == cur0.vert.indices.len() % 3)
                    &&& (!opts.triangulate && sum_u32(cur0.face_arities)
                        == cur0.vert.indices.len() ==> sum_u32(cur1.face_arities)
                        == cur1.vert.indices.len())
                },
                Err(e) => si_face(cur0, fv, pos@, v_color@, texcoord@, normal@, opts) == Err::<
                    SiState,
                    LoadError,
                >(e) && e.is_export_error(),
            }
        }),
{
    let ghost cur0 = si_cur(*mesh, index_map@, *is_all_triangles);
    let opts_x = *load_options;
    let tri = load_options.triangulate;

                let ghost v0 = cur0.vert;
                proof {
                    lemma_si_add_vertex(v0, *a, pos@, v_color@, texcoord@, normal@);
                }
                match add_vertex(mesh, index_map, a, pos, v_color, texcoord, normal) {
                    Ok(_) => {},
                    Err(e) => {
                        return Err(e);
                    },
                }
                let ghost v1 = si_cur(*mesh, index_map@, *is_all_triangles).vert;
                proof {
                    lemma_si_add_vertex(v1, *b, pos@, v_color@, texcoord@, normal@);
                }
                match add_vertex(mesh, index_map, b, pos, v_color, texcoord, normal) {
                    Ok(_) => {},
                    Err(e) => {
                        return Err(e);
                    },
                }
                let ghost v2 = si_cur(*mesh, index_map@, *is_all_triangles).vert;
                proof {
                    lemma_si_add_vertex(v2, *c, pos@, v_color@, texcoord@, normal@);
                }
                match add_vertex(mesh, index_map, c, pos, v_color, texcoord, normal) {
                    Ok(_) => {},
                    Err(e) => {
                        return Err(e);
                    },
                }
                if !tri {
                    mesh.face_arities.push(3);
                    proof {
                        lemma_sum_u32_push(cur0.face_arities, 3);
                    }
                }
                proof {
        let curn = si_cur(*mesh, index_map@, *is_all_triangles);
        assert(si_face(cur0, Face::Triangle(*a, *b, *c), pos@, v_color@, texcoord@, normal@,
            *load_options) == Ok::<SiState, LoadError>(curn));
        if !load_options.triangulate && sum_u32(cur0.face_arities) == cur0.vert.indices.len() {
            assert(sum_u32(curn.face_arities) == curn.vert.indices.len());
        }
    }
    Ok(())
}

/// Processes a quad face as [`si_face`] describes for it.
#[verifier::rlimit(100)]
fn export_quad(
    mesh: &mut Mesh,
    index_map: &mut ViMap,
    is_all_triangles: &mut bool,
    a: &VertexIndices,
    b: &VertexIndices,
    c: &VertexIndices,
    d: &VertexIndices,
    pos: &[u64],
    v_color: &[u64],
    texcoord: &[u64],
    normal: &[u64],
    load_options: &LoadOptions,
) -> (r: Result<(), LoadError>)
    requires
        si_vert_inv(si_cur(*old(mesh), old(index_map)@, *old(is_all_triangles)).vert),
    ensures
        ({
            let cur0 = si_cur(*old(mesh), old(index_map)@, *old(is_all_triangles));
            let cur1 = si_cur(*final(mesh), final(index_map)@, *final(is_all_triangles));
            let opts = *load_options;
            let fv = Face::Quad(*a, *b, *c, *d);
            match r {
                Ok(_) => {
                    &&& si_face(cur0, fv, pos@, v_color@, texcoord@, normal@, opts) == Ok::<
                        SiState,
                        LoadError,
                    >(cur1)
                    &&& si_vert_inv(cur1.vert)
                    &&& final(mesh).vertex_color_indices@ == old(mesh).vertex_color_indices@
                    &&& final(mesh).texcoord_indices@ == old(mesh).texcoord_indices@
                    &&& final(mesh).normal_indices@ == old(mesh).normal_indices@
                    &&& final(mesh).material_id == old(mesh).material_id
                    &&& (opts.triangulate ==> cur1.face_arities == cur0.face_arities
                        && cur1.all_triangles == cur0.all_triangles && cur1.vert.indices.len() % 3
                        == cur0.vert.indices.len() % 3)
                    &&& (!opts.triangulate && sum_u32(cur0.face_arities)
                        == cur0.vert.indices.len() ==> sum_u32(cur1.face_arities)
                        == cur1.vert.indices.len())
                },
                Err(e) => si_face(cur0, fv, pos@, v_color@, texcoord@, normal@, opts) == Err::<
                    SiState,
                    LoadError,
                >(e) && e.is_export_error(),
            }
        }),
{
    let ghost cur0 = si_cur(*mesh, index_map@, *is_all_triangles);
    let opts_x = *load_options;
    let tri = load_options.triangulate;

                let ghost v0 = cur0.vert;
                proof {
                    lemma_si_add_vertex(v0, *a, pos@, v_color@, texcoord@, normal@);
                }
                match add_vertex(mesh, index_map, a, pos, v_color, texcoord, normal) {
                    Ok(_) => {},
                    Err(e) => {
                        return Err(e);
                    },
                }
                let ghost v1 = si_cur(*mesh, index_map@, *is_all_triangles).vert;
                proof {
                    lemma_si_add_vertex(v1, *b, pos@, v_color@, texcoord@, normal@);
                }
                match add_vertex(mesh, index_map, b, pos, v_color, texcoord, normal) {
                    Ok(_) => {},
                    Err(e) => {
                        return Err(e);
                    },
                }
                let ghost v2 = si_cur(*mesh, index_map@, *is_all_triangles).vert;
                proof {
                    lemma_si_add_vertex(v2, *c, pos@, v_color@, texcoord@, normal@);
                }
                match add_vertex(mesh, index_map, c, pos, v_color, texcoord, normal) {
                    Ok(_) => {},
                    Err(e) => {
                        return Err(e);
                    },
                }
                if tri {
                    let ghost v3 = si_cur(*mesh, index_map@, *is_all_triangles).vert;
                    proof {
                        lemma_si_add_vertex(v3, *a, pos@, v_color@, texcoord@, normal@);
                    }
                    match add_vertex(mesh, index_map, a, pos, v_color, texcoord, normal)
                    {
                        Ok(_) => {},
                        Err(e) => {
                            return Err(e);
                        },
                    }
                    let ghost v4 = si_cur(*mesh, index_map@, *is_all_triangles).vert;
                    proof {
                        lemma_si_add_vertex(v4, *c, pos@, v_color@, texcoord@, normal@);
                    }
                    match add_vertex(mesh, index_map, c, pos, v_color, texcoord, normal)
                    {
                        Ok(_) => {},
                        Err(e) => {
                            return Err(e);
                        },
                    }
                    let ghost v5 = si_cur(*mesh, index_map@, *is_all_triangles).vert;
                    proof {
                        lemma_si_add_vertex(v5, *d, pos@, v_color@, texcoord@, normal@);
                    }
                    match add_vertex(mesh, index_map, d, pos, v_color, texcoord, normal)
                    {
                        Ok(_) => {},
                        Err(e) => {
                            return Err(e);
                        },
                    }
                } else {
                    let ghost v3 = si_cur(*mesh, index_map@, *is_all_triangles).vert;
                    proof {
                        lemma_si_add_vertex(v3, *d, pos@, v_color@, texcoord@, normal@);
                    }
                    match add_vertex(mesh, index_map, d, pos, v_color, texcoord, normal)
                    {
                        Ok(_) => {},
                        Err(e) => {
                            return Err(e);
                        },
                    }
                    *is_all_triangles = false;
                    mesh.face_arities.push(4);
                    proof {
                        lemma_sum_u32_push(cur0.face_arities, 4);
                    }
                }
                proof {
        let curn = si_cur(*mesh, index_map@, *is_all_triangles);
        assert(si_face(cur0, Face::Quad(*a, *b, *c, *d), pos@, v_color@, texcoord@, normal@,
            *load_options) == Ok::<SiState, LoadError>(curn));
        if !load_options.triangulate && sum_u32(cur0.face_arities) == cur0.vert.indices.len() {
            assert(sum_u32(curn.face_arities) == curn.vert.indices.len());
        }
    }
    Ok(())
}

/// Processes a general polygon face as [`si_face`] describes for it.
#[verifier::rlimit(100)]
fn export_polygon(
    mesh: &mut Mesh,
    index_map: &mut ViMap,
    is_all_triangles: &mut bool,
    poly: &Vec<VertexIndices>,
    pos: &[u64],
    v_color: &[u64],
    texcoord: &[u64],
    normal: &[u64],
    load_options: &LoadOptions,
) -> (r: Result<(), LoadError>)
    requires
        si_vert_inv(si_cur(*old(mesh), old(index_map)@, *old(is_all_triangles)).vert),
    ensures
        ({
            let cur0 = si_cur(*old(mesh), old(index_map)@, *old(is_all_triangles));
            let cur1 = si_cur(*final(mesh), final(index_map)@, *final(is_all_triangles));
            let opts = *load_options;
            let fv = Face::Polygon(*poly);
            match r {
                Ok(_) => {
                    &&& si_face(cur0, fv, pos@, v_color@, texcoord@, normal@, opts) == Ok::<
                        SiState,
                        LoadError,
                    >(cur1)
                    &&& si_vert_inv(cur1.vert)
                    &&& final(mesh).vertex_color_indices@ == old(mesh).vertex_color_indices@
                    &&& final(mesh).texcoord_indices@ == old(mesh).texcoord_indices@
                    &&& final(mesh).normal_indices@ == old(mesh).normal_indices@
                    &&& final(mesh).material_id == old(mesh).material_id
                    &&& (opts.triangulate ==> cur1.face_arities == cur0.face_arities
                        && cur1.all_triangles == cur0.all_triangles && cur1.vert.indices.len() % 3
                        == cur0.vert.indices.len() % 3)
                    &&& (!opts.triangulate && sum_u32(cur0.face_arities)
                        == cur0.vert.indices.len() ==> sum_u32(cur1.face_arities)
                        == cur1.vert.indices.len())
                },
                Err(e) => si_face(cur0, fv, pos@, v_color@, texcoord@, normal@, opts) == Err::<
                    SiState,
                    LoadError,
                >(e) && e.is_export_error(),
            }
        }),
{
    let ghost cur0 = si_cur(*mesh, index_map@, *is_all_triangles);
    let opts_x = *load_options;
    let tri = load_options.triangulate;

                if tri {
                    if poly.len() < 2 {
                        return Err(LoadError::InvalidPolygon);
                    }
                    match add_fan(mesh, index_map, poly, pos, v_color, texcoord, normal)
                    {
                        Ok(_) => {},
                        Err(e) => {
                            return Err(e);
                        },
                    }
                } else {
                    match add_poly_all(
                        mesh,
                        index_map,
                        poly,
                        pos,
                        v_color,
                        texcoord,
                        normal,
                    ) {
                        Ok(_) => {},
                        Err(e) => {
                            return Err(e);
                        },
                    }
                    if poly.len() > (u32::MAX as usize) {
                        return Err(LoadError::GenericFailure);
                    }
                    *is_all_triangles = false;
                    mesh.face_arities.push(poly.len() as u32);
                    proof {
                        lemma_sum_u32_push(cur0.face_arities, (poly@.len() as u32));
                    }
                }
                proof {
        let curn = si_cur(*mesh, index_map@, *is_all_triangles);
        assert(si_face(cur0, Face::Polygon(*poly), pos@, v_color@, texcoord@, normal@,
            *load_options) == Ok::<SiState, LoadError>(curn));
        if !load_options.triangulate && sum_u32(cur0.face_arities) == cur0.vert.indices.len() {
            assert(sum_u32(curn.face_arities) == curn.vert.indices.len());
        }
    }
    Ok(())
}

/// Processes one face: adds its vertices (fanned out when
/// triangulating) and keeps the arity bookkeeping, exactly as
/// [`si_face`] describes.
fn export_one_face(
    mesh: &mut Mesh,
    index_map: &mut ViMap,
    is_all_triangles: &mut bool,
    f: &Face,
    pos: &[u64],
    v_color: &[u64],
    texcoord: &[u64],
    normal: &[u64],
    load_options: &LoadOptions,
) -> (r: Result<(), LoadError>)
    requires
        si_vert_inv(si_cur(*old(mesh), old(index_map)@, *old(is_all_triangles)).vert),
    ensures
        ({
            let cur0 = si_cur(*old(mesh), old(index_map)@, *old(is_all_triangles));
            let cur1 = si_cur(*final(mesh), final(index_map)@, *final(is_all_triangles));
            let opts = *load_options;
            let fv = *f;
            match r {
                Ok(_) => {
                    &&& si_face(cur0, fv, pos@, v_color@, texcoord@, normal@, opts) == Ok::<
                        SiState,
                        LoadError,
                    >(cur1)
                    &&& si_vert_inv(cur1.vert)
                    &&& final(mesh).vertex_color_indices@ == old(mesh).vertex_color_indices@
                    &&& final(mesh).texcoord_indices@ == old(mesh).texcoord_indices@
                    &&& final(mesh).normal_indices@ == old(mesh).normal_indices@
                    &&& final(mesh).material_id == old(mesh).material_id
                    &&& (opts.triangulate ==> cur1.face_arities == cur0.face_arities
                        && cur1.all_triangles == cur0.all_triangles && cur1.vert.indices.len() % 3
                        == cur0.vert.indices.len() % 3)
                    &&& (!opts.triangulate && sum_u32(cur0.face_arities)
                        == cur0.vert.indices.len() ==> sum_u32(cur1.face_arities)
                        == cur1.vert.indices.len())
                    &&& (*f is Triangle ==> cur1.all_triangles == cur0.all_triangles)
                },
                Err(e) => si_face(cur0, fv, pos@, v_color@, texcoord@, normal@, opts) == Err::<
                    SiState,
                    LoadError,
                >(e) && e.is_export_error(),
            }
        }),
{
    match f {
        Face::Point(a) => export_point(
            mesh,
            index_map,
            is_all_triangles,
            a,
            pos,
            v_color,
            texcoord,
            normal,
            load_options,
        ),
        Face::Line(a, b) => export_line(
            mesh,
            index_map,
            is_all_triangles,
            a,
            b,
            pos,
            v_color,
            texcoord,
            normal,
            load_options,
        ),
        Face::Triangle(a, b, c) => export_triangle(
            mesh,
            index_map,
            is_all_triangles,
            a,
            b,
            c,
            pos,
            v_color,
            texcoord,
            normal,
            load_options,
        ),
        Face::Quad(a, b, c, d) => export_quad(
            mesh,
            index_map,
            is_all_triangles,
            a,
            b,
            c,
            d,
            pos,
            v_color,
            texcoord,
            normal,
            load_options,
        ),
        Face::Polygon(poly) => export_polygon(
            mesh,
            index_map,
            is_all_triangles,
            poly,
            pos,
            v_color,
            texcoord,
            normal,
            load_options,
        ),
    }
}

/// Exports a face list as a mesh with one shared index stream,
/// triangulating and dropping degenerate faces as the options direct.
/// The result is exactly what [`export_faces_spec`] describes, including
/// which error ends the export; every produced mesh is well formed, a
/// triangulated export has no arity list and a whole number of
/// triangles, and a non-triangulated export of triangles only also
/// drops its arity list.
#[verifier::rlimit(100)]
pub fn export_faces(
    pos: &[u64],
    v_color: &[u64],
    texcoord: &[u64],
    normal: &[u64],
    faces: &[Face],
    mat_id: Option<usize>,
    load_options: &LoadOptions,
) -> (r: Result<Mesh, LoadError>)
    ensures
        ({
            let spec = export_faces_spec(
                faces@,
                pos@,
                v_color@,
                texcoord@,
                normal@,
                *load_options,
            );
            match r {
                Ok(m) => {
                    &&& spec matches Ok(st) && mesh_matches_si(m, st, mat_id)
                    &&& m.wf()
                    &&& load_options.triangulate ==> m.face_arities@.len() == 0
                        && m.indices@.len() % 3 == 0
                    &&& (!load_options.triangulate && all_faces_triangular(faces@))
                        ==> m.face_arities@.len() == 0
                },
                Err(e) => spec == Err::<SiState, LoadError>(e) && e.is_export_error(),
            }
        }),
{
    let ghost opts = *load_options;
    let tri = load_options.triangulate;
    let mut index_map = ViMap::new();
    let mut mesh = Mesh::default();
    mesh.material_id = mat_id;
    let mut is_all_triangles = true;
    proof {
        assert(index_map@ =~= Map::<VertexIndices, u32>::empty());
        assert(si_cur(mesh, index_map@, is_all_triangles) == si_init());
    }
    let n = faces.len();
    let mut fi: usize = 0;
    while fi < n
        invariant
            0 <= fi <= n,
            n == faces@.len(),
            tri == opts.triangulate,
            opts == *load_options,
            si_vert_inv(si_cur(mesh, index_map@, is_all_triangles).vert),
            si_export_from(si_init(), faces@, 0, pos@, v_color@, texcoord@, normal@, opts)
                == si_export_from(
                si_cur(mesh, index_map@, is_all_triangles),
                faces@,
                fi as int,
                pos@,
                v_color@,
                texcoord@,
                normal@,
                opts,
            ),
            mesh.material_id == mat_id,
            mesh.vertex_color_indices@ == Seq::<u32>::empty(),
            mesh.texcoord_indices@ == Seq::<u32>::empty(),
            mesh.normal_indices@ == Seq::<u32>::empty(),
            tri ==> mesh.face_arities@.len() == 0 && is_all_triangles && mesh.indices@.len() % 3
                == 0,
            !tri ==> sum_u32(mesh.face_arities@) == mesh.indices@.len(),
            (!tri && all_faces_triangular(faces@.take(fi as int))) ==> is_all_triangles,
        decreases n - fi,
    {
        let ghost cur0 = si_cur(mesh, index_map@, is_all_triangles);
        let ghost fspec = faces@[fi as int];
        proof {
            assert(si_export_from(cur0, faces@, fi as int, pos@, v_color@, texcoord@, normal@,
                opts) == match si_face(cur0, fspec, pos@, v_color@, texcoord@, normal@, opts) {
                Ok(s) => si_export_from(s, faces@, fi as int + 1, pos@, v_color@, texcoord@,
                    normal@, opts),
                Err(e) => Err(e),
            });
        }
        let f = &faces[fi];
        match export_one_face(
            &mut mesh,
            &mut index_map,
            &mut is_all_triangles,
            f,
            pos,
            v_color,
            texcoord,
            normal,
            load_options,
        ) {
            Ok(_) => {},
            Err(e) => {
                return Err(e);
            },
        }
        proof {
            let curn = si_cur(mesh, index_map@, is_all_triangles);
            assert(si_face(cur0, fspec, pos@, v_color@, texcoord@, normal@, opts) == Ok::<
                SiState,
                LoadError,
            >(curn));
            if !opts.triangulate && all_faces_triangular(faces@.take(fi + 1)) {
                assert(all_faces_triangular(faces@.take(fi as int))) by {
                    assert(forall|k: int|
                        0 <= k < fi ==> faces@.take(fi + 1)[k] == #[trigger] faces@.take(
                            fi as int,
                        )[k]);
                }
                assert(faces@.take(fi + 1)[fi as int] is Triangle);
            }
        }
        fi = fi + 1;
    }
    proof {
        assert(faces@.take(fi as int) =~= faces@);
    }
    if is_all_triangles {
        mesh.face_arities = Vec::new();
        proof {
            assert(mesh.face_arities@ =~= Seq::<u32>::empty());
        }
    }
    proof {
        assert(mesh.wf());
    }
    Ok(mesh)
}

} // verus!
