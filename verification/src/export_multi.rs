//! The multi-index exporter: builds a separate compact buffer and index
//! stream per attribute channel, deduplicating each independently, and
//! optionally runs the point-merging and reorder passes afterwards.
use crate::err::LoadError;
use crate::maps::IdxMap;
use crate::merge::lemma_merge_from_inv;
use crate::merge::merge_identical_points;
use crate::merge::merge_init;
use crate::merge::merge_inv;
use crate::merge::merge_spec;
use crate::mesh::indices_in_range;
use crate::mesh::lemma_sum_u32_push;
use crate::mesh::sum_u32;
use crate::mesh::Mesh;
use crate::options::LoadOptions;
use crate::reorder::reorder2_ok;
use crate::reorder::reorder2_spec;
use crate::reorder::reorder3_ok;
use crate::reorder::reorder3_spec;
use crate::reorder::reorder_data;
use crate::vertex::Face;
use crate::vertex::VertexIndices;
use crate::vertex::MISSING_INDEX;
use vstd::prelude::*;

verus! {

/// The growing buffers, index streams and dedup maps of the multi-index
/// exporter.
pub ghost struct MiVert {
    pub positions: Seq<u64>,
    pub vertex_color: Seq<u64>,
    pub normals: Seq<u64>,
    pub texcoords: Seq<u64>,
    pub indices: Seq<u32>,
    pub normal_indices: Seq<u32>,
    pub texcoord_indices: Seq<u32>,
    pub imap: Map<usize, u32>,
    pub nmap: Map<usize, u32>,
    pub tmap: Map<usize, u32>,
}

/// Internal soundness of the multi-index state: each dedup map is the
/// authority for its channel's compact element count, and every index
/// stream stays within its channel.
pub open spec fn mi_inv(st: MiVert) -> bool {
    &&& st.imap.dom().finite()
    &&& st.nmap.dom().finite()
    &&& st.tmap.dom().finite()
    &&& st.imap.len() <= 0x1_0000_0000
    &&& st.nmap.len() <= 0x1_0000_0000
    &&& st.tmap.len() <= 0x1_0000_0000
    &&& st.positions.len() == st.imap.len() * 3
    &&& st.normals.len() == st.nmap.len() * 3
    &&& st.texcoords.len() == st.tmap.len() * 2
    &&& st.vertex_color.len() % 3 == 0
    &&& (forall|w: usize| st.imap.contains_key(w) ==> st.imap[w] < st.imap.len())
    &&& (forall|w: usize| st.nmap.contains_key(w) ==> st.nmap[w] < st.nmap.len())
    &&& (forall|w: usize| st.tmap.contains_key(w) ==> st.tmap[w] < st.tmap.len())
    &&& indices_in_range(st.indices, st.imap.len() as int)
    &&& indices_in_range(st.normal_indices, st.nmap.len() as int)
    &&& indices_in_range(st.texcoord_indices, st.tmap.len() as int)
    &&& st.nmap.len() <= st.normal_indices.len()
    &&& st.tmap.len() <= st.texcoord_indices.len()
}

pub open spec fn mi_vert_init() -> MiVert {
    MiVert {
        positions: Seq::empty(),
        vertex_color: Seq::empty(),
        normals: Seq::empty(),
        texcoords: Seq::empty(),
        indices: Seq::empty(),
        normal_indices: Seq::empty(),
        texcoord_indices: Seq::empty(),
        imap: Map::empty(),
        nmap: Map::empty(),
        tmap: Map::empty(),
    }
}

/// The position-and-color step of one vertex: a known position offset
/// re-uses its compact index, a new one is bounds-checked, appended
/// (with its color when colors exist) and assigned the next compact
/// position index.
#[verifier::opaque]
pub open spec fn mi_add_pos(st: MiVert, vert: VertexIndices, pos: Seq<u64>, vcol: Seq<u64>) -> Result<
    MiVert,
    LoadError,
> {
    if st.imap.contains_key(vert.v) {
        Ok(MiVert { indices: st.indices.push(st.imap[vert.v]), ..st })
    } else if vert.v >= pos.len() as int / 3 {
        Err(LoadError::FaceVertexOutOfBounds)
    } else if st.imap.len() > u32::MAX {
        Err(LoadError::GenericFailure)
    } else if vcol.len() > 0 && vcol.len() != 3 && vcol.len() != 4 && vert.v >= vcol.len() as int
        / 3 {
        Err(LoadError::FaceColorOutOfBounds)
    } else {
        Ok(
            (MiVert {
                positions: st.positions + pos.subrange(vert.v * 3, vert.v * 3 + 3),
                indices: st.indices.push(st.imap.len() as u32),
                imap: st.imap.insert(vert.v, st.imap.len() as u32),
                vertex_color: if vcol.len() == 0 {
                    st.vertex_color
                } else if vcol.len() == 3 || vcol.len() == 4 {
                    st.vertex_color + vcol.subrange(0, 3)
                } else {
                    st.vertex_color + vcol.subrange(vert.v * 3, vert.v * 3 + 3)
                },
                ..st
            }),
        )
    }
}

/// The texture-coordinate step of one vertex: a sparse (absent)
/// reference falls back to the first element the first time and to the
/// previously emitted index afterwards; a present reference is
/// deduplicated through the texcoord map.
#[verifier::opaque]
pub open spec fn mi_add_tex(st: MiVert, vert: VertexIndices, tex: Seq<u64>) -> Result<
    MiVert,
    LoadError,
> {
    if tex.len() == 0 {
        Ok(st)
    } else if vert.vt == MISSING_INDEX {
        if st.texcoord_indices.len() == 0 {
            Ok(
                (MiVert {
                    texcoords: st.texcoords + tex.subrange(0, 2),
                    texcoord_indices: st.texcoord_indices.push(0),
                    tmap: st.tmap.insert(0, 0),
                    ..st
                }),
            )
        } else {
            Ok(MiVert { texcoord_indices: st.texcoord_indices.push(st.texcoord_indices.last()), ..st })
        }
    } else if st.tmap.contains_key(vert.vt) {
        Ok(MiVert { texcoord_indices: st.texcoord_indices.push(st.tmap[vert.vt]), ..st })
    } else if vert.vt >= tex.len() as int / 2 {
        Err(LoadError::FaceTexCoordOutOfBounds)
    } else if st.tmap.len() > u32::MAX {
        Err(LoadError::GenericFailure)
    } else {
        Ok(
            (MiVert {
                texcoords: st.texcoords + tex.subrange(vert.vt * 2, vert.vt * 2 + 2),
                texcoord_indices: st.texcoord_indices.push(st.tmap.len() as u32),
                tmap: st.tmap.insert(vert.vt, st.tmap.len() as u32),
                ..st
            }),
        )
    }
}

/// The normal step of one vertex, with the same sparse fallback as the
/// texture-coordinate step.
#[verifier::opaque]
pub open spec fn mi_add_norm(st: MiVert, vert: VertexIndices, norm: Seq<u64>) -> Result<
    MiVert,
    LoadError,
> {
    if norm.len() == 0 {
        Ok(st)
    } else if vert.vn == MISSING_INDEX {
        if st.normal_indices.len() == 0 {
            Ok(
                (MiVert {
                    normals: st.normals + norm.subrange(0, 3),
                    normal_indices: st.normal_indices.push(0),
                    nmap: st.nmap.insert(0, 0),
                    ..st
                }),
            )
        } else {
            Ok(MiVert { normal_indices: st.normal_indices.push(st.normal_indices.last()), ..st })
        }
    } else if st.nmap.contains_key(vert.vn) {
        Ok(MiVert { normal_indices: st.normal_indices.push(st.nmap[vert.vn]), ..st })
    } else if vert.vn >= norm.len() as int / 3 {
        Err(LoadError::FaceNormalOutOfBounds)
    } else if st.nmap.len() > u32::MAX {
        Err(LoadError::GenericFailure)
    } else {
        Ok(
            (MiVert {
                normals: st.normals + norm.subrange(vert.vn * 3, vert.vn * 3 + 3),
                normal_indices: st.normal_indices.push(st.nmap.len() as u32),
                nmap: st.nmap.insert(vert.vn, st.nmap.len() as u32),
                ..st
            }),
        )
    }
}

/// Colors are kept exactly per compact vertex: the color buffer is
/// empty when the raw colors are, and tracks the position buffer
/// otherwise.
pub open spec fn mi_color_ok(st: MiVert, vcol: Seq<u64>) -> bool {
    st.vertex_color.len() == if vcol.len() > 0 {
        st.positions.len()
    } else {
        0
    }
}

/// One vertex added to the multi-index state: position and color, then
/// texture coordinate, then normal.
pub open spec fn mi_add_vertex(
    st: MiVert,
    vert: VertexIndices,
    pos: Seq<u64>,
    vcol: Seq<u64>,
    tex: Seq<u64>,
    norm: Seq<u64>,
) -> Result<MiVert, LoadError> {
    match mi_add_pos(st, vert, pos, vcol) {
        Ok(s1) => match mi_add_tex(s1, vert, tex) {
            Ok(s2) => mi_add_norm(s2, vert, norm),
            Err(e) => Err(e),
        },
        Err(e) => Err(e),
    }
}

/// Two vertices added in order.
pub open spec fn mi_add2(
    st: MiVert,
    a: VertexIndices,
    b: VertexIndices,
    pos: Seq<u64>,
    vcol: Seq<u64>,
    tex: Seq<u64>,
    norm: Seq<u64>,
) -> Result<MiVert, LoadError> {
    match mi_add_vertex(st, a, pos, vcol, tex, norm) {
        Ok(s) => mi_add_vertex(s, b, pos, vcol, tex, norm),
        Err(e) => Err(e),
    }
}

/// Three vertices added in order.
pub open spec fn mi_add3(
    st: MiVert,
    a: VertexIndices,
    b: VertexIndices,
    c: VertexIndices,
    pos: Seq<u64>,
    vcol: Seq<u64>,
    tex: Seq<u64>,
    norm: Seq<u64>,
) -> Result<MiVert, LoadError> {
    match mi_add2(st, a, b, pos, vcol, tex, norm) {
        Ok(s) => mi_add_vertex(s, c, pos, vcol, tex, norm),
        Err(e) => Err(e),
    }
}

/// The references from position `i` on, added in order.
pub open spec fn mi_add_from(
    st: MiVert,
    refs: Seq<VertexIndices>,
    i: int,
    pos: Seq<u64>,
    vcol: Seq<u64>,
    tex: Seq<u64>,
    norm: Seq<u64>,
) -> Result<MiVert, LoadError>
    decreases refs.len() - i,
{
    if i < 0 || i >= refs.len() {
        Ok(st)
    } else {
        match mi_add_vertex(st, refs[i], pos, vcol, tex, norm) {
            Ok(s) => mi_add_from(s, refs, i + 1, pos, vcol, tex, norm),
            Err(e) => Err(e),
        }
    }
}

/// The triangle fan over `refs` from corner `i` on.
pub open spec fn mi_fan_from(
    st: MiVert,
    refs: Seq<VertexIndices>,
    i: int,
    pos: Seq<u64>,
    vcol: Seq<u64>,
    tex: Seq<u64>,
    norm: Seq<u64>,
) -> Result<MiVert, LoadError>
    decreases refs.len() - i,
{
    if i < 2 || i >= refs.len() {
        Ok(st)
    } else {
        match mi_add3(st, refs[0], refs[i - 1], refs[i], pos, vcol, tex, norm) {
            Ok(s) => mi_fan_from(s, refs, i + 1, pos, vcol, tex, norm),
            Err(e) => Err(e),
        }
    }
}

/// The whole multi-index exporter state.
pub ghost struct MiState {
    pub vert: MiVert,
    pub face_arities: Seq<u32>,
    pub all_triangles: bool,
}

pub open spec fn mi_init() -> MiState {
    MiState { vert: mi_vert_init(), face_arities: Seq::empty(), all_triangles: true }
}

/// One face processed under the given options, with the same
/// triangulation, degenerate-face and arity policy as the single-index
/// exporter.
pub open spec fn mi_face(
    st: MiState,
    f: Face,
    pos: Seq<u64>,
    vcol: Seq<u64>,
    tex: Seq<u64>,
    norm: Seq<u64>,
    opts: LoadOptions,
) -> Result<MiState, LoadError> {
    match f {
        Face::Point(a) => {
            if opts.ignore_points {
                Ok(st)
            } else if opts.triangulate {
                match mi_add3(st.vert, a, a, a, pos, vcol, tex, norm) {
                    Ok(s) => Ok(MiState { vert: s, ..st }),
                    Err(e) => Err(e),
                }
            } else {
                match mi_add_vertex(st.vert, a, pos, vcol, tex, norm) {
                    Ok(s) => Ok(
                        (MiState {
                            vert: s,
                            face_arities: st.face_arities.push(1),
                            all_triangles: false,
                        }),
                    ),
                    Err(e) => Err(e),
                }
            }
        },
        Face::Line(a, b) => {
            if opts.ignore_lines {
                Ok(st)
            } else if opts.triangulate {
                match mi_add3(st.vert, a, b, b, pos, vcol, tex, norm) {
                    Ok(s) => Ok(MiState { vert: s, ..st }),
                    Err(e) => Err(e),
                }
            } else {
                match mi_add2(st.vert, a, b, pos, vcol, tex, norm) {
                    Ok(s) => Ok(
                        (MiState {
                            vert: s,
                            face_arities: st.face_arities.push(2),
                            all_triangles: false,
                        }),
                    ),
                    Err(e) => Err(e),
                }
            }
        },
        Face::Triangle(a, b, c) => {
            match mi_add3(st.vert, a, b, c, pos, vcol, tex, norm) {
                Ok(s) => if opts.triangulate {
                    Ok(MiState { vert: s, ..st })
                } else {
                    Ok(MiState { vert: s, face_arities: st.face_arities.push(3), ..st })
                },
                Err(e) => Err(e),
            }
        },
        Face::Quad(a, b, c, d) => {
            match mi_add3(st.vert, a, b, c, pos, vcol, tex, norm) {
                Ok(s1) => if opts.triangulate {
                    match mi_add3(s1, a, c, d, pos, vcol, tex, norm) {
                        Ok(s2) => Ok(MiState { vert: s2, ..st }),
                        Err(e) => Err(e),
                    }
                } else {
                    match mi_add_vertex(s1, d, pos, vcol, tex, norm) {
                        Ok(s2) => Ok(
                            (MiState {
                                vert: s2,
                                face_arities: st.face_arities.push(4),
                                all_triangles: false,
                            }),
                        ),
                        Err(e) => Err(e),
                    }
                },
                Err(e) => Err(e),
            }
        },
        Face::Polygon(v) => {
            if opts.triangulate {
                if v@.len() < 2 {
                    Err(LoadError::InvalidPolygon)
                } else {
                    match mi_fan_from(st.vert, v@, 2, pos, vcol, tex, norm) {
                        Ok(s) => Ok(MiState { vert: s, ..st }),
                        Err(e) => Err(e),
                    }
                }
            } else {
                match mi_add_from(st.vert, v@, 0, pos, vcol, tex, norm) {
                    Ok(s) => if v@.len() > u32::MAX {
                        Err(LoadError::GenericFailure)
                    } else {
                        Ok(
                            (MiState {
                                vert: s,
                                face_arities: st.face_arities.push(v@.len() as u32),
                                all_triangles: false,
                            }),
                        )
                    },
                    Err(e) => Err(e),
                }
            }
        },
    }
}

/// The faces from position `i` on, processed in order.
pub open spec fn mi_export_from(
    st: MiState,
    faces: Seq<Face>,
    i: int,
    pos: Seq<u64>,
    vcol: Seq<u64>,
    tex: Seq<u64>,
    norm: Seq<u64>,
    opts: LoadOptions,
) -> Result<MiState, LoadError>
    decreases faces.len() - i,
{
    if i < 0 || i >= faces.len() {
        Ok(st)
    } else {
        match mi_face(st, faces[i], pos, vcol, tex, norm, opts) {
            Ok(s) => mi_export_from(s, faces, i + 1, pos, vcol, tex, norm, opts),
            Err(e) => Err(e),
        }
    }
}

/// The final arity bookkeeping: a pure-triangle mesh drops its arities.
pub open spec fn mi_finish(st: MiState) -> MiState {
    if st.all_triangles {
        MiState { face_arities: Seq::empty(), ..st }
    } else {
        st
    }
}

/// [`mi_add_vertex`] preserves the invariant and emits exactly one
/// shared index.
pub proof fn lemma_mi_add_vertex(
    st: MiVert,
    vert: VertexIndices,
    pos: Seq<u64>,
    vcol: Seq<u64>,
    tex: Seq<u64>,
    norm: Seq<u64>,
)
    requires
        mi_inv(st),
        tex.len() as int % 2 == 0,
        norm.len() as int % 3 == 0,
    ensures
        mi_add_vertex(st, vert, pos, vcol, tex, norm) matches Ok(s) ==> mi_inv(s)
            && s.indices.len() == st.indices.len() + 1 && (mi_color_ok(st, vcol)
            ==> mi_color_ok(s, vcol)),
        mi_add_vertex(st, vert, pos, vcol, tex, norm) matches Err(e) ==> e.is_export_error(),
{
    reveal(crate::export_multi::mi_add_pos);
    reveal(crate::export_multi::mi_add_tex);
    reveal(crate::export_multi::mi_add_norm);
    match mi_add_pos(st, vert, pos, vcol) {
        Ok(s1) => {
            if !st.imap.contains_key(vert.v) {
                vstd::set::axiom_set_insert_len(st.imap.dom(), vert.v);
                assert(s1.imap.dom() =~= st.imap.dom().insert(vert.v));
            }
            assert(mi_inv(s1));
            match mi_add_tex(s1, vert, tex) {
                Ok(s2) => {
                    if tex.len() > 0 && vert.vt == MISSING_INDEX
                        && s1.texcoord_indices.len() == 0 {
                        if s1.tmap.dom().contains(0) {
                            vstd::set::axiom_set_contains_len(s1.tmap.dom(), 0);
                            assert(false);
                        }
                        vstd::set::axiom_set_insert_len(s1.tmap.dom(), 0);
                        assert(s2.tmap.dom() =~= s1.tmap.dom().insert(0));
                    } else if tex.len() > 0 && vert.vt != MISSING_INDEX
                        && !s1.tmap.contains_key(vert.vt) && vert.vt < tex.len() as int / 2
                        && s1.tmap.len() <= u32::MAX {
                        vstd::set::axiom_set_insert_len(s1.tmap.dom(), vert.vt);
                        assert(s2.tmap.dom() =~= s1.tmap.dom().insert(vert.vt));
                    }
                    assert(mi_inv(s2));
                    match mi_add_norm(s2, vert, norm) {
                        Ok(s3) => {
                            if norm.len() > 0 && vert.vn == MISSING_INDEX
                                && s2.normal_indices.len() == 0 {
                                if s2.nmap.dom().contains(0) {
                                    vstd::set::axiom_set_contains_len(s2.nmap.dom(), 0);
                                    assert(false);
                                }
                                vstd::set::axiom_set_insert_len(s2.nmap.dom(), 0);
                                assert(s3.nmap.dom() =~= s2.nmap.dom().insert(0));
                            } else if norm.len() > 0 && vert.vn != MISSING_INDEX
                                && !s2.nmap.contains_key(vert.vn)
                                && vert.vn < norm.len() as int / 3 && s2.nmap.len() <= u32::MAX {
                                vstd::set::axiom_set_insert_len(s2.nmap.dom(), vert.vn);
                                assert(s3.nmap.dom() =~= s2.nmap.dom().insert(vert.vn));
                            }
                            assert(mi_inv(s3));
                        },
                        Err(_) => {},
                    }
                },
                Err(_) => {},
            }
        },
        Err(_) => {},
    }
}

/// The state assembled from the growing mesh, the three dedup maps and
/// the pure-triangle flag.
pub open spec fn mi_cur(
    mesh: Mesh,
    imap: Map<usize, u32>,
    nmap: Map<usize, u32>,
    tmap: Map<usize, u32>,
    flag: bool,
) -> MiState {
    MiState {
        vert: MiVert {
            positions: mesh.positions@,
            vertex_color: mesh.vertex_color@,
            normals: mesh.normals@,
            texcoords: mesh.texcoords@,
            indices: mesh.indices@,
            normal_indices: mesh.normal_indices@,
            texcoord_indices: mesh.texcoord_indices@,
            imap: imap,
            nmap: nmap,
            tmap: tmap,
        },
        face_arities: mesh.face_arities@,
        all_triangles: flag,
    }
}

/// The vertex-level state assembled from the mesh and maps.
pub open spec fn mi_cur_v(
    mesh: Mesh,
    imap: Map<usize, u32>,
    nmap: Map<usize, u32>,
    tmap: Map<usize, u32>,
) -> MiVert {
    mi_cur(mesh, imap, nmap, tmap, true).vert
}

/// Adds one vertex with per-attribute indexing: the position (with its
/// color), the texture coordinate and the normal each go through their
/// own dedup map; sparse texture or normal references fall back to the
/// first element or the previously emitted index.
#[verifier::rlimit(100)]
fn add_vertex_multi_index(
    mesh: &mut Mesh,
    index_map: &mut IdxMap,
    normal_index_map: &mut IdxMap,
    texcoord_index_map: &mut IdxMap,
    vert: &VertexIndices,
    pos: &[u64],
    v_color: &[u64],
    texcoord: &[u64],
    normal: &[u64],
) -> (r: Result<(), LoadError>)
    requires
        mi_inv(mi_cur_v(*old(mesh), old(index_map)@, old(normal_index_map)@, old(texcoord_index_map)@)),
        texcoord@.len() as int % 2 == 0,
        normal@.len() as int % 3 == 0,
    ensures
        ({
            let pre = mi_cur_v(*old(mesh), old(index_map)@, old(normal_index_map)@, old(texcoord_index_map)@);
            match r {
                Ok(_) => {
                    let post = mi_cur_v(*final(mesh), final(index_map)@, final(normal_index_map)@, final(texcoord_index_map)@);
                    &&& mi_add_vertex(pre, *vert, pos@, v_color@, texcoord@, normal@) == Ok::<
                        MiVert,
                        LoadError,
                    >(post)
                    &&& final(mesh).face_arities@ == old(mesh).face_arities@
                    &&& final(mesh).vertex_color_indices@ == old(mesh).vertex_color_indices@
                    &&& final(mesh).material_id == old(mesh).material_id
                },
                Err(e) => mi_add_vertex(pre, *vert, pos@, v_color@, texcoord@, normal@) == Err::<
                    MiVert,
                    LoadError,
                >(e),
            }
        }),
{
    proof {
        reveal(crate::export_multi::mi_add_pos);
        reveal(crate::export_multi::mi_add_tex);
        reveal(crate::export_multi::mi_add_norm);
    }
    let ghost pre = mi_cur_v(*mesh, index_map@, normal_index_map@, texcoord_index_map@);
    match index_map.get(vert.v) {
        Some(i) => {
            mesh.indices.push(i);
        },
        None => {
            let vertex = vert.v;
            if vertex >= pos.len() / 3 {
                return Err(LoadError::FaceVertexOutOfBounds);
            }
            proof {
                assert(vertex * 3 + 2 < pos@.len());
            }
            let next_usize = index_map.len();
            if next_usize > (u32::MAX as usize) {
                return Err(LoadError::GenericFailure);
            }
            if v_color.len() > 0 && v_color.len() != 3 && v_color.len() != 4 && vertex
                >= v_color.len() / 3 {
                return Err(LoadError::FaceColorOutOfBounds);
            }
            mesh.positions.push(pos[vertex * 3]);
            mesh.positions.push(pos[vertex * 3 + 1]);
            mesh.positions.push(pos[vertex * 3 + 2]);
            proof {
                assert(mesh.positions@ =~= pre.positions + pos@.subrange(
                    vertex * 3,
                    vertex * 3 + 3,
                ));
            }
            let next = next_usize as u32;
            mesh.indices.push(next);
            index_map.insert(vertex, next);
            if v_color.len() > 0 {
                if v_color.len() == 3 || v_color.len() == 4 {
                    mesh.vertex_color.push(v_color[0]);
                    mesh.vertex_color.push(v_color[1]);
                    mesh.vertex_color.push(v_color[2]);
                    proof {
                        assert(mesh.vertex_color@ =~= pre.vertex_color + v_color@.subrange(0, 3));
                    }
                } else {
                    proof {
                        assert(vertex * 3 + 2 < v_color@.len());
                    }
                    mesh.vertex_color.push(v_color[vertex * 3]);
                    mesh.vertex_color.push(v_color[vertex * 3 + 1]);
                    mesh.vertex_color.push(v_color[vertex * 3 + 2]);
                    proof {
                        assert(mesh.vertex_color@ =~= pre.vertex_color + v_color@.subrange(
                            vertex * 3,
                            vertex * 3 + 3,
                        ));
                    }
                }
            }
        },
    }
    let ghost s1 = mi_cur_v(*mesh, index_map@, normal_index_map@, texcoord_index_map@);
    proof {
        assert(mi_add_pos(pre, *vert, pos@, v_color@) == Ok::<MiVert, LoadError>(s1));
    }
    if texcoord.len() > 0 {
        if vert.vt == MISSING_INDEX {
            if mesh.texcoord_indices.len() == 0 {
                mesh.texcoords.push(texcoord[0]);
                mesh.texcoords.push(texcoord[1]);
                mesh.texcoord_indices.push(0);
                texcoord_index_map.insert(0, 0);
                proof {
                    assert(mesh.texcoords@ =~= s1.texcoords + texcoord@.subrange(0, 2));
                }
            } else {
                let last = mesh.texcoord_indices[mesh.texcoord_indices.len() - 1];
                mesh.texcoord_indices.push(last);
            }
        } else {
            match texcoord_index_map.get(vert.vt) {
                Some(index) => {
                    mesh.texcoord_indices.push(index);
                },
                None => {
                    let vt = vert.vt;
                    if vt >= texcoord.len() / 2 {
                        return Err(LoadError::FaceTexCoordOutOfBounds);
                    }
                    let next_usize = texcoord_index_map.len();
                    if next_usize > (u32::MAX as usize) {
                        return Err(LoadError::GenericFailure);
                    }
                    proof {
                        assert(vt * 2 + 1 < texcoord@.len());
                    }
                    mesh.texcoords.push(texcoord[vt * 2]);
                    mesh.texcoords.push(texcoord[vt * 2 + 1]);
                    let next = next_usize as u32;
                    mesh.texcoord_indices.push(next);
                    texcoord_index_map.insert(vt, next);
                    proof {
                        assert(mesh.texcoords@ =~= s1.texcoords + texcoord@.subrange(
                            vt * 2,
                            vt * 2 + 2,
                        ));
                    }
                },
            }
        }
    }
    let ghost s2 = mi_cur_v(*mesh, index_map@, normal_index_map@, texcoord_index_map@);
    proof {
        assert(mi_add_tex(s1, *vert, texcoord@) == Ok::<MiVert, LoadError>(s2));
    }
    if normal.len() > 0 {
        if vert.vn == MISSING_INDEX {
            if mesh.normal_indices.len() == 0 {
                mesh.normals.push(normal[0]);
                mesh.normals.push(normal[1]);
                mesh.normals.push(normal[2]);
                mesh.normal_indices.push(0);
                normal_index_map.insert(0, 0);
                proof {
                    assert(mesh.normals@ =~= s2.normals + normal@.subrange(0, 3));
                }
            } else {
                let last = mesh.normal_indices[mesh.normal_indices.len() - 1];
                mesh.normal_indices.push(last);
            }
        } else {
            match normal_index_map.get(vert.vn) {
                Some(index) => {
                    mesh.normal_indices.push(index);
                },
                None => {
                    let vn = vert.vn;
                    if vn >= normal.len() / 3 {
                        return Err(LoadError::FaceNormalOutOfBounds);
                    }
                    let next_usize = normal_index_map.len();
                    if next_usize > (u32::MAX as usize) {
                        return Err(LoadError::GenericFailure);
                    }
                    proof {
                        assert(vn * 3 + 2 < normal@.len());
                    }
                    mesh.normals.push(normal[vn * 3]);
                    mesh.normals.push(normal[vn * 3 + 1]);
                    mesh.normals.push(normal[vn * 3 + 2]);
                    let next = next_usize as u32;
                    mesh.normal_indices.push(next);
                    normal_index_map.insert(vn, next);
                    proof {
                        assert(mesh.normals@ =~= s2.normals + normal@.subrange(
                            vn * 3,
                            vn * 3 + 3,
                        ));
                    }
                },
            }
        }
    }
    let ghost s3 = mi_cur_v(*mesh, index_map@, normal_index_map@, texcoord_index_map@);
    proof {
        assert(mi_add_norm(s2, *vert, normal@) == Ok::<MiVert, LoadError>(s3));
    }
    Ok(())
}

/// Adds the triangle fan over a polygon's corners with per-attribute
/// indexing.
fn mi_add_fan(
    mesh: &mut Mesh,
    index_map: &mut IdxMap,
    normal_index_map: &mut IdxMap,
    texcoord_index_map: &mut IdxMap,
    poly: &Vec<VertexIndices>,
    pos: &[u64],
    v_color: &[u64],
    texcoord: &[u64],
    normal: &[u64],
) -> (r: Result<(), LoadError>)
    requires
        poly@.len() >= 2,
        mi_inv(mi_cur_v(*old(mesh), old(index_map)@, old(normal_index_map)@, old(texcoord_index_map)@)),
        texcoord@.len() as int % 2 == 0,
        normal@.len() as int % 3 == 0,
    ensures
        ({
            let pre = mi_cur_v(*old(mesh), old(index_map)@, old(normal_index_map)@, old(texcoord_index_map)@);
            match r {
                Ok(_) => {
                    let post = mi_cur_v(*final(mesh), final(index_map)@, final(normal_index_map)@, final(texcoord_index_map)@);
                    &&& mi_fan_from(pre, poly@, 2, pos@, v_color@, texcoord@, normal@) == Ok::<
                        MiVert,
                        LoadError,
                    >(post)
                    &&& mi_inv(post)
                    &&& final(mesh).face_arities@ == old(mesh).face_arities@
                    &&& final(mesh).vertex_color_indices@ == old(mesh).vertex_color_indices@
                    &&& final(mesh).material_id == old(mesh).material_id
                    &&& post.indices.len() == pre.indices.len() + 3 * (poly@.len() - 2)
                    &&& (mi_color_ok(pre, v_color@) ==> mi_color_ok(post, v_color@))
                },
                Err(e) => mi_fan_from(pre, poly@, 2, pos@, v_color@, texcoord@, normal@) == Err::<
                    MiVert,
                    LoadError,
                >(e) && e.is_export_error(),
            }
        }),
{
    let ghost pre = mi_cur_v(*mesh, index_map@, normal_index_map@, texcoord_index_map@);
    let a = poly[0];
    let mut j: usize = 2;
    while j < poly.len()
        invariant
            2 <= j <= poly@.len(),
            poly@.len() >= 2,
            a == poly@[0],
            texcoord@.len() as int % 2 == 0,
            normal@.len() as int % 3 == 0,
            mi_inv(mi_cur_v(*mesh, index_map@, normal_index_map@, texcoord_index_map@)),
            pre == mi_cur_v(*old(mesh), old(index_map)@, old(normal_index_map)@, old(texcoord_index_map)@),
            mi_inv(pre),
            mi_fan_from(pre, poly@, 2, pos@, v_color@, texcoord@, normal@) == mi_fan_from(
                mi_cur_v(*mesh, index_map@, normal_index_map@, texcoord_index_map@),
                poly@,
                j as int,
                pos@,
                v_color@,
                texcoord@,
                normal@,
            ),
            mesh.face_arities@ == old(mesh).face_arities@,
            mesh.vertex_color_indices@ == old(mesh).vertex_color_indices@,
            mesh.material_id == old(mesh).material_id,
            mi_cur_v(*mesh, index_map@, normal_index_map@, texcoord_index_map@).indices.len()
                == pre.indices.len() + 3 * (j - 2),
            mi_color_ok(pre, v_color@) ==> mi_color_ok(
                mi_cur_v(*mesh, index_map@, normal_index_map@, texcoord_index_map@),
                v_color@,
            ),
        decreases poly@.len() - j,
    {
        let prev = poly[j - 1];
        let cc = poly[j];
        let ghost w0 = mi_cur_v(*mesh, index_map@, normal_index_map@, texcoord_index_map@);
        proof {
            lemma_mi_add_vertex(w0, a, pos@, v_color@, texcoord@, normal@);
        }
        match add_vertex_multi_index(
            mesh,
            index_map,
            normal_index_map,
            texcoord_index_map,
            &a,
            pos,
            v_color,
            texcoord,
            normal,
        ) {
            Ok(_) => {},
            Err(e) => {
                proof {
                    assert(mi_fan_from(pre, poly@, 2, pos@, v_color@, texcoord@, normal@)
                        == Err::<MiVert, LoadError>(e));
                }
                return Err(e);
            },
        }
        let ghost w1 = mi_cur_v(*mesh, index_map@, normal_index_map@, texcoord_index_map@);
        proof {
            lemma_mi_add_vertex(w1, prev, pos@, v_color@, texcoord@, normal@);
        }
        match add_vertex_multi_index(
            mesh,
            index_map,
            normal_index_map,
            texcoord_index_map,
            &prev,
            pos,
            v_color,
            texcoord,
            normal,
        ) {
            Ok(_) => {},
            Err(e) => {
                proof {
                    assert(mi_fan_from(pre, poly@, 2, pos@, v_color@, texcoord@, normal@)
                        == Err::<MiVert, LoadError>(e));
                }
                return Err(e);
            },
        }
        let ghost w2 = mi_cur_v(*mesh, index_map@, normal_index_map@, texcoord_index_map@);
        proof {
            lemma_mi_add_vertex(w2, cc, pos@, v_color@, texcoord@, normal@);
        }
        match add_vertex_multi_index(
            mesh,
            index_map,
            normal_index_map,
            texcoord_index_map,
            &cc,
            pos,
            v_color,
            texcoord,
            normal,
        ) {
            Ok(_) => {},
            Err(e) => {
                proof {
                    assert(mi_fan_from(pre, poly@, 2, pos@, v_color@, texcoord@, normal@)
                        == Err::<MiVert, LoadError>(e));
                }
                return Err(e);
            },
        }
        j = j + 1;
    }
    proof {
        let cv = mi_cur_v(*mesh, index_map@, normal_index_map@, texcoord_index_map@);
        assert(mi_fan_from(cv, poly@, j as int, pos@, v_color@, texcoord@, normal@) == Ok::<
            MiVert,
            LoadError,
        >(cv));
    }
    Ok(())
}

/// Adds every corner of a polygon in order with per-attribute indexing.
fn mi_add_poly_all(
    mesh: &mut Mesh,
    index_map: &mut IdxMap,
    normal_index_map: &mut IdxMap,
    texcoord_index_map: &mut IdxMap,
    poly: &Vec<VertexIndices>,
    pos: &[u64],
    v_color: &[u64],
    texcoord: &[u64],
    normal: &[u64],
) -> (r: Result<(), LoadError>)
    requires
        mi_inv(mi_cur_v(*old(mesh), old(index_map)@, old(normal_index_map)@, old(texcoord_index_map)@)),
        texcoord@.len() as int % 2 == 0,
        normal@.len() as int % 3 == 0,
    ensures
        ({
            let pre = mi_cur_v(*old(mesh), old(index_map)@, old(normal_index_map)@, old(texcoord_index_map)@);
            match r {
                Ok(_) => {
                    let post = mi_cur_v(*final(mesh), final(index_map)@, final(normal_index_map)@, final(texcoord_index_map)@);
                    &&& mi_add_from(pre, poly@, 0, pos@, v_color@, texcoord@, normal@) == Ok::<
                        MiVert,
                        LoadError,
                    >(post)
                    &&& mi_inv(post)
                    &&& final(mesh).face_arities@ == old(mesh).face_arities@
                    &&& final(mesh).vertex_color_indices@ == old(mesh).vertex_color_indices@
                    &&& final(mesh).material_id == old(mesh).material_id
                    &&& post.indices.len() == pre.indices.len() + poly@.len()
                    &&& (mi_color_ok(pre, v_color@) ==> mi_color_ok(post, v_color@))
                },
                Err(e) => mi_add_from(pre, poly@, 0, pos@, v_color@, texcoord@, normal@) == Err::<
                    MiVert,
                    LoadError,
                >(e) && e.is_export_error(),
            }
        }),
{
    let ghost pre = mi_cur_v(*mesh, index_map@, normal_index_map@, texcoord_index_map@);
    let mut j: usize = 0;
    while j < poly.len()
        invariant
            0 <= j <= poly@.len(),
            texcoord@.len() as int % 2 == 0,
            normal@.len() as int % 3 == 0,
            mi_inv(mi_cur_v(*mesh, index_map@, normal_index_map@, texcoord_index_map@)),
            pre == mi_cur_v(*old(mesh), old(index_map)@, old(normal_index_map)@, old(texcoord_index_map)@),
            mi_inv(pre),
            mi_add_from(pre, poly@, 0, pos@, v_color@, texcoord@, normal@) == mi_add_from(
                mi_cur_v(*mesh, index_map@, normal_index_map@, texcoord_index_map@),
                poly@,
                j as int,
                pos@,
                v_color@,
                texcoord@,
                normal@,
            ),
            mesh.face_arities@ == old(mesh).face_arities@,
            mesh.vertex_color_indices@ == old(mesh).vertex_color_indices@,
            mesh.material_id == old(mesh).material_id,
            mi_cur_v(*mesh, index_map@, normal_index_map@, texcoord_index_map@).indices.len()
                == pre.indices.len() + j,
            mi_color_ok(pre, v_color@) ==> mi_color_ok(
                mi_cur_v(*mesh, index_map@, normal_index_map@, texcoord_index_map@),
                v_color@,
            ),
        decreases poly@.len() - j,
    {
        let cc = poly[j];
        let ghost w0 = mi_cur_v(*mesh, index_map@, normal_index_map@, texcoord_index_map@);
        proof {
            lemma_mi_add_vertex(w0, cc, pos@, v_color@, texcoord@, normal@);
        }
        match add_vertex_multi_index(
            mesh,
            index_map,
            normal_index_map,
            texcoord_index_map,
            &cc,
            pos,
            v_color,
            texcoord,
            normal,
        ) {
            Ok(_) => {},
            Err(e) => {
                proof {
                    assert(mi_add_from(pre, poly@, 0, pos@, v_color@, texcoord@, normal@)
                        == Err::<MiVert, LoadError>(e));
                }
                return Err(e);
            },
        }
        j = j + 1;
    }
    proof {
        let cv = mi_cur_v(*mesh, index_map@, normal_index_map@, texcoord_index_map@);
        assert(mi_add_from(cv, poly@, j as int, pos@, v_color@, texcoord@, normal@) == Ok::<
            MiVert,
            LoadError,
        >(cv));
    }
    Ok(())
}

/// Processes a point face as [`mi_face`] describes for it.
#[verifier::rlimit(100)]
fn mi_point(
    mesh: &mut Mesh,
    index_map: &mut IdxMap,
    normal_index_map: &mut IdxMap,
    texcoord_index_map: &mut IdxMap,
    is_all_triangles: &mut bool,
    a: &VertexIndices,
    pos: &[u64],
    v_color: &[u64],
    texcoord: &[u64],
    normal: &[u64],
    load_options: &LoadOptions,
) -> (r: Result<(), LoadError>)
    requires
        mi_inv(mi_cur(*old(mesh), old(index_map)@, old(normal_index_map)@, old(texcoord_index_map)@, *old(is_all_triangles)).vert),
        texcoord@.len() as int % 2 == 0,
        normal@.len() as int % 3 == 0,
    ensures
        ({
            let cur0 = mi_cur(*old(mesh), old(index_map)@, old(normal_index_map)@, old(texcoord_index_map)@, *old(is_all_triangles));
            let cur1 = mi_cur(*final(mesh), final(index_map)@, final(normal_index_map)@, final(texcoord_index_map)@, *final(is_all_triangles));
            let opts = *load_options;
            let fv = Face::Point(*a);
            match r {
                Ok(_) => {
                    &&& mi_face(cur0, fv, pos@, v_color@, texcoord@, normal@, opts) == Ok::<
                        MiState,
                        LoadError,
                    >(cur1)
                    &&& mi_inv(cur1.vert)
                    &&& final(mesh).vertex_color_indices@ == old(mesh).vertex_color_indices@
                    &&& final(mesh).material_id == old(mesh).material_id
                    &&& (opts.triangulate ==> cur1.face_arities == cur0.face_arities
                        && cur1.all_triangles == cur0.all_triangles && cur1.vert.indices.len() % 3
                        == cur0.vert.indices.len() % 3)
                    &&& (!opts.triangulate && sum_u32(cur0.face_arities)
                        == cur0.vert.indices.len() ==> sum_u32(cur1.face_arities)
                        == cur1.vert.indices.len())
                    &&& (mi_color_ok(cur0.vert, v_color@) ==> mi_color_ok(cur1.vert, v_color@))
                },
                Err(e) => mi_face(cur0, fv, pos@, v_color@, texcoord@, normal@, opts) == Err::<
                    MiState,
                    LoadError,
                >(e) && e.is_export_error(),
            }
        }),
{
    let ghost cur0 = mi_cur(*mesh, index_map@, normal_index_map@, texcoord_index_map@, *is_all_triangles);
    let opts_x = *load_options;
    let tri = load_options.triangulate;
    if !opts_x.ignore_points {
            let ghost v0 = mi_cur_v(*mesh, index_map@, normal_index_map@, texcoord_index_map@);
            proof {
                lemma_mi_add_vertex(v0, *a, pos@, v_color@, texcoord@, normal@);
            }
            match add_vertex_multi_index(
                mesh,
                index_map,
                normal_index_map,
                texcoord_index_map,
                a,
                pos,
                v_color,
                texcoord,
                normal,
            ) {
                Ok(_) => {},
                Err(e) => {
                    return Err(e);
                },
            }
        if tri {
                let ghost v1 = mi_cur_v(*mesh, index_map@, normal_index_map@, texcoord_index_map@);
                proof {
                    lemma_mi_add_vertex(v1, *a, pos@, v_color@, texcoord@, normal@);
                }
                match add_vertex_multi_index(
                    mesh,
                    index_map,
                    normal_index_map,
                    texcoord_index_map,
                    a,
                    pos,
                    v_color,
                    texcoord,
                    normal,
                ) {
                    Ok(_) => {},
                    Err(e) => {
                        return Err(e);
                    },
                }
                let ghost v2 = mi_cur_v(*mesh, index_map@, normal_index_map@, texcoord_index_map@);
                proof {
                    lemma_mi_add_vertex(v2, *a, pos@, v_color@, texcoord@, normal@);
                }
                match add_vertex_multi_index(
                    mesh,
                    index_map,
                    normal_index_map,
                    texcoord_index_map,
                    a,
                    pos,
                    v_color,
                    texcoord,
                    normal,
                ) {
                    Ok(_) => {},
                    Err(e) => {
                        return Err(e);
                    },
                }
        } else {
            *is_all_triangles = false;
            mesh.face_arities.push(1);
            proof {
                lemma_sum_u32_push(cur0.face_arities, 1);
            }
        }
    }
    proof {
        let curn = mi_cur(*mesh, index_map@, normal_index_map@, texcoord_index_map@, *is_all_triangles);
        assert(mi_face(cur0, Face::Point(*a), pos@, v_color@, texcoord@, normal@,
            *load_options) == Ok::<MiState, LoadError>(curn));
        if !load_options.triangulate && sum_u32(cur0.face_arities) == cur0.vert.indices.len() {
            assert(sum_u32(curn.face_arities) == curn.vert.indices.len());
        }
    }
    Ok(())
}

/// Processes a line face as [`mi_face`] describes for it.
#[verifier::rlimit(100)]
fn mi_line(
    mesh: &mut Mesh,
    index_map: &mut IdxMap,
    normal_index_map: &mut IdxMap,
    texcoord_index_map: &mut IdxMap,
    is_all_triangles: &mut bool,
    a: &VertexIndices,
    b: &VertexIndices,
    pos: &[u64],
    v_color: &[u64],
    texcoord: &[u64],
    normal: &[u64],
    load_options: &LoadOptions,
) -> (r: Result<(), LoadError>)
    requires
        mi_inv(mi_cur(*old(mesh), old(index_map)@, old(normal_index_map)@, old(texcoord_index_map)@, *old(is_all_triangles)).vert),
        texcoord@.len() as int % 2 == 0,
        normal@.len() as int % 3 == 0,
    ensures
        ({
            let cur0 = mi_cur(*old(mesh), old(index_map)@, old(normal_index_map)@, old(texcoord_index_map)@, *old(is_all_triangles));
            let cur1 = mi_cur(*final(mesh), final(index_map)@, final(normal_index_map)@, final(texcoord_index_map)@, *final(is_all_triangles));
            let opts = *load_options;
            let fv = Face::Line(*a, *b);
            match r {
                Ok(_) => {
                    &&& mi_face(cur0, fv, pos@, v_color@, texcoord@, normal@, opts) == Ok::<
                        MiState,
                        LoadError,
                    >(cur1)
                    &&& mi_inv(cur1.vert)
                    &&& final(mesh).vertex_color_indices@ == old(mesh).vertex_color_indices@
                    &&& final(mesh).material_id == old(mesh).material_id
                    &&& (opts.triangulate ==> cur1.face_arities == cur0.face_arities
                        && cur1.all_triangles == cur0.all_triangles && cur1.vert.indices.len() % 3
                        == cur0.vert.indices.len() % 3)
                    &&& (!opts.triangulate && sum_u32(cur0.face_arities)
                        == cur0.vert.indices.len() ==> sum_u32(cur1.face_arities)
                        == cur1.vert.indices.len())
                    &&& (mi_color_ok(cur0.vert, v_color@) ==> mi_color_ok(cur1.vert, v_color@))
                },
                Err(e) => mi_face(cur0, fv, pos@, v_color@, texcoord@, normal@, opts) == Err::<
                    MiState,
                    LoadError,
                >(e) && e.is_export_error(),
            }
        }),
{
    let ghost cur0 = mi_cur(*mesh, index_map@, normal_index_map@, texcoord_index_map@, *is_all_triangles);
    let opts_x = *load_options;
    let tri = load_options.triangulate;
    if !opts_x.ignore_lines {
            let ghost v0 = mi_cur_v(*mesh, index_map@, normal_index_map@, texcoord_index_map@);
            proof {
                lemma_mi_add_vertex(v0, *a, pos@, v_color@, texcoord@, normal@);
            }
            match add_vertex_multi_index(
                mesh,
                index_map,
                normal_index_map,
                texcoord_index_map,
                a,
                pos,
                v_color,
                texcoord,
                normal,
            ) {
                Ok(_) => {},
                Err(e) => {
                    return Err(e);
                },
            }
            let ghost v1 = mi_cur_v(*mesh, index_map@, normal_index_map@, texcoord_index_map@);
            proof {
                lemma_mi_add_vertex(v1, *b, pos@, v_color@, texcoord@, normal@);
            }
            match add_vertex_multi_index(
                mesh,
                index_map,
                normal_index_map,
                texcoord_index_map,
                b,
                pos,
                v_color,
                texcoord,
                normal,
            ) {
                Ok(_) => {},
                Err(e) => {
                    return Err(e);
                },
            }
        if tri {
                let ghost v2 = mi_cur_v(*mesh, index_map@, normal_index_map@, texcoord_index_map@);
                proof {
                    lemma_mi_add_vertex(v2, *b, pos@, v_color@, texcoord@, normal@);
                }
                match add_vertex_multi_index(
                    mesh,
                    index_map,
                    normal_index_map,
                    texcoord_index_map,
                    b,
                    pos,
                    v_color,
                    texcoord,
                    normal,
                ) {
                    Ok(_) => {},
                    Err(e) => {
                        return Err(e);
                    },
                }
        } else {
            *is_all_triangles = false;
            mesh.face_arities.push(2);
            proof {
                lemma_sum_u32_push(cur0.face_arities, 2);
            }
        }
    }
    proof {
        let curn = mi_cur(*mesh, index_map@, normal_index_map@, texcoord_index_map@, *is_all_triangles);
        assert(mi_face(cur0, Face::Line(*a, *b), pos@, v_color@, texcoord@, normal@,
            *load_options) == Ok::<MiState, LoadError>(curn));
        if !load_options.triangulate && sum_u32(cur0.face_arities) == cur0.vert.indices.len() {
            assert(sum_u32(curn.face_arities) == curn.vert.indices.len());
        }
    }
    Ok(())
}

/// Processes a triangle face as [`mi_face`] describes for it.
#[verifier::rlimit(100)]
fn mi_triangle(
    mesh: &mut Mesh,
    index_map: &mut IdxMap,
    normal_index_map: &mut IdxMap,
    texcoord_index_map: &mut IdxMap,
    is_all_triangles: &mut bool,
    a: &VertexIndices,
    b: &VertexIndices,
    c: &VertexIndices,
    pos: &[u64],
    v_color: &[u64],
    texcoord: &[u64],
    normal: &[u64],
    load_options: &LoadOptions,
) -> (r: Result<(), LoadError>)
    requires
        mi_inv(mi_cur(*old(mesh), old(index_map)@, old(normal_index_map)@, old(texcoord_index_map)@, *old(is_all_triangles)).vert),
        texcoord@.len() as int % 2 == 0,
        normal@.len() as int % 3 == 0,
    ensures
        ({
            let cur0 = mi_cur(*old(mesh), old(index_map)@, old(normal_index_map)@, old(texcoord_index_map)@, *old(is_all_triangles));
            let cur1 = mi_cur(*final(mesh), final(index_map)@, final(normal_index_map)@, final(texcoord_index_map)@, *final(is_all_triangles));
            let opts = *load_options;
            let fv = Face::Triangle(*a, *b, *c);
            match r {
                Ok(_) => {
                    &&& mi_face(cur0, fv, pos@, v_color@, texcoord@, normal@, opts) == Ok::<
                        MiState,
                        LoadError,
                    >(cur1)
                    &&& mi_inv(cur1.vert)
                    &&& final(mesh).vertex_color_indices@ == old(mesh).vertex_color_indices@
                    &&& final(mesh).material_id == old(mesh).material_id
                    &&& (opts.triangulate ==> cur1.face_arities == cur0.face_arities
                        && cur1.all_triangles == cur0.all_triangles && cur1.vert.indices.len() % 3
                        == cur0.vert.indices.len() % 3)
                    &&& (!opts.triangulate && sum_u32(cur0.face_arities)
                        == cur0.vert.indices.len() ==> sum_u32(cur1.face_arities)
                        == cur1.vert.indices.len())
                    &&& (mi_color_ok(cur0.vert, v_color@) ==> mi_color_ok(cur1.vert, v_color@))
                },
                Err(e) => mi_face(cur0, fv, pos@, v_color@, texcoord@, normal@, opts) == Err::<
                    MiState,
                    LoadError,
                >(e) && e.is_export_error(),
            }
        }),
{
    let ghost cur0 = mi_cur(*mesh, index_map@, normal_index_map@, texcoord_index_map@, *is_all_triangles);
    let opts_x = *load_options;
    let tri = load_options.triangulate;
        let ghost v0 = mi_cur_v(*mesh, index_map@, normal_index_map@, texcoord_index_map@);
        proof {
            lemma_mi_add_vertex(v0, *a, pos@, v_color@, texcoord@, normal@);
        }
        match add_vertex_multi_index(
            mesh,
            index_map,
            normal_index_map,
            texcoord_index_map,
            a,
            pos,
            v_color,
            texcoord,
            normal,
        ) {
            Ok(_) => {},
            Err(e) => {
                return Err(e);
            },
        }
        let ghost v1 = mi_cur_v(*mesh, index_map@, normal_index_map@, texcoord_index_map@);
        proof {
            lemma_mi_add_vertex(v1, *b, pos@, v_color@, texcoord@, normal@);
        }
        match add_vertex_multi_index(
            mesh,
            index_map,
            normal_index_map,
            texcoord_index_map,
            b,
            pos,
            v_color,
            texcoord,
            normal,
        ) {
            Ok(_) => {},
            Err(e) => {
                return Err(e);
            },
        }
        let ghost v2 = mi_cur_v(*mesh, index_map@, normal_index_map@, texcoord_index_map@);
        proof {
            lemma_mi_add_vertex(v2, *c, pos@, v_color@, texcoord@, normal@);
        }
        match add_vertex_multi_index(
            mesh,
            index_map,
            normal_index_map,
            texcoord_index_map,
            c,
            pos,
            v_color,
            texcoord,
            normal,
        ) {
            Ok(_) => {},
            Err(e) => {
                return Err(e);
            },
        }
    if !tri {
        mesh.face_arities.push(3);
        proof {
            lemma_sum_u32_push(cur0.face_arities, 3);
        }
    }
    proof {
        let curn = mi_cur(*mesh, index_map@, normal_index_map@, texcoord_index_map@, *is_all_triangles);
        assert(mi_face(cur0, Face::Triangle(*a, *b, *c), pos@, v_color@, texcoord@, normal@,
            *load_options) == Ok::<MiState, LoadError>(curn));
        if !load_options.triangulate && sum_u32(cur0.face_arities) == cur0.vert.indices.len() {
            assert(sum_u32(curn.face_arities) == curn.vert.indices.len());
        }
    }
    Ok(())
}

/// Processes a quad face as [`mi_face`] describes for it.
#[verifier::rlimit(100)]
fn mi_quad(
    mesh: &mut Mesh,
    index_map: &mut IdxMap,
    normal_index_map: &mut IdxMap,
    texcoord_index_map: &mut IdxMap,
    is_all_triangles: &mut bool,
    a: &VertexIndices,
    b: &VertexIndices,
    c: &VertexIndices,
    d: &VertexIndices,
    pos: &[u64],
    v_color: &[u64],
    texcoord: &[u64],
    normal: &[u64],
    load_options: &LoadOptions,
) -> (r: Result<(), LoadError>)
    requires
        mi_inv(mi_cur(*old(mesh), old(index_map)@, old(normal_index_map)@, old(texcoord_index_map)@, *old(is_all_triangles)).vert),
        texcoord@.len() as int % 2 == 0,
        normal@.len() as int % 3 == 0,
    ensures
        ({
            let cur0 = mi_cur(*old(mesh), old(index_map)@, old(normal_index_map)@, old(texcoord_index_map)@, *old(is_all_triangles));
            let cur1 = mi_cur(*final(mesh), final(index_map)@, final(normal_index_map)@, final(texcoord_index_map)@, *final(is_all_triangles));
            let opts = *load_options;
            let fv = Face::Quad(*a, *b, *c, *d);
            match r {
                Ok(_) => {
                    &&& mi_face(cur0, fv, pos@, v_color@, texcoord@, normal@, opts) == Ok::<
                        MiState,
                        LoadError,
                    >(cur1)
                    &&& mi_inv(cur1.vert)
                    &&& final(mesh).vertex_color_indices@ == old(mesh).vertex_color_indices@
                    &&& final(mesh).material_id == old(mesh).material_id
                    &&& (opts.triangulate ==> cur1.face_arities == cur0.face_arities
                        && cur1.all_triangles == cur0.all_triangles && cur1.vert.indices.len() % 3
                        == cur0.vert.indices.len() % 3)
                    &&& (!opts.triangulate && sum_u32(cur0.face_arities)
                        == cur0.vert.indices.len() ==> sum_u32(cur1.face_arities)
                        == cur1.vert.indices.len())
                    &&& (mi_color_ok(cur0.vert, v_color@) ==> mi_color_ok(cur1.vert, v_color@))
                },
                Err(e) => mi_face(cur0, fv, pos@, v_color@, texcoord@, normal@, opts) == Err::<
                    MiState,
                    LoadError,
                >(e) && e.is_export_error(),
            }
        }),
{
    let ghost cur0 = mi_cur(*mesh, index_map@, normal_index_map@, texcoord_index_map@, *is_all_triangles);
    let opts_x = *load_options;
    let tri = load_options.triangulate;
        let ghost v0 = mi_cur_v(*mesh, index_map@, normal_index_map@, texcoord_index_map@);
        proof {
            lemma_mi_add_vertex(v0, *a, pos@, v_color@, texcoord@, normal@);
        }
        match add_vertex_multi_index(
            mesh,
            index_map,
            normal_index_map,
            texcoord_index_map,
            a,
            pos,
            v_color,
            texcoord,
            normal,
        ) {
            Ok(_) => {},
            Err(e) => {
                return Err(e);
            },
        }
        let ghost v1 = mi_cur_v(*mesh, index_map@, normal_index_map@, texcoord_index_map@);
        proof {
            lemma_mi_add_vertex(v1, *b, pos@, v_color@, texcoord@, normal@);
        }
        match add_vertex_multi_index(
            mesh,
            index_map,
            normal_index_map,
            texcoord_index_map,
            b,
            pos,
            v_color,
            texcoord,
            normal,
        ) {
            Ok(_) => {},
            Err(e) => {
                return Err(e);
            },
        }
        let ghost v2 = mi_cur_v(*mesh, index_map@, normal_index_map@, texcoord_index_map@);
        proof {
            lemma_mi_add_vertex(v2, *c, pos@, v_color@, texcoord@, normal@);
        }
        match add_vertex_multi_index(
            mesh,
            index_map,
            normal_index_map,
            texcoord_index_map,
            c,
            pos,
            v_color,
            texcoord,
            normal,
        ) {
            Ok(_) => {},
            Err(e) => {
                return Err(e);
            },
        }
    if tri {
            let ghost v3 = mi_cur_v(*mesh, index_map@, normal_index_map@, texcoord_index_map@);
            proof {
                lemma_mi_add_vertex(v3, *a, pos@, v_color@, texcoord@, normal@);
            }
            match add_vertex_multi_index(
                mesh,
                index_map,
                normal_index_map,
                texcoord_index_map,
                a,
                pos,
                v_color,
                texcoord,
                normal,
            ) {
                Ok(_) => {},
                Err(e) => {
                    return Err(e);
                },
            }
            let ghost v4 = mi_cur_v(*mesh, index_map@, normal_index_map@, texcoord_index_map@);
            proof {
                lemma_mi_add_vertex(v4, *c, pos@, v_color@, texcoord@, normal@);
            }
            match add_vertex_multi_index(
                mesh,
                index_map,
                normal_index_map,
                texcoord_index_map,
                c,
                pos,
                v_color,
                texcoord,
                normal,
            ) {
                Ok(_) => {},
                Err(e) => {
                    return Err(e);
                },
            }
            let ghost v5 = mi_cur_v(*mesh, index_map@, normal_index_map@, texcoord_index_map@);
            proof {
                lemma_mi_add_vertex(v5, *d, pos@, v_color@, texcoord@, normal@);
            }
            match add_vertex_multi_index(
                mesh,
                index_map,
                normal_index_map,
                texcoord_index_map,
                d,
                pos,
                v_color,
                texcoord,
                normal,
            ) {
                Ok(_) => {},
                Err(e) => {
                    return Err(e);
                },
            }
    } else {
            let ghost v3 = mi_cur_v(*mesh, index_map@, normal_index_map@, texcoord_index_map@);
            proof {
                lemma_mi_add_vertex(v3, *d, pos@, v_color@, texcoord@, normal@);
            }
            match add_vertex_multi_index(
                mesh,
                index_map,
                normal_index_map,
                texcoord_index_map,
                d,
                pos,
                v_color,
                texcoord,
                normal,
            ) {
                Ok(_) => {},
                Err(e) => {
                    return Err(e);
                },
            }
        *is_all_triangles = false;
        mesh.face_arities.push(4);
        proof {
            lemma_sum_u32_push(cur0.face_arities, 4);
        }
    }
    proof {
        let curn = mi_cur(*mesh, index_map@, normal_index_map@, texcoord_index_map@, *is_all_triangles);
        assert(mi_face(cur0, Face::Quad(*a, *b, *c, *d), pos@, v_color@, texcoord@, normal@,
            *load_options) == Ok::<MiState, LoadError>(curn));
        if !load_options.triangulate && sum_u32(cur0.face_arities) == cur0.vert.indices.len() {
            assert(sum_u32(curn.face_arities) == curn.vert.indices.len());
        }
    }
    Ok(())
}

/// Processes a general polygon face as [`mi_face`] describes for it.
#[verifier::rlimit(100)]
fn mi_polygon(
    mesh: &mut Mesh,
    index_map: &mut IdxMap,
    normal_index_map: &mut IdxMap,
    texcoord_index_map: &mut IdxMap,
    is_all_triangles: &mut bool,
    poly: &Vec<VertexIndices>,
    pos: &[u64],
    v_color: &[u64],
    texcoord: &[u64],
    normal: &[u64],
    load_options: &LoadOptions,
) -> (r: Result<(), LoadError>)
    requires
        mi_inv(mi_cur(*old(mesh), old(index_map)@, old(normal_index_map)@, old(texcoord_index_map)@, *old(is_all_triangles)).vert),
        texcoord@.len() as int % 2 == 0,
        normal@.len() as int % 3 == 0,
    ensures
        ({
            let cur0 = mi_cur(*old(mesh), old(index_map)@, old(normal_index_map)@, old(texcoord_index_map)@, *old(is_all_triangles));
            let cur1 = mi_cur(*final(mesh), final(index_map)@, final(normal_index_map)@, final(texcoord_index_map)@, *final(is_all_triangles));
            let opts = *load_options;
            let fv = Face::Polygon(*poly);
            match r {
                Ok(_) => {
                    &&& mi_face(cur0, fv, pos@, v_color@, texcoord@, normal@, opts) == Ok::<
                        MiState,
                        LoadError,
                    >(cur1)
                    &&& mi_inv(cur1.vert)
                    &&& final(mesh).vertex_color_indices@ == old(mesh).vertex_color_indices@
                    &&& final(mesh).material_id == old(mesh).material_id
                    &&& (opts.triangulate ==> cur1.face_arities == cur0.face_arities
                        && cur1.all_triangles == cur0.all_triangles && cur1.vert.indices.len() % 3
                        == cur0.vert.indices.len() % 3)
                    &&& (!opts.triangulate && sum_u32(cur0.face_arities)
                        == cur0.vert.indices.len() ==> sum_u32(cur1.face_arities)
                        == cur1.vert.indices.len())
                    &&& (mi_color_ok(cur0.vert, v_color@) ==> mi_color_ok(cur1.vert, v_color@))
                },
                Err(e) => mi_face(cur0, fv, pos@, v_color@, texcoord@, normal@, opts) == Err::<
                    MiState,
                    LoadError,
                >(e) && e.is_export_error(),
            }
        }),
{
    let ghost cur0 = mi_cur(*mesh, index_map@, normal_index_map@, texcoord_index_map@, *is_all_triangles);
    let opts_x = *load_options;
    let tri = load_options.triangulate;
    if tri {
        if poly.len() < 2 {
            return Err(LoadError::InvalidPolygon);
        }
        match mi_add_fan(
            mesh,
            index_map,
            normal_index_map,
            texcoord_index_map,
            poly,
            pos,
            v_color,
            texcoord,
            normal,
        ) {
            Ok(_) => {},
            Err(e) => {
                return Err(e);
            },
        }
    } else {
        match mi_add_poly_all(
            mesh,
            index_map,
            normal_index_map,
            texcoord_index_map,
            poly,
            pos,
            v_color,
            texcoord,
            normal,
        ) {
            Ok(_) => {},
            Err(e) => {
                return Err(e);
            },
        }
        if poly.len() > (u32::MAX as usize) {
            return Err(LoadError::GenericFailure);
        }
        *is_all_triangles = false;
        mesh.face_arities.push(poly.len() as u32);
        proof {
            lemma_sum_u32_push(cur0.face_arities, (poly@.len() as u32));
        }
    }
    proof {
        let curn = mi_cur(*mesh, index_map@, normal_index_map@, texcoord_index_map@, *is_all_triangles);
        assert(mi_face(cur0, Face::Polygon(*poly), pos@, v_color@, texcoord@, normal@,
            *load_options) == Ok::<MiState, LoadError>(curn));
        if !load_options.triangulate && sum_u32(cur0.face_arities) == cur0.vert.indices.len() {
            assert(sum_u32(curn.face_arities) == curn.vert.indices.len());
        }
    }
    Ok(())
}

/// Processes one face with per-attribute indexing, exactly as
/// [`mi_face`] describes.
fn mi_one_face(
    mesh: &mut Mesh,
    index_map: &mut IdxMap,
    normal_index_map: &mut IdxMap,
    texcoord_index_map: &mut IdxMap,
    is_all_triangles: &mut bool,
    f: &Face,
    pos: &[u64],
    v_color: &[u64],
    texcoord: &[u64],
    normal: &[u64],
    load_options: &LoadOptions,
) -> (r: Result<(), LoadError>)
    requires
        mi_inv(mi_cur(*old(mesh), old(index_map)@, old(normal_index_map)@, old(texcoord_index_map)@, *old(is_all_triangles)).vert),
        texcoord@.len() as int % 2 == 0,
        normal@.len() as int % 3 == 0,
    ensures
        ({
            let cur0 = mi_cur(*old(mesh), old(index_map)@, old(normal_index_map)@, old(texcoord_index_map)@, *old(is_all_triangles));
            let cur1 = mi_cur(*final(mesh), final(index_map)@, final(normal_index_map)@, final(texcoord_index_map)@, *final(is_all_triangles));
            let opts = *load_options;
            let fv = *f;
            match r {
                Ok(_) => {
                    &&& mi_face(cur0, fv, pos@, v_color@, texcoord@, normal@, opts) == Ok::<
                        MiState,
                        LoadError,
                    >(cur1)
                    &&& mi_inv(cur1.vert)
                    &&& final(mesh).vertex_color_indices@ == old(mesh).vertex_color_indices@
                    &&& final(mesh).material_id == old(mesh).material_id
                    &&& (opts.triangulate ==> cur1.face_arities == cur0.face_arities
                        && cur1.all_triangles == cur0.all_triangles && cur1.vert.indices.len() % 3
                        == cur0.vert.indices.len() % 3)
                    &&& (!opts.triangulate && sum_u32(cur0.face_arities)
                        == cur0.vert.indices.len() ==> sum_u32(cur1.face_arities)
                        == cur1.vert.indices.len())
                    &&& (mi_color_ok(cur0.vert, v_color@) ==> mi_color_ok(cur1.vert, v_color@))
                    &&& (*f is Triangle ==> cur1.all_triangles == cur0.all_triangles)
                },
                Err(e) => mi_face(cur0, fv, pos@, v_color@, texcoord@, normal@, opts) == Err::<
                    MiState,
                    LoadError,
                >(e) && e.is_export_error(),
            }
        }),
{
    match f {
        Face::Point(a) => mi_point(
            mesh,
            index_map,
            normal_index_map,
            texcoord_index_map,
            is_all_triangles,
            a,
            pos,
            v_color,
            texcoord,
            normal,
            load_options,
        ),
        Face::Line(a, b) => mi_line(
            mesh,
            index_map,
            normal_index_map,
            texcoord_index_map,
            is_all_triangles,
            a,
            b,
            pos,
            v_color,
            texcoord,
            normal,
            load_options,
        ),
        Face::Triangle(a, b, c) => mi_triangle(
            mesh,
            index_map,
            normal_index_map,
            texcoord_index_map,
            is_all_triangles,
            a,
            b,
            c,
            pos,
            v_color,
            texcoord,
            normal,
            load_options,
        ),
        Face::Quad(a, b, c, d) => mi_quad(
            mesh,
            index_map,
            normal_index_map,
            texcoord_index_map,
            is_all_triangles,
            a,
            b,
            c,
            d,
            pos,
            v_color,
            texcoord,
            normal,
            load_options,
        ),
        Face::Polygon(poly) => mi_polygon(
            mesh,
            index_map,
            normal_index_map,
            texcoord_index_map,
            is_all_triangles,
            poly,
            pos,
            v_color,
            texcoord,
            normal,
            load_options,
        ),
    }
}

/// The plain field view of a mesh, for stating the multi-index
/// pipeline.
pub ghost struct MeshV {
    pub positions: Seq<u64>,
    pub vertex_color: Seq<u64>,
    pub normals: Seq<u64>,
    pub texcoords: Seq<u64>,
    pub indices: Seq<u32>,
    pub face_arities: Seq<u32>,
    pub vertex_color_indices: Seq<u32>,
    pub texcoord_indices: Seq<u32>,
    pub normal_indices: Seq<u32>,
}

pub open spec fn mesh_v(m: Mesh) -> MeshV {
    MeshV {
        positions: m.positions@,
        vertex_color: m.vertex_color@,
        normals: m.normals@,
        texcoords: m.texcoords@,
        indices: m.indices@,
        face_arities: m.face_arities@,
        vertex_color_indices: m.vertex_color_indices@,
        texcoord_indices: m.texcoord_indices@,
        normal_indices: m.normal_indices@,
    }
}

pub open spec fn mi_mesh_of(st: MiState) -> MeshV {
    MeshV {
        positions: st.vert.positions,
        vertex_color: st.vert.vertex_color,
        normals: st.vert.normals,
        texcoords: st.vert.texcoords,
        indices: st.vert.indices,
        face_arities: st.face_arities,
        vertex_color_indices: Seq::empty(),
        texcoord_indices: st.vert.texcoord_indices,
        normal_indices: st.vert.normal_indices,
    }
}

/// One buffer and its index stream after a merge pass, which does
/// nothing when the index stream is empty.
pub open spec fn merged_pair(points: Seq<u64>, idx: Seq<u32>, w: int) -> (Seq<u64>, Seq<u32>) {
    if idx.len() == 0 {
        (points, idx)
    } else {
        let ms = merge_spec(points, w);
        (ms.newp, Seq::new(idx.len(), |j: int| ms.remap[idx[j] as int]))
    }
}

/// The point-merging stage: colors first (welded against a copy of the
/// shared index stream), then positions, normals and texture
/// coordinates, each against its own stream.
pub open spec fn merge_stage(m: MeshV) -> MeshV {
    let m1 = if m.vertex_color.len() > 0 {
        let pr = merged_pair(m.vertex_color, m.indices, 3);
        MeshV { vertex_color: pr.0, vertex_color_indices: pr.1, ..m }
    } else {
        m
    };
    let p2 = merged_pair(m1.positions, m1.indices, 3);
    let m2 = MeshV { positions: p2.0, indices: p2.1, ..m1 };
    let p3 = merged_pair(m2.normals, m2.normal_indices, 3);
    let m3 = MeshV { normals: p3.0, normal_indices: p3.1, ..m2 };
    let p4 = merged_pair(m3.texcoords, m3.texcoord_indices, 2);
    MeshV { texcoords: p4.0, texcoord_indices: p4.1, ..m3 }
}

/// The reorder stage: fails when a non-empty attribute buffer is
/// coarser than the positions, and otherwise reorders both secondary
/// channels and clears their index streams.
pub open spec fn reorder_stage(m: MeshV) -> Result<MeshV, LoadError> {
    if !(reorder2_ok(m.positions, m.texcoords) && reorder3_ok(m.positions, m.normals)) {
        Err(LoadError::GenericFailure)
    } else {
        Ok(
            (MeshV {
                texcoords: reorder2_spec(m.positions, m.texcoords, m.texcoord_indices, m.indices),
                texcoord_indices: Seq::empty(),
                normals: reorder3_spec(m.positions, m.normals, m.normal_indices, m.indices),
                normal_indices: Seq::empty(),
                ..m
            }),
        )
    }
}

/// What the multi-index exporter produces for a face list: the indexing
/// fold, the pure-triangle arity clearing, then the optional merge and
/// reorder passes.
pub open spec fn export_multi_spec(
    faces: Seq<Face>,
    pos: Seq<u64>,
    vcol: Seq<u64>,
    tex: Seq<u64>,
    norm: Seq<u64>,
    opts: LoadOptions,
) -> Result<MeshV, LoadError> {
    match mi_export_from(mi_init(), faces, 0, pos, vcol, tex, norm, opts) {
        Err(e) => Err(e),
        Ok(st0) => {
            let m0 = mi_mesh_of(mi_finish(st0));
            let m1 = if opts.merge_identical_points {
                merge_stage(m0)
            } else {
                m0
            };
            if opts.reorder_data {
                reorder_stage(m1)
            } else {
                Ok(m1)
            }
        },
    }
}

/// Runs the point-merging stage: colors (against a copy of the shared
/// index stream), then positions, normals and texture coordinates.
#[verifier::rlimit(100)]
fn apply_merge_stage(mesh: &mut Mesh)
    requires
        old(mesh).positions@.len() as int % 3 == 0,
        old(mesh).positions@.len() as int / 3 <= 0x1_0000_0000,
        indices_in_range(old(mesh).indices@, old(mesh).positions@.len() as int / 3),
        old(mesh).normals@.len() as int % 3 == 0,
        old(mesh).normals@.len() as int / 3 <= 0x1_0000_0000,
        indices_in_range(old(mesh).normal_indices@, old(mesh).normals@.len() as int / 3),
        old(mesh).texcoords@.len() as int % 2 == 0,
        old(mesh).texcoords@.len() as int / 2 <= 0x1_0000_0000,
        indices_in_range(old(mesh).texcoord_indices@, old(mesh).texcoords@.len() as int / 2),
        old(mesh).vertex_color_indices@ == Seq::<u32>::empty(),
        old(mesh).vertex_color@.len() == 0 || old(mesh).vertex_color@.len() == old(
            mesh,
        ).positions@.len(),
    ensures
        mesh_v(*final(mesh)) == merge_stage(mesh_v(*old(mesh))),
        final(mesh).material_id == old(mesh).material_id,
        final(mesh).face_arities@ == old(mesh).face_arities@,
        final(mesh).indices@.len() == old(mesh).indices@.len(),
        final(mesh).positions@.len() as int % 3 == 0,
        indices_in_range(final(mesh).indices@, final(mesh).positions@.len() as int / 3),
        final(mesh).normals@.len() as int % 3 == 0,
        indices_in_range(final(mesh).normal_indices@, final(mesh).normals@.len() as int / 3),
        final(mesh).texcoords@.len() as int % 2 == 0,
        indices_in_range(final(mesh).texcoord_indices@, final(mesh).texcoords@.len() as int / 2),
        final(mesh).vertex_color@.len() as int % 3 == 0,
        indices_in_range(
            final(mesh).vertex_color_indices@,
            final(mesh).vertex_color@.len() as int / 3,
        ),
    {
    let ghost m0 = mesh_v(*mesh);
    if mesh.vertex_color.len() > 0 {
        let cloned = mesh.indices.clone();
        mesh.vertex_color_indices = cloned;
        proof {
            assert(mesh.vertex_color_indices@ =~= m0.indices);
        }
        merge_identical_points(&mut mesh.vertex_color, &mut mesh.vertex_color_indices, 3);
        proof {
            if m0.indices.len() > 0 {
                lemma_merge_from_inv(merge_init(), m0.vertex_color, 3, 0);
            }
        }
    }
    let ghost mc = mesh_v(*mesh);
    merge_identical_points(&mut mesh.positions, &mut mesh.indices, 3);
    proof {
        if m0.indices.len() > 0 {
            lemma_merge_from_inv(merge_init(), m0.positions, 3, 0);
        }
    }
    merge_identical_points(&mut mesh.normals, &mut mesh.normal_indices, 3);
    proof {
        if m0.normal_indices.len() > 0 {
            lemma_merge_from_inv(merge_init(), m0.normals, 3, 0);
        }
    }
    merge_identical_points(&mut mesh.texcoords, &mut mesh.texcoord_indices, 2);
    proof {
        if m0.texcoord_indices.len() > 0 {
            lemma_merge_from_inv(merge_init(), m0.texcoords, 2, 0);
        }
        assert(mesh_v(*mesh).vertex_color =~= merge_stage(m0).vertex_color);
        assert(mesh_v(*mesh).vertex_color_indices =~= merge_stage(m0).vertex_color_indices);
        assert(mesh_v(*mesh).positions =~= merge_stage(m0).positions);
        assert(mesh_v(*mesh).indices =~= merge_stage(m0).indices);
        assert(mesh_v(*mesh).normals =~= merge_stage(m0).normals);
        assert(mesh_v(*mesh).normal_indices =~= merge_stage(m0).normal_indices);
        assert(mesh_v(*mesh).texcoords =~= merge_stage(m0).texcoords);
        assert(mesh_v(*mesh).texcoord_indices =~= merge_stage(m0).texcoord_indices);
        assert(mesh_v(*mesh) == merge_stage(m0));
    }
}

/// Exports a face list as a mesh with independent per-attribute index
/// streams, triangulating and dropping degenerate faces as the options
/// direct, then welding identical points and reordering secondary
/// attribute data when requested.  The result is exactly what
/// [`export_multi_spec`] describes, including which error ends the
/// export; every produced mesh is well formed, a triangulated export
/// has no arity list and a whole number of triangles, and a
/// non-triangulated export of triangles only also drops its arity
/// list.
#[verifier::rlimit(100)]
pub fn export_faces_multi_index(
    pos: &[u64],
    v_color: &[u64],
    texcoord: &[u64],
    normal: &[u64],
    faces: &[Face],
    mat_id: Option<usize>,
    load_options: &LoadOptions,
) -> (r: Result<Mesh, LoadError>)
    requires
        texcoord@.len() as int % 2 == 0,
        normal@.len() as int % 3 == 0,
    ensures
        ({
            let spec = export_multi_spec(
                faces@,
                pos@,
                v_color@,
                texcoord@,
                normal@,
                *load_options,
            );
            match r {
                Ok(m) => {
                    &&& spec matches Ok(mv) && mesh_v(m) == mv
                    &&& m.material_id == mat_id
                    &&& m.wf()
                    &&& load_options.triangulate ==> m.face_arities@.len() == 0
                        && m.indices@.len() % 3 == 0
                    &&& (!load_options.triangulate && crate::export_single::all_faces_triangular(
                        faces@,
                    )) ==> m.face_arities@.len() == 0
                },
                Err(e) => spec == Err::<MeshV, LoadError>(e) && e.is_export_error(),
            }
        }),
{
    let ghost opts = *load_options;
    let tri = load_options.triangulate;
    let mut index_map = IdxMap::new();
    let mut normal_index_map = IdxMap::new();
    let mut texcoord_index_map = IdxMap::new();
    let mut mesh = Mesh::default();
    mesh.material_id = mat_id;
    let mut is_all_triangles = true;
    proof {
        assert(index_map@ =~= Map::<usize, u32>::empty());
        assert(normal_index_map@ =~= Map::<usize, u32>::empty());
        assert(texcoord_index_map@ =~= Map::<usize, u32>::empty());
        assert(mi_cur(mesh, index_map@, normal_index_map@, texcoord_index_map@, is_all_triangles)
            == mi_init());
    }
    let n = faces.len();
    let mut fi: usize = 0;
    while fi < n
        invariant
            0 <= fi <= n,
            n == faces@.len(),
            tri == opts.triangulate,
            opts == *load_options,
            texcoord@.len() as int % 2 == 0,
            normal@.len() as int % 3 == 0,
            mi_inv(mi_cur(mesh, index_map@, normal_index_map@, texcoord_index_map@, is_all_triangles).vert),
            mi_export_from(mi_init(), faces@, 0, pos@, v_color@, texcoord@, normal@, opts)
                == mi_export_from(
                mi_cur(mesh, index_map@, normal_index_map@, texcoord_index_map@, is_all_triangles),
                faces@,
                fi as int,
                pos@,
                v_color@,
                texcoord@,
                normal@,
                opts,
            ),
            mesh.material_id == mat_id,
            mesh.vertex_color_indices@ == Seq::<u32>::empty(),
            mi_color_ok(
                mi_cur(mesh, index_map@, normal_index_map@, texcoord_index_map@, is_all_triangles).vert,
                v_color@,
            ),
            tri ==> mesh.face_arities@.len() == 0 && is_all_triangles && mesh.indices@.len() % 3
                == 0,
            !tri ==> sum_u32(mesh.face_arities@) == mesh.indices@.len(),
            (!tri && crate::export_single::all_faces_triangular(faces@.take(fi as int)))
                ==> is_all_triangles,
        decreases n - fi,
    {
        let ghost cur0 = mi_cur(
            mesh,
            index_map@,
            normal_index_map@,
            texcoord_index_map@,
            is_all_triangles,
        );
        let ghost fspec = faces@[fi as int];
        proof {
            assert(mi_export_from(cur0, faces@, fi as int, pos@, v_color@, texcoord@, normal@,
                opts) == match mi_face(cur0, fspec, pos@, v_color@, texcoord@, normal@, opts) {
                Ok(s) => mi_export_from(s, faces@, fi as int + 1, pos@, v_color@, texcoord@,
                    normal@, opts),
                Err(e) => Err(e),
            });
        }
        let f = &faces[fi];
        match mi_one_face(
            &mut mesh,
            &mut index_map,
            &mut normal_index_map,
            &mut texcoord_index_map,
            &mut is_all_triangles,
            f,
            pos,
            v_color,
            texcoord,
            normal,
            load_options,
        ) {
            Ok(_) => {},
            Err(e) => {
                return Err(e);
            },
        }
        proof {
            if !opts.triangulate && crate::export_single::all_faces_triangular(
                faces@.take(fi + 1),
            ) {
                assert(crate::export_single::all_faces_triangular(faces@.take(fi as int))) by {
                    assert(forall|k: int|
                        0 <= k < fi ==> faces@.take(fi + 1)[k] == #[trigger] faces@.take(
                            fi as int,
                        )[k]);
                }
                assert(faces@.take(fi + 1)[fi as int] is Triangle);
            }
        }
        fi = fi + 1;
    }
    proof {
        assert(faces@.take(fi as int) =~= faces@);
    }
    if is_all_triangles {
        mesh.face_arities = Vec::new();
        proof {
            assert(mesh.face_arities@ =~= Seq::<u32>::empty());
        }
    }
    let ghost st_fin = mi_cur(
        mesh,
        index_map@,
        normal_index_map@,
        texcoord_index_map@,
        is_all_triangles,
    );
    let ghost m0 = mesh_v(mesh);
    proof {
        assert(m0 == mi_mesh_of(
            mi_finish(
                mi_export_from(
                    mi_init(),
                    faces@,
                    0,
                    pos@,
                    v_color@,
                    texcoord@,
                    normal@,
                    opts,
                ).unwrap(),
            ),
        ));
    }
    proof {
        assert(st_fin.vert.positions.len() as int % 3 == 0);
    }
    if load_options.merge_identical_points {
        apply_merge_stage(&mut mesh);
        proof {
            assert(mesh_v(mesh) == merge_stage(m0));
        }
    }
    let ghost m1 = mesh_v(mesh);
    if load_options.reorder_data {
        match reorder_data(&mut mesh) {
            Ok(_) => {
                proof {
                    assert(reorder_stage(m1) == Ok::<MeshV, LoadError>(mesh_v(mesh)));
                }
            },
            Err(e) => {
                return Err(e);
            },
        }
    }
    proof {
        assert(mesh.wf());
    }
    Ok(mesh)
}

} // verus!
