//! The reorder pass: makes normal and texture-coordinate data directly
//! addressable by the position index, clearing their separate index
//! streams.
use crate::err::LoadError;
use crate::mesh::Mesh;
use vstd::prelude::*;

verus! {

/// Gathered stride-2 data: one tuple per index entry, copied in index
/// order.
pub open spec fn gather2(attr: Seq<u64>, idx: Seq<u32>) -> Seq<u64> {
    Seq::new((2 * idx.len()) as nat, |t: int| attr[2 * idx[t / 2] + t % 2])
}

/// Gathered stride-3 data: one tuple per index entry, copied in index
/// order.
pub open spec fn gather3(attr: Seq<u64>, idx: Seq<u32>) -> Seq<u64> {
    Seq::new((3 * idx.len()) as nat, |t: int| attr[3 * idx[t / 3] + t % 3])
}

/// Scattered stride-2 data: each (attribute index, position index) pair
/// writes its tuple into the position's slot; later pairs overwrite.
pub open spec fn scatter2(attr: Seq<u64>, aidx: Seq<u32>, pidx: Seq<u32>, acc: Seq<u64>, k: int) -> Seq<
    u64,
>
    decreases vstd::math::min(aidx.len() as int, pidx.len() as int) - k,
{
    let np = vstd::math::min(aidx.len() as int, pidx.len() as int);
    if k < 0 || k >= np {
        acc
    } else {
        let acc2 = acc.update(2 * pidx[k], attr[2 * aidx[k]]).update(
            2 * pidx[k] + 1,
            attr[2 * aidx[k] + 1],
        );
        scatter2(attr, aidx, pidx, acc2, k + 1)
    }
}

/// Scattered stride-3 data.
pub open spec fn scatter3(attr: Seq<u64>, aidx: Seq<u32>, pidx: Seq<u32>, acc: Seq<u64>, k: int) -> Seq<
    u64,
>
    decreases vstd::math::min(aidx.len() as int, pidx.len() as int) - k,
{
    let np = vstd::math::min(aidx.len() as int, pidx.len() as int);
    if k < 0 || k >= np {
        acc
    } else {
        let acc2 = acc.update(3 * pidx[k], attr[3 * aidx[k]]).update(
            3 * pidx[k] + 1,
            attr[3 * aidx[k] + 1],
        ).update(3 * pidx[k] + 2, attr[3 * aidx[k] + 2]);
        scatter3(attr, aidx, pidx, acc2, k + 1)
    }
}

/// A zero-filled buffer, the scatter passes' starting point.
pub open spec fn zero_seq(n: int) -> Seq<u64> {
    Seq::new(n as nat, |t: int| 0u64)
}

/// Whether stride-2 attribute data has a shape the reorder pass can
/// handle: absent, finer-grained than positions (gather), or exactly
/// per-vertex (scatter).
pub open spec fn reorder2_ok(pos: Seq<u64>, attr: Seq<u64>) -> bool {
    ||| attr.len() == 0
    ||| pos.len() < attr.len()
    ||| attr.len() == pos.len()
}

/// What the reorder pass leaves in a stride-2 attribute buffer.
pub open spec fn reorder2_spec(pos: Seq<u64>, attr: Seq<u64>, aidx: Seq<u32>, pidx: Seq<u32>) -> Seq<
    u64,
> {
    if attr.len() == 0 {
        attr
    } else if pos.len() < attr.len() {
        gather2(attr, aidx)
    } else {
        scatter2(attr, aidx, pidx, zero_seq(pos.len() as int), 0)
    }
}

/// Whether stride-3 attribute data has a shape the reorder pass can
/// handle.
pub open spec fn reorder3_ok(pos: Seq<u64>, attr: Seq<u64>) -> bool {
    ||| attr.len() == 0
    ||| pos.len() < attr.len()
    ||| attr.len() == pos.len()
}

/// What the reorder pass leaves in a stride-3 attribute buffer.
pub open spec fn reorder3_spec(pos: Seq<u64>, attr: Seq<u64>, aidx: Seq<u32>, pidx: Seq<u32>) -> Seq<
    u64,
> {
    if attr.len() == 0 {
        attr
    } else if pos.len() < attr.len() {
        gather3(attr, aidx)
    } else {
        scatter3(attr, aidx, pidx, zero_seq(pos.len() as int), 0)
    }
}

/// Whether the reorder pass accepts a mesh's attribute shapes.
pub open spec fn tex_reorder_ok(m: Mesh) -> bool {
    reorder2_ok(m.positions@, m.texcoords@)
}

/// What the reorder pass leaves in the texture-coordinate buffer.
pub open spec fn tex_reorder_spec(m: Mesh) -> Seq<u64> {
    reorder2_spec(m.positions@, m.texcoords@, m.texcoord_indices@, m.indices@)
}

/// Whether the normal data has a shape the reorder pass can handle.
pub open spec fn norm_reorder_ok(m: Mesh) -> bool {
    reorder3_ok(m.positions@, m.normals@)
}

/// What the reorder pass leaves in the normal buffer.
pub open spec fn norm_reorder_spec(m: Mesh) -> Seq<u64> {
    reorder3_spec(m.positions@, m.normals@, m.normal_indices@, m.indices@)
}

/// Data gathered from a per-vertex-per-face normal source of equal
/// multiplicity (three index entries per position component) ends up
/// exactly as long as the position buffer, so the position index can
/// address it directly, and the pass clears the separate index stream.
pub proof fn lemma_reorder_matches_positions(m: Mesh)
    requires
        m.positions@.len() < m.normals@.len(),
        3 * m.normal_indices@.len() == m.positions@.len(),
    ensures
        norm_reorder_spec(m).len() == m.positions@.len(),
{
}

/// Builds a zero-filled vector.
fn zero_vec(n: usize) -> (r: Vec<u64>)
    ensures
        r@ == zero_seq(n as int),
{
    let mut v: Vec<u64> = Vec::new();
    let mut i: usize = 0;
    while i < n
        invariant
            0 <= i <= n,
            v@.len() == i,
            forall|t: int| 0 <= t < i ==> v@[t] == 0u64,
        decreases n - i,
    {
        v.push(0);
        i = i + 1;
    }
    proof {
        assert(v@ =~= zero_seq(n as int));
    }
    v
}

/// Reorders texture-coordinate and normal data so that the position
/// index alone addresses them, clearing their separate index streams:
/// finer-grained data is gathered in index order, per-vertex data is
/// scattered into position slots.  Fails, changing nothing further,
/// when a non-empty attribute buffer is coarser than the positions.
#[verifier::rlimit(60)]
pub fn reorder_data(mesh: &mut Mesh) -> (r: Result<(), LoadError>)
    requires
        old(mesh).wf(),
        forall|i: int|
            0 <= i < old(mesh).texcoord_indices@.len() ==> old(mesh).texcoord_indices@[i] < old(
                mesh,
            ).texcoords@.len() as int / 2,
        forall|i: int|
            0 <= i < old(mesh).normal_indices@.len() ==> old(mesh).normal_indices@[i] < old(
                mesh,
            ).normals@.len() as int / 3,
        old(mesh).texcoords@.len() as int % 2 == 0,
        old(mesh).normals@.len() as int % 3 == 0,
    ensures
        r is Ok <==> tex_reorder_ok(*old(mesh)) && norm_reorder_ok(*old(mesh)),
        r matches Err(e) ==> e == LoadError::GenericFailure,
        r is Ok ==> {
            &&& final(mesh).texcoords@ == tex_reorder_spec(*old(mesh))
            &&& final(mesh).normals@ == norm_reorder_spec(*old(mesh))
            &&& final(mesh).texcoord_indices@ == Seq::<u32>::empty()
            &&& final(mesh).normal_indices@ == Seq::<u32>::empty()
            &&& final(mesh).positions@ == old(mesh).positions@
            &&& final(mesh).vertex_color@ == old(mesh).vertex_color@
            &&& final(mesh).indices@ == old(mesh).indices@
            &&& final(mesh).face_arities@ == old(mesh).face_arities@
            &&& final(mesh).vertex_color_indices@ == old(mesh).vertex_color_indices@
            &&& final(mesh).material_id == old(mesh).material_id
            &&& final(mesh).wf()
        },
{
    let ghost m0 = *mesh;
    let _tl = mesh.texcoords.len();
    let _nl = mesh.normals.len();
    let _pl = mesh.positions.len();
    proof {
        assert(m0.texcoords@.len() <= usize::MAX);
        assert(m0.normals@.len() <= usize::MAX);
        assert(m0.positions@.len() <= usize::MAX);
    }
    // texture coordinates
    if mesh.texcoords.len() == 0 {
        mesh.texcoord_indices = Vec::new();
        proof {
            assert(mesh.texcoord_indices@ =~= Seq::<u32>::empty());
        }
    } else if mesh.positions.len() < mesh.texcoords.len() {
        let nidx = mesh.texcoord_indices.len();
        let mut newt: Vec<u64> = Vec::new();
        let mut j: usize = 0;
        while j < nidx
            invariant
                0 <= j <= nidx,
                nidx == m0.texcoord_indices@.len(),
                *mesh == m0,
                forall|i: int|
                    0 <= i < m0.texcoord_indices@.len() ==> m0.texcoord_indices@[i]
                        < m0.texcoords@.len() as int / 2,
                m0.texcoords@.len() as int % 2 == 0,
                m0.texcoords@.len() <= usize::MAX,
                newt@.len() == 2 * j,
                forall|t: int| 0 <= t < 2 * j ==> newt@[t] == gather2(
                    m0.texcoords@,
                    m0.texcoord_indices@,
                )[t],
            decreases nidx - j,
        {
            let ti = mesh.texcoord_indices[j];
            proof {
                crate::merge::lemma_chunk_bounds(
                    mesh.texcoords@.len() as int,
                    2,
                    ti as int,
                );
            }
            newt.push(mesh.texcoords[(ti as usize) * 2]);
            newt.push(mesh.texcoords[(ti as usize) * 2 + 1]);
            j = j + 1;
        }
        mesh.texcoords = newt;
        mesh.texcoord_indices = Vec::new();
        proof {
            assert(mesh.texcoords@ =~= gather2(m0.texcoords@, m0.texcoord_indices@));
            assert(mesh.texcoord_indices@ =~= Seq::<u32>::empty());
        }
    } else if mesh.texcoords.len() == mesh.positions.len() {
        let mut newt = zero_vec(mesh.positions.len());
        let np = if mesh.texcoord_indices.len() < mesh.indices.len() {
            mesh.texcoord_indices.len()
        } else {
            mesh.indices.len()
        };
        let mut k: usize = 0;
        while k < np
            invariant
                0 <= k <= np,
                np == vstd::math::min(m0.texcoord_indices@.len() as int, m0.indices@.len() as int),
                *mesh == m0,
                m0.wf(),
                forall|i: int|
                    0 <= i < m0.texcoord_indices@.len() ==> m0.texcoord_indices@[i]
                        < m0.texcoords@.len() as int / 2,
                m0.texcoords@.len() as int % 2 == 0,
                m0.texcoords@.len() <= usize::MAX,
                m0.positions@.len() <= usize::MAX,
                m0.texcoords@.len() == m0.positions@.len(),
                newt@.len() == m0.positions@.len(),
                scatter2(
                    m0.texcoords@,
                    m0.texcoord_indices@,
                    m0.indices@,
                    zero_seq(m0.positions@.len() as int),
                    0,
                ) == scatter2(
                    m0.texcoords@,
                    m0.texcoord_indices@,
                    m0.indices@,
                    newt@,
                    k as int,
                ),
            decreases np - k,
        {
            let ti = mesh.texcoord_indices[k];
            let pi = mesh.indices[k];
            proof {
                crate::merge::lemma_chunk_bounds(mesh.texcoords@.len() as int, 2, ti as int);
                assert(m0.indices@[k as int] < m0.positions@.len() as int / 3);
                crate::merge::lemma_chunk_bounds(m0.positions@.len() as int, 3, pi as int);
                assert(2 * pi + 1 < m0.positions@.len());
            }
            let t0 = mesh.texcoords[(ti as usize) * 2];
            let t1 = mesh.texcoords[(ti as usize) * 2 + 1];
            newt.set((pi as usize) * 2, t0);
            newt.set((pi as usize) * 2 + 1, t1);
            k = k + 1;
        }
        mesh.texcoords = newt;
        mesh.texcoord_indices = Vec::new();
        proof {
            assert(mesh.texcoord_indices@ =~= Seq::<u32>::empty());
        }
    } else {
        return Err(LoadError::GenericFailure);
    }
    // normals
    if mesh.normals.len() == 0 {
        mesh.normal_indices = Vec::new();
        proof {
            assert(mesh.normal_indices@ =~= Seq::<u32>::empty());
        }
    } else if mesh.positions.len() < mesh.normals.len() {
        let nidx = mesh.normal_indices.len();
        let mut newn: Vec<u64> = Vec::new();
        let mut j: usize = 0;
        while j < nidx
            invariant
                0 <= j <= nidx,
                nidx == m0.normal_indices@.len(),
                mesh.normals@ == m0.normals@,
                mesh.normal_indices@ == m0.normal_indices@,
                forall|i: int|
                    0 <= i < m0.normal_indices@.len() ==> m0.normal_indices@[i]
                        < m0.normals@.len() as int / 3,
                m0.normals@.len() as int % 3 == 0,
                m0.normals@.len() <= usize::MAX,
                newn@.len() == 3 * j,
                forall|t: int| 0 <= t < 3 * j ==> newn@[t] == gather3(
                    m0.normals@,
                    m0.normal_indices@,
                )[t],
            decreases nidx - j,
        {
            let ni = mesh.normal_indices[j];
            proof {
                crate::merge::lemma_chunk_bounds(mesh.normals@.len() as int, 3, ni as int);
            }
            newn.push(mesh.normals[(ni as usize) * 3]);
            newn.push(mesh.normals[(ni as usize) * 3 + 1]);
            newn.push(mesh.normals[(ni as usize) * 3 + 2]);
            j = j + 1;
        }
        mesh.normals = newn;
        mesh.normal_indices = Vec::new();
        proof {
            assert(mesh.normals@ =~= gather3(m0.normals@, m0.normal_indices@));
            assert(mesh.normal_indices@ =~= Seq::<u32>::empty());
        }
    } else if mesh.normals.len() == mesh.positions.len() {
        let mut newn = zero_vec(mesh.positions.len());
        let np = if mesh.normal_indices.len() < mesh.indices.len() {
            mesh.normal_indices.len()
        } else {
            mesh.indices.len()
        };
        let mut k: usize = 0;
        while k < np
            invariant
                0 <= k <= np,
                np == vstd::math::min(m0.normal_indices@.len() as int, m0.indices@.len() as int),
                mesh.normals@ == m0.normals@,
                mesh.normal_indices@ == m0.normal_indices@,
                mesh.indices@ == m0.indices@,
                mesh.positions@ == m0.positions@,
                m0.wf(),
                forall|i: int|
                    0 <= i < m0.normal_indices@.len() ==> m0.normal_indices@[i]
                        < m0.normals@.len() as int / 3,
                m0.normals@.len() as int % 3 == 0,
                m0.normals@.len() <= usize::MAX,
                m0.positions@.len() <= usize::MAX,
                m0.normals@.len() == m0.positions@.len(),
                newn@.len() == m0.positions@.len(),
                scatter3(
                    m0.normals@,
                    m0.normal_indices@,
                    m0.indices@,
                    zero_seq(m0.positions@.len() as int),
                    0,
                ) == scatter3(
                    m0.normals@,
                    m0.normal_indices@,
                    m0.indices@,
                    newn@,
                    k as int,
                ),
            decreases np - k,
        {
            let ni = mesh.normal_indices[k];
            let pi = mesh.indices[k];
            proof {
                crate::merge::lemma_chunk_bounds(mesh.normals@.len() as int, 3, ni as int);
                assert(m0.indices@[k as int] < m0.positions@.len() as int / 3);
                crate::merge::lemma_chunk_bounds(m0.positions@.len() as int, 3, pi as int);
                assert(3 * pi + 2 < m0.positions@.len());
            }
            let v0 = mesh.normals[(ni as usize) * 3];
            let v1 = mesh.normals[(ni as usize) * 3 + 1];
            let v2 = mesh.normals[(ni as usize) * 3 + 2];
            newn.set((pi as usize) * 3, v0);
            newn.set((pi as usize) * 3 + 1, v1);
            newn.set((pi as usize) * 3 + 2, v2);
            k = k + 1;
        }
        mesh.normals = newn;
        mesh.normal_indices = Vec::new();
        proof {
            assert(mesh.normal_indices@ =~= Seq::<u32>::empty());
        }
    } else {
        return Err(LoadError::GenericFailure);
    }
    Ok(())
}

} // verus!
