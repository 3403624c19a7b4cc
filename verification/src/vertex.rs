//! Face-vertex reference tokens (`v`, `v/vt`, `v//vn`, `v/vt/vn`) and the
//! face classifier.
use crate::numbers::parse_isize;
use crate::numbers::parse_isize_spec;
use crate::tokenize::split_bytes;
use crate::tokenize::split_bytes_exec;
use vstd::prelude::*;

verus! {

/// The sentinel index standing for an attribute that the face-vertex
/// token did not specify.  No reference that passes the exporters' bounds
/// checks can take this value: an element at this index would need an
/// attribute buffer longer than any addressable memory.
pub const MISSING_INDEX: usize = usize::MAX;

/// Indices into the raw position/texcoord/normal arrays for one
/// face-vertex, each either a resolved zero-based offset or
/// [`MISSING_INDEX`].
#[derive(Hash, Eq, PartialEq, Debug, Copy, Clone, Structural)]
pub struct VertexIndices {
    pub v: usize,
    pub vt: usize,
    pub vn: usize,
}

/// One face-token field resolved against the current element count of its
/// attribute array: a positive value is a one-based index, zero resolves
/// to the sentinel, and a negative value counts back from the end of the
/// array, with the machine's wrapping addition (a reference past the
/// front wraps to a huge offset that no bounds check accepts, and a
/// reference to one before the front wraps exactly to the sentinel).
pub open spec fn resolve_field(count: usize, x: isize) -> usize {
    if x < 0 {
        vstd::wrapping::usize_specs::wrapping_add_signed(count, x)
    } else if x == 0 {
        MISSING_INDEX
    } else {
        (x - 1) as usize
    }
}

/// Executable form of [`resolve_field`].
fn resolve_field_exec(count: usize, x: isize) -> (r: usize)
    ensures
        r == resolve_field(count, x),
{
    if x < 0 {
        count.wrapping_add_signed(x)
    } else if x == 0 {
        MISSING_INDEX
    } else {
        (x - 1) as usize
    }
}

/// A negative (relative) reference resolves to the same slot as its
/// positive one-based equivalent: with `count` elements accumulated, the
/// positive token `pos` and the end-relative token `pos - 1 - count`
/// both resolve to the zero-based offset `pos - 1`.
pub proof fn lemma_relative_reference(count: usize, pos: isize)
    requires
        1 <= pos <= count as int,
        count as int <= isize::MAX as int,
    ensures
        resolve_field(count, pos) == pos - 1,
        resolve_field(count, (pos - 1 - count as int) as isize) == pos - 1,
{
    let neg = (pos - 1 - count as int) as isize;
    assert(neg == pos - 1 - count as int);
    assert(count as int + neg == pos - 1);
}

/// The fields of a face-vertex token, split at `/`.
pub open spec fn vertex_fields(s: Seq<u8>) -> Seq<Seq<u8>> {
    split_bytes(s, 0x2f)
}

/// A field is in effect when it is present and non-empty.
pub open spec fn field_present(fs: Seq<Seq<u8>>, k: int) -> bool {
    k < fs.len() && fs[k].len() > 0
}

/// What one slot of the parsed reference holds, given the field list and
/// the attribute's current element count.
pub open spec fn spec_slot(fs: Seq<Seq<u8>>, k: int, count: usize) -> usize {
    if field_present(fs, k) {
        resolve_field(count, parse_isize_spec(fs[k]).unwrap())
    } else {
        MISSING_INDEX
    }
}

/// Whether the token parses: every present field among the first three
/// must be a valid machine integer, and no field beyond the third may be
/// present.
pub open spec fn vertex_parse_ok(s: Seq<u8>) -> bool {
    let fs = vertex_fields(s);
    &&& forall|k: int| 0 <= k < 3 && field_present(fs, k) ==> parse_isize_spec(fs[k]) is Some
    &&& forall|k: int| 3 <= k < fs.len() ==> fs[k].len() == 0
}

/// The reference that the token parses to, when [`vertex_parse_ok`].
pub open spec fn vertex_parse_spec(
    s: Seq<u8>,
    pos_sz: usize,
    tex_sz: usize,
    norm_sz: usize,
) -> VertexIndices {
    let fs = vertex_fields(s);
    VertexIndices {
        v: spec_slot(fs, 0, pos_sz),
        vt: spec_slot(fs, 1, tex_sz),
        vn: spec_slot(fs, 2, norm_sz),
    }
}

impl VertexIndices {
    /// Parses the vertex indices from one face-vertex token, resolving
    /// relative (negative) references against the current element counts
    /// of the position, texcoord and normal arrays.  Returns `None` if a
    /// present field is not a valid integer or the token has a non-empty
    /// field past the third.
    pub fn parse(face_str: &[u8], pos_sz: usize, tex_sz: usize, norm_sz: usize) -> (r: Option<
        VertexIndices,
    >)
        ensures
            r == if vertex_parse_ok(face_str@) {
                Some(vertex_parse_spec(face_str@, pos_sz, tex_sz, norm_sz))
            } else {
                None::<VertexIndices>
            },
    {
        let fields = split_bytes_exec(face_str, 0x2f);
        let ghost fs = vertex_fields(face_str@);
        proof {
            assert(fields.deep_view() == fs);
            assert(fields@.len() == fs.len());
        }
        let n = fields.len();
        let mut k: usize = 3;
        while k < n
            invariant
                3 <= k,
                k <= n || k == 3,
                n == fields@.len(),
                fields.deep_view() == fs,
                fs == vertex_fields(face_str@),
                forall|j: int| 3 <= j < k ==> fs[j].len() == 0,
            decreases n - k,
        {
            if fields[k].len() > 0 {
                proof {
                    assert(fs[k as int].len() > 0);
                }
                return None;
            }
            proof {
                assert(fs[k as int] == fields@[k as int]@);
            }
            k = k + 1;
        }
        let mut out = VertexIndices { v: MISSING_INDEX, vt: MISSING_INDEX, vn: MISSING_INDEX };
        if fields.len() > 0 && fields[0].len() > 0 {
            proof {
                assert(fs[0] == fields@[0]@);
            }
            match parse_isize(fields[0].as_slice()) {
                Some(x) => {
                    out.v = resolve_field_exec(pos_sz, x);
                },
                None => {
                    return None;
                },
            }
        }
        if fields.len() > 1 && fields[1].len() > 0 {
            proof {
                assert(fs[1] == fields@[1]@);
            }
            match parse_isize(fields[1].as_slice()) {
                Some(x) => {
                    out.vt = resolve_field_exec(tex_sz, x);
                },
                None => {
                    return None;
                },
            }
        }
        if fields.len() > 2 && fields[2].len() > 0 {
            proof {
                assert(fs[2] == fields@[2]@);
            }
            match parse_isize(fields[2].as_slice()) {
                Some(x) => {
                    out.vn = resolve_field_exec(norm_sz, x);
                },
                None => {
                    return None;
                },
            }
        }
        Some(out)
    }
}

/// A face, holding the vertex references of its corners; the variant
/// records the arity class the classifier assigned.
#[derive(Debug, Clone)]
pub enum Face {
    Point(VertexIndices),
    Line(VertexIndices, VertexIndices),
    Triangle(VertexIndices, VertexIndices, VertexIndices),
    Quad(VertexIndices, VertexIndices, VertexIndices, VertexIndices),
    Polygon(Vec<VertexIndices>),
}

impl Face {
    /// The vertex references of the face, in order.
    pub open spec fn refs(self) -> Seq<VertexIndices> {
        match self {
            Face::Point(a) => seq![a],
            Face::Line(a, b) => seq![a, b],
            Face::Triangle(a, b, c) => seq![a, b, c],
            Face::Quad(a, b, c, d) => seq![a, b, c, d],
            Face::Polygon(v) => v@,
        }
    }

    /// The classifier builds `Polygon` only for reference counts outside
    /// one through four.
    pub open spec fn well_classified(self) -> bool {
        match self {
            Face::Polygon(v) => v@.len() == 0 || v@.len() >= 5,
            _ => true,
        }
    }

    /// This face is the classifier's result for the given reference list.
    pub open spec fn classifies(self, refs: Seq<VertexIndices>) -> bool {
        self.refs() == refs && self.well_classified()
    }
}

/// Whether every token of a face record parses via
/// [`vertex_parse_ok`].
pub open spec fn face_tokens_ok(toks: Seq<Seq<u8>>) -> bool {
    forall|i: int| 0 <= i < toks.len() ==> vertex_parse_ok(toks[i])
}

/// The reference list a face record parses to.
pub open spec fn face_refs_spec(
    toks: Seq<Seq<u8>>,
    pos_sz: usize,
    tex_sz: usize,
    norm_sz: usize,
) -> Seq<VertexIndices> {
    Seq::new(toks.len(), |i: int| vertex_parse_spec(toks[i], pos_sz, tex_sz, norm_sz))
}

/// Parses the vertex references of one face record (the tokens after the
/// keyword) and appends the classified face to `faces`.  Returns `false`,
/// leaving `faces` unchanged, if any token fails to parse.
pub fn parse_face(
    tokens: &[Vec<u8>],
    start: usize,
    faces: &mut Vec<Face>,
    pos_sz: usize,
    tex_sz: usize,
    norm_sz: usize,
) -> (r: bool)
    requires
        start <= tokens@.len(),
    ensures
        r == face_tokens_ok(tokens.deep_view().skip(start as int)),
        !r ==> final(faces)@ == old(faces)@,
        r ==> final(faces)@.len() == old(faces)@.len() + 1 && final(faces)@.drop_last() == old(
            faces,
        )@ && final(faces)@.last().classifies(
            face_refs_spec(tokens.deep_view().skip(start as int), pos_sz, tex_sz, norm_sz),
        ),
{
    let ghost toks = tokens.deep_view().skip(start as int);
    let mut indices: Vec<VertexIndices> = Vec::new();
    let n = tokens.len();
    let mut i: usize = start;
    while i < n
        invariant
            start <= i <= n,
            n == tokens@.len(),
            toks == tokens.deep_view().skip(start as int),
            toks.len() == n - start,
            forall|j: int| 0 <= j < toks.len() ==> toks[j] == tokens.deep_view()[start + j],
            forall|j: int| 0 <= j < i - start ==> vertex_parse_ok(toks[j]),
            indices@ =~= face_refs_spec(toks, pos_sz, tex_sz, norm_sz).take(i - start),
        decreases n - i,
    {
        proof {
            assert(tokens.deep_view()[i as int] == tokens@[i as int]@);
            assert(toks[i - start] == tokens.deep_view()[i as int]);
        }
        match VertexIndices::parse(tokens[i].as_slice(), pos_sz, tex_sz, norm_sz) {
            Some(v) => {
                indices.push(v);
            },
            None => {
                proof {
                    assert(!vertex_parse_ok(toks[i - start]));
                }
                return false;
            },
        }
        i = i + 1;
        proof {
            assert(indices@ =~= face_refs_spec(toks, pos_sz, tex_sz, norm_sz).take(i - start));
        }
    }
    proof {
        assert(indices@ =~= face_refs_spec(toks, pos_sz, tex_sz, norm_sz));
    }
    let ghost oldfaces = faces@;
    let m = indices.len();
    if m == 1 {
        let a = indices[0];
        faces.push(Face::Point(a));
    } else if m == 2 {
        let a = indices[0];
        let b = indices[1];
        faces.push(Face::Line(a, b));
    } else if m == 3 {
        let a = indices[0];
        let b = indices[1];
        let c = indices[2];
        faces.push(Face::Triangle(a, b, c));
    } else if m == 4 {
        let a = indices[0];
        let b = indices[1];
        let c = indices[2];
        let d = indices[3];
        faces.push(Face::Quad(a, b, c, d));
    } else {
        faces.push(Face::Polygon(indices));
    }
    proof {
        assert(faces@.drop_last() =~= oldfaces);
        assert(faces@.last().refs() =~= face_refs_spec(toks, pos_sz, tex_sz, norm_sz));
    }
    true
}

} // verus!
