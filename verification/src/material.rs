//! Materials and the `MTL` parser.
use crate::err::LoadError;
use crate::maps::NameMap;
use crate::maps::ParamMap;
use crate::numbers::parse_u8;
use crate::numbers::parse_u8_spec;
use crate::tokenize::is_ws;
use crate::tokenize::kwb;
use crate::tokenize::line_keyword_is;
use crate::tokenize::lines_exec;
use crate::tokenize::lines_of;
use crate::tokenize::words_exec;
use crate::tokenize::words_of;
use vstd::prelude::*;

verus! {

/// The bit pattern of the 32-bit value one, the default dissolve and
/// optical density.
pub const ONE_F32_BITS: u64 = 0x3f80_0000;

/// A color triple, each component a raw bit pattern.
#[derive(Debug, Clone, Copy, PartialEq, Eq, Structural)]
pub struct Rgb {
    pub r: u64,
    pub g: u64,
    pub b: u64,
}

impl Rgb {
    /// All components zero.
    pub fn zero() -> (c: Rgb)
        ensures
            c == (Rgb { r: 0, g: 0, b: 0 }),
    {
        Rgb { r: 0, g: 0, b: 0 }
    }
}

/// A material that meshes may reference, with standard photometric
/// fields and an open-ended map of unrecognized parameters.
#[derive(Debug, Clone)]
pub struct Material {
    /// Material name as given by its `newmtl` statement.
    pub name: String,
    /// Ambient color.
    pub ambient: Rgb,
    /// Diffuse color.
    pub diffuse: Rgb,
    /// Specular color.
    pub specular: Rgb,
    /// Shininess (glossiness) value.
    pub shininess: u64,
    /// Alpha term; one means fully opaque.
    pub dissolve: u64,
    /// Optical density (index of refraction); one means no bending.
    pub optical_density: u64,
    /// Ambient texture file name.
    pub ambient_texture: String,
    /// Diffuse texture file name.
    pub diffuse_texture: String,
    /// Specular texture file name.
    pub specular_texture: String,
    /// Normal-map texture file name.
    pub normal_texture: String,
    /// Shininess-map texture file name.
    pub shininess_texture: String,
    /// Alpha-map texture file name.
    pub dissolve_texture: String,
    /// Illumination model number, when given.
    pub illumination_model: Option<u8>,
    /// Unrecognized parameters, keyword to raw value.
    pub unknown_param: ParamMap,
}

impl Material {
    /// A fresh material: empty name and textures, black colors, full
    /// dissolve and unit optical density.
    pub fn empty() -> (m: Material)
        ensures
            m.name@ == Seq::<char>::empty(),
            m.ambient == (Rgb { r: 0, g: 0, b: 0 }),
            m.diffuse == (Rgb { r: 0, g: 0, b: 0 }),
            m.specular == (Rgb { r: 0, g: 0, b: 0 }),
            m.shininess == 0,
            m.dissolve == ONE_F32_BITS,
            m.optical_density == ONE_F32_BITS,
            m.ambient_texture@ == Seq::<char>::empty(),
            m.diffuse_texture@ == Seq::<char>::empty(),
            m.specular_texture@ == Seq::<char>::empty(),
            m.normal_texture@ == Seq::<char>::empty(),
            m.shininess_texture@ == Seq::<char>::empty(),
            m.dissolve_texture@ == Seq::<char>::empty(),
            m.illumination_model is None,
            m.unknown_param@ == Map::<Seq<char>, Seq<char>>::empty(),
    {
        Material {
            name: new_string(),
            ambient: Rgb::zero(),
            diffuse: Rgb::zero(),
            specular: Rgb::zero(),
            shininess: 0,
            dissolve: ONE_F32_BITS,
            optical_density: ONE_F32_BITS,
            ambient_texture: new_string(),
            diffuse_texture: new_string(),
            specular_texture: new_string(),
            normal_texture: new_string(),
            shininess_texture: new_string(),
            dissolve_texture: new_string(),
            illumination_model: None,
            unknown_param: ParamMap::new(),
        }
    }
}

impl Default for Material {
    /// Same as [`Material::empty`].
    fn default() -> (m: Material)
        ensures
            m.name@ == Seq::<char>::empty(),
            m.ambient == (Rgb { r: 0, g: 0, b: 0 }),
            m.diffuse == (Rgb { r: 0, g: 0, b: 0 }),
            m.specular == (Rgb { r: 0, g: 0, b: 0 }),
            m.shininess == 0,
            m.dissolve == ONE_F32_BITS,
            m.optical_density == ONE_F32_BITS,
            m.ambient_texture@ == Seq::<char>::empty(),
            m.diffuse_texture@ == Seq::<char>::empty(),
            m.specular_texture@ == Seq::<char>::empty(),
            m.normal_texture@ == Seq::<char>::empty(),
            m.shininess_texture@ == Seq::<char>::empty(),
            m.dissolve_texture@ == Seq::<char>::empty(),
            m.illumination_model is None,
            m.unknown_param@ == Map::<Seq<char>, Seq<char>>::empty(),
    {
        Material::empty()
    }
}

/// Relies on `String::new`: the new string is empty.
#[verifier::external_body]
pub fn new_string() -> (r: String)
    ensures
        r@ == Seq::<char>::empty(),
{
    String::new()
}

/// The characters that the standard library's lossy decoding reads from
/// the bytes; a pure function of the bytes.
pub uninterp spec fn chars_of(b: Seq<u8>) -> Seq<char>;

/// Relies on `String::from_utf8_lossy` (then `into_owned`): a
/// deterministic decoding of the bytes; ASCII bytes decode to the
/// characters with the same code points.
#[verifier::external_body]
pub fn bytes_to_string(b: &[u8]) -> (r: String)
    ensures
        r@ == chars_of(b@),
        (forall|i: int| 0 <= i < b@.len() ==> b@[i] < 0x80) ==> r@ == b@.map_values(
            |x: u8| x as char,
        ),
{
    String::from_utf8_lossy(b).into_owned()
}

/// The UTF-8 bytes of a text; a pure function of the characters.
pub uninterp spec fn bytes_of(s: Seq<char>) -> Seq<u8>;

/// Relies on `str::as_bytes` (copied into a vector): the UTF-8 encoding
/// of the text, a function of the characters alone; ASCII characters
/// encode one byte each with the same code.
#[verifier::external_body]
pub fn str_bytes(s: &str) -> (r: Vec<u8>)
    ensures
        r@ == bytes_of(s@),
        (forall|i: int| 0 <= i < s@.len() ==> s@[i] < 128 as char) ==> r@ == s@.map_values(
            |c: char| c as u8,
        ),
{
    s.as_bytes().to_vec()
}

/// The default object name.
pub fn default_object_name() -> (r: String)
    ensures
        r@ == "unnamed_object"@,
{
    let b = str_bytes("unnamed_object");
    let r = bytes_to_string(b.as_slice());
    proof {
        reveal_strlit("unnamed_object");
        assert(forall|i: int|
            0 <= i < "unnamed_object"@.len() ==> "unnamed_object"@[i] < (128 as char));
        assert(b@ == kwb("unnamed_object"@));
        assert(forall|i: int| 0 <= i < b@.len() ==> b@[i] < 0x80);
        assert(r@ =~= "unnamed_object"@);
    }
    r
}

/// Whether the token is the given ASCII keyword, byte for byte.
pub fn keyword_matches(tok: &[u8], kw: &str) -> (r: bool)
    ensures
        (forall|i: int| 0 <= i < kw@.len() ==> kw@[i] < (128 as char)) ==> r == (tok@ == kwb(kw@)),
{
    let kb = str_bytes(kw);
    let r = bytes_eq(tok, kb.as_slice());
    proof {
        if forall|i: int| 0 <= i < kw@.len() ==> kw@[i] < (128 as char) {
            assert(kb@ == kwb(kw@));
            if r {
                assert(tok@ =~= kb@);
            } else {
                if tok@ == kwb(kw@) {
                    assert(tok@ =~= kb@);
                }
            }
        }
    }
    r
}

/// Leading and trailing ASCII whitespace removed.
pub open spec fn trim_spec(s: Seq<u8>) -> Seq<u8>
    decreases s.len(),
{
    if s.len() == 0 {
        s
    } else if is_ws(s[0]) {
        trim_spec(s.skip(1))
    } else if is_ws(s[s.len() - 1]) {
        trim_spec(s.take(s.len() - 1))
    } else {
        s
    }
}

/// Removes leading and trailing ASCII whitespace.
pub fn trim_bytes(s: &[u8]) -> (r: Vec<u8>)
    ensures
        r@ == trim_spec(s@),
{
    let mut lo: usize = 0;
    let mut hi: usize = s.len();
    proof {
        assert(s@.subrange(0, s@.len() as int) =~= s@);
    }
    while lo < hi && is_ws_byte(s[lo])
        invariant
            0 <= lo <= hi <= s@.len(),
            trim_spec(s@) == trim_spec(s@.subrange(lo as int, hi as int)),
        decreases hi - lo,
    {
        proof {
            let cur = s@.subrange(lo as int, hi as int);
            assert(cur[0] == s@[lo as int]);
            assert(cur.skip(1) =~= s@.subrange(lo + 1, hi as int));
        }
        lo = lo + 1;
    }
    while lo < hi && is_ws_byte(s[hi - 1])
        invariant
            0 <= lo <= hi <= s@.len(),
            trim_spec(s@) == trim_spec(s@.subrange(lo as int, hi as int)),
            lo < hi ==> !is_ws(s@[lo as int]),
        decreases hi - lo,
    {
        proof {
            let cur = s@.subrange(lo as int, hi as int);
            assert(cur[0] == s@[lo as int]);
            assert(cur[cur.len() - 1] == s@[hi - 1]);
            assert(cur.take(cur.len() - 1) =~= s@.subrange(lo as int, hi - 1));
        }
        hi = hi - 1;
    }
    let mut out: Vec<u8> = Vec::new();
    let mut i: usize = lo;
    while i < hi
        invariant
            lo <= i <= hi <= s@.len(),
            out@ =~= s@.subrange(lo as int, i as int),
        decreases hi - i,
    {
        out.push(s[i]);
        i = i + 1;
    }
    proof {
        let cur = s@.subrange(lo as int, hi as int);
        if lo < hi {
            assert(cur[0] == s@[lo as int]);
            assert(cur[cur.len() - 1] == s@[hi - 1]);
        }
        assert(trim_spec(cur) == cur);
        assert(out@ =~= cur);
    }
    out
}

/// Executable ASCII whitespace test on one byte.
fn is_ws_byte(b: u8) -> (r: bool)
    ensures
        r == is_ws(b),
{
    b == 0x20 || (0x09 <= b && b <= 0x0d)
}

/// Whether two byte strings hold the same bytes.
pub fn bytes_eq(a: &[u8], b: &[u8]) -> (r: bool)
    ensures
        r == (a@ =~= b@),
{
    if a.len() != b.len() {
        return false;
    }
    let n = a.len();
    let mut i: usize = 0;
    while i < n
        invariant
            0 <= i <= n,
            n == a@.len() == b@.len(),
            forall|j: int| 0 <= j < i ==> a@[j] == b@[j],
        decreases n - i,
    {
        if a[i] != b[i] {
            return false;
        }
        i = i + 1;
    }
    true
}

/// The caller's reader maps the token to this value.
pub open spec fn scalar_read<F: Fn(&Vec<u8>) -> Option<u64>>(f: F, tok: Seq<u8>, v: u64) -> bool {
    exists|a: &Vec<u8>| a@ == tok && #[trigger] call_ensures(f, (a,), Some(v))
}

/// The caller's reader rejects the token.
pub open spec fn scalar_read_failed<F: Fn(&Vec<u8>) -> Option<u64>>(f: F, tok: Seq<u8>) -> bool {
    exists|a: &Vec<u8>| a@ == tok && #[trigger] call_ensures(f, (a,), None::<u64>)
}

/// A token's read result carries over to any equal value.
proof fn lemma_scalar_read_value<F: Fn(&Vec<u8>) -> Option<u64>>(
    f: F,
    tok: Seq<u8>,
    v1: u64,
    v2: u64,
)
    requires
        scalar_read(f, tok, v1),
        v1 == v2,
    ensures
        scalar_read(f, tok, v2),
{
    let a = choose|a: &Vec<u8>| a@ == tok && #[trigger] call_ensures(f, (a,), Some(v1));
    assert(call_ensures(f, (a,), Some(v2)));
}

/// Parses up to `n` scalar tokens with the caller's reader, appending
/// them to `vals` only when exactly `n` parse; otherwise `vals` is left
/// unchanged.  On success the appended values are, in order, the
/// reader's results for the tokens `start..start + n`; failure means
/// the tokens ran out or the reader rejected one of them.
pub fn parse_floatn<F: Fn(&Vec<u8>) -> Option<u64>>(
    read_scalar: &F,
    tokens: &[Vec<u8>],
    start: usize,
    vals: &mut Vec<u64>,
    n: usize,
) -> (r: bool)
    requires
        forall|a: &Vec<u8>| #[trigger] call_requires(*read_scalar, (a,)),
        start <= tokens@.len(),
    ensures
        r ==> ({
            let pre = old(vals)@;
            let post = final(vals)@;
            &&& n <= tokens@.len() - start
            &&& post.len() == pre.len() + n
            &&& post.take(pre.len() as int) == pre
            &&& forall|k: int|
                0 <= k < n ==> #[trigger] scalar_read(
                    *read_scalar,
                    tokens.deep_view()[start + k],
                    post[pre.len() + k],
                )
        }),
        !r ==> final(vals)@ == old(vals)@ && (n > tokens@.len() - start || exists|k: int|
            0 <= k < n && #[trigger] scalar_read_failed(
                *read_scalar,
                tokens.deep_view()[start + k],
            )),
{
    let avail = tokens.len() - start;
    let end = if avail < n {
        avail
    } else {
        n
    };
    let mut temp: Vec<u64> = Vec::new();
    let mut k: usize = 0;
    while k < end
        invariant
            0 <= k <= end,
            end <= tokens@.len() - start,
            start + end <= tokens@.len(),
            end <= n,
            tokens@.len() <= usize::MAX,
            temp@.len() == k,
            forall|j: int|
                0 <= j < k ==> #[trigger] scalar_read(
                    *read_scalar,
                    tokens.deep_view()[start + j],
                    temp@[j],
                ),
            forall|a: &Vec<u8>| #[trigger] call_requires(*read_scalar, (a,)),
        decreases end - k,
    {
        let tok = &tokens[start + k];
        match read_scalar(tok) {
            Some(x) => {
                proof {
                    assert(tok@ == tokens.deep_view()[start + k]);
                    assert(scalar_read(*read_scalar, tokens.deep_view()[start + k], x));
                }
                temp.push(x);
            },
            None => {
                proof {
                    assert(tok@ == tokens.deep_view()[start + k]);
                    assert(scalar_read_failed(*read_scalar, tokens.deep_view()[start + k]));
                }
                return false;
            },
        }
        k = k + 1;
    }
    if n == temp.len() {
        let mut j: usize = 0;
        let ghost oldvals = vals@;
        let m = temp.len();
        while j < m
            invariant
                0 <= j <= m,
                m == temp@.len(),
                m == n,
                n <= tokens@.len() - start,
                vals@.len() == oldvals.len() + j,
                vals@.take(oldvals.len() as int) == oldvals,
                forall|q: int| 0 <= q < j ==> vals@[oldvals.len() + q] == temp@[q],
                forall|q: int|
                    0 <= q < m ==> #[trigger] scalar_read(
                        *read_scalar,
                        tokens.deep_view()[start + q],
                        temp@[q],
                    ),
            decreases m - j,
        {
            vals.push(temp[j]);
            j = j + 1;
            proof {
                assert(vals@.take(oldvals.len() as int) =~= oldvals);
            }
        }
        proof {
            assert forall|k: int|
                0 <= k < n implies #[trigger] scalar_read(
                *read_scalar,
                tokens.deep_view()[start + k],
                vals@[oldvals.len() + k],
            ) by {
                lemma_scalar_read_value(
                    *read_scalar,
                    tokens.deep_view()[start + k],
                    temp@[k],
                    vals@[oldvals.len() + k],
                );
            }
        }
        true
    } else {
        false
    }
}

/// The `k`-th component of a color, in field order.
pub open spec fn rgb_slot(c: Rgb, k: int) -> u64 {
    if k == 0 {
        c.r
    } else if k == 1 {
        c.g
    } else {
        c.b
    }
}

/// Parses up to three scalar tokens into the color's slots in order,
/// stopping early when the tokens run out, and fails only when a
/// present token does not parse.  The tolerance for short lines is
/// deliberate: a color statement with fewer than three scalars leaves
/// the remaining slots at their previous values, matching the
/// accumulate-and-overwrite lifecycle of a material section.
pub fn parse_float3<F: Fn(&Vec<u8>) -> Option<u64>>(
    read_scalar: &F,
    tokens: &[Vec<u8>],
    start: usize,
    vals: &mut Rgb,
) -> (r: bool)
    requires
        forall|a: &Vec<u8>| #[trigger] call_requires(*read_scalar, (a,)),
        start <= tokens@.len(),
    ensures
        ({
            let m = vstd::math::min(3, tokens@.len() - start);
            &&& r ==> (forall|k: int|
                0 <= k < m ==> #[trigger] scalar_read(
                    *read_scalar,
                    tokens.deep_view()[start + k],
                    rgb_slot(*final(vals), k),
                )) && (forall|k: int| m <= k < 3 ==> rgb_slot(*final(vals), k) == rgb_slot(
                *old(vals),
                k,
            ))
            &&& !r ==> exists|k: int|
                0 <= k < m && #[trigger] scalar_read_failed(
                    *read_scalar,
                    tokens.deep_view()[start + k],
                )
        }),
{
    let avail = tokens.len() - start;
    let end = if avail < 3 {
        avail
    } else {
        3
    };
    let mut k: usize = 0;
    while k < end
        invariant
            0 <= k <= end,
            end <= tokens@.len() - start,
            start + end <= tokens@.len(),
            end == vstd::math::min(3, tokens@.len() - start),
            tokens@.len() <= usize::MAX,
            forall|j: int|
                0 <= j < k ==> #[trigger] scalar_read(
                    *read_scalar,
                    tokens.deep_view()[start + j],
                    rgb_slot(*vals, j),
                ),
            forall|j: int| end <= j < 3 ==> rgb_slot(*vals, j) == rgb_slot(*old(vals), j),
            forall|j: int| k <= j < 3 ==> rgb_slot(*vals, j) == rgb_slot(*old(vals), j),
            forall|a: &Vec<u8>| #[trigger] call_requires(*read_scalar, (a,)),
        decreases end - k,
    {
        let tok = &tokens[start + k];
        match read_scalar(tok) {
            Some(x) => {
                proof {
                    assert(tok@ == tokens.deep_view()[start + k]);
                }
                let ghost prev = *vals;
                if k == 0 {
                    vals.r = x;
                } else if k == 1 {
                    vals.g = x;
                } else {
                    vals.b = x;
                }
                proof {
                    assert(rgb_slot(*vals, k as int) == x);
                    assert(forall|j: int|
                        0 <= j < 3 && j != k ==> rgb_slot(*vals, j) == rgb_slot(prev, j));
                    assert(scalar_read(*read_scalar, tokens.deep_view()[start + k as int], x));
                    assert forall|j: int|
                        0 <= j < k + 1 implies #[trigger] scalar_read(
                        *read_scalar,
                        tokens.deep_view()[start + j],
                        rgb_slot(*vals, j),
                    ) by {
                        if j < k {
                            lemma_scalar_read_value(
                                *read_scalar,
                                tokens.deep_view()[start + j],
                                rgb_slot(prev, j),
                                rgb_slot(*vals, j),
                            );
                        } else {
                            lemma_scalar_read_value(
                                *read_scalar,
                                tokens.deep_view()[start + j],
                                x,
                                rgb_slot(*vals, j),
                            );
                        }
                    }
                }
            },
            None => {
                proof {
                    assert(tok@ == tokens.deep_view()[start + k]);
                    assert(scalar_read_failed(*read_scalar, tokens.deep_view()[start + k]));
                }
                return false;
            },
        }
        k = k + 1;
    }
    true
}

/// The trimmed rest of a line after its first `skip` bytes, the way
/// rest-of-line values are read.
pub open spec fn mtl_rest(l: Seq<u8>, skip: int) -> Seq<u8> {
    if skip <= l.len() {
        trim_spec(l.skip(skip))
    } else {
        Seq::empty()
    }
}

/// The reader-independent content of one material: its name, its
/// texture file names, its illumination model and its unrecognized
/// parameters.  The six photometric scalar fields are read by the
/// caller's scalar reader and are not part of this view.
pub ghost struct MatPure {
    pub name: Seq<char>,
    pub ambient_texture: Seq<char>,
    pub diffuse_texture: Seq<char>,
    pub specular_texture: Seq<char>,
    pub normal_texture: Seq<char>,
    pub shininess_texture: Seq<char>,
    pub dissolve_texture: Seq<char>,
    pub illum: Option<u8>,
    pub unknown: Map<Seq<char>, Seq<char>>,
}

/// The reader-independent view of a material.
pub open spec fn mat_pure(m: Material) -> MatPure {
    MatPure {
        name: m.name@,
        ambient_texture: m.ambient_texture@,
        diffuse_texture: m.diffuse_texture@,
        specular_texture: m.specular_texture@,
        normal_texture: m.normal_texture@,
        shininess_texture: m.shininess_texture@,
        dissolve_texture: m.dissolve_texture@,
        illum: m.illumination_model,
        unknown: m.unknown_param@,
    }
}

pub open spec fn mat_pure_init() -> MatPure {
    MatPure {
        name: Seq::empty(),
        ambient_texture: Seq::empty(),
        diffuse_texture: Seq::empty(),
        specular_texture: Seq::empty(),
        normal_texture: Seq::empty(),
        shininess_texture: Seq::empty(),
        dissolve_texture: Seq::empty(),
        illum: None,
        unknown: Map::empty(),
    }
}

/// The reader-independent views of a material list.
pub open spec fn mats_pure(ms: Seq<Material>) -> Seq<MatPure> {
    Seq::new(ms.len(), |i: int| mat_pure(ms[i]))
}

/// The accumulating state of a material load: the finalized materials,
/// the name map, and the section being accumulated.
pub ghost struct MtlFold {
    pub mats: Seq<MatPure>,
    pub map: Map<Seq<char>, usize>,
    pub cur: MatPure,
}

pub open spec fn mtl_fold_init() -> MtlFold {
    MtlFold { mats: Seq::empty(), map: Map::empty(), cur: mat_pure_init() }
}

/// One line applied to the load state: `newmtl` finalizes the named
/// section and starts a new one, texture and `illum` statements set
/// their field, an unrecognized keyword stores its trimmed value, and
/// blank lines, comments and the scalar statements (whose values the
/// reader supplies) leave this view unchanged.
pub open spec fn mtl_step(st: MtlFold, raw: Seq<u8>) -> MtlFold {
    let l = trim_spec(raw);
    let ws = words_of(l);
    if ws.len() == 0 {
        st
    } else if ws[0] == kwb("#"@) {
        st
    } else if ws[0] == kwb("newmtl"@) {
        let st1 = if st.cur.name.len() > 0 {
            MtlFold {
                mats: st.mats.push(st.cur),
                map: st.map.insert(st.cur.name, st.mats.len() as usize),
                cur: mat_pure_init(),
            }
        } else {
            MtlFold { cur: mat_pure_init(), ..st }
        };
        MtlFold { cur: MatPure { name: chars_of(mtl_rest(l, 6)), ..st1.cur }, ..st1 }
    } else if ws[0] == kwb("Ka"@) || ws[0] == kwb("Kd"@) || ws[0] == kwb("Ks"@) || ws[0] == kwb(
        "Ns"@,
    ) || ws[0] == kwb("Ni"@) || ws[0] == kwb("d"@) {
        st
    } else if ws[0] == kwb("map_Ka"@) {
        MtlFold { cur: MatPure { ambient_texture: chars_of(mtl_rest(l, 6)), ..st.cur }, ..st }
    } else if ws[0] == kwb("map_Kd"@) {
        MtlFold { cur: MatPure { diffuse_texture: chars_of(mtl_rest(l, 6)), ..st.cur }, ..st }
    } else if ws[0] == kwb("map_Ks"@) {
        MtlFold { cur: MatPure { specular_texture: chars_of(mtl_rest(l, 6)), ..st.cur }, ..st }
    } else if ws[0] == kwb("map_Bump"@) || ws[0] == kwb("map_bump"@) {
        MtlFold { cur: MatPure { normal_texture: chars_of(mtl_rest(l, 8)), ..st.cur }, ..st }
    } else if ws[0] == kwb("map_Ns"@) || ws[0] == kwb("map_ns"@) || ws[0] == kwb("map_NS"@) {
        MtlFold { cur: MatPure { shininess_texture: chars_of(mtl_rest(l, 6)), ..st.cur }, ..st }
    } else if ws[0] == kwb("bump"@) {
        MtlFold { cur: MatPure { normal_texture: chars_of(mtl_rest(l, 4)), ..st.cur }, ..st }
    } else if ws[0] == kwb("map_d"@) {
        MtlFold { cur: MatPure { dissolve_texture: chars_of(mtl_rest(l, 5)), ..st.cur }, ..st }
    } else if ws[0] == kwb("illum"@) {
        if ws.len() >= 2 {
            match parse_u8_spec(ws[1]) {
                Some(x) => MtlFold { cur: MatPure { illum: Some(x), ..st.cur }, ..st },
                None => st,
            }
        } else {
            st
        }
    } else {
        MtlFold {
            cur: MatPure {
                unknown: st.cur.unknown.insert(
                    chars_of(ws[0]),
                    chars_of(mtl_rest(l, ws[0].len() as int)),
                ),
                ..st.cur
            },
            ..st
        }
    }
}

/// The lines from position `i` on, applied in order.
pub open spec fn mtl_fold_from(st: MtlFold, ls: Seq<Seq<u8>>, i: int) -> MtlFold
    decreases ls.len() - i,
{
    if i < 0 || i >= ls.len() {
        st
    } else {
        mtl_fold_from(mtl_step(st, ls[i]), ls, i + 1)
    }
}

/// The final section is closed at the end of the text.
pub open spec fn mtl_finish(st: MtlFold) -> MtlFold {
    if st.cur.name.len() > 0 {
        MtlFold {
            mats: st.mats.push(st.cur),
            map: st.map.insert(st.cur.name, st.mats.len() as usize),
            cur: mat_pure_init(),
        }
    } else {
        st
    }
}

/// A scalar statement line, whose success the caller's reader decides.
pub open spec fn mtl_line_reader(raw: Seq<u8>) -> bool {
    let l = trim_spec(raw);
    ||| line_keyword_is(l, "Ka"@)
    ||| line_keyword_is(l, "Kd"@)
    ||| line_keyword_is(l, "Ks"@)
    ||| line_keyword_is(l, "Ns"@)
    ||| line_keyword_is(l, "Ni"@)
    ||| line_keyword_is(l, "d"@)
}

/// A `newmtl` line whose name is blank, which rejects the load.
pub open spec fn mtl_newmtl_blank(raw: Seq<u8>) -> bool {
    let l = trim_spec(raw);
    line_keyword_is(l, "newmtl"@) && (mtl_rest(l, 6).len() == 0 || chars_of(
        mtl_rest(l, 6),
    ).len() == 0)
}

/// A line that rejects the load independent of the reader: a texture
/// statement without a file name, or a malformed `illum` statement.
pub open spec fn mtl_line_fault(raw: Seq<u8>) -> bool {
    let l = trim_spec(raw);
    let ws = words_of(l);
    ||| ((line_keyword_is(l, "map_Ka"@) || line_keyword_is(l, "map_Kd"@) || line_keyword_is(
        l,
        "map_Ks"@,
    ) || line_keyword_is(l, "map_Ns"@) || line_keyword_is(l, "map_ns"@) || line_keyword_is(
        l,
        "map_NS"@,
    )) && mtl_rest(l, 6).len() == 0)
    ||| ((line_keyword_is(l, "map_Bump"@) || line_keyword_is(l, "map_bump"@)) && mtl_rest(
        l,
        8,
    ).len() == 0)
    ||| (line_keyword_is(l, "bump"@) && mtl_rest(l, 4).len() == 0)
    ||| (line_keyword_is(l, "map_d"@) && mtl_rest(l, 5).len() == 0)
    ||| (line_keyword_is(l, "illum"@) && (ws.len() < 2 || parse_u8_spec(ws[1]) is None))
}

/// Loads the materials of an `MTL` text: accumulates fields line by
/// line, finalizing each material at the next `newmtl` or the end of
/// the text, and returns the material list with a map from material
/// name to list index.
///
/// The contract fixes what does not depend on the caller's scalar
/// reader: on success the materials' names, texture file names,
/// illumination models and unrecognized parameters — and the name map —
/// are exactly the fold of [`mtl_step`] over the lines; a failure is a
/// blank `newmtl` name or a material parse error, each witnessed by a
/// line of its kind, and a text with no scalar statements and no
/// faulting lines always loads.  Every index in the map addresses the
/// list, whose materials all carry non-empty mapped names.
#[verifier::rlimit(100)]
pub fn load_mtl_buf<F: Fn(&Vec<u8>) -> Option<u64>>(buf: &[u8], read_scalar: F) -> (r: Result<
    (Vec<Material>, NameMap),
    LoadError,
>)
    requires
        forall|a: &Vec<u8>| #[trigger] call_requires(read_scalar, (a,)),
    ensures
        r matches Ok(p) ==> ({
            let fin = mtl_finish(mtl_fold_from(mtl_fold_init(), lines_of(buf@), 0));
            &&& p.0@.len() == fin.mats.len()
            &&& (forall|i: int| 0 <= i < p.0@.len() ==> mat_pure(#[trigger] p.0@[i]) == fin.mats[i])
            &&& p.1@ == fin.map
        }),
        r matches Ok(p) ==> p.1@.dom().finite() && (forall|k: Seq<char>|
            p.1@.contains_key(k) ==> p.1@[k] < p.0@.len()) && (forall|i: int|
            0 <= i < p.0@.len() ==> p.1@.contains_key(#[trigger] p.0@[i].name@)
                && p.0@[i].name@.len() > 0),
        r matches Err(e) ==> (e is InvalidObjectName || e is MaterialParseError),
        r matches Err(e) ==> (e is InvalidObjectName ==> exists|i: int|
            0 <= i < lines_of(buf@).len() && mtl_newmtl_blank(#[trigger] lines_of(buf@)[i])),
        r matches Err(e) ==> (e is MaterialParseError ==> exists|i: int|
            0 <= i < lines_of(buf@).len() && (mtl_line_reader(#[trigger] lines_of(buf@)[i])
                || mtl_line_fault(lines_of(buf@)[i]))),
        (forall|i: int|
            0 <= i < lines_of(buf@).len() ==> !mtl_line_reader(#[trigger] lines_of(buf@)[i])
                && !mtl_line_fault(lines_of(buf@)[i]) && !mtl_newmtl_blank(lines_of(buf@)[i]))
            ==> r is Ok,
{
    let mut materials: Vec<Material> = Vec::new();
    let mut mat_map = NameMap::new();
    let mut cur_mat = Material::empty();
    let lines = lines_exec(buf);
    let nlines = lines.len();
    let mut li: usize = 0;
    proof {
        assert(lines.deep_view().len() == lines@.len());
        assert(mats_pure(materials@) =~= Seq::<MatPure>::empty());
        assert(mat_map@ =~= Map::<Seq<char>, usize>::empty());
        assert(MtlFold { mats: mats_pure(materials@), map: mat_map@, cur: mat_pure(cur_mat) }
            == mtl_fold_init());
    }
    while li < nlines
        invariant
            0 <= li <= nlines,
            nlines == lines@.len(),
            lines.deep_view() == lines_of(buf@),
            mat_map@.dom().finite(),
            forall|k: Seq<char>| mat_map@.contains_key(k) ==> mat_map@[k] < materials@.len(),
            forall|i: int|
                0 <= i < materials@.len() ==> mat_map@.contains_key(
                    #[trigger] materials@[i].name@,
                ) && materials@[i].name@.len() > 0,
            forall|a: &Vec<u8>| #[trigger] call_requires(read_scalar, (a,)),
            mtl_fold_from(mtl_fold_init(), lines_of(buf@), 0) == mtl_fold_from(
                MtlFold { mats: mats_pure(materials@), map: mat_map@, cur: mat_pure(cur_mat) },
                lines_of(buf@),
                li as int,
            ),
        decreases nlines - li,
    {
        let ghost lid = li as int;
        let ghost raw = lines_of(buf@)[lid];
        let ghost st0 = MtlFold {
            mats: mats_pure(materials@),
            map: mat_map@,
            cur: mat_pure(cur_mat),
        };
        proof {
            reveal_strlit("#");
            reveal_strlit("newmtl");
            reveal_strlit("Ka");
            reveal_strlit("Kd");
            reveal_strlit("Ks");
            reveal_strlit("Ns");
            reveal_strlit("Ni");
            reveal_strlit("d");
            reveal_strlit("map_Ka");
            reveal_strlit("map_Kd");
            reveal_strlit("map_Ks");
            reveal_strlit("map_Bump");
            reveal_strlit("map_bump");
            reveal_strlit("map_Ns");
            reveal_strlit("map_ns");
            reveal_strlit("map_NS");
            reveal_strlit("bump");
            reveal_strlit("map_d");
            reveal_strlit("illum");
            assert(mtl_fold_from(
                MtlFold { mats: mats_pure(materials@), map: mat_map@, cur: mat_pure(cur_mat) },
                lines_of(buf@),
                lid,
            ) == mtl_fold_from(mtl_step(st0, raw), lines_of(buf@), lid + 1));
        }
        let line_raw = &lines[li];
        li = li + 1;
        proof {
            assert(line_raw@ == lines.deep_view()[lid]);
        }
        let line = trim_bytes(line_raw.as_slice());
        let ghost lv = line@;
        let words = words_exec(line.as_slice());
        if words.len() == 0 {
            proof {
                assert(mtl_step(st0, raw) == st0);
            }
            continue ;
        }
        let kw = &words[0];
        proof {
            assert(kw@ == words_of(lv)[0]);
        }
        if keyword_matches(kw.as_slice(), "#") {
            proof {
                assert(mtl_step(st0, raw) == st0);
            }
            continue ;
        }
        if keyword_matches(kw.as_slice(), "newmtl") {
            if !string_is_empty(&cur_mat.name) {
                let idx = materials.len();
                let ghost oldmats = materials@;
                mat_map.insert(clone_string(&cur_mat.name), idx);
                materials.push(cur_mat);
                cur_mat = Material::empty();
                proof {
                    assert(mats_pure(materials@) =~= mats_pure(oldmats).push(st0.cur));
                }
            } else {
                cur_mat = Material::empty();
            }
            let rest = slice_from(line.as_slice(), 6);
            let name_bytes = trim_bytes(rest);
            proof {
                assert(name_bytes@ == mtl_rest(lv, 6));
            }
            if name_bytes.len() == 0 {
                proof {
                    assert(mtl_newmtl_blank(raw));
                }
                return Err(LoadError::InvalidObjectName);
            }
            cur_mat.name = bytes_to_string(name_bytes.as_slice());
            if string_is_empty(&cur_mat.name) {
                proof {
                    assert(mtl_newmtl_blank(raw));
                }
                return Err(LoadError::InvalidObjectName);
            }
        } else if keyword_matches(kw.as_slice(), "Ka") {
            if !parse_float3(&read_scalar, words.as_slice(), 1, &mut cur_mat.ambient) {
                proof {
                    assert(mtl_line_reader(raw));
                }
                return Err(LoadError::MaterialParseError);
            }
            proof {
                assert(mtl_step(st0, raw) == st0);
            }
        } else if keyword_matches(kw.as_slice(), "Kd") {
            if !parse_float3(&read_scalar, words.as_slice(), 1, &mut cur_mat.diffuse) {
                proof {
                    assert(mtl_line_reader(raw));
                }
                return Err(LoadError::MaterialParseError);
            }
            proof {
                assert(mtl_step(st0, raw) == st0);
            }
        } else if keyword_matches(kw.as_slice(), "Ks") {
            if !parse_float3(&read_scalar, words.as_slice(), 1, &mut cur_mat.specular) {
                proof {
                    assert(mtl_line_reader(raw));
                }
                return Err(LoadError::MaterialParseError);
            }
            proof {
                assert(mtl_step(st0, raw) == st0);
            }
        } else if keyword_matches(kw.as_slice(), "Ns") {
            if words.len() < 2 {
                proof {
                    assert(mtl_line_reader(raw));
                }
                return Err(LoadError::MaterialParseError);
            }
            match read_scalar(&words[1]) {
                Some(x) => {
                    cur_mat.shininess = x;
                },
                None => {
                    proof {
                        assert(mtl_line_reader(raw));
                    }
                    return Err(LoadError::MaterialParseError);
                },
            }
            proof {
                assert(mtl_step(st0, raw) == st0);
            }
        } else if keyword_matches(kw.as_slice(), "Ni") {
            if words.len() < 2 {
                proof {
                    assert(mtl_line_reader(raw));
                }
                return Err(LoadError::MaterialParseError);
            }
            match read_scalar(&words[1]) {
                Some(x) => {
                    cur_mat.optical_density = x;
                },
                None => {
                    proof {
                        assert(mtl_line_reader(raw));
                    }
                    return Err(LoadError::MaterialParseError);
                },
            }
            proof {
                assert(mtl_step(st0, raw) == st0);
            }
        } else if keyword_matches(kw.as_slice(), "d") {
            if words.len() < 2 {
                proof {
                    assert(mtl_line_reader(raw));
                }
                return Err(LoadError::MaterialParseError);
            }
            match read_scalar(&words[1]) {
                Some(x) => {
                    cur_mat.dissolve = x;
                },
                None => {
                    proof {
                        assert(mtl_line_reader(raw));
                    }
                    return Err(LoadError::MaterialParseError);
                },
            }
            proof {
                assert(mtl_step(st0, raw) == st0);
            }
        } else if keyword_matches(kw.as_slice(), "map_Ka") {
            match texture_name(line.as_slice(), 6) {
                Some(t) => {
                    cur_mat.ambient_texture = t;
                },
                None => {
                    proof {
                        assert(mtl_line_fault(raw));
                    }
                    return Err(LoadError::MaterialParseError);
                },
            }
        } else if keyword_matches(kw.as_slice(), "map_Kd") {
            match texture_name(line.as_slice(), 6) {
                Some(t) => {
                    cur_mat.diffuse_texture = t;
                },
                None => {
                    proof {
                        assert(mtl_line_fault(raw));
                    }
                    return Err(LoadError::MaterialParseError);
                },
            }
        } else if keyword_matches(kw.as_slice(), "map_Ks") {
            match texture_name(line.as_slice(), 6) {
                Some(t) => {
                    cur_mat.specular_texture = t;
                },
                None => {
                    proof {
                        assert(mtl_line_fault(raw));
                    }
                    return Err(LoadError::MaterialParseError);
                },
            }
        } else if keyword_matches(kw.as_slice(), "map_Bump") || keyword_matches(
            kw.as_slice(),
            "map_bump",
        ) {
            match texture_name(line.as_slice(), 8) {
                Some(t) => {
                    cur_mat.normal_texture = t;
                },
                None => {
                    proof {
                        assert(mtl_line_fault(raw));
                    }
                    return Err(LoadError::MaterialParseError);
                },
            }
        } else if keyword_matches(kw.as_slice(), "map_Ns") || keyword_matches(
            kw.as_slice(),
            "map_ns",
        ) || keyword_matches(kw.as_slice(), "map_NS") {
            match texture_name(line.as_slice(), 6) {
                Some(t) => {
                    cur_mat.shininess_texture = t;
                },
                None => {
                    proof {
                        assert(mtl_line_fault(raw));
                    }
                    return Err(LoadError::MaterialParseError);
                },
            }
        } else if keyword_matches(kw.as_slice(), "bump") {
            match texture_name(line.as_slice(), 4) {
                Some(t) => {
                    cur_mat.normal_texture = t;
                },
                None => {
                    proof {
                        assert(mtl_line_fault(raw));
                    }
                    return Err(LoadError::MaterialParseError);
                },
            }
        } else if keyword_matches(kw.as_slice(), "map_d") {
            match texture_name(line.as_slice(), 5) {
                Some(t) => {
                    cur_mat.dissolve_texture = t;
                },
                None => {
                    proof {
                        assert(mtl_line_fault(raw));
                    }
                    return Err(LoadError::MaterialParseError);
                },
            }
        } else if keyword_matches(kw.as_slice(), "illum") {
            if words.len() < 2 {
                proof {
                    assert(mtl_line_fault(raw));
                }
                return Err(LoadError::MaterialParseError);
            }
            match parse_u8(words[1].as_slice()) {
                Some(x) => {
                    cur_mat.illumination_model = Some(x);
                },
                None => {
                    proof {
                        assert(words[1]@ == words_of(lv)[1]);
                        assert(mtl_line_fault(raw));
                    }
                    return Err(LoadError::MaterialParseError);
                },
            }
            proof {
                assert(words[1]@ == words_of(lv)[1]);
            }
        } else {
            // any other keyword is stored verbatim with its value
            let klen = kw.len();
            let rest = slice_from(line.as_slice(), klen);
            let val = trim_bytes(rest);
            proof {
                assert(val@ == mtl_rest(lv, kw@.len() as int));
            }
            cur_mat.unknown_param.insert(
                bytes_to_string(kw.as_slice()),
                bytes_to_string(val.as_slice()),
            );
        }
        proof {
            let stn = MtlFold {
                mats: mats_pure(materials@),
                map: mat_map@,
                cur: mat_pure(cur_mat),
            };
            assert(stn == mtl_step(st0, raw));
        }
    }
    proof {
        assert(mtl_fold_from(
            MtlFold { mats: mats_pure(materials@), map: mat_map@, cur: mat_pure(cur_mat) },
            lines_of(buf@),
            li as int,
        ) == MtlFold { mats: mats_pure(materials@), map: mat_map@, cur: mat_pure(cur_mat) });
    }
    let ghost stend = MtlFold {
        mats: mats_pure(materials@),
        map: mat_map@,
        cur: mat_pure(cur_mat),
    };
    if !string_is_empty(&cur_mat.name) {
        let idx = materials.len();
        let ghost oldmats = materials@;
        mat_map.insert(clone_string(&cur_mat.name), idx);
        materials.push(cur_mat);
        proof {
            assert(mats_pure(materials@) =~= mats_pure(oldmats).push(stend.cur));
        }
    }
    proof {
        let fin = mtl_finish(stend);
        assert(mats_pure(materials@) == fin.mats);
        assert(mat_map@ == fin.map);
        assert(forall|i: int|
            0 <= i < materials@.len() ==> mat_pure(#[trigger] materials@[i]) == fin.mats[i]);
    }
    Ok((materials, mat_map))
}

/// The rest of the line after the keyword, trimmed; `None` when empty,
/// as a texture statement must name a file.
fn texture_name(line: &[u8], skip: usize) -> (r: Option<String>)
    ensures
        r matches Some(t) ==> t@ == chars_of(mtl_rest(line@, skip as int)) && mtl_rest(
            line@,
            skip as int,
        ).len() > 0,
        r is None ==> mtl_rest(line@, skip as int).len() == 0,
{
    let rest = slice_from(line, skip);
    let t = trim_bytes(rest);
    proof {
        assert(t@ == mtl_rest(line@, skip as int));
    }
    if t.len() == 0 {
        None
    } else {
        Some(bytes_to_string(t.as_slice()))
    }
}

/// The bytes of `s` from `i` on, or an empty slice when `i` is past the
/// end.
pub fn slice_from<'a>(s: &'a [u8], i: usize) -> (r: &'a [u8])
    ensures
        i <= s@.len() ==> r@ == s@.skip(i as int),
        i > s@.len() ==> r@ == Seq::<u8>::empty(),
{
    if i >= s.len() {
        let e = vstd::slice::slice_subrange(s, 0, 0);
        proof {
            assert(e@ =~= Seq::<u8>::empty());
            if i <= s@.len() {
                assert(s@.skip(i as int) =~= Seq::<u8>::empty());
            }
        }
        e
    } else {
        let r = vstd::slice::slice_subrange(s, i, s.len());
        proof {
            assert(r@ =~= s@.skip(i as int));
        }
        r
    }
}

/// Relies on `String::is_empty`: whether the text has no characters.
#[verifier::external_body]
pub fn string_is_empty(s: &String) -> (r: bool)
    ensures
        r == (s@.len() == 0),
{
    s.is_empty()
}

/// Relies on `String::clone`: the copy holds the same text.
#[verifier::external_body]
pub fn clone_string(s: &String) -> (r: String)
    ensures
        r@ == s@,
{
    s.clone()
}

} // verus!
