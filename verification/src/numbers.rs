//! Exact decimal integer parsing for numeric tokens.  Non-integer scalar
//! tokens are read by caller-supplied readers and carried through the
//! library as opaque bit patterns.
use vstd::prelude::*;

verus! {

/// ASCII decimal digit.
pub open spec fn is_digit(b: u8) -> bool {
    0x30 <= b && b <= 0x39
}

/// Value of a string of decimal digits (most significant first).
pub open spec fn digits_val(s: Seq<u8>) -> int
    decreases s.len(),
{
    if s.len() == 0 {
        0
    } else {
        digits_val(s.drop_last()) * 10 + (s.last() - 0x30)
    }
}

pub open spec fn all_digits(s: Seq<u8>) -> bool {
    forall|i: int| 0 <= i < s.len() ==> is_digit(s[i])
}

pub proof fn lemma_digits_val_nonneg(s: Seq<u8>)
    requires
        all_digits(s),
    ensures
        digits_val(s) >= 0,
    decreases s.len(),
{
    if s.len() > 0 {
        lemma_digits_val_nonneg(s.drop_last());
    }
}

pub proof fn lemma_digits_val_push(s: Seq<u8>, d: u8)
    ensures
        digits_val(s.push(d)) == digits_val(s) * 10 + (d - 0x30),
{
    assert(s.push(d).drop_last() =~= s);
    assert(s.push(d).last() == d);
}

/// The digit body of an optionally signed token: one leading `+` or `-`
/// is stripped.
pub open spec fn signed_body(s: Seq<u8>) -> Seq<u8> {
    if s.len() > 0 && (s[0] == 0x2b || s[0] == 0x2d) {
        s.skip(1)
    } else {
        s
    }
}

pub open spec fn is_neg_token(s: Seq<u8>) -> bool {
    s.len() > 0 && s[0] == 0x2d
}

/// A valid signed decimal integer token: an optional sign followed by one
/// or more digits.
pub open spec fn signed_int_format_ok(s: Seq<u8>) -> bool {
    signed_body(s).len() > 0 && all_digits(signed_body(s))
}

pub open spec fn signed_int_val(s: Seq<u8>) -> int {
    if is_neg_token(s) {
        -digits_val(signed_body(s))
    } else {
        digits_val(signed_body(s))
    }
}

/// What parsing the token as a signed machine-word integer yields: the
/// token's value when it is well formed and fits, `None` otherwise.
pub open spec fn parse_isize_spec(s: Seq<u8>) -> Option<isize> {
    if signed_int_format_ok(s) && -(isize::MAX as int) - 1 <= signed_int_val(s) <= isize::MAX
        as int {
        Some(signed_int_val(s) as isize)
    } else {
        None
    }
}

/// Parses an optionally signed decimal integer, rejecting malformed
/// tokens and values out of range.
pub fn parse_isize(tok: &[u8]) -> (r: Option<isize>)
    ensures
        r == parse_isize_spec(tok@),
{
    let n = tok.len();
    let mut i: usize = 0;
    let mut neg = false;
    if n > 0 && (tok[0] == 0x2b || tok[0] == 0x2d) {
        neg = tok[0] == 0x2d;
        i = 1;
    }
    let start: usize = i;
    let ghost body = signed_body(tok@);
    proof {
        assert(body =~= tok@.skip(start as int));
    }
    if i >= n {
        return None;
    }
    // the magnitude cap: one past the largest magnitude any isize can have
    let cap: u128 = (isize::MAX as u128) + 1;
    let mut mag: u128 = 0;
    let mut big = false;
    while i < n
        invariant
            start <= i <= n,
            n == tok@.len(),
            body == signed_body(tok@),
            body == tok@.skip(start as int),
            body.len() == n - start,
            neg == is_neg_token(tok@),
            all_digits(body.take(i - start)),
            forall|j: int| 0 <= j < body.len() ==> body[j] == tok@[start + j],
            cap == (isize::MAX as u128) + 1,
            !big ==> mag == digits_val(body.take(i - start)) && mag <= cap,
            big ==> digits_val(body.take(i - start)) > cap,
        decreases n - i,
    {
        let b = tok[i];
        if b < 0x30 || b > 0x39 {
            proof {
                assert(body[i - start] == tok@[i as int]);
                assert(!all_digits(body));
            }
            return None;
        }
        let ghost prefix = body.take(i - start);
        proof {
            assert(body.take(i + 1 - start) =~= prefix.push(body[i - start]));
            lemma_digits_val_push(prefix, tok@[i as int]);
            lemma_digits_val_nonneg(prefix);
        }
        if big {
        } else {
            let d = (b - 0x30) as u128;
            let new = mag * 10 + d;
            if new > cap {
                big = true;
            } else {
                mag = new;
            }
        }
        i = i + 1;
    }
    proof {
        assert(body.take(i - start) =~= body);
        if !is_neg_token(tok@) {
            lemma_digits_val_nonneg(body);
        }
    }
    if big {
        return None;
    }
    if neg {
        if mag == cap {
            return Some(-isize::MAX - 1);
        }
        return Some(-(mag as isize));
    }
    if mag == cap {
        return None;
    }
    Some(mag as isize)
}

/// The digit body of an unsigned token: one leading `+` is stripped (a
/// minus sign is not accepted).
pub open spec fn unsigned_body(s: Seq<u8>) -> Seq<u8> {
    if s.len() > 0 && s[0] == 0x2b {
        s.skip(1)
    } else {
        s
    }
}

pub open spec fn unsigned_int_format_ok(s: Seq<u8>) -> bool {
    unsigned_body(s).len() > 0 && all_digits(unsigned_body(s))
}

/// What parsing the token as a `u8` yields.
pub open spec fn parse_u8_spec(s: Seq<u8>) -> Option<u8> {
    if unsigned_int_format_ok(s) && digits_val(unsigned_body(s)) <= 255 {
        Some(digits_val(unsigned_body(s)) as u8)
    } else {
        None
    }
}

/// Parses an unsigned decimal integer that must fit in a byte.
pub fn parse_u8(tok: &[u8]) -> (r: Option<u8>)
    ensures
        r == parse_u8_spec(tok@),
{
    let n = tok.len();
    let mut i: usize = 0;
    if n > 0 && tok[0] == 0x2b {
        i = 1;
    }
    let start: usize = i;
    let ghost body = unsigned_body(tok@);
    proof {
        assert(body =~= tok@.skip(start as int));
    }
    if i >= n {
        return None;
    }
    let mut mag: u32 = 0;
    let mut big = false;
    while i < n
        invariant
            start <= i <= n,
            n == tok@.len(),
            body == unsigned_body(tok@),
            body == tok@.skip(start as int),
            body.len() == n - start,
            all_digits(body.take(i - start)),
            forall|j: int| 0 <= j < body.len() ==> body[j] == tok@[start + j],
            !big ==> mag == digits_val(body.take(i - start)) && mag <= 255,
            big ==> digits_val(body.take(i - start)) > 255,
        decreases n - i,
    {
        let b = tok[i];
        if b < 0x30 || b > 0x39 {
            proof {
                assert(body[i - start] == tok@[i as int]);
                assert(!all_digits(body));
            }
            return None;
        }
        let ghost prefix = body.take(i - start);
        proof {
            assert(body.take(i + 1 - start) =~= prefix.push(body[i - start]));
            lemma_digits_val_push(prefix, tok@[i as int]);
            lemma_digits_val_nonneg(prefix);
        }
        if big {
        } else {
            let d = (b - 0x30) as u32;
            let new = mag * 10 + d;
            if new > 255 {
                big = true;
            } else {
                mag = new;
            }
        }
        i = i + 1;
    }
    proof {
        assert(body.take(i - start) =~= body);
    }
    if big {
        return None;
    }
    Some(mag as u8)
}

} // verus!
