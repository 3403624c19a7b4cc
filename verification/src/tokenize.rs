//! Splitting raw input bytes into lines, whitespace-separated words and
//! separator-delimited fields.
use vstd::prelude::*;

verus! {

/// ASCII whitespace: space, horizontal tab, line feed, vertical tab, form
/// feed and carriage return.
pub open spec fn is_ws(b: u8) -> bool {
    b == 0x20 || (0x09 <= b && b <= 0x0d)
}

/// Executable test for [`is_ws`].
pub fn is_ws_exec(b: u8) -> (r: bool)
    ensures
        r == is_ws(b),
{
    b == 0x20 || (0x09 <= b && b <= 0x0d)
}

/// Index of the first occurrence of `sep` in `s`, or `s.len()` if absent.
pub open spec fn find_byte(s: Seq<u8>, sep: u8) -> int
    decreases s.len(),
{
    if s.len() == 0 {
        0
    } else if s[0] == sep {
        0
    } else {
        1 + find_byte(s.skip(1), sep)
    }
}

pub proof fn lemma_find_byte(s: Seq<u8>, sep: u8)
    ensures
        0 <= find_byte(s, sep) <= s.len(),
        find_byte(s, sep) < s.len() ==> s[find_byte(s, sep)] == sep,
        forall|i: int| 0 <= i < find_byte(s, sep) ==> s[i] != sep,
    decreases s.len(),
{
    if s.len() == 0 {
    } else if s[0] == sep {
    } else {
        lemma_find_byte(s.skip(1), sep);
        assert forall|i: int| 0 <= i < find_byte(s, sep) implies s[i] != sep by {
            if i > 0 {
                assert(s.skip(1)[i - 1] == s[i]);
            }
        }
    }
}

/// `find_byte` is determined by the first position of `sep`.
pub proof fn lemma_find_byte_at(s: Seq<u8>, sep: u8, i: int)
    requires
        0 <= i <= s.len(),
        i < s.len() ==> s[i] == sep,
        forall|j: int| 0 <= j < i ==> s[j] != sep,
        i == s.len() ==> forall|j: int| 0 <= j < s.len() ==> s[j] != sep,
    ensures
        find_byte(s, sep) == i,
{
    lemma_find_byte(s, sep);
    let f = find_byte(s, sep);
    if f < i {
        assert(s[f] == sep);
    } else if i < f {
        assert(i < s.len());
    }
}

/// The fields of `s` delimited by `sep`: always one more field than there
/// are separators, fields may be empty.
pub open spec fn split_bytes(s: Seq<u8>, sep: u8) -> Seq<Seq<u8>>
    decreases s.len(),
    via split_bytes_decreases
{
    let i = find_byte(s, sep);
    if i == s.len() {
        seq![s]
    } else {
        seq![s.take(i)] + split_bytes(s.skip(i + 1), sep)
    }
}

#[via_fn]
proof fn split_bytes_decreases(s: Seq<u8>, sep: u8) {
    lemma_find_byte(s, sep);
}

pub proof fn lemma_split_bytes_len(s: Seq<u8>, sep: u8)
    ensures
        split_bytes(s, sep).len() >= 1,
    decreases s.len(),
{
    lemma_find_byte(s, sep);
    let i = find_byte(s, sep);
    if i != s.len() {
        lemma_split_bytes_len(s.skip(i + 1), sep);
    }
}

/// Splitting a sequence whose prefix up to a separator at `i` is
/// separator-free peels off exactly that prefix.
pub proof fn lemma_split_bytes_step(s: Seq<u8>, sep: u8, i: int)
    requires
        0 <= i < s.len(),
        s[i] == sep,
        forall|j: int| 0 <= j < i ==> s[j] != sep,
    ensures
        split_bytes(s, sep) == seq![s.take(i)] + split_bytes(s.skip(i + 1), sep),
{
    lemma_find_byte_at(s, sep, i);
}

/// Splitting a separator-free sequence yields that one field.
pub proof fn lemma_split_bytes_whole(s: Seq<u8>, sep: u8)
    requires
        forall|j: int| 0 <= j < s.len() ==> s[j] != sep,
    ensures
        split_bytes(s, sep) == seq![s],
{
    lemma_find_byte_at(s, sep, s.len() as int);
}

/// Splits `s` at every occurrence of `sep`.
pub fn split_bytes_exec(s: &[u8], sep: u8) -> (r: Vec<Vec<u8>>)
    ensures
        r.deep_view() == split_bytes(s@, sep),
{
    let mut done: Vec<Vec<u8>> = Vec::new();
    let mut field: Vec<u8> = Vec::new();
    let mut i: usize = 0;
    proof {
        assert(s@.skip(0) == s@);
    }
    while i < s.len()
        invariant
            0 <= i <= s@.len(),
            field@.len() <= i,
            field@ =~= s@.subrange(i - field@.len(), i as int),
            forall|j: int| 0 <= j < field@.len() ==> field@[j] != sep,
            split_bytes(s@, sep) == done.deep_view() + split_bytes(
                s@.skip(i - field@.len()),
                sep,
            ),
        decreases s@.len() - i,
    {
        let b = s[i];
        if b == sep {
            let ghost start = i - field@.len();
            let ghost olddv = done.deep_view();
            let ghost fv = field@;
            proof {
                let tail = s@.skip(start);
                assert forall|j: int| 0 <= j < fv.len() implies tail[j] == fv[j] by {
                    assert(tail[j] == s@[start + j]);
                    assert(fv[j] == s@[start + j]);
                }
                assert(tail.take(fv.len() as int) =~= fv);
                assert(tail[fv.len() as int] == s@[i as int]);
                lemma_split_bytes_step(tail, sep, fv.len() as int);
                assert(tail.skip(fv.len() as int + 1) =~= s@.skip(i + 1));
                assert(split_bytes(s@, sep) == olddv + (seq![fv] + split_bytes(
                    s@.skip(i + 1),
                    sep,
                )));
            }
            done.push(field);
            field = Vec::new();
            proof {
                assert(done.deep_view() =~~= olddv + seq![fv]);
                assert(done.deep_view() + split_bytes(s@.skip(i + 1), sep) =~= olddv + (seq![fv]
                    + split_bytes(s@.skip(i + 1), sep)));
            }
        } else {
            field.push(b);
        }
        i = i + 1;
        proof {
            assert(field@ =~= s@.subrange(i - field@.len(), i as int));
        }
    }
    proof {
        let tail = s@.skip(i - field@.len());
        assert forall|j: int| 0 <= j < field@.len() implies tail[j] == field@[j] by {
            assert(tail[j] == s@[i - field@.len() + j]);
        }
        assert(tail =~= field@);
        lemma_split_bytes_whole(tail, sep);
        assert(split_bytes(tail, sep) == seq![tail]);
    }
    let ghost olddv = done.deep_view();
    let ghost fv = field@;
    done.push(field);
    proof {
        assert(done.deep_view() =~~= olddv + seq![fv]);
        assert(done.deep_view() =~~= split_bytes(s@, sep));
    }
    done
}

/// Index of the first whitespace byte in `s`, or `s.len()` if none.
pub open spec fn find_ws(s: Seq<u8>) -> int
    decreases s.len(),
{
    if s.len() == 0 {
        0
    } else if is_ws(s[0]) {
        0
    } else {
        1 + find_ws(s.skip(1))
    }
}

pub proof fn lemma_find_ws(s: Seq<u8>)
    ensures
        0 <= find_ws(s) <= s.len(),
        find_ws(s) < s.len() ==> is_ws(s[find_ws(s)]),
        forall|i: int| 0 <= i < find_ws(s) ==> !is_ws(s[i]),
    decreases s.len(),
{
    if s.len() == 0 {
    } else if is_ws(s[0]) {
    } else {
        lemma_find_ws(s.skip(1));
        assert forall|i: int| 0 <= i < find_ws(s) implies !is_ws(s[i]) by {
            if i > 0 {
                assert(s.skip(1)[i - 1] == s[i]);
            }
        }
    }
}

pub proof fn lemma_find_ws_at(s: Seq<u8>, i: int)
    requires
        0 <= i <= s.len(),
        i < s.len() ==> is_ws(s[i]),
        forall|j: int| 0 <= j < i ==> !is_ws(s[j]),
        i == s.len() ==> forall|j: int| 0 <= j < s.len() ==> !is_ws(s[j]),
    ensures
        find_ws(s) == i,
{
    lemma_find_ws(s);
    let f = find_ws(s);
    if f < i {
        assert(is_ws(s[f]));
    } else if i < f {
        assert(i < s.len());
    }
}

/// The maximal runs of non-whitespace bytes of `s`, in order.
pub open spec fn words_of(s: Seq<u8>) -> Seq<Seq<u8>>
    decreases s.len(),
    via words_of_decreases
{
    if s.len() == 0 {
        seq![]
    } else if is_ws(s[0]) {
        words_of(s.skip(1))
    } else {
        let i = find_ws(s);
        seq![s.take(i)] + words_of(s.skip(i))
    }
}

#[via_fn]
proof fn words_of_decreases(s: Seq<u8>) {
    lemma_find_ws(s);
    if s.len() > 0 && !is_ws(s[0]) {
        assert(find_ws(s) >= 1);
    }
}

/// Consuming a leading whitespace byte leaves the words unchanged.
pub proof fn lemma_words_skip_ws(s: Seq<u8>)
    requires
        s.len() > 0,
        is_ws(s[0]),
    ensures
        words_of(s) == words_of(s.skip(1)),
{
}

/// A word is peeled off at a maximal non-whitespace run.
pub proof fn lemma_words_step(s: Seq<u8>, i: int)
    requires
        0 < i <= s.len(),
        !is_ws(s[0]),
        forall|j: int| 0 <= j < i ==> !is_ws(s[j]),
        i < s.len() ==> is_ws(s[i]),
    ensures
        words_of(s) == seq![s.take(i)] + words_of(s.skip(i)),
{
    lemma_find_ws_at(s, i);
}

/// Splits `s` into its whitespace-separated words.
pub fn words_exec(s: &[u8]) -> (r: Vec<Vec<u8>>)
    ensures
        r.deep_view() == words_of(s@),
{
    let mut done: Vec<Vec<u8>> = Vec::new();
    let mut word: Vec<u8> = Vec::new();
    let mut i: usize = 0;
    proof {
        assert(s@.skip(0) == s@);
    }
    while i < s.len()
        invariant
            0 <= i <= s@.len(),
            word@.len() <= i,
            word@ =~= s@.subrange(i - word@.len(), i as int),
            forall|j: int| 0 <= j < word@.len() ==> !is_ws(word@[j]),
            words_of(s@) == done.deep_view() + words_of(s@.skip(i - word@.len())),
        decreases s@.len() - i,
    {
        let b = s[i];
        if is_ws_exec(b) {
            if word.len() > 0 {
                let ghost start = i - word@.len();
                let ghost olddv = done.deep_view();
                let ghost wv = word@;
                proof {
                    let tail = s@.skip(start);
                    assert forall|j: int| 0 <= j < wv.len() implies tail[j] == wv[j] by {
                        assert(tail[j] == s@[start + j]);
                        assert(wv[j] == s@[start + j]);
                    }
                    assert(tail.take(wv.len() as int) =~= wv);
                    assert(tail[wv.len() as int] == s@[i as int]);
                    lemma_words_step(tail, wv.len() as int);
                    assert(tail.skip(wv.len() as int) =~= s@.skip(i as int));
                    assert(words_of(s@) == olddv + (seq![wv] + words_of(s@.skip(i as int))));
                }
                done.push(word);
                word = Vec::new();
                proof {
                    assert(done.deep_view() =~~= olddv + seq![wv]);
                    assert(done.deep_view() + words_of(s@.skip(i as int)) =~= olddv + (seq![wv]
                        + words_of(s@.skip(i as int))));
                }
            }
            proof {
                let tail = s@.skip(i as int);
                assert(tail[0] == s@[i as int]);
                lemma_words_skip_ws(tail);
                assert(tail.skip(1) =~= s@.skip(i + 1));
            }
        } else {
            word.push(b);
        }
        i = i + 1;
        proof {
            assert(word@ =~= s@.subrange(i - word@.len(), i as int));
        }
    }
    if word.len() > 0 {
        let ghost start = i - word@.len();
        let ghost olddv = done.deep_view();
        let ghost wv = word@;
        proof {
            let tail = s@.skip(start);
            assert forall|j: int| 0 <= j < wv.len() implies tail[j] == wv[j] by {
                assert(tail[j] == s@[start + j]);
            }
            assert(tail =~= wv);
            lemma_words_step(tail, wv.len() as int);
            assert(tail.take(wv.len() as int) =~= wv);
            assert(tail.skip(wv.len() as int) =~= Seq::<u8>::empty());
            assert(words_of(Seq::<u8>::empty()) =~= Seq::<Seq<u8>>::empty());
        }
        done.push(word);
        proof {
            assert(done.deep_view() =~~= olddv + seq![wv]);
            assert(done.deep_view() =~~= words_of(s@));
        }
    } else {
        proof {
            assert(s@.skip(i as int) =~= Seq::<u8>::empty());
            assert(words_of(s@) =~~= done.deep_view() + words_of(Seq::<u8>::empty()));
            assert(done.deep_view() =~~= words_of(s@));
        }
    }
    done
}

/// A line piece with one trailing carriage return removed.
pub open spec fn strip_cr(s: Seq<u8>) -> Seq<u8> {
    if s.len() > 0 && s[s.len() - 1] == 0x0d {
        s.drop_last()
    } else {
        s
    }
}

/// The lines of `buf`: pieces delimited by line feeds, each piece that was
/// terminated by a line feed having one trailing carriage return removed,
/// and a final empty piece (from a trailing line feed, or an empty buffer)
/// dropped.
pub open spec fn lines_of(buf: Seq<u8>) -> Seq<Seq<u8>> {
    let ps = split_bytes(buf, 0x0a);
    let n = if ps[ps.len() - 1].len() == 0 {
        ps.len() - 1
    } else {
        ps.len() as int
    };
    Seq::new(n as nat, |i: int| if i < ps.len() - 1 {
        strip_cr(ps[i])
    } else {
        ps[i]
    })
}

/// Splits `buf` into lines as [`lines_of`] describes.
pub fn lines_exec(buf: &[u8]) -> (r: Vec<Vec<u8>>)
    ensures
        r.deep_view() == lines_of(buf@),
{
    let mut ps = split_bytes_exec(buf, 0x0a);
    proof {
        lemma_split_bytes_len(buf@, 0x0a);
        assert(ps.deep_view().len() == ps@.len());
    }
    let last = ps.len() - 1;
    if ps[last].len() == 0 {
        let _ = ps.pop();
    } else {
        // the final piece was not terminated by a line feed and keeps any
        // trailing carriage return
        let n = ps.len();
        let mut out: Vec<Vec<u8>> = Vec::new();
        let mut i: usize = 0;
        while i < n - 1
            invariant
                0 <= i <= n - 1,
                n == ps@.len(),
                n >= 1,
                out.deep_view() =~~= Seq::new(i as nat, |j: int| strip_cr(ps.deep_view()[j])),
            decreases n - 1 - i,
        {
            let mut p = ps[i].clone();
            proof {
                assert(p@ =~= ps.deep_view()[i as int]);
            }
            if p.len() > 0 {
                if p[p.len() - 1] == 0x0d {
                    let _ = p.pop();
                }
            }
            proof {
                assert(p@ =~= strip_cr(ps.deep_view()[i as int]));
            }
            let ghost olddv = out.deep_view();
            let ghost pv = p@;
            out.push(p);
            i = i + 1;
            proof {
                assert(out.deep_view() =~~= olddv.push(pv));
                assert(out.deep_view() =~~= Seq::new(i as nat, |j: int| strip_cr(ps.deep_view()[j])));
            }
        }
        let lastv = ps[n - 1].clone();
        let ghost olddv = out.deep_view();
        let ghost lv = lastv@;
        proof {
            assert(lv =~= ps.deep_view()[n - 1]);
        }
        out.push(lastv);
        proof {
            assert(out.deep_view() =~~= olddv.push(lv));
            assert(out.deep_view() =~~= lines_of(buf@));
        }
        return out;
    }
    // every remaining piece was terminated by a line feed
    let n = ps.len();
    let ghost ops = split_bytes(buf@, 0x0a);
    let mut out: Vec<Vec<u8>> = Vec::new();
    let mut i: usize = 0;
    while i < n
        invariant
            0 <= i <= n,
            n == ps@.len(),
            ps.deep_view() =~~= ops.take(n as int),
            n == ops.len() - 1,
            out.deep_view() =~~= Seq::new(i as nat, |j: int| strip_cr(ops[j])),
        decreases n - i,
    {
        let mut p = ps[i].clone();
        proof {
            assert(p@ =~= ps.deep_view()[i as int]);
        }
        if p.len() > 0 {
            if p[p.len() - 1] == 0x0d {
                let _ = p.pop();
            }
        }
        proof {
            assert(p@ =~= strip_cr(ops[i as int]));
        }
        let ghost olddv = out.deep_view();
        let ghost pv = p@;
        out.push(p);
        i = i + 1;
        proof {
            assert(out.deep_view() =~~= olddv.push(pv));
            assert(out.deep_view() =~~= Seq::new(i as nat, |j: int| strip_cr(ops[j])));
        }
    }
    proof {
        assert(out.deep_view() =~~= lines_of(buf@));
    }
    out
}


/// The bytes of an ASCII keyword text, one byte per character.
pub open spec fn kwb(s: Seq<char>) -> Seq<u8> {
    s.map_values(|c: char| c as u8)
}

/// The line's first whitespace-separated word is the given keyword.
pub open spec fn line_keyword_is(l: Seq<u8>, k: Seq<char>) -> bool {
    words_of(l).len() > 0 && words_of(l)[0] == kwb(k)
}

} // verus!
