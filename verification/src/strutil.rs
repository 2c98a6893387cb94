//! Byte-level string comparison and substring search.
//!
//! The catalog compares package names for exact equality, orders them
//! byte-lexicographically for search results, and matches search queries as
//! substrings. All three are implemented here over the UTF-8 bytes of the
//! strings and related back to the character views.

use vstd::prelude::*;
use vstd::utf8::encode_utf8_decode_utf8;
use vstd::string::StringSliceAdditionalSpecFns;

verus! {

/// Strict byte-lexicographic order: the order a relational catalog uses for
/// `name ASC` under a binary collation.
pub open spec fn lex_lt(a: Seq<u8>, b: Seq<u8>) -> bool
    decreases a.len(),
{
    if b.len() == 0 {
        false
    } else if a.len() == 0 {
        true
    } else if a[0] < b[0] {
        true
    } else if a[0] > b[0] {
        false
    } else {
        lex_lt(a.subrange(1, a.len() as int), b.subrange(1, b.len() as int))
    }
}

/// `n` occurs as a contiguous run inside `h`.
pub open spec fn contains_seq(h: Seq<u8>, n: Seq<u8>) -> bool {
    exists|i: int| 0 <= i && i + n.len() <= h.len() && #[trigger] h.subrange(i, i + n.len()) == n
}

/// ASCII case folding of one byte: the upper-case letters go to their
/// lower-case counterparts, everything else is kept. This is the folding a
/// relational catalog's `LIKE` applies.
pub open spec fn fold_byte(b: u8) -> u8 {
    if 65 <= b <= 90 {
        (b + 32) as u8
    } else {
        b
    }
}

/// ASCII case folding of a byte sequence.
pub open spec fn fold_bytes(s: Seq<u8>) -> Seq<u8> {
    s.map_values(|b: u8| fold_byte(b))
}

pub proof fn lemma_lex_lt_asymmetric(a: Seq<u8>, b: Seq<u8>)
    ensures
        !(lex_lt(a, b) && lex_lt(b, a)),
    decreases a.len(),
{
    if b.len() > 0 && a.len() > 0 && a[0] == b[0] {
        lemma_lex_lt_asymmetric(
            a.subrange(1, a.len() as int),
            b.subrange(1, b.len() as int),
        );
    }
}

pub proof fn lemma_lex_lt_total(a: Seq<u8>, b: Seq<u8>)
    ensures
        lex_lt(a, b) || lex_lt(b, a) || a == b,
    decreases a.len(),
{
    if a.len() == 0 && b.len() == 0 {
        assert(a =~= b);
    } else if a.len() > 0 && b.len() > 0 && a[0] == b[0] {
        let a1 = a.subrange(1, a.len() as int);
        let b1 = b.subrange(1, b.len() as int);
        lemma_lex_lt_total(a1, b1);
        if !lex_lt(a, b) && !lex_lt(b, a) {
            assert(a1 == b1);
            assert(a =~= seq![a[0]] + a1);
            assert(b =~= seq![b[0]] + b1);
        }
    }
}

pub proof fn lemma_lex_lt_transitive(a: Seq<u8>, b: Seq<u8>, c: Seq<u8>)
    requires
        lex_lt(a, b),
        lex_lt(b, c),
    ensures
        lex_lt(a, c),
    decreases a.len(),
{
    if a.len() > 0 && b.len() > 0 && c.len() > 0 {
        if a[0] == b[0] && b[0] == c[0] {
            lemma_lex_lt_transitive(
                a.subrange(1, a.len() as int),
                b.subrange(1, b.len() as int),
                c.subrange(1, c.len() as int),
            );
        }
    }
}

/// Byte equality of two slices.
fn bytes_eq(a: &[u8], b: &[u8]) -> (r: bool)
    ensures
        r == (a@ == b@),
{
    if a.len() != b.len() {
        assert(a@ != b@);
        return false;
    }
    let n = a.len();
    let mut i: usize = 0;
    while i < n
        invariant
            0 <= i <= n,
            n == a@.len() == b@.len(),
            forall|j: int| 0 <= j < i ==> a@[j] == b@[j],
        decreases n - i,
    {
        if a[i] != b[i] {
            return false;
        }
        i = i + 1;
    }
    assert(a@ =~= b@);
    true
}

/// Byte-lexicographic strict comparison of two slices.
fn bytes_lex_lt(a: &[u8], b: &[u8]) -> (r: bool)
    ensures
        r == lex_lt(a@, b@),
{
    let an = a.len();
    let bn = b.len();
    let mut i: usize = 0;
    proof {
        assert(a@.subrange(0, an as int) =~= a@);
        assert(b@.subrange(0, bn as int) =~= b@);
    }
    loop
        invariant
            0 <= i <= an,
            i <= bn,
            an == a@.len(),
            bn == b@.len(),
            lex_lt(a@, b@) == lex_lt(
                a@.subrange(i as int, an as int),
                b@.subrange(i as int, bn as int),
            ),
        decreases an - i,
    {
        let ghost ai = a@.subrange(i as int, an as int);
        let ghost bi = b@.subrange(i as int, bn as int);
        if i >= bn {
            assert(bi.len() == 0);
            return false;
        }
        if i >= an {
            assert(ai.len() == 0 && bi.len() > 0);
            return true;
        }
        if a[i] < b[i] {
            assert(ai[0] == a@[i as int] && bi[0] == b@[i as int]);
            return true;
        }
        if a[i] > b[i] {
            assert(ai[0] == a@[i as int] && bi[0] == b@[i as int]);
            return false;
        }
        proof {
            assert(ai[0] == bi[0]);
            assert(ai.subrange(1, ai.len() as int)
                =~= a@.subrange(i + 1, an as int));
            assert(bi.subrange(1, bi.len() as int)
                =~= b@.subrange(i + 1, bn as int));
        }
        i = i + 1;
    }
}

/// Does `n` occur as a contiguous run inside `h`?
fn bytes_contains(h: &[u8], n: &[u8]) -> (r: bool)
    ensures
        r == contains_seq(h@, n@),
{
    let hn = h.len();
    let nn = n.len();
    if nn > hn {
        return false;
    }
    if nn == 0 {
        assert(h@.subrange(0, 0 + n@.len() as int) =~= n@);
        return true;
    }
    let mut i: usize = 0;
    while i <= hn - nn
        invariant
            0 <= i <= hn - nn + 1,
            1 <= nn <= hn,
            hn == h@.len(),
            nn == n@.len(),
            forall|k: int| 0 <= k < i ==> #[trigger] h@.subrange(k, k + nn as int) != n@,
        decreases hn - i,
    {
        let mut j: usize = 0;
        let mut hit = true;
        proof {
            assert(h@.subrange(i as int, i as int) =~= n@.subrange(0, 0));
        }
        while j < nn
            invariant
                0 <= j <= nn,
                0 <= i <= hn - nn,
                hn == h@.len(),
                nn == n@.len(),
                hit == (h@.subrange(i as int, i + j as int)
                    == n@.subrange(0, j as int)),
            decreases nn - j,
        {
            let ghost pre_hit = hit;
            if h[i + j] != n[j] {
                hit = false;
            }
            proof {
                let g0 = h@.subrange(i as int, i + j as int);
                let g1 = h@.subrange(i as int, i + j + 1);
                let m0 = n@.subrange(0, j as int);
                let m1 = n@.subrange(0, j + 1);
                assert(g1 =~= g0.push(h@[i + j]));
                assert(m1 =~= m0.push(n@[j as int]));
                if pre_hit && h@[i + j] == n@[j as int] {
                    assert(g1 =~= m1);
                } else if g1 == m1 {
                    assert(g1.last() == m1.last());
                    assert(g1.drop_last() =~= g0 && m1.drop_last() =~= m0);
                    assert(false);
                }
            }
            j = j + 1;
        }
        proof {
            assert(n@.subrange(0, nn as int) =~= n@);
        }
        if hit {
            assert(h@.subrange(i as int, i + nn as int) == n@);
            return true;
        }
        i = i + 1;
    }
    assert forall|k: int| 0 <= k && k + n@.len() <= h@.len()
        implies #[trigger] h@.subrange(k, k + n@.len()) != n@ by {
        assert(0 <= k < i);
    }
    false
}

/// Exact string equality, decided on the UTF-8 bytes and carried back to the
/// character views through the injectivity of the encoding.
pub fn str_eq(a: &str, b: &str) -> (r: bool)
    ensures
        r == (a@ == b@),
{
    let r = bytes_eq(a.as_bytes(), b.as_bytes());
    proof {
        if a.spec_bytes() == b.spec_bytes() {
            encode_utf8_decode_utf8(a@);
            encode_utf8_decode_utf8(b@);
        }
    }
    r
}

/// Strict byte-lexicographic comparison of two strings.
pub fn str_lt(a: &str, b: &str) -> (r: bool)
    ensures
        r == lex_lt(a.spec_bytes(), b.spec_bytes()),
{
    bytes_lex_lt(a.as_bytes(), b.as_bytes())
}

/// The ASCII case folding of a byte slice.
fn fold_bytes_exec(a: &[u8]) -> (r: Vec<u8>)
    ensures
        r@ == fold_bytes(a@),
{
    let n = a.len();
    let mut r: Vec<u8> = Vec::new();
    let mut i: usize = 0;
    while i < n
        invariant
            0 <= i <= n,
            n == a@.len(),
            r@.len() == i,
            forall|j: int| 0 <= j < i ==> r@[j] == fold_byte(a@[j]),
        decreases n - i,
    {
        let b = a[i];
        let f: u8 = if 65 <= b && b <= 90 {
            b + 32
        } else {
            b
        };
        r.push(f);
        i = i + 1;
    }
    proof {
        assert(r@ =~= fold_bytes(a@));
    }
    r
}

/// Substring match on case-folded UTF-8 bytes: the test a catalog's
/// `LIKE '%q%'` filter performs under its default ASCII-case-insensitive
/// matching.
pub fn str_contains_fold(h: &str, n: &str) -> (r: bool)
    ensures
        r == contains_seq(fold_bytes(h.spec_bytes()), fold_bytes(n.spec_bytes())),
{
    let hf = fold_bytes_exec(h.as_bytes());
    let nf = fold_bytes_exec(n.as_bytes());
    bytes_contains(hf.as_slice(), nf.as_slice())
}

} // verus!
