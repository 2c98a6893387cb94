//! Catalog search: ASCII-case-insensitive substring match over name and
//! description, ordered by downloads descending with ties broken by
//! byte-wise name ascending — a user-visible contract, stated here as a
//! ranking of row indices.

use crate::catalog::Catalog;
use crate::models::{copy_crate, crate_like, Crate};
use crate::strutil::{
    contains_seq, fold_bytes, lemma_lex_lt_asymmetric, lemma_lex_lt_total, lemma_lex_lt_transitive,
    lex_lt, str_contains_fold, str_lt,
};
use vstd::prelude::*;
use vstd::string::StringSliceAdditionalSpecFns;
use vstd::utf8::{encode_utf8, encode_utf8_decode_utf8};

verus! {

/// The row matches the query: the case-folded query bytes occur in the
/// case-folded name or description, when one is present — matching is
/// ASCII-case-insensitive, as a catalog's `LIKE` filter is.
pub open spec fn crate_matches(c: Crate, q: Seq<u8>) -> bool {
    ||| contains_seq(fold_bytes(encode_utf8(c.name@)), fold_bytes(q))
    ||| (c.description is Some && contains_seq(
        fold_bytes(encode_utf8(c.description->0@)),
        fold_bytes(q),
    ))
}

/// How many rows of `s` match `q`.
pub open spec fn match_count(s: Seq<Crate>, q: Seq<u8>) -> int
    decreases s.len(),
{
    if s.len() == 0 {
        0
    } else {
        match_count(s.drop_last(), q) + if crate_matches(s.last(), q) {
            1int
        } else {
            0int
        }
    }
}

/// Strict result order: more downloads first, ties broken by byte-wise
/// smaller name first.
pub open spec fn rank_before(a: Crate, b: Crate) -> bool {
    ||| a.downloads > b.downloads
    ||| (a.downloads == b.downloads && lex_lt(encode_utf8(a.name@), encode_utf8(b.name@)))
}

/// Non-strict result order.
pub open spec fn rank_le(a: Crate, b: Crate) -> bool {
    !rank_before(b, a)
}

pub proof fn lemma_rank_before_implies_le(a: Crate, b: Crate)
    requires
        rank_before(a, b),
    ensures
        rank_le(a, b),
{
    lemma_lex_lt_asymmetric(encode_utf8(a.name@), encode_utf8(b.name@));
}

pub proof fn lemma_rank_le_transitive(a: Crate, b: Crate, c: Crate)
    requires
        rank_le(a, b),
        rank_le(b, c),
    ensures
        rank_le(a, c),
{
    let na = encode_utf8(a.name@);
    let nb = encode_utf8(b.name@);
    let nc = encode_utf8(c.name@);
    if rank_before(c, a) {
        if c.downloads == a.downloads && a.downloads == b.downloads {
            lemma_lex_lt_total(nb, na);
            lemma_lex_lt_total(nc, nb);
            if lex_lt(nc, nb) {
            } else if lex_lt(nb, na) {
            } else {
                assert(nb == na || lex_lt(na, nb));
                assert(nc == nb || lex_lt(nb, nc));
                if lex_lt(na, nb) && lex_lt(nb, nc) {
                    lemma_lex_lt_transitive(na, nb, nc);
                    lemma_lex_lt_asymmetric(na, nc);
                } else {
                    lemma_lex_lt_asymmetric(nc, na);
                }
            }
        }
    }
}

/// Two rows neither of which ranks before the other have the same downloads
/// count and the same name.
pub proof fn lemma_rank_tie(a: Crate, b: Crate)
    requires
        rank_le(a, b),
        rank_le(b, a),
    ensures
        a.downloads == b.downloads,
        a.name@ == b.name@,
{
    let na = encode_utf8(a.name@);
    let nb = encode_utf8(b.name@);
    lemma_lex_lt_total(na, nb);
    assert(na == nb);
    encode_utf8_decode_utf8(a.name@);
    encode_utf8_decode_utf8(b.name@);
}

impl Catalog {
    /// `idxs` ranks the catalog for `q`: it lists exactly the indices of the
    /// matching rows, in strict result order.
    pub open spec fn is_ranking(self, q: Seq<u8>, idxs: Seq<usize>) -> bool {
        &&& forall|i: int|
            0 <= i < idxs.len() ==> (#[trigger] idxs[i]) < self.crates@.len() && crate_matches(
                self.crates@[idxs[i] as int],
                q,
            )
        &&& forall|i: int, k: int|
            0 <= i < k < idxs.len() ==> rank_before(
                self.crates@[idxs[i] as int],
                self.crates@[idxs[k] as int],
            )
        &&& forall|j: int|
            0 <= j < self.crates@.len() && crate_matches(#[trigger] self.crates@[j], q)
                ==> idxs.contains(j as usize)
    }
}

/// Decides `crate_matches`.
fn crate_matches_exec(c: &Crate, query: &str) -> (r: bool)
    ensures
        r == crate_matches(*c, query.spec_bytes()),
{
    if str_contains_fold(c.name.as_str(), query) {
        return true;
    }
    match &c.description {
        Some(d) => str_contains_fold(d.as_str(), query),
        None => false,
    }
}

/// Decides `rank_before`.
fn rank_before_exec(a: &Crate, b: &Crate) -> (r: bool)
    ensures
        r == rank_before(*a, *b),
{
    if a.downloads > b.downloads {
        true
    } else if a.downloads < b.downloads {
        false
    } else {
        str_lt(a.name.as_str(), b.name.as_str())
    }
}

impl Catalog {
    /// The matching row indices in strict result order; their number is the
    /// match count.
    #[verifier::loop_isolation(false)]
    fn ranked(&self, query: &str) -> (r: Vec<usize>)
        requires
            self.wf(),
        ensures
            self.is_ranking(query.spec_bytes(), r@),
            r@.len() == match_count(self.crates@, query.spec_bytes()),
    {
        let ghost q = query.spec_bytes();
        let n = self.crates.len();
        let mut idxs: Vec<usize> = Vec::new();
        let mut i: usize = 0;
        proof {
            assert(self.crates@.subrange(0, 0) =~= Seq::<Crate>::empty());
        }
        while i < n
            invariant
                0 <= i <= n,
                forall|t: int| 0 <= t < idxs@.len() ==> (#[trigger] idxs@[t]) < i,
                forall|t: int|
                    0 <= t < idxs@.len() ==> crate_matches(
                        self.crates@[(#[trigger] idxs@[t]) as int],
                        q,
                    ),
                forall|t: int, u: int| 0 <= t < u < idxs@.len() ==> idxs@[t] < idxs@[u],
                forall|j: int|
                    0 <= j < i && crate_matches(#[trigger] self.crates@[j], q) ==> idxs@.contains(
                        j as usize,
                    ),
                idxs@.len() == match_count(self.crates@.subrange(0, i as int), q),
            decreases n - i,
        {
            proof {
                assert(self.crates@.subrange(0, i + 1).drop_last() =~= self.crates@.subrange(
                    0,
                    i as int,
                ));
                assert(self.crates@.subrange(0, i + 1).last() == self.crates@[i as int]);
            }
            if crate_matches_exec(&self.crates[i], query) {
                let ghost before = idxs@;
                idxs.push(i);
                proof {
                    assert(idxs@.last() == i as usize);
                    assert forall|j: int|
                        0 <= j < i + 1 && crate_matches(#[trigger] self.crates@[j], q)
                        implies idxs@.contains(j as usize) by {
                        if j < i {
                            let t = choose|t: int|
                                0 <= t < before.len() && before[t] == j as usize;
                            assert(idxs@[t] == j as usize);
                        } else {
                            assert(idxs@[idxs@.len() - 1] == j as usize);
                        }
                    }
                }
            }
            i = i + 1;
        }
        proof {
            assert(self.crates@.subrange(0, n as int) =~= self.crates@);
        }
        // insertion sort into strict result order
        let m = idxs.len();
        let mut s: usize = 0;
        while s < m
            invariant
                0 <= s <= m,
                idxs@.len() == m,
                forall|t: int| 0 <= t < m ==> (#[trigger] idxs@[t]) < n,
                forall|t: int|
                    0 <= t < m ==> crate_matches(self.crates@[(#[trigger] idxs@[t]) as int], q),
                forall|t: int, u: int| 0 <= t < m && 0 <= u < m && t != u ==> idxs@[t] != idxs@[u],
                forall|j: int|
                    0 <= j < n && crate_matches(#[trigger] self.crates@[j], q) ==> idxs@.contains(
                        j as usize,
                    ),
                forall|t: int, u: int|
                    0 <= t < u < s ==> rank_le(
                        self.crates@[idxs@[t] as int],
                        self.crates@[idxs@[u] as int],
                    ),
            decreases m - s,
        {
            let mut j: usize = s;
            #[verifier::loop_isolation(true)]
            loop
                invariant
                    0 <= j <= s < m,
                    idxs@.len() == m,
                    n == self.crates@.len(),
                    forall|t: int| 0 <= t < m ==> (#[trigger] idxs@[t]) < n,
                    forall|t: int|
                        0 <= t < m ==> crate_matches(self.crates@[(#[trigger] idxs@[t]) as int], q),
                    forall|t: int, u: int|
                        0 <= t < m && 0 <= u < m && t != u ==> idxs@[t] != idxs@[u],
                    forall|jj: int|
                        0 <= jj < n && crate_matches(#[trigger] self.crates@[jj], q)
                            ==> idxs@.contains(jj as usize),
                    forall|t: int, u: int|
                        0 <= t < u <= s && u != j ==> rank_le(
                            self.crates@[idxs@[t] as int],
                            self.crates@[idxs@[u] as int],
                        ),
                ensures
                    j == 0 || rank_le(
                        self.crates@[idxs@[j - 1] as int],
                        self.crates@[idxs@[j as int] as int],
                    ),
                decreases j,
            {
                if j == 0 {
                    break ;
                }
                let a = idxs[j];
                let b = idxs[j - 1];
                if !rank_before_exec(&self.crates[a], &self.crates[b]) {
                    break ;
                }
                let ghost before = idxs@;
                idxs[j - 1] = a;
                idxs[j] = b;
                proof {
                    lemma_rank_before_implies_le(
                        self.crates@[a as int],
                        self.crates@[b as int],
                    );
                    assert forall|jj: int|
                        0 <= jj < n && crate_matches(#[trigger] self.crates@[jj], q)
                        implies idxs@.contains(jj as usize) by {
                        let t = choose|t: int|
                            0 <= t < before.len() && before[t] == jj as usize;
                        if t == j - 1 {
                            assert(idxs@[j as int] == jj as usize);
                        } else if t == j {
                            assert(idxs@[j - 1] == jj as usize);
                        } else {
                            assert(idxs@[t] == jj as usize);
                        }
                    }
                }
                j = j - 1;
            }
            proof {
                // the prefix [0, s] is now sorted
                assert forall|t: int, u: int| 0 <= t < u <= s implies rank_le(
                    self.crates@[idxs@[t] as int],
                    self.crates@[idxs@[u] as int],
                ) by {
                    if u == j && j > 0 {
                        assert(rank_le(
                            self.crates@[idxs@[j - 1] as int],
                            self.crates@[idxs@[j as int] as int],
                        ));
                        if t < j - 1 {
                            assert(rank_le(
                                self.crates@[idxs@[t] as int],
                                self.crates@[idxs@[j - 1] as int],
                            ));
                            lemma_rank_le_transitive(
                                self.crates@[idxs@[t] as int],
                                self.crates@[idxs@[j - 1] as int],
                                self.crates@[idxs@[j as int] as int],
                            );
                        }
                    }
                }
            }
            s = s + 1;
        }
        proof {
            // distinct indices and unique names upgrade the order to strict
            assert forall|t: int, u: int| 0 <= t < u < idxs@.len() implies rank_before(
                self.crates@[idxs@[t] as int],
                self.crates@[idxs@[u] as int],
            ) by {
                let a = self.crates@[idxs@[t] as int];
                let b = self.crates@[idxs@[u] as int];
                assert(rank_le(a, b));
                if !rank_before(a, b) {
                    lemma_rank_tie(a, b);
                    let ia = idxs@[t] as int;
                    let ib = idxs@[u] as int;
                    if ia < ib {
                        assert(self.crates@[ia].name@ != self.crates@[ib].name@);
                    } else if ib < ia {
                        assert(self.crates@[ib].name@ != self.crates@[ia].name@);
                    }
                }
            }
        }
        idxs
    }

    /// Substring search with pagination: the page `[offset, offset + limit)`
    /// of the ranked matching rows, as copies.
    pub fn search_crates(&self, query: &str, limit: usize, offset: usize) -> (r: Vec<Crate>)
        requires
            self.wf(),
        ensures
            exists|idxs: Seq<usize>|
                {
                    &&& #[trigger] self.is_ranking(query.spec_bytes(), idxs)
                    &&& idxs.len() == match_count(self.crates@, query.spec_bytes())
                    &&& r@.len() == if offset < idxs.len() {
                        if limit <= idxs.len() - offset {
                            limit as int
                        } else {
                            idxs.len() - offset
                        }
                    } else {
                        0
                    }
                    &&& forall|t: int|
                        0 <= t < r@.len() ==> crate_like(
                            self.crates@[idxs[offset + t] as int],
                            #[trigger] r@[t],
                        )
                },
    {
        let idxs = self.ranked(query);
        let total = idxs.len();
        let end_len: usize = if offset < total {
            let rest = total - offset;
            if limit <= rest {
                limit
            } else {
                rest
            }
        } else {
            0
        };
        let mut r: Vec<Crate> = Vec::new();
        let mut t: usize = 0;
        while t < end_len
            invariant
                0 <= t <= end_len,
                end_len <= idxs@.len() - offset || end_len == 0,
                offset + end_len <= idxs@.len() || end_len == 0,
                idxs@.len() == total,
                self.wf(),
                self.is_ranking(query.spec_bytes(), idxs@),
                r@.len() == t,
                forall|u: int|
                    0 <= u < t ==> crate_like(
                        self.crates@[idxs@[offset + u] as int],
                        #[trigger] r@[u],
                    ),
            decreases end_len - t,
        {
            let k = idxs[offset + t];
            r.push(copy_crate(&self.crates[k]));
            t = t + 1;
        }
        r
    }

    /// The number of rows matching `query`, independent of any page bounds.
    #[verifier::loop_isolation(false)]
    pub fn count_search_results(&self, query: &str) -> (r: u64)
        ensures
            r == match_count(self.crates@, query.spec_bytes()),
    {
        let ghost q = query.spec_bytes();
        let n = self.crates.len();
        let mut count: usize = 0;
        let mut i: usize = 0;
        proof {
            assert(self.crates@.subrange(0, 0) =~= Seq::<Crate>::empty());
        }
        while i < n
            invariant
                0 <= i <= n,
                n == self.crates@.len(),
                count <= i,
                count == match_count(self.crates@.subrange(0, i as int), q),
            decreases n - i,
        {
            proof {
                assert(self.crates@.subrange(0, i + 1).drop_last() =~= self.crates@.subrange(
                    0,
                    i as int,
                ));
                assert(self.crates@.subrange(0, i + 1).last() == self.crates@[i as int]);
            }
            if crate_matches_exec(&self.crates[i], query) {
                count = count + 1;
            }
            i = i + 1;
        }
        proof {
            assert(self.crates@.subrange(0, n as int) =~= self.crates@);
        }
        count as u64
    }

    /// A catalog admits exactly one ranking for a query: the result order is
    /// fully determined.
    pub proof fn lemma_ranking_unique(self, q: Seq<u8>, s1: Seq<usize>, s2: Seq<usize>)
        requires
            self.wf(),
            self.is_ranking(q, s1),
            self.is_ranking(q, s2),
        ensures
            s1 == s2,
    {
        self.lemma_ranking_prefix(q, s1, s2);
        self.lemma_ranking_prefix(q, s2, s1);
        if s1.len() < s2.len() {
            let j = s2[s1.len() as int];
            assert(crate_matches(self.crates@[j as int], q));
            assert(s1.contains(j));
            let t = choose|t: int| 0 <= t < s1.len() && s1[t] == j;
            assert(s2[t] == s1[t]);
            assert(rank_before(self.crates@[s2[t] as int], self.crates@[s2[s1.len() as int] as int]));
            lemma_lex_lt_asymmetric(
                encode_utf8(self.crates@[j as int].name@),
                encode_utf8(self.crates@[j as int].name@),
            );
        } else if s2.len() < s1.len() {
            let j = s1[s2.len() as int];
            assert(crate_matches(self.crates@[j as int], q));
            assert(s2.contains(j));
            let t = choose|t: int| 0 <= t < s2.len() && s2[t] == j;
            assert(s1[t] == s2[t]);
            assert(rank_before(self.crates@[s1[t] as int], self.crates@[s1[s2.len() as int] as int]));
            lemma_lex_lt_asymmetric(
                encode_utf8(self.crates@[j as int].name@),
                encode_utf8(self.crates@[j as int].name@),
            );
        }
        assert(s1.len() == s2.len());
        assert forall|u: int| 0 <= u < s1.len() implies s1[u] == s2[u] by {
            self.lemma_ranking_pos(q, s1, s2, u);
        }
        assert(s1 =~= s2);
    }

    /// Positions common to two rankings agree, position by position.
    proof fn lemma_ranking_prefix(self, q: Seq<u8>, s1: Seq<usize>, s2: Seq<usize>)
        requires
            self.wf(),
            self.is_ranking(q, s1),
            self.is_ranking(q, s2),
        ensures
            forall|t: int| 0 <= t < s1.len() && t < s2.len() ==> s1[t] == s2[t],
    {
        assert forall|t: int| 0 <= t < s1.len() && t < s2.len() implies s1[t] == s2[t] by {
            self.lemma_ranking_pos(q, s1, s2, t);
        }
    }

    /// One position of two rankings agrees, given all earlier ones do.
    proof fn lemma_ranking_pos(self, q: Seq<u8>, s1: Seq<usize>, s2: Seq<usize>, t: int)
        requires
            self.wf(),
            self.is_ranking(q, s1),
            self.is_ranking(q, s2),
            0 <= t < s1.len(),
            t < s2.len(),
        ensures
            s1[t] == s2[t],
        decreases t,
    {
        assert forall|u: int| 0 <= u < t implies s1[u] == s2[u] by {
            self.lemma_ranking_pos(q, s1, s2, u);
        }
        let a = s1[t];
        let b = s2[t];
        if a != b {
            // a occurs in s2, but not before position t
            assert(crate_matches(self.crates@[a as int], q));
            assert(s2.contains(a));
            let ua = choose|u: int| 0 <= u < s2.len() && s2[u] == a;
            if ua < t {
                assert(s1[ua] == s2[ua]);
                assert(rank_before(self.crates@[s1[ua] as int], self.crates@[s1[t] as int]));
                lemma_lex_lt_asymmetric(
                    encode_utf8(self.crates@[a as int].name@),
                    encode_utf8(self.crates@[a as int].name@),
                );
            }
            assert(ua > t);
            assert(rank_before(self.crates@[s2[t] as int], self.crates@[s2[ua] as int]));
            // and b occurs in s1, but not before position t
            assert(crate_matches(self.crates@[b as int], q));
            assert(s1.contains(b));
            let ub = choose|u: int| 0 <= u < s1.len() && s1[u] == b;
            if ub < t {
                assert(s2[ub] == s1[ub]);
                assert(rank_before(self.crates@[s2[ub] as int], self.crates@[s2[t] as int]));
                lemma_lex_lt_asymmetric(
                    encode_utf8(self.crates@[b as int].name@),
                    encode_utf8(self.crates@[b as int].name@),
                );
            }
            assert(ub > t);
            assert(rank_before(self.crates@[s1[t] as int], self.crates@[s1[ub] as int]));
            // so each of the two rows ranks before the other
            lemma_rank_before_implies_le(self.crates@[b as int], self.crates@[a as int]);
            lemma_rank_before_implies_le(self.crates@[a as int], self.crates@[b as int]);
            lemma_rank_tie(self.crates@[a as int], self.crates@[b as int]);
            if a < b {
                assert(self.crates@[a as int].name@ != self.crates@[b as int].name@);
            } else {
                assert(self.crates@[b as int].name@ != self.crates@[a as int].name@);
            }
        }
    }
}

} // verus!
