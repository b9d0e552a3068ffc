//! Literal substring replacement, used to substitute temporary-directory
//! path prefixes in rendered transcripts with a stable placeholder.
//!
//! The replacement scans left to right, never revisiting replaced text, so
//! substitutions cannot overlap or double-replace. Applying a list of
//! prefixes longest first guarantees a longer prefix is never partially
//! shadowed by a shorter one sharing a common prefix.

use vstd::prelude::*;
use vstd::string::StrSliceExecFns;
use vstd::string::StringExecFns;

verus! {

/// `s` with every occurrence of `pat` replaced by `rep`, scanning left to
/// right. An empty `pat` leaves `s` unchanged.
pub open spec fn spec_replace_all(s: Seq<char>, pat: Seq<char>, rep: Seq<char>) -> Seq<char>
    decreases s.len(),
{
    if pat.len() == 0 || s.len() < pat.len() {
        s
    } else if s.take(pat.len() as int) == pat {
        rep + spec_replace_all(s.skip(pat.len() as int), pat, rep)
    } else {
        seq![s[0]] + spec_replace_all(s.skip(1), pat, rep)
    }
}

/// `s` with each pattern of `pats` replaced by `rep` in turn, first
/// pattern first.
pub open spec fn spec_redact(s: Seq<char>, pats: Seq<Seq<char>>, rep: Seq<char>) -> Seq<char>
    decreases pats.len(),
{
    if pats.len() == 0 {
        s
    } else {
        spec_redact(spec_replace_all(s, pats[0], rep), pats.skip(1), rep)
    }
}

/// The views of a vector of strings.
pub open spec fn dir_views(dirs: Seq<String>) -> Seq<Seq<char>> {
    dirs.map_values(|p: String| p@)
}

/// Whether `q` is a prefix of `h`.
pub open spec fn is_prefix(q: Seq<char>, h: Seq<char>) -> bool {
    q.len() <= h.len() && h.take(q.len() as int) == q
}

/// Whether `pat` occurs in `h` starting at position `k`.
pub open spec fn occurrence_at(h: Seq<char>, pat: Seq<char>, k: int) -> bool {
    0 <= k && k + pat.len() <= h.len() && h.subrange(k, k + pat.len() as int) == pat
}

/// Whether `pat` occurs anywhere in `h`.
pub open spec fn contains_pattern(h: Seq<char>, pat: Seq<char>) -> bool {
    exists|k: int| occurrence_at(h, pat, k)
}

proof fn lemma_replace_unfold_match(s: Seq<char>, pat: Seq<char>, rep: Seq<char>, i: int)
    requires
        pat.len() >= 1,
        0 <= i,
        i + pat.len() <= s.len(),
        s.subrange(i, i + pat.len() as int) == pat,
    ensures
        spec_replace_all(s.skip(i), pat, rep) == rep + spec_replace_all(
            s.skip(i + pat.len() as int),
            pat,
            rep,
        ),
{
    let t = s.skip(i);
    assert(t.take(pat.len() as int) =~= s.subrange(i, i + pat.len() as int));
    assert(t.skip(pat.len() as int) =~= s.skip(i + pat.len() as int));
}

proof fn lemma_replace_unfold_char(s: Seq<char>, pat: Seq<char>, rep: Seq<char>, i: int)
    requires
        pat.len() >= 1,
        0 <= i < s.len(),
        i + pat.len() <= s.len() ==> s.subrange(i, i + pat.len() as int) != pat,
    ensures
        spec_replace_all(s.skip(i), pat, rep) == seq![s[i]] + spec_replace_all(
            s.skip(i + 1),
            pat,
            rep,
        ),
{
    let t = s.skip(i);
    assert(t.skip(1) =~= s.skip(i + 1));
    if t.len() < pat.len() {
        assert(spec_replace_all(t, pat, rep) == t);
        assert(spec_replace_all(t.skip(1), pat, rep) == t.skip(1));
        assert(t =~= seq![s[i]] + t.skip(1));
    } else {
        assert(t.take(pat.len() as int) =~= s.subrange(i, i + pat.len() as int));
    }
}

fn matches_at(s: &str, i: usize, pat: &str) -> (b: bool)
    requires
        i + pat@.len() <= s@.len(),
        s@.len() <= usize::MAX,
    ensures
        b == (s@.subrange(i as int, i + pat@.len() as int) == pat@),
{
    let m = pat.unicode_len();
    let mut j: usize = 0;
    while j < m
        invariant
            m == pat@.len(),
            i + m <= s@.len() <= usize::MAX,
            0 <= j <= m,
            forall|k: int| 0 <= k < j ==> s@[i + k] == pat@[k],
        decreases m - j,
    {
        if s.get_char(i + j) != pat.get_char(j) {
            proof {
                assert(s@.subrange(i as int, i + pat@.len() as int)[j as int] != pat@[j as int]);
            }
            return false;
        }
        j += 1;
    }
    proof {
        assert(s@.subrange(i as int, i + pat@.len() as int) =~= pat@);
    }
    true
}

proof fn lemma_replace_skips_clean_prefix(
    a: Seq<char>,
    x: Seq<char>,
    pat: Seq<char>,
    rep: Seq<char>,
)
    requires
        pat.len() >= 1,
        forall|j: int| 0 <= j < a.len() ==> a[j] != pat[0],
    ensures
        spec_replace_all(a + x, pat, rep) == a + spec_replace_all(x, pat, rep),
    decreases a.len(),
{
    let s = a + x;
    if a.len() == 0 {
        assert(s =~= x);
        assert(a + spec_replace_all(x, pat, rep) =~= spec_replace_all(x, pat, rep));
    } else if s.len() < pat.len() {
        assert(spec_replace_all(s, pat, rep) == s);
        assert(x.len() < pat.len());
        assert(spec_replace_all(x, pat, rep) == x);
    } else {
        assert(s[0] == a[0]);
        assert(s.take(pat.len() as int) != pat) by {
            assert(s.take(pat.len() as int)[0] == a[0]);
        }
        assert(s.skip(1) =~= a.skip(1) + x);
        lemma_replace_skips_clean_prefix(a.skip(1), x, pat, rep);
        assert(seq![a[0]] + (a.skip(1) + spec_replace_all(x, pat, rep)) =~= a + spec_replace_all(
            x,
            pat,
            rep,
        ));
    }
}

proof fn lemma_prefix_of_replace(t: Seq<char>, pat: Seq<char>, rep: Seq<char>, q: Seq<char>)
    requires
        pat.len() >= 1,
        rep.len() >= 1,
        q.len() >= 1,
        forall|i: int, j: int| 0 <= i < q.len() && 0 <= j < rep.len() ==> q[i] != rep[j],
        is_prefix(q, spec_replace_all(t, pat, rep)),
    ensures
        is_prefix(q, t),
    decreases t.len(),
{
    let h = spec_replace_all(t, pat, rep);
    if t.len() < pat.len() {
        // h == t, nothing to do
    } else if t.take(pat.len() as int) == pat {
        // h starts with rep, whose characters q avoids
        assert(h[0] == rep[0]);
        assert(q[0] == h.take(q.len() as int)[0]);
        assert(false);
    } else {
        let h1 = spec_replace_all(t.skip(1), pat, rep);
        assert(h == seq![t[0]] + h1);
        assert(q[0] == h.take(q.len() as int)[0]);
        assert(q[0] == t[0]);
        if q.len() == 1 {
            assert(t.take(1) =~= q);
        } else {
            assert(is_prefix(q.skip(1), h1)) by {
                assert(h1.take(q.len() - 1) =~= q.skip(1)) by {
                    assert(forall|k: int|
                        0 <= k < q.len() - 1 ==> #[trigger] h1.take(q.len() - 1)[k] == h[k + 1]);
                    assert(forall|k: int| 0 <= k < q.len() - 1 ==> #[trigger] q.skip(1)[k] == q[k
                        + 1]);
                    assert(forall|k: int|
                        0 <= k < q.len() ==> #[trigger] h.take(q.len() as int)[k] == q[k]);
                }
            }
            assert(forall|i: int, j: int|
                0 <= i < q.skip(1).len() && 0 <= j < rep.len() ==> #[trigger] q.skip(1)[i]
                    != #[trigger] rep[j]) by {
                assert(forall|i: int| 0 <= i < q.skip(1).len() ==> #[trigger] q.skip(1)[i] == q[i
                    + 1]);
            }
            lemma_prefix_of_replace(t.skip(1), pat, rep, q.skip(1));
            assert(t.take(q.len() as int) =~= q) by {
                assert(t.skip(1).take(q.len() - 1) == q.skip(1));
                assert(forall|k: int|
                    1 <= k < q.len() ==> #[trigger] t.take(q.len() as int)[k] == t.skip(1).take(
                        q.len() - 1,
                    )[k - 1]);
                assert(forall|k: int| 1 <= k < q.len() ==> #[trigger] q[k] == q.skip(1)[k - 1]);
            }
        }
    }
}

/// Law: replacing every occurrence of a pattern whose characters are all
/// absent from the replacement text leaves no occurrence of the pattern in
/// the result.
pub proof fn lemma_replace_all_leaves_no_occurrence(s: Seq<char>, pat: Seq<char>, rep: Seq<char>)
    requires
        pat.len() >= 1,
        rep.len() >= 1,
        forall|i: int, j: int| 0 <= i < pat.len() && 0 <= j < rep.len() ==> pat[i] != rep[j],
    ensures
        !contains_pattern(spec_replace_all(s, pat, rep), pat),
    decreases s.len(),
{
    let out = spec_replace_all(s, pat, rep);
    let pl = pat.len() as int;
    if s.len() < pat.len() {
        // out == s is too short to contain pat
        assert(forall|k: int| !#[trigger] occurrence_at(out, pat, k));
    } else if s.take(pl) == pat {
        let rest = spec_replace_all(s.skip(pl), pat, rep);
        lemma_replace_all_leaves_no_occurrence(s.skip(pl), pat, rep);
        assert forall|k: int| !#[trigger] occurrence_at(out, pat, k) by {
            if 0 <= k && k + pl <= out.len() {
                if k < rep.len() {
                    assert(out[k] == rep[k]);
                    if out.subrange(k, k + pl) == pat {
                        assert(pat[0] == out.subrange(k, k + pl)[0]);
                        assert(false);
                    }
                } else {
                    assert(out.subrange(k, k + pl) =~= rest.subrange(
                        k - rep.len(),
                        k - rep.len() + pl,
                    ));
                    assert(!occurrence_at(rest, pat, k - rep.len()));
                }
            }
        }
    } else {
        let rest = spec_replace_all(s.skip(1), pat, rep);
        lemma_replace_all_leaves_no_occurrence(s.skip(1), pat, rep);
        assert forall|k: int| !#[trigger] occurrence_at(out, pat, k) by {
            if 0 <= k && k + pl <= out.len() {
                if k == 0 {
                    if out.subrange(0, pl) == pat {
                        assert(pat[0] == out[0]);
                        assert(out[0] == s[0]);
                        if pat.len() == 1 {
                            assert(s.take(pl) =~= pat);
                            assert(false);
                        } else {
                            assert(is_prefix(pat.skip(1), rest)) by {
                                assert(rest.take(pl - 1) =~= pat.skip(1)) by {
                                    assert(forall|t: int|
                                        0 <= t < pl - 1 ==> #[trigger] rest.take(pl - 1)[t] == out[t
                                            + 1]);
                                    assert(forall|t: int|
                                        0 <= t < pl ==> #[trigger] out.subrange(0, pl)[t] == out[t]);
                                    assert(forall|t: int|
                                        0 <= t < pl - 1 ==> #[trigger] pat.skip(1)[t] == pat[t + 1]);
                                }
                            }
                            assert(forall|i: int, j: int|
                                0 <= i < pat.skip(1).len() && 0 <= j < rep.len()
                                    ==> #[trigger] pat.skip(1)[i] != #[trigger] rep[j]) by {
                                assert(forall|i: int|
                                    0 <= i < pat.skip(1).len() ==> #[trigger] pat.skip(1)[i] == pat[i
                                        + 1]);
                            }
                            lemma_prefix_of_replace(s.skip(1), pat, rep, pat.skip(1));
                            assert(s.take(pl) =~= pat) by {
                                assert(s.skip(1).take(pl - 1) == pat.skip(1));
                                assert(forall|t: int|
                                    1 <= t < pl ==> #[trigger] s.take(pl)[t] == s.skip(1).take(pl - 1)[
                                        t - 1]);
                                assert(forall|t: int|
                                    1 <= t < pl ==> #[trigger] pat[t] == pat.skip(1)[t - 1]);
                            }
                            assert(false);
                        }
                    }
                } else {
                    assert(out.subrange(k, k + pl) =~= rest.subrange(k - 1, k - 1 + pl));
                    assert(!occurrence_at(rest, pat, k - 1));
                }
            }
        }
    }
}

proof fn lemma_redact_two(s: Seq<char>, long: Seq<char>, short: Seq<char>, rep: Seq<char>)
    ensures
        spec_redact(s, seq![long, short], rep) == spec_replace_all(
            spec_replace_all(s, long, rep),
            short,
            rep,
        ),
{
    let pats = seq![long, short];
    let mid = spec_replace_all(s, long, rep);
    let out = spec_replace_all(mid, short, rep);
    assert(pats[0] == long);
    assert(pats.skip(1) =~= seq![short]);
    assert(seq![short][0] == short);
    assert(seq![short].skip(1) =~= Seq::<Seq<char>>::empty());
    assert(spec_redact(out, Seq::<Seq<char>>::empty(), rep) == out);
    assert(spec_redact(mid, seq![short], rep) == spec_redact(out, seq![short].skip(1), rep));
    assert(spec_redact(s, pats, rep) == spec_redact(mid, pats.skip(1), rep));
}

/// Law: with prefixes applied longest first, an input that starts with the
/// longer prefix collapses that whole prefix to exactly one copy of the
/// placeholder; no remnant of it survives into the rest of the result.
pub proof fn lemma_longest_first_collapse(
    long: Seq<char>,
    short: Seq<char>,
    tail: Seq<char>,
    rep: Seq<char>,
)
    requires
        long.len() >= 1,
        short.len() >= 1,
        forall|j: int| 0 <= j < rep.len() ==> rep[j] != short[0],
    ensures
        spec_redact(long + tail, seq![long, short], rep) == rep + spec_redact(
            tail,
            seq![long, short],
            rep,
        ),
{
    let s = long + tail;
    let pats = seq![long, short];
    lemma_redact_two(s, long, short, rep);
    lemma_redact_two(tail, long, short, rep);
    assert(s.take(long.len() as int) =~= long);
    assert(s.skip(long.len() as int) =~= tail);
    assert(spec_replace_all(s, long, rep) == rep + spec_replace_all(tail, long, rep));
    lemma_replace_skips_clean_prefix(rep, spec_replace_all(tail, long, rep), short, rep);
}

/// Law: redacting with a longest-first prefix list leaves no occurrence of
/// the shorter prefix in the result — and hence none of any longer prefix
/// it begins, so no partial replacement can leave a shorter-prefix remnant.
pub proof fn lemma_redact_no_remnant(
    s: Seq<char>,
    long: Seq<char>,
    short: Seq<char>,
    rep: Seq<char>,
)
    requires
        short.len() >= 1,
        rep.len() >= 1,
        forall|i: int, j: int| 0 <= i < short.len() && 0 <= j < rep.len() ==> short[i] != rep[j],
    ensures
        !contains_pattern(spec_redact(s, seq![long, short], rep), short),
{
    let mid = spec_replace_all(s, long, rep);
    lemma_redact_two(s, long, short, rep);
    lemma_replace_all_leaves_no_occurrence(mid, short, rep);
}

/// Replaces every occurrence of `pat` in `s` with `rep`, scanning left to
/// right.
pub fn replace_all(s: &str, pat: &str, rep: &str) -> (out: String)
    ensures
        out@ == spec_replace_all(s@, pat@, rep@),
{
    let n = s.unicode_len();
    let m = pat.unicode_len();
    if m == 0 {
        return s.to_owned();
    }
    let mut out = String::new();
    let mut i: usize = 0;
    proof {
        assert(s@.skip(0) =~= s@);
        assert(Seq::<char>::empty() + spec_replace_all(s@, pat@, rep@) =~= spec_replace_all(
            s@,
            pat@,
            rep@,
        ));
    }
    while i < n
        invariant
            n == s@.len(),
            m == pat@.len(),
            1 <= m,
            0 <= i <= n,
            spec_replace_all(s@, pat@, rep@) == out@ + spec_replace_all(
                s@.skip(i as int),
                pat@,
                rep@,
            ),
        decreases n - i,
    {
        if n - i >= m && matches_at(s, i, pat) {
            let ghost prev = out@;
            out.append(rep);
            proof {
                lemma_replace_unfold_match(s@, pat@, rep@, i as int);
                let x = spec_replace_all(s@.skip(i as int + m as int), pat@, rep@);
                assert(prev + (rep@ + x) =~= (prev + rep@) + x);
            }
            i += m;
        } else {
            let c = s.substring_char(i, i + 1);
            let ghost prev = out@;
            out.append(c);
            proof {
                lemma_replace_unfold_char(s@, pat@, rep@, i as int);
                assert(c@ =~= seq![s@[i as int]]);
                let x = spec_replace_all(s@.skip(i as int + 1), pat@, rep@);
                assert(prev + (c@ + x) =~= (prev + c@) + x);
            }
            i += 1;
        }
    }
    proof {
        assert(s@.skip(n as int) =~= Seq::<char>::empty());
        assert(out@ =~= out@ + spec_replace_all(s@.skip(n as int), pat@, rep@));
    }
    out
}

/// Replaces every occurrence of each pattern of `pats` in `s` with `rep`,
/// first pattern first.
pub fn redact(s: &str, pats: &Vec<String>, rep: &str) -> (out: String)
    ensures
        out@ == spec_redact(s@, dir_views(pats@), rep@),
{
    let ghost pseq = dir_views(pats@);
    let mut cur = s.to_owned();
    let mut i: usize = 0;
    proof {
        assert(pseq.skip(0) =~= pseq);
    }
    while i < pats.len()
        invariant
            0 <= i <= pats.len(),
            pseq == dir_views(pats@),
            spec_redact(s@, pseq, rep@) == spec_redact(cur@, pseq.skip(i as int), rep@),
        decreases pats.len() - i,
    {
        let next = replace_all(cur.as_str(), pats[i].as_str(), rep);
        proof {
            assert(pseq.skip(i as int)[0] == pats@[i as int]@);
            assert(pseq.skip(i as int).skip(1) =~= pseq.skip(i + 1));
        }
        cur = next;
        i += 1;
    }
    proof {
        assert(pseq.skip(pats@.len() as int) =~= Seq::<Seq<char>>::empty());
    }
    cur
}

} // verus!
