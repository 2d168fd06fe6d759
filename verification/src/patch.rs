//! The file patcher's rewrite semantics.
//!
//! A patch applies an ordered list of literal replacements in a single
//! left-to-right pass over the original text. At each position the
//! matching pattern with the longest `from` wins (earliest in the list
//! on ties), its `to` text is emitted, and the scan resumes after the
//! matched span, so replaced text is never re-matched against another
//! pattern. Reading and writing the file itself is the caller's job;
//! this module is pure text rewriting.

use vstd::prelude::*;

verus! {

/// One literal substring replacement.
#[derive(Clone, Debug)]
pub struct Replacement {
    /// The text to look for.
    pub from: String,
    /// The text to put in its place.
    pub to: String,
}

impl View for Replacement {
    type V = (Seq<char>, Seq<char>);

    open spec fn view(&self) -> (Seq<char>, Seq<char>) {
        (self.from@, self.to@)
    }
}

/// The mathematical model of a replacement list.
pub open spec fn reps_model(rs: Seq<Replacement>) -> Seq<(Seq<char>, Seq<char>)> {
    rs.map_values(|r: Replacement| r@)
}

/// The model of a list of replacement pairs held as character vectors.
pub open spec fn pairs_model(rs: Seq<(Vec<char>, Vec<char>)>) -> Seq<(Seq<char>, Seq<char>)> {
    rs.map_values(|p: (Vec<char>, Vec<char>)| (p.0@, p.1@))
}

/// The pattern occurs in `s` at position `i`. The empty pattern never
/// matches.
pub open spec fn matches_at(s: Seq<char>, i: int, pat: Seq<char>) -> bool {
    pat.len() > 0 && 0 <= i && i + pat.len() <= s.len() && s.subrange(i, i + pat.len()) == pat
}

/// The replacement chosen at position `i`: the index of the matching
/// pattern with the longest `from`, earliest in the list on ties;
/// `-1` when none matches.
pub open spec fn best_at(s: Seq<char>, i: int, reps: Seq<(Seq<char>, Seq<char>)>) -> int
    decreases reps.len(),
{
    if reps.len() == 0 {
        -1
    } else {
        let b = best_at(s, i, reps.drop_last());
        if matches_at(s, i, reps.last().0) && (b == -1 || reps.last().0.len() > reps[b].0.len()) {
            reps.len() - 1
        } else {
            b
        }
    }
}

/// The chosen index is in range and its pattern matches.
pub proof fn lemma_best_at_bounds(s: Seq<char>, i: int, reps: Seq<(Seq<char>, Seq<char>)>)
    ensures
        -1 <= best_at(s, i, reps) < reps.len(),
        best_at(s, i, reps) != -1 ==> matches_at(s, i, reps[best_at(s, i, reps)].0),
    decreases reps.len(),
{
    if reps.len() > 0 {
        lemma_best_at_bounds(s, i, reps.drop_last());
    }
}

/// The scan of `s` from position `i`: the rewritten text from there to
/// the end, and whether any pattern matched along the way.
pub open spec fn scan_from(s: Seq<char>, i: int, reps: Seq<(Seq<char>, Seq<char>)>) -> (
    Seq<char>,
    bool,
)
    decreases s.len() - i,
{
    if i < 0 || i >= s.len() {
        (Seq::<char>::empty(), false)
    } else {
        let k = best_at(s, i, reps);
        if 0 <= k < reps.len() && reps[k].0.len() > 0 && i + reps[k].0.len() <= s.len() {
            let r = scan_from(s, i + reps[k].0.len(), reps);
            (reps[k].1 + r.0, true)
        } else {
            let r = scan_from(s, i + 1, reps);
            (seq![s[i]] + r.0, r.1)
        }
    }
}

/// Whether the patch changed anything.
#[derive(Clone, Copy, Debug, PartialEq, Eq, Structural)]
pub enum PatchOutcome {
    /// At least one pattern matched; the rewritten text was produced.
    Changed,
    /// No pattern matched; the text is exactly the original.
    Unchanged,
}

/// Whether `pat` occurs in `cs` at position `i`.
fn matches_at_exec(cs: &Vec<char>, i: usize, pat: &Vec<char>) -> (r: bool)
    requires
        i <= cs@.len(),
    ensures
        r == matches_at(cs@, i as int, pat@),
{
    if pat.len() == 0 || pat.len() > cs.len() - i {
        return false;
    }
    let mut j: usize = 0;
    while j < pat.len()
        invariant
            i + pat@.len() <= cs@.len(),
            cs@.len() <= usize::MAX,
            j <= pat@.len(),
            forall|m: int| 0 <= m < j ==> cs@[i + m] == pat@[m],
        decreases pat@.len() - j,
    {
        proof {
            assert(i + j < cs@.len());
        }
        if cs[i + j] != pat[j] {
            proof {
                assert(cs@.subrange(i as int, i + pat@.len())[j as int] == cs@[i + j]);
            }
            return false;
        }
        j = j + 1;
    }
    proof {
        assert(cs@.subrange(i as int, i + pat@.len()) =~= pat@);
    }
    true
}

/// The replacement to apply at position `i`, if any.
fn best_at_exec(cs: &Vec<char>, i: usize, rv: &Vec<(Vec<char>, Vec<char>)>) -> (r: Option<usize>)
    requires
        i <= cs@.len(),
    ensures
        match r {
            Option::None => best_at(cs@, i as int, pairs_model(rv@)) == -1,
            Option::Some(k) => k < rv@.len() && best_at(cs@, i as int, pairs_model(rv@)) == k as int,
        },
{
    let ghost pm = pairs_model(rv@);
    let mut best: Option<usize> = None;
    let mut k: usize = 0;
    while k < rv.len()
        invariant
            i <= cs@.len(),
            k <= rv@.len(),
            pm == pairs_model(rv@),
            match best {
                Option::None => best_at(cs@, i as int, pm.take(k as int)) == -1,
                Option::Some(b) => b < k && best_at(cs@, i as int, pm.take(k as int)) == b as int,
            },
        decreases rv@.len() - k,
    {
        let m = matches_at_exec(cs, i, &rv[k].0);
        let take_it = m && match best {
            Option::None => true,
            Option::Some(b) => rv[k].0.len() > rv[b].0.len(),
        };
        proof {
            assert(pm.take(k as int + 1).drop_last() =~= pm.take(k as int));
            assert(pm.take(k as int + 1).last() == pm[k as int]);
            assert(pm[k as int].0 == rv@[k as int].0@);
            if let Option::Some(b) = best {
                assert(pm[b as int].0 == rv@[b as int].0@);
            }
        }
        if take_it {
            best = Some(k);
        }
        k = k + 1;
    }
    proof {
        assert(pm.take(rv@.len() as int) =~= pm);
    }
    best
}

/// Applies every replacement to the text in one left-to-right pass
/// over the original, longest match first. Returns the rewritten text
/// and whether any pattern matched; on `Unchanged` the text returned
/// is exactly the original.
pub fn patch_content(content: &str, reps: &Vec<Replacement>) -> (r: (String, PatchOutcome))
    ensures
        r.0@ == scan_from(content@, 0, reps_model(reps@)).0,
        (r.1 == PatchOutcome::Changed) == scan_from(content@, 0, reps_model(reps@)).1,
{
    let cs = crate::words::str_to_chars(content);
    let ghost rm = reps_model(reps@);
    let mut rv: Vec<(Vec<char>, Vec<char>)> = Vec::new();
    let mut k: usize = 0;
    while k < reps.len()
        invariant
            k <= reps@.len(),
            rv@.len() == k,
            forall|j: int|
                0 <= j < k ==> rv@[j].0@ == (#[trigger] reps@[j])@.0 && rv@[j].1@ == reps@[j]@.1,
        decreases reps@.len() - k,
    {
        let f = crate::words::str_to_chars(reps[k].from.as_str());
        let t = crate::words::str_to_chars(reps[k].to.as_str());
        rv.push((f, t));
        k = k + 1;
    }
    proof {
        assert(pairs_model(rv@) =~~= rm);
    }
    let ghost pm = pairs_model(rv@);
    let mut out: Vec<char> = Vec::new();
    let mut changed = false;
    let mut i: usize = 0;
    while i < cs.len()
        invariant
            i <= cs@.len(),
            cs@ == content@,
            pm == reps_model(reps@),
            pairs_model(rv@) == pm,
            forall|j: int|
                0 <= j < rv@.len() ==> (#[trigger] rv@[j]).0@ == pm[j].0 && rv@[j].1@ == pm[j].1,
            out@ + scan_from(cs@, i as int, pm).0 == scan_from(cs@, 0, pm).0,
            scan_from(cs@, 0, pm).1 == (changed || scan_from(cs@, i as int, pm).1),
        decreases cs@.len() - i,
    {
        let b = best_at_exec(&cs, i, &rv);
        match b {
            Option::Some(bk) => {
                proof {
                    lemma_best_at_bounds(cs@, i as int, pm);
                    assert(matches_at(cs@, i as int, pm[bk as int].0));
                }
                let flen = rv[bk].0.len();
                crate::words::push_word(&mut out, &rv[bk].1);
                proof {
                    let r = scan_from(cs@, i + flen, pm);
                    assert(scan_from(cs@, i as int, pm) == (pm[bk as int].1 + r.0, true));
                    assert(out@ + r.0 =~= scan_from(cs@, 0, pm).0);
                }
                i = i + flen;
                changed = true;
            },
            Option::None => {
                out.push(cs[i]);
                proof {
                    let r = scan_from(cs@, i + 1, pm);
                    assert(scan_from(cs@, i as int, pm) == (seq![cs@[i as int]] + r.0, r.1));
                    assert(out@ + r.0 =~= scan_from(cs@, 0, pm).0);
                }
                i = i + 1;
            },
        }
    }
    proof {
        assert(out@ + Seq::<char>::empty() =~= out@);
        assert(out@ == scan_from(cs@, 0, pm).0);
    }
    let text = crate::words::chars_to_string(&out);
    let outcome = if changed {
        PatchOutcome::Changed
    } else {
        PatchOutcome::Unchanged
    };
    (text, outcome)
}

/// No pattern matches at position `i`: nothing is chosen there.
proof fn lemma_best_none(s: Seq<char>, i: int, reps: Seq<(Seq<char>, Seq<char>)>)
    requires
        forall|k: int| 0 <= k < reps.len() ==> !matches_at(s, i, (#[trigger] reps[k]).0),
    ensures
        best_at(s, i, reps) == -1,
    decreases reps.len(),
{
    if reps.len() > 0 {
        assert forall|k: int|
            0 <= k < reps.drop_last().len() implies !matches_at(
            s,
            i,
            (#[trigger] reps.drop_last()[k]).0,
        ) by {
            assert(reps.drop_last()[k] == reps[k]);
        }
        lemma_best_none(s, i, reps.drop_last());
        assert(reps.last() == reps[reps.len() - 1]);
    }
}

/// A text in which no pattern occurs scans to itself, with no match.
pub proof fn lemma_scan_no_match(s: Seq<char>, i: int, reps: Seq<(Seq<char>, Seq<char>)>)
    requires
        0 <= i <= s.len(),
        forall|j: int, k: int|
            0 <= k < reps.len() ==> !(#[trigger] matches_at(s, j, reps[k].0)),
    ensures
        scan_from(s, i, reps) == (s.skip(i), false),
    decreases s.len() - i,
{
    if i >= s.len() {
        assert(s.skip(i) =~= Seq::<char>::empty());
    } else {
        assert forall|k: int|
            0 <= k < reps.len() implies !matches_at(s, i, (#[trigger] reps[k]).0) by {
            assert(!matches_at(s, i, reps[k].0));
        }
        lemma_best_none(s, i, reps);
        lemma_scan_no_match(s, i + 1, reps);
        assert(seq![s[i]] + s.skip(i + 1) =~= s.skip(i));
    }
}

/// Patching is a no-op on a text that contains none of the patterns:
/// the scan returns the original text and reports no match.
pub proof fn lemma_patch_no_match(s: Seq<char>, reps: Seq<(Seq<char>, Seq<char>)>)
    requires
        forall|j: int, k: int|
            0 <= k < reps.len() ==> !(#[trigger] matches_at(s, j, reps[k].0)),
    ensures
        scan_from(s, 0, reps) == (s, false),
{
    lemma_scan_no_match(s, 0, reps);
    assert(s.skip(0) =~= s);
}

/// Applying the replacements a second time to an already-patched text
/// in which no pattern occurs any more is the identity and reports no
/// match: no double substitution can happen.
pub proof fn lemma_patch_idempotent(s: Seq<char>, reps: Seq<(Seq<char>, Seq<char>)>)
    requires
        forall|j: int, k: int|
            0 <= k < reps.len() ==> !(#[trigger] matches_at(scan_from(s, 0, reps).0, j, reps[k].0)),
    ensures
        scan_from(scan_from(s, 0, reps).0, 0, reps) == (scan_from(s, 0, reps).0, false),
{
    lemma_patch_no_match(scan_from(s, 0, reps).0, reps);
}

/// The scan copies text verbatim until the first position where a
/// pattern can match.
proof fn lemma_scan_copies(s: Seq<char>, i: int, p: int, reps: Seq<(Seq<char>, Seq<char>)>)
    requires
        0 <= i <= p <= s.len(),
        forall|j: int, k: int|
            i <= j < p && 0 <= k < reps.len() ==> !(#[trigger] matches_at(s, j, reps[k].0)),
    ensures
        scan_from(s, i, reps).0 == s.subrange(i, p) + scan_from(s, p, reps).0,
        scan_from(s, i, reps).1 == scan_from(s, p, reps).1,
    decreases p - i,
{
    if i == p {
        assert(s.subrange(i, p) =~= Seq::<char>::empty());
        assert(s.subrange(i, p) + scan_from(s, p, reps).0 =~= scan_from(s, i, reps).0);
    } else {
        assert forall|k: int|
            0 <= k < reps.len() implies !matches_at(s, i, (#[trigger] reps[k]).0) by {
            assert(!matches_at(s, i, reps[k].0));
        }
        lemma_best_none(s, i, reps);
        lemma_scan_copies(s, i + 1, p, reps);
        assert(seq![s[i]] + (s.subrange(i + 1, p) + scan_from(s, p, reps).0) =~= s.subrange(i, p)
            + scan_from(s, p, reps).0);
    }
}

/// A text holding one occurrence of pattern `k`, with no pattern
/// matching before it or after it, scans to the text with exactly that
/// occurrence replaced: everything around it is unchanged.
pub proof fn lemma_patch_single_occurrence(
    s: Seq<char>,
    a: Seq<char>,
    b: Seq<char>,
    k: int,
    reps: Seq<(Seq<char>, Seq<char>)>,
)
    requires
        0 <= k < reps.len(),
        s == a + reps[k].0 + b,
        reps[k].0.len() > 0,
        best_at(s, a.len() as int, reps) == k,
        forall|j: int, m: int|
            0 <= j < a.len() && 0 <= m < reps.len() ==> !(#[trigger] matches_at(s, j, reps[m].0)),
        forall|j: int, m: int|
            a.len() + reps[k].0.len() <= j && 0 <= m < reps.len() ==> !(#[trigger] matches_at(
                s,
                j,
                reps[m].0,
            )),
    ensures
        scan_from(s, 0, reps) == (a + reps[k].1 + b, true),
{
    let flen = reps[k].0.len() as int;
    let al = a.len() as int;
    assert(s.len() == a.len() + flen + b.len());
    lemma_scan_copies(s, 0, al, reps);
    assert(s.subrange(0, al) =~= a);
    // at the occurrence the chosen pattern is k, which matches
    assert(scan_from(s, al, reps) == (reps[k].1 + scan_from(s, al + flen, reps).0, true));
    // after the occurrence nothing matches: the tail is copied
    lemma_scan_tail(s, al + flen, reps);
    assert(s.skip(al + flen) =~= b);
    assert(scan_from(s, 0, reps).0 =~= a + reps[k].1 + b);
}

/// After the last possible match the scan copies the rest verbatim.
proof fn lemma_scan_tail(s: Seq<char>, i: int, reps: Seq<(Seq<char>, Seq<char>)>)
    requires
        0 <= i <= s.len(),
        forall|j: int, m: int|
            i <= j && 0 <= m < reps.len() ==> !(#[trigger] matches_at(s, j, reps[m].0)),
    ensures
        scan_from(s, i, reps) == (s.skip(i), false),
    decreases s.len() - i,
{
    if i >= s.len() {
        assert(s.skip(i) =~= Seq::<char>::empty());
    } else {
        assert forall|m: int|
            0 <= m < reps.len() implies !matches_at(s, i, (#[trigger] reps[m]).0) by {
            assert(!matches_at(s, i, reps[m].0));
        }
        lemma_best_none(s, i, reps);
        lemma_scan_tail(s, i + 1, reps);
        assert(seq![s[i]] + s.skip(i + 1) =~= s.skip(i));
    }
}

} // verus!

verus! {

/// The pattern occurs at `j` in `s` exactly when it occurs at
/// `j - cut` in the suffix of `s` from `cut`.
proof fn lemma_matches_suffix(s: Seq<char>, cut: int, j: int, pat: Seq<char>)
    requires
        0 <= cut <= j,
        cut <= s.len(),
    ensures
        matches_at(s, j, pat) == matches_at(s.skip(cut), j - cut, pat),
{
    if pat.len() > 0 && j + pat.len() <= s.len() {
        assert(s.subrange(j, j + pat.len()) =~= s.skip(cut).subrange(
            j - cut,
            j - cut + pat.len(),
        ));
    }
}

/// The same replacement is chosen at `j` in `s` and at `j - cut` in
/// the suffix of `s` from `cut`.
proof fn lemma_best_suffix(s: Seq<char>, cut: int, j: int, reps: Seq<(Seq<char>, Seq<char>)>)
    requires
        0 <= cut <= j,
        cut <= s.len(),
    ensures
        best_at(s, j, reps) == best_at(s.skip(cut), j - cut, reps),
    decreases reps.len(),
{
    if reps.len() > 0 {
        lemma_best_suffix(s, cut, j, reps.drop_last());
        lemma_matches_suffix(s, cut, j, reps.last().0);
    }
}

/// Scanning `s` from a position at or past `cut` is scanning the
/// suffix of `s` from `cut`.
proof fn lemma_scan_suffix(s: Seq<char>, cut: int, i: int, reps: Seq<(Seq<char>, Seq<char>)>)
    requires
        0 <= cut <= i,
        cut <= s.len(),
    ensures
        scan_from(s, i, reps) == scan_from(s.skip(cut), i - cut, reps),
    decreases s.len() - i,
{
    let t = s.skip(cut);
    assert(t.len() == s.len() - cut);
    if i < s.len() {
        lemma_best_suffix(s, cut, i, reps);
        lemma_best_at_bounds(s, i, reps);
        let k = best_at(s, i, reps);
        if 0 <= k < reps.len() && reps[k].0.len() > 0 && i + reps[k].0.len() <= s.len() {
            lemma_scan_suffix(s, cut, i + reps[k].0.len(), reps);
        } else {
            assert(t[i - cut] == s[i]);
            lemma_scan_suffix(s, cut, i + 1, reps);
        }
    }
}

/// A decomposition of the text from position `i` on: a gap in which no
/// pattern matches, then — when more gaps follow — one occurrence of
/// pattern `k`, chosen there, and the remainder decomposed the same
/// way.
pub open spec fn clean_decomposition(
    s: Seq<char>,
    i: int,
    gaps: Seq<Seq<char>>,
    k: int,
    reps: Seq<(Seq<char>, Seq<char>)>,
) -> bool
    decreases gaps.len(),
{
    if gaps.len() == 0 {
        true
    } else {
        &&& (forall|j: int, m: int|
            i <= j < i + gaps[0].len() && 0 <= m < reps.len() ==> !(#[trigger] matches_at(
                s,
                j,
                reps[m].0,
            )))
        &&& (gaps.len() > 1 ==> best_at(s, i + gaps[0].len(), reps) == k)
        &&& (gaps.len() > 1 ==> clean_decomposition(
            s,
            i + gaps[0].len() + reps[k].0.len(),
            gaps.drop_first(),
            k,
            reps,
        ))
    }
}

/// The gaps interleaved with `x`: one `x` between each two gaps.
pub open spec fn weave(gaps: Seq<Seq<char>>, x: Seq<char>) -> Seq<char>
    decreases gaps.len(),
{
    if gaps.len() == 0 {
        Seq::<char>::empty()
    } else if gaps.len() == 1 {
        gaps[0]
    } else {
        gaps[0] + x + weave(gaps.drop_first(), x)
    }
}

/// A decomposition holds of positions at or past `cut` in `s` exactly
/// when it holds, shifted, of the suffix of `s` from `cut`.
proof fn lemma_clean_suffix(
    s: Seq<char>,
    cut: int,
    i: int,
    gaps: Seq<Seq<char>>,
    k: int,
    reps: Seq<(Seq<char>, Seq<char>)>,
)
    requires
        0 <= cut <= i,
        cut <= s.len(),
    ensures
        clean_decomposition(s, i, gaps, k, reps) == clean_decomposition(
            s.skip(cut),
            i - cut,
            gaps,
            k,
            reps,
        ),
    decreases gaps.len(),
{
    if gaps.len() > 0 {
        let t = s.skip(cut);
        if forall|j: int, m: int|
            i <= j < i + gaps[0].len() && 0 <= m < reps.len() ==> !(#[trigger] matches_at(
                s,
                j,
                reps[m].0,
            )) {
            assert forall|j: int, m: int|
                i - cut <= j < i - cut + gaps[0].len() && 0 <= m < reps.len() implies !(
            #[trigger] matches_at(t, j, reps[m].0)) by {
                lemma_matches_suffix(s, cut, j + cut, reps[m].0);
                assert(!matches_at(s, j + cut, reps[m].0));
            }
        }
        if forall|j: int, m: int|
            i - cut <= j < i - cut + gaps[0].len() && 0 <= m < reps.len() ==> !(
        #[trigger] matches_at(t, j, reps[m].0)) {
            assert forall|j: int, m: int|
                i <= j < i + gaps[0].len() && 0 <= m < reps.len() implies !(#[trigger] matches_at(
                s,
                j,
                reps[m].0,
            )) by {
                lemma_matches_suffix(s, cut, j, reps[m].0);
                assert(!matches_at(t, j - cut, reps[m].0));
            }
        }
        if gaps.len() > 1 {
            lemma_best_suffix(s, cut, i + gaps[0].len(), reps);
            lemma_clean_suffix(s, cut, i + gaps[0].len() + reps[k].0.len(), gaps.drop_first(), k, reps);
        }
    }
}

/// Every occurrence is substituted: a text that decomposes into gaps
/// free of matches around occurrences of pattern `k`, each chosen
/// where it stands, scans to the same gaps, verbatim and in order,
/// with every occurrence replaced by `k`'s `to` text — and a match is
/// reported exactly when there is at least one occurrence.
pub proof fn lemma_patch_every_occurrence(
    gaps: Seq<Seq<char>>,
    k: int,
    reps: Seq<(Seq<char>, Seq<char>)>,
)
    requires
        gaps.len() >= 1,
        0 <= k < reps.len(),
        reps[k].0.len() > 0,
        clean_decomposition(weave(gaps, reps[k].0), 0, gaps, k, reps),
    ensures
        scan_from(weave(gaps, reps[k].0), 0, reps) == (weave(gaps, reps[k].1), gaps.len() > 1),
    decreases gaps.len(),
{
    let from = reps[k].0;
    let to = reps[k].1;
    let s = weave(gaps, from);
    if gaps.len() == 1 {
        assert(s == gaps[0]);
        assert forall|j: int, m: int| 0 <= m < reps.len() implies !(#[trigger] matches_at(
            s,
            j,
            reps[m].0,
        )) by {
            if 0 <= j < s.len() {
                assert(!matches_at(s, j, reps[m].0));
            }
        }
        lemma_patch_no_match(s, reps);
        assert(weave(gaps, to) == gaps[0]);
    } else {
        let g0 = gaps[0].len() as int;
        let flen = from.len() as int;
        let rest = weave(gaps.drop_first(), from);
        assert(s == gaps[0] + from + rest);
        assert(s.len() == g0 + flen + rest.len());
        lemma_scan_copies(s, 0, g0, reps);
        assert(s.subrange(0, g0) =~= gaps[0]);
        assert(scan_from(s, g0, reps) == (to + scan_from(s, g0 + flen, reps).0, true));
        lemma_scan_suffix(s, g0 + flen, g0 + flen, reps);
        assert(s.skip(g0 + flen) =~= rest);
        lemma_clean_suffix(s, g0 + flen, g0 + flen, gaps.drop_first(), k, reps);
        lemma_patch_every_occurrence(gaps.drop_first(), k, reps);
        assert(scan_from(s, 0, reps).0 =~= gaps[0] + to + weave(gaps.drop_first(), to));
        assert(weave(gaps, to) == gaps[0] + to + weave(gaps.drop_first(), to));
    }
}

} // verus!
