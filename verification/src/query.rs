//! Substitution queries: expanding an identifier rename into literal
//! replacements.
//!
//! A rename of one identifier to another expands into one replacement
//! per naming convention — both identifiers spelled in that convention
//! — when both tokenize to a recognized pattern, and always ends with
//! the verbatim pair as the last, most generic fallback, so that an
//! identifier fitting no convention is still replaced as typed.

use vstd::prelude::*;
use crate::patch::Replacement;
use crate::patch::reps_model;
use crate::patch::matches_at;
use crate::patch::best_at;
use crate::patch::scan_from;
use crate::patch::clean_decomposition;
use crate::patch::weave;
use crate::words::Convention;
use crate::words::tokenize;
use crate::words::tokenize_spec;
use crate::words::recognized;
use crate::words::render;
use crate::words::render_spec;

verus! {

/// The replacements an identifier rename expands into: the five
/// convention spellings when both sides are recognized, then the
/// verbatim pair, always last.
pub open spec fn rename_queries_spec(from: Seq<char>, to: Seq<char>) -> Seq<(Seq<char>, Seq<char>)> {
    let f = tokenize_spec(from);
    let t = tokenize_spec(to);
    if recognized(from) && recognized(to) {
        seq![
            (render_spec(f, Convention::Kebab), render_spec(t, Convention::Kebab)),
            (render_spec(f, Convention::Snake), render_spec(t, Convention::Snake)),
            (
                render_spec(f, Convention::ScreamingSnake),
                render_spec(t, Convention::ScreamingSnake),
            ),
            (render_spec(f, Convention::Pascal), render_spec(t, Convention::Pascal)),
            (render_spec(f, Convention::Camel), render_spec(t, Convention::Camel)),
            (from, to),
        ]
    } else {
        seq![(from, to)]
    }
}

/// Expands a rename into its literal replacements, convention
/// spellings first, the verbatim pair last.
pub fn rename_queries(from: &str, to: &str) -> (r: Vec<Replacement>)
    ensures
        reps_model(r@) == rename_queries_spec(from@, to@),
{
    let (fw, f_ok) = tokenize(from);
    let (tw, t_ok) = tokenize(to);
    let mut r: Vec<Replacement> = Vec::new();
    if f_ok && t_ok {
        r.push(
            Replacement {
                from: render(&fw, Convention::Kebab),
                to: render(&tw, Convention::Kebab),
            },
        );
        r.push(
            Replacement {
                from: render(&fw, Convention::Snake),
                to: render(&tw, Convention::Snake),
            },
        );
        r.push(
            Replacement {
                from: render(&fw, Convention::ScreamingSnake),
                to: render(&tw, Convention::ScreamingSnake),
            },
        );
        r.push(
            Replacement {
                from: render(&fw, Convention::Pascal),
                to: render(&tw, Convention::Pascal),
            },
        );
        r.push(
            Replacement {
                from: render(&fw, Convention::Camel),
                to: render(&tw, Convention::Camel),
            },
        );
    }
    r.push(Replacement { from: from.to_owned(), to: to.to_owned() });
    proof {
        assert(reps_model(r@) =~~= rename_queries_spec(from@, to@));
    }
    r
}

/// A single verbatim replacement, exactly as typed.
pub fn simple_query(from: &str, to: &str) -> (r: Replacement)
    ensures
        r@ == (from@, to@),
{
    Replacement { from: from.to_owned(), to: to.to_owned() }
}

/// The renaming law: a text holding one occurrence of the `from`
/// identifier's spelling in a convention, with no pattern of the
/// derived query list matching before or after that occurrence and the
/// occurrence chosen there, scans to the same text with the `to`
/// spelling in that convention substituted — and nothing else changed.
pub proof fn lemma_rename_substitutes(
    from: Seq<char>,
    to: Seq<char>,
    k: int,
    a: Seq<char>,
    b: Seq<char>,
)
    requires
        0 <= k < rename_queries_spec(from, to).len(),
        rename_queries_spec(from, to)[k].0.len() > 0,
        best_at(
            a + rename_queries_spec(from, to)[k].0 + b,
            a.len() as int,
            rename_queries_spec(from, to),
        ) == k,
        forall|j: int, m: int|
            0 <= j < a.len() && 0 <= m < rename_queries_spec(from, to).len() ==> !(
            #[trigger] matches_at(
                a + rename_queries_spec(from, to)[k].0 + b,
                j,
                rename_queries_spec(from, to)[m].0,
            )),
        forall|j: int, m: int|
            a.len() + rename_queries_spec(from, to)[k].0.len() <= j && 0 <= m
                < rename_queries_spec(from, to).len() ==> !(#[trigger] matches_at(
                a + rename_queries_spec(from, to)[k].0 + b,
                j,
                rename_queries_spec(from, to)[m].0,
            )),
    ensures
        scan_from(a + rename_queries_spec(from, to)[k].0 + b, 0, rename_queries_spec(from, to))
            == (a + rename_queries_spec(from, to)[k].1 + b, true),
{
    crate::patch::lemma_patch_single_occurrence(
        a + rename_queries_spec(from, to)[k].0 + b,
        a,
        b,
        k,
        rename_queries_spec(from, to),
    );
}

/// The renaming law for any number of occurrences: a text that
/// decomposes into match-free gaps around occurrences of one derived
/// pattern, each chosen where it stands, scans to the same gaps,
/// verbatim and in order, with every occurrence of that `from`
/// spelling replaced by the matching `to` spelling.
pub proof fn lemma_rename_substitutes_everywhere(
    from: Seq<char>,
    to: Seq<char>,
    k: int,
    gaps: Seq<Seq<char>>,
)
    requires
        gaps.len() >= 1,
        0 <= k < rename_queries_spec(from, to).len(),
        rename_queries_spec(from, to)[k].0.len() > 0,
        clean_decomposition(
            weave(gaps, rename_queries_spec(from, to)[k].0),
            0,
            gaps,
            k,
            rename_queries_spec(from, to),
        ),
    ensures
        scan_from(
            weave(gaps, rename_queries_spec(from, to)[k].0),
            0,
            rename_queries_spec(from, to),
        ) == (weave(gaps, rename_queries_spec(from, to)[k].1), gaps.len() > 1),
{
    crate::patch::lemma_patch_every_occurrence(gaps, k, rename_queries_spec(from, to));
}

} // verus!
