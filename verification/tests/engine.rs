use nps::patch::{patch_content, PatchOutcome, Replacement};
use nps::query::{rename_queries, simple_query};
use nps::words::{render, tokenize, Convention};

fn words(v: &[&str]) -> Vec<String> {
    v.iter().map(|s| s.to_string()).collect()
}

fn reps(pairs: &[(&str, &str)]) -> Vec<Replacement> {
    pairs.iter().map(|(f, t)| simple_query(f, t)).collect()
}

#[test]
fn tokenize_recognizes_each_convention() {
    assert_eq!(tokenize("my-crate"), (words(&["my", "crate"]), true));
    assert_eq!(tokenize("my_crate"), (words(&["my", "crate"]), true));
    assert_eq!(tokenize("MY_CRATE"), (words(&["my", "crate"]), true));
    assert_eq!(tokenize("MyCrate"), (words(&["my", "crate"]), true));
    assert_eq!(tokenize("myCrate"), (words(&["my", "crate"]), true));
    assert_eq!(tokenize("simple"), (words(&["simple"]), true));
}

#[test]
fn tokenize_falls_back_on_mixed_patterns() {
    assert_eq!(tokenize("my-Crate"), (words(&["my-Crate"]), false));
    assert_eq!(tokenize("my-crate_x"), (words(&["my-crate_x"]), false));
    assert_eq!(tokenize("My_Crate"), (words(&["My_Crate"]), false));
}

#[test]
fn tokenize_keeps_digits_inside_words() {
    assert_eq!(tokenize("http2-server"), (words(&["http2", "server"]), true));
    assert_eq!(tokenize("Http2Server"), (words(&["http2", "server"]), true));
}

#[test]
fn render_spells_each_convention() {
    let w = words(&["foobar", "tool"]);
    assert_eq!(render(&w, Convention::Kebab), "foobar-tool");
    assert_eq!(render(&w, Convention::Snake), "foobar_tool");
    assert_eq!(render(&w, Convention::ScreamingSnake), "FOOBAR_TOOL");
    assert_eq!(render(&w, Convention::Pascal), "FoobarTool");
    assert_eq!(render(&w, Convention::Camel), "foobarTool");
}

#[test]
fn tokenize_render_round_trip() {
    let w = words(&["my", "crate"]);
    for c in [
        Convention::Kebab,
        Convention::Snake,
        Convention::ScreamingSnake,
        Convention::Pascal,
        Convention::Camel,
    ] {
        assert_eq!(tokenize(&render(&w, c)).0, w);
    }
}

#[test]
fn rename_queries_expand_per_convention_with_verbatim_last() {
    let q = rename_queries("my-crate", "foobar-tool");
    let got: Vec<(String, String)> = q.into_iter().map(|r| (r.from, r.to)).collect();
    assert_eq!(
        got,
        vec![
            ("my-crate".to_string(), "foobar-tool".to_string()),
            ("my_crate".to_string(), "foobar_tool".to_string()),
            ("MY_CRATE".to_string(), "FOOBAR_TOOL".to_string()),
            ("MyCrate".to_string(), "FoobarTool".to_string()),
            ("myCrate".to_string(), "foobarTool".to_string()),
            ("my-crate".to_string(), "foobar-tool".to_string()),
        ]
    );
}

#[test]
fn rename_queries_unrecognized_is_verbatim_only() {
    let q = rename_queries("my-Crate", "x");
    assert_eq!(q.len(), 1);
    assert_eq!(q[0].from, "my-Crate");
    assert_eq!(q[0].to, "x");
}

#[test]
fn patching_rewrites_every_spelling() {
    let q = rename_queries("my-crate", "foobar-tool");
    let content = "my-crate my_crate MY_CRATE MyCrate myCrate";
    let (out, outcome) = patch_content(content, &q);
    assert_eq!(out, "foobar-tool foobar_tool FOOBAR_TOOL FoobarTool foobarTool");
    assert_eq!(outcome, PatchOutcome::Changed);
}

#[test]
fn patching_rewrites_prefixes_of_longer_tokens() {
    // literal substring semantics: the spelling is replaced even
    // inside a longer token, from its start
    let q = rename_queries("my-crate", "foobar-tool");
    let (out, outcome) = patch_content("my-crate-extra", &q);
    assert_eq!(out, "foobar-tool-extra");
    assert_eq!(outcome, PatchOutcome::Changed);
}

#[test]
fn patching_without_any_match_is_unchanged() {
    let q = reps(&[("my-crate", "x"), ("simple", "y")]);
    let (out, outcome) = patch_content("nothing to see here", &q);
    assert_eq!(out, "nothing to see here");
    assert_eq!(outcome, PatchOutcome::Unchanged);
}

#[test]
fn patching_twice_is_idempotent_and_reports_unchanged() {
    let q = reps(&[("my-crate", "new-name")]);
    let (once, first) = patch_content("crate = \"my-crate\"", &q);
    assert_eq!(first, PatchOutcome::Changed);
    assert_eq!(once, "crate = \"new-name\"");
    let (twice, second) = patch_content(&once, &q);
    assert_eq!(twice, once);
    assert_eq!(second, PatchOutcome::Unchanged);
}

#[test]
fn patching_prefers_the_longest_match() {
    let q = reps(&[("ab", "1"), ("abc", "2")]);
    let (out, outcome) = patch_content("abcd", &q);
    assert_eq!(out, "2d");
    assert_eq!(outcome, PatchOutcome::Changed);
}

#[test]
fn patching_does_not_rematch_replaced_text() {
    // the inserted text contains another query's pattern; a single
    // pass over the original never rewrites it again
    let q = reps(&[("a", "b"), ("b", "c")]);
    let (out, _) = patch_content("ab", &q);
    assert_eq!(out, "bc");
}

#[test]
fn patching_matches_occurrences_left_to_right() {
    let q = reps(&[("aa", "x")]);
    let (out, _) = patch_content("aaa", &q);
    assert_eq!(out, "xa");
}

#[test]
fn empty_pattern_never_matches() {
    let q = reps(&[("", "x")]);
    let (out, outcome) = patch_content("abc", &q);
    assert_eq!(out, "abc");
    assert_eq!(outcome, PatchOutcome::Unchanged);
}

#[test]
fn all_uppercase_reads_as_one_screaming_word() {
    // the Pascal spelling of single-letter words is all uppercase, so
    // it reads back as a single screaming-snake word
    assert_eq!(render(&words(&["a", "b"]), Convention::Pascal), "AB");
    assert_eq!(tokenize("AB"), (words(&["ab"]), true));
}

#[test]
fn screaming_single_word_round_trips() {
    assert_eq!(render(&words(&["tool"]), Convention::ScreamingSnake), "TOOL");
    assert_eq!(tokenize("TOOL"), (words(&["tool"]), true));
}

#[test]
fn patching_replaces_every_occurrence() {
    let q = rename_queries("my-crate", "foobar-tool");
    let (out, outcome) = patch_content("a my-crate b my-crate c", &q);
    assert_eq!(out, "a foobar-tool b foobar-tool c");
    assert_eq!(outcome, PatchOutcome::Changed);
}
