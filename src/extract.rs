//! Field extraction from a paper's metadata page and its page texts.

use vstd::prelude::*;
use crate::models::{NewAuthor, NewSubject};
use crate::text::{
    is_white, trim_end,
    chars_of, join_pages, joined, occurs_at, replace_chars, replaced, split_on, split_trimmed, string_of,
    strip_leading, strip_leading_chars, trim, trim_chars, trim_start, trim_start_chars,
};

verus! {

/// What `regex` makes of `text` when every match of `pattern` in it is
/// replaced by `rep`; `None` where `pattern` does not compile.
pub uninterp spec fn regex_replaced(pattern: Seq<char>, text: Seq<char>, rep: Seq<char>) -> Option<
    Seq<char>,
>;

/// Relies on regex's `Regex::new` and `Regex::replace_all`: the text with each
/// match replaced by `rep` (where `$1` names the first group), or `None` where
/// the pattern does not compile.
#[verifier::external_body]
fn regex_replace_all(pattern: &str, text: &str, rep: &str) -> (r: Option<String>)
    ensures
        regex_replaced(pattern@, text@, rep@) == match r {
            Some(t) => Some(t@),
            None => None::<Seq<char>>,
        },
{
    let re = regex::Regex::new(pattern).ok()?;
    Some(re.replace_all(text, rep).into_owned())
}

/// A hyphen and a line break between two word characters.
pub const REFLOW_PATTERN: &'static str = "(\\w)-\\n(\\w)";

/// The two word characters of a match, joined.
pub const REFLOW_JOIN: &'static str = "$1$2";

/// `text` with each hyphenated line wrap between word characters joined.
pub open spec fn reflowed(text: Seq<char>) -> Seq<char> {
    match regex_replaced(REFLOW_PATTERN@, text, REFLOW_JOIN@) {
        Some(t) => t,
        None => text,
    }
}

/// Joins the word fragments around each hyphenated line wrap (`cap-\ntured`
/// becomes `captured`). A hyphen followed by white space before the break is
/// left alone.
pub fn fix_line_breaks(text: String) -> (r: String)
    ensures
        r@ == reflowed(text@),
{
    match regex_replace_all(REFLOW_PATTERN, text.as_str(), REFLOW_JOIN) {
        Some(t) => t,
        None => text,
    }
}

/// The body of a paper whose pages gave the texts `pages`: the texts joined
/// with single spaces, hyphenated line wraps joined.
pub open spec fn body_of(pages: Seq<Seq<char>>) -> Seq<char> {
    if pages.len() == 0 {
        Seq::empty()
    } else {
        reflowed(joined(pages))
    }
}

/// The body of a paper from the texts of its pages, in order. A document that
/// could not be opened has no pages, and its body is empty.
pub fn body_from_pages(pages: &Vec<String>) -> (r: String)
    ensures
        r@ == body_of(pages@.map_values(|p: String| p@)),
        pages@.len() == 0 ==> r@.len() == 0,
        pages@.len() > 0 ==> r@ == reflowed(joined(pages@.map_values(|p: String| p@))),
{
    if pages.len() == 0 {
        return String::new();
    }
    let joined = join_pages(pages);
    fix_line_breaks(string_of(joined.as_slice()))
}

/// The title in the text of a title heading: trimmed, each leading `Title:`
/// label removed, trimmed at its start again, each pair of spaces made one.
pub open spec fn title_of(node: Seq<char>) -> Seq<char> {
    replaced(trim_start(strip_leading(trim(node), "Title:"@)), "  "@, " "@)
}

/// The abstract in the text of an abstract block: trimmed, each leading
/// `Abstract:` label removed, trimmed at its start again, line breaks made spaces.
pub open spec fn description_of(node: Seq<char>) -> Seq<char> {
    replaced(trim_start(strip_leading(trim(node), "Abstract:"@)), "\n"@, " "@)
}

/// The title in the text of a title heading.
pub fn parse_title(node: &str) -> (r: String)
    ensures
        r@ == title_of(node@),
{
    proof {
        reveal_strlit("Title:");
        reveal_strlit("  ");
    }
    let v = trim_chars(&chars_of(node));
    let v = strip_leading_chars(&v, &chars_of("Title:"));
    let v = trim_start_chars(&v);
    let v = replace_chars(&v, &chars_of("  "), &chars_of(" "));
    string_of(v.as_slice())
}

/// The abstract in the text of an abstract block.
pub fn parse_description(node: &str) -> (r: String)
    ensures
        r@ == description_of(node@),
{
    proof {
        reveal_strlit("Abstract:");
        reveal_strlit("\n");
    }
    let v = trim_chars(&chars_of(node));
    let v = strip_leading_chars(&v, &chars_of("Abstract:"));
    let v = trim_start_chars(&v);
    let v = replace_chars(&v, &chars_of("\n"), &chars_of(" "));
    string_of(v.as_slice())
}

/// The subjects in the text of a subjects cell: split at `;`, each trimmed.
pub fn parse_subjects(node: &str) -> (r: Vec<NewSubject>)
    ensures
        r@.len() == split_on(node@, ';').len(),
        forall|j: int|
            0 <= j < r@.len() ==> #[trigger] r@[j].name@ == trim(split_on(node@, ';')[j]),
{
    let names = split_trimmed(&chars_of(node), ';');
    let mut out: Vec<NewSubject> = Vec::new();
    let mut i: usize = 0;
    while i < names.len()
        invariant
            i <= names@.len(),
            out@.len() == i,
            forall|j: int| 0 <= j < i ==> #[trigger] out@[j].name@ == names@[j]@,
        decreases names@.len() - i,
    {
        out.push(NewSubject { name: names[i].clone() });
        i = i + 1;
    }
    out
}

/// One author for each text, in order.
pub fn authors_from_texts(texts: &Vec<String>) -> (r: Vec<NewAuthor>)
    ensures
        r@.len() == texts@.len(),
        forall|j: int| 0 <= j < r@.len() ==> #[trigger] r@[j].name@ == texts@[j]@,
{
    let mut out: Vec<NewAuthor> = Vec::new();
    let mut i: usize = 0;
    while i < texts.len()
        invariant
            i <= texts@.len(),
            out@.len() == i,
            forall|j: int| 0 <= j < i ==> #[trigger] out@[j].name@ == texts@[j]@,
        decreases texts@.len() - i,
    {
        out.push(NewAuthor { name: texts[i].clone() });
        i = i + 1;
    }
    out
}

/// Whether no two spaces in `s` stand side by side.
pub open spec fn no_double_space(s: Seq<char>) -> bool {
    forall|i: int| 0 <= i < s.len() - 1 ==> !(#[trigger] s[i] == ' ' && s[i + 1] == ' ')
}

/// Whether no three spaces in `s` stand side by side.
pub open spec fn no_triple_space(s: Seq<char>) -> bool {
    forall|i: int|
        0 <= i < s.len() - 2 ==> !(#[trigger] s[i] == ' ' && s[i + 1] == ' ' && s[i + 2] == ' ')
}

/// Collapsing pairs of spaces in a text without a run of three leaves no pair,
/// and keeps the text's first character.
pub proof fn lemma_collapse_leaves_no_pair(s: Seq<char>)
    requires
        no_triple_space(s),
    ensures
        no_double_space(replaced(s, "  "@, " "@)),
        replaced(s, "  "@, " "@).len() > 0 <==> s.len() > 0,
        s.len() > 0 ==> replaced(s, "  "@, " "@)[0] == s[0] && replaced(s, "  "@, " "@).last()
            == s.last(),
    decreases s.len(),
{
    reveal_strlit("  ");
    reveal_strlit(" ");
    let pair = "  "@;
    let out = replaced(s, pair, " "@);
    if s.len() == 0 {
        return;
    }
    if occurs_at(s, pair, 0) {
        assert(s[0] == s.subrange(0, 2)[0] && s[1] == s.subrange(0, 2)[1]);
        let rest = s.subrange(2, s.len() as int);
        assert forall|i: int| 0 <= i < rest.len() - 2 implies !(#[trigger] rest[i] == ' ' && rest[i
            + 1] == ' ' && rest[i + 2] == ' ') by {
            assert(rest[i] == s[i + 2] && rest[i + 1] == s[i + 3] && rest[i + 2] == s[i + 4]);
        }
        lemma_collapse_leaves_no_pair(rest);
        let tail = replaced(rest, pair, " "@);
        assert(out == " "@ + tail);
        if tail.len() > 0 {
            assert(rest[0] == s[2]);
            assert(rest.last() == s.last());
            assert(!(s[0] == ' ' && s[1] == ' ' && s[2] == ' '));
        }
        assert forall|i: int| 0 <= i < out.len() - 1 implies !(#[trigger] out[i] == ' ' && out[i
            + 1] == ' ') by {
            if i > 0 {
                assert(out[i] == tail[i - 1] && out[i + 1] == tail[i]);
            }
        }
    } else {
        let rest = s.drop_first();
        assert forall|i: int| 0 <= i < rest.len() - 2 implies !(#[trigger] rest[i] == ' ' && rest[i
            + 1] == ' ' && rest[i + 2] == ' ') by {
            assert(rest[i] == s[i + 1] && rest[i + 1] == s[i + 2] && rest[i + 2] == s[i + 3]);
        }
        lemma_collapse_leaves_no_pair(rest);
        let tail = replaced(rest, pair, " "@);
        assert(out == seq![s[0]] + tail);
        if rest.len() > 0 {
            assert(rest.last() == s.last());
        }
        if tail.len() > 0 && s[0] == ' ' {
            if s[1] == ' ' {
                assert(s.subrange(0, 2) =~= pair);
            }
        }
        assert forall|i: int| 0 <= i < out.len() - 1 implies !(#[trigger] out[i] == ' ' && out[i
            + 1] == ' ') by {
            if i > 0 {
                assert(out[i] == tail[i - 1] && out[i + 1] == tail[i]);
            } else {
                assert(out[1] == tail[0]);
            }
        }
    }
}

proof fn lemma_sub_keeps_no_triple(s: Seq<char>, a: int, b: int)
    requires
        no_triple_space(s),
        0 <= a <= b <= s.len(),
    ensures
        no_triple_space(s.subrange(a, b)),
{
    let t = s.subrange(a, b);
    assert forall|i: int| 0 <= i < t.len() - 2 implies !(#[trigger] t[i] == ' ' && t[i + 1] == ' '
        && t[i + 2] == ' ') by {
        assert(t[i] == s[a + i] && t[i + 1] == s[a + i + 1] && t[i + 2] == s[a + i + 2]);
    }
}

proof fn lemma_trim_start_shape(s: Seq<char>)
    ensures
        no_triple_space(s) ==> no_triple_space(trim_start(s)),
        trim_start(s).len() > 0 ==> !is_white(trim_start(s)[0]) && trim_start(s).last()
            == s.last(),
    decreases s.len(),
{
    if s.len() > 0 && is_white(s[0]) {
        assert(s.drop_first() =~= s.subrange(1, s.len() as int));
        if no_triple_space(s) {
            lemma_sub_keeps_no_triple(s, 1, s.len() as int);
        }
        lemma_trim_start_shape(s.drop_first());
    }
}

proof fn lemma_trim_end_shape(s: Seq<char>)
    ensures
        no_triple_space(s) ==> no_triple_space(trim_end(s)),
        trim_end(s).len() > 0 ==> !is_white(trim_end(s).last()) && trim_end(s)[0] == s[0],
    decreases s.len(),
{
    if s.len() > 0 && is_white(s.last()) {
        assert(s.drop_last() =~= s.subrange(0, s.len() - 1));
        if no_triple_space(s) {
            lemma_sub_keeps_no_triple(s, 0, s.len() - 1);
        }
        lemma_trim_end_shape(s.drop_last());
    }
}

proof fn lemma_strip_leading_shape(s: Seq<char>, p: Seq<char>)
    ensures
        no_triple_space(s) ==> no_triple_space(strip_leading(s, p)),
        strip_leading(s, p).len() > 0 ==> strip_leading(s, p).last() == s.last(),
    decreases s.len(),
{
    if p.len() > 0 && occurs_at(s, p, 0) {
        let rest = s.subrange(p.len() as int, s.len() as int);
        if no_triple_space(s) {
            lemma_sub_keeps_no_triple(s, p.len() as int, s.len() as int);
        }
        lemma_strip_leading_shape(rest, p);
    }
}

/// A title heading whose text holds no run of three spaces gives a title with
/// no white space at either end and no two spaces side by side.
pub proof fn lemma_title_trimmed_without_double_space(node: Seq<char>)
    requires
        no_triple_space(node),
    ensures
        no_double_space(title_of(node)),
        trim(title_of(node)) == title_of(node),
{
    let t1 = trim_start(node);
    let t2 = trim(node);
    let t3 = strip_leading(t2, "Title:"@);
    let t4 = trim_start(t3);
    lemma_trim_start_shape(node);
    lemma_trim_end_shape(t1);
    lemma_strip_leading_shape(t2, "Title:"@);
    lemma_trim_start_shape(t3);
    lemma_collapse_leaves_no_pair(t4);
    let r = title_of(node);
    if r.len() > 0 {
        assert(trim_start(r) == r);
        assert(trim_end(r) == r);
    }
}

} // verus!
