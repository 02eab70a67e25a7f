//! Text clean-up on character sequences: trimming, label stripping,
//! substring replacement, splitting and page joining.

use vstd::prelude::*;

verus! {

/// The characters that `char::is_whitespace` accepts (Unicode `White_Space`).
pub open spec fn is_white(c: char) -> bool {
    let u = c as u32;
    (0x9 <= u && u <= 0xd) || u == 0x20 || u == 0x85 || u == 0xa0 || u == 0x1680 || (0x2000 <= u
        && u <= 0x200a) || u == 0x2028 || u == 0x2029 || u == 0x202f || u == 0x205f || u == 0x3000
}

/// `s` without its leading white space.
pub open spec fn trim_start(s: Seq<char>) -> Seq<char>
    decreases s.len(),
{
    if s.len() > 0 && is_white(s[0]) {
        trim_start(s.drop_first())
    } else {
        s
    }
}

/// `s` without its trailing white space.
pub open spec fn trim_end(s: Seq<char>) -> Seq<char>
    decreases s.len(),
{
    if s.len() > 0 && is_white(s.last()) {
        trim_end(s.drop_last())
    } else {
        s
    }
}

/// `s` without white space at either end.
pub open spec fn trim(s: Seq<char>) -> Seq<char> {
    trim_end(trim_start(s))
}

/// Whether `p` occurs in `s` at position `i`.
pub open spec fn occurs_at(s: Seq<char>, p: Seq<char>, i: int) -> bool {
    0 <= i && i + p.len() <= s.len() && s.subrange(i, i + p.len()) == p
}

/// `s` with every leading repetition of the non-empty `p` removed.
pub open spec fn strip_leading(s: Seq<char>, p: Seq<char>) -> Seq<char>
    decreases s.len(),
{
    if p.len() > 0 && occurs_at(s, p, 0) {
        strip_leading(s.subrange(p.len() as int, s.len() as int), p)
    } else {
        s
    }
}

/// `s` with the non-overlapping occurrences of the non-empty `from`, found
/// left to right, each replaced by `to`.
pub open spec fn replaced(s: Seq<char>, from: Seq<char>, to: Seq<char>) -> Seq<char>
    decreases s.len(),
{
    if s.len() == 0 {
        s
    } else if from.len() > 0 && occurs_at(s, from, 0) {
        to + replaced(s.subrange(from.len() as int, s.len() as int), from, to)
    } else {
        seq![s[0]] + replaced(s.drop_first(), from, to)
    }
}

/// Whether `c` is white space, as `char::is_whitespace` decides it.
pub fn is_white_char(c: char) -> (r: bool)
    ensures
        r == is_white(c),
{
    let u = c as u32;
    (0x9 <= u && u <= 0xd) || u == 0x20 || u == 0x85 || u == 0xa0 || u == 0x1680 || (0x2000 <= u
        && u <= 0x200a) || u == 0x2028 || u == 0x2029 || u == 0x202f || u == 0x205f || u == 0x3000
}

/// The characters of `s`, in order. Relies on `str::chars`, collected into a `Vec`.
#[verifier::external_body]
pub(crate) fn chars_of(s: &str) -> (r: Vec<char>)
    ensures
        r@ == s@,
{
    s.chars().collect()
}

/// The string made of the characters of `v`, in order. Relies on `String`'s
/// `FromIterator<&char>`.
#[verifier::external_body]
pub(crate) fn string_of(v: &[char]) -> (r: String)
    ensures
        r@ == v@,
{
    v.iter().collect()
}

/// The characters of `v` from `lo` up to `hi`.
pub fn slice_chars(v: &Vec<char>, lo: usize, hi: usize) -> (r: Vec<char>)
    requires
        lo <= hi <= v@.len(),
    ensures
        r@ == v@.subrange(lo as int, hi as int),
{
    let mut r: Vec<char> = Vec::new();
    let mut i: usize = lo;
    while i < hi
        invariant
            lo <= i <= hi <= v@.len(),
            r@ == v@.subrange(lo as int, i as int),
        decreases hi - i,
    {
        r.push(v[i]);
        i = i + 1;
        assert(r@ =~= v@.subrange(lo as int, i as int));
    }
    r
}

/// Index of the first character of `v` that is not white space, or its length.
fn lead_end(v: &Vec<char>) -> (r: usize)
    ensures
        r <= v@.len(),
        trim_start(v@) == v@.subrange(r as int, v@.len() as int),
{
    let mut i: usize = 0;
    assert(v@.subrange(0, v@.len() as int) =~= v@);
    while i < v.len()
        invariant
            i <= v@.len(),
            trim_start(v@) == trim_start(v@.subrange(i as int, v@.len() as int)),
        decreases v@.len() - i,
    {
        if !is_white_char(v[i]) {
            return i;
        }
        assert(v@.subrange(i as int, v@.len() as int).drop_first() =~= v@.subrange(
            i + 1,
            v@.len() as int,
        ));
        i = i + 1;
    }
    assert(v@.subrange(i as int, v@.len() as int) =~= Seq::<char>::empty());
    i
}

/// Index just past the last character of `v[..hi]` that is not white space.
fn trail_start(v: &Vec<char>, hi: usize) -> (r: usize)
    requires
        hi <= v@.len(),
    ensures
        r <= hi,
        trim_end(v@.subrange(0, hi as int)) == v@.subrange(0, r as int),
{
    let mut j: usize = hi;
    while j > 0
        invariant
            j <= hi <= v@.len(),
            trim_end(v@.subrange(0, hi as int)) == trim_end(v@.subrange(0, j as int)),
        decreases j,
    {
        if !is_white_char(v[j - 1]) {
            return j;
        }
        assert(v@.subrange(0, j as int).drop_last() =~= v@.subrange(0, j - 1));
        j = j - 1;
    }
    j
}

/// `v` without white space at its start.
pub fn trim_start_chars(v: &Vec<char>) -> (r: Vec<char>)
    ensures
        r@ == trim_start(v@),
{
    let i = lead_end(v);
    slice_chars(v, i, v.len())
}

/// `v` without white space at either end.
pub fn trim_chars(v: &Vec<char>) -> (r: Vec<char>)
    ensures
        r@ == trim(v@),
{
    let s = trim_start_chars(v);
    let j = trail_start(&s, s.len());
    assert(s@.subrange(0, s@.len() as int) =~= s@);
    slice_chars(&s, 0, j)
}

/// Whether `p` occurs in `v` at position `i`.
pub fn occurs_at_exec(v: &Vec<char>, p: &Vec<char>, i: usize) -> (r: bool)
    ensures
        r == occurs_at(v@, p@, i as int),
{
    if i > v.len() || p.len() > v.len() - i {
        return false;
    }
    let mut k: usize = 0;
    while k < p.len()
        invariant
            k <= p@.len(),
            i <= v@.len() <= usize::MAX,
            i + p@.len() <= v@.len(),
            forall|m: int| 0 <= m < k ==> v@[i + m] == p@[m],
        decreases p@.len() - k,
    {
        if v[i + k] != p[k] {
            assert(v@.subrange(i as int, i + p@.len())[k as int] != p@[k as int]);
            return false;
        }
        k = k + 1;
    }
    assert(v@.subrange(i as int, i + p@.len()) =~= p@);
    true
}

/// `v` with every leading repetition of the non-empty `p` removed.
pub fn strip_leading_chars(v: &Vec<char>, p: &Vec<char>) -> (r: Vec<char>)
    requires
        p@.len() > 0,
    ensures
        r@ == strip_leading(v@, p@),
{
    let mut i: usize = 0;
    assert(v@.subrange(0, v@.len() as int) =~= v@);
    let n = v.len();
    let mut at: bool = occurs_at_exec(v, p, i);
    while at
        invariant
            at == occurs_at(v@, p@, i as int),
            i <= v@.len() <= usize::MAX,
            p@.len() > 0,
            strip_leading(v@, p@) == strip_leading(v@.subrange(i as int, v@.len() as int), p@),
        decreases v@.len() - i,
    {
        let ghost rest = v@.subrange(i as int, v@.len() as int);
        assert(rest.subrange(0, p@.len() as int) =~= v@.subrange(i as int, i + p@.len()));
        assert(rest.subrange(p@.len() as int, rest.len() as int) =~= v@.subrange(
            i + p@.len(),
            v@.len() as int,
        ));
        i = i + p.len();
        at = occurs_at_exec(v, p, i);
    }
    let ghost rest = v@.subrange(i as int, v@.len() as int);
    assert(!occurs_at(rest, p@, 0)) by {
        if occurs_at(rest, p@, 0) {
            assert(rest.subrange(0, p@.len() as int) =~= v@.subrange(i as int, i + p@.len()));
        }
    }
    slice_chars(v, i, v.len())
}

proof fn lemma_replaced_append(s: Seq<char>, i: int, from: Seq<char>, to: Seq<char>)
    requires
        0 <= i < s.len(),
    ensures
        from.len() > 0 && occurs_at(s.subrange(i, s.len() as int), from, 0) ==> replaced(
            s.subrange(i, s.len() as int),
            from,
            to,
        ) == to + replaced(s.subrange(i + from.len(), s.len() as int), from, to),
        !(from.len() > 0 && occurs_at(s.subrange(i, s.len() as int), from, 0)) ==> replaced(
            s.subrange(i, s.len() as int),
            from,
            to,
        ) == seq![s[i]] + replaced(s.subrange(i + 1, s.len() as int), from, to),
{
    let rest = s.subrange(i, s.len() as int);
    if from.len() > 0 && occurs_at(rest, from, 0) {
        assert(rest.subrange(from.len() as int, rest.len() as int) =~= s.subrange(
            i + from.len(),
            s.len() as int,
        ));
    } else {
        assert(rest.drop_first() =~= s.subrange(i + 1, s.len() as int));
    }
}

/// `v` with the non-overlapping occurrences of the non-empty `from`, found left
/// to right, each replaced by `to`.
pub fn replace_chars(v: &Vec<char>, from: &Vec<char>, to: &Vec<char>) -> (r: Vec<char>)
    requires
        from@.len() > 0,
    ensures
        r@ == replaced(v@, from@, to@),
{
    let mut out: Vec<char> = Vec::new();
    let mut i: usize = 0;
    assert(v@.subrange(0, v@.len() as int) =~= v@);
    while i < v.len()
        invariant
            i <= v@.len(),
            from@.len() > 0,
            out@ + replaced(v@.subrange(i as int, v@.len() as int), from@, to@) == replaced(
                v@,
                from@,
                to@,
            ),
        decreases v@.len() - i,
    {
        proof {
            lemma_replaced_append(v@, i as int, from@, to@);
        }
        let ghost rest = v@.subrange(i as int, v@.len() as int);
        if occurs_at_exec(v, from, i) {
            assert(rest.subrange(0, from@.len() as int) =~= v@.subrange(i as int, i + from@.len()));
            let ghost before = out@;
            let mut k: usize = 0;
            while k < to.len()
                invariant
                    k <= to@.len(),
                    out@ == before + to@.subrange(0, k as int),
                decreases to@.len() - k,
            {
                out.push(to[k]);
                k = k + 1;
                assert(out@ =~= before + to@.subrange(0, k as int));
            }
            assert(to@.subrange(0, to@.len() as int) =~= to@);
            assert(out@ + replaced(v@.subrange(i + from@.len(), v@.len() as int), from@, to@)
                =~= before + replaced(rest, from@, to@));
            i = i + from.len();
        } else {
            proof {
                if occurs_at(rest, from@, 0) {
                    assert(rest.subrange(0, from@.len() as int) =~= v@.subrange(
                        i as int,
                        i + from@.len(),
                    ));
                }
            }
            let ghost before = out@;
            out.push(v[i]);
            assert(out@ + replaced(v@.subrange(i + 1, v@.len() as int), from@, to@)
                =~= before + replaced(rest, from@, to@));
            i = i + 1;
        }
    }
    assert(v@.subrange(i as int, v@.len() as int) =~= Seq::<char>::empty());
    assert(out@ + Seq::<char>::empty() =~= out@);
    out
}

/// The pieces of `s` between occurrences of `sep`, in order (always at least one).
pub open spec fn split_on(s: Seq<char>, sep: char) -> Seq<Seq<char>>
    decreases s.len(),
{
    if s.len() == 0 {
        seq![Seq::<char>::empty()]
    } else {
        let init = split_on(s.drop_last(), sep);
        if s.last() == sep {
            init.push(Seq::<char>::empty())
        } else {
            init.update(init.len() - 1, init.last().push(s.last()))
        }
    }
}

pub proof fn lemma_split_on_nonempty(s: Seq<char>, sep: char)
    ensures
        split_on(s, sep).len() >= 1,
    decreases s.len(),
{
    if s.len() > 0 {
        lemma_split_on_nonempty(s.drop_last(), sep);
    }
}

/// The pieces of `v` between occurrences of `sep`, each trimmed.
pub fn split_trimmed(v: &Vec<char>, sep: char) -> (r: Vec<String>)
    ensures
        r@.len() == split_on(v@, sep).len(),
        forall|j: int| 0 <= j < r@.len() ==> #[trigger] r@[j]@ == trim(split_on(v@, sep)[j]),
{
    let mut out: Vec<String> = Vec::new();
    let mut cur: Vec<char> = Vec::new();
    let mut i: usize = 0;
    assert(v@.subrange(0, 0) =~= Seq::<char>::empty());
    while i < v.len()
        invariant
            i <= v@.len(),
            out@.len() + 1 == split_on(v@.subrange(0, i as int), sep).len(),
            forall|j: int|
                0 <= j < out@.len() ==> #[trigger] out@[j]@ == trim(
                    split_on(v@.subrange(0, i as int), sep)[j],
                ),
            cur@ == split_on(v@.subrange(0, i as int), sep).last(),
        decreases v@.len() - i,
    {
        let ghost pre = v@.subrange(0, i as int);
        let ghost next = v@.subrange(0, i + 1);
        assert(next.drop_last() =~= pre);
        proof {
            lemma_split_on_nonempty(pre, sep);
        }
        let c = v[i];
        if c == sep {
            let t = trim_chars(&cur);
            out.push(string_of(t.as_slice()));
            cur = Vec::new();
        } else {
            cur.push(c);
        }
        i = i + 1;
    }
    assert(v@.subrange(0, v@.len() as int) =~= v@);
    proof {
        lemma_split_on_nonempty(v@, sep);
    }
    let t = trim_chars(&cur);
    out.push(string_of(t.as_slice()));
    out
}

/// The texts of `pages` joined with one space between neighbours.
pub open spec fn joined(pages: Seq<Seq<char>>) -> Seq<char>
    decreases pages.len(),
{
    if pages.len() == 0 {
        Seq::empty()
    } else if pages.len() == 1 {
        pages[0]
    } else {
        joined(pages.drop_last()) + seq![' '] + pages.last()
    }
}

/// The texts of `pages` joined with one space between neighbours.
pub fn join_pages(pages: &Vec<String>) -> (r: Vec<char>)
    ensures
        r@ == joined(pages@.map_values(|p: String| p@)),
{
    let ghost views = pages@.map_values(|p: String| p@);
    let mut out: Vec<char> = Vec::new();
    let mut i: usize = 0;
    while i < pages.len()
        invariant
            i <= pages@.len(),
            views == pages@.map_values(|p: String| p@),
            out@ == joined(views.subrange(0, i as int)),
        decreases pages@.len() - i,
    {
        let ghost before = out@;
        let page = chars_of(pages[i].as_str());
        if i > 0 {
            out.push(' ');
        }
        let mut k: usize = 0;
        let ghost mid = out@;
        while k < page.len()
            invariant
                k <= page@.len(),
                out@ == mid + page@.subrange(0, k as int),
            decreases page@.len() - k,
        {
            out.push(page[k]);
            k = k + 1;
            assert(out@ =~= mid + page@.subrange(0, k as int));
        }
        assert(page@.subrange(0, page@.len() as int) =~= page@);
        let ghost sub = views.subrange(0, i + 1);
        assert(sub.drop_last() =~= views.subrange(0, i as int));
        assert(out@ =~= joined(sub));
        i = i + 1;
    }
    assert(views.subrange(0, pages@.len() as int) =~= views);
    out
}

} // verus!
