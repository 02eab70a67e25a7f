//! Reading the fields of a paper's metadata page and of an HTML page in
//! general, and the addresses derived from a paper's address.

use vstd::prelude::*;
use crate::extract::{
    authors_from_texts, body_from_pages, body_of, description_of, parse_description, parse_subjects,
    parse_title, title_of,
};
use crate::models::{Date, Error, NewAuthor, NewPaperFull, NewSubject, Result};
use crate::text::{
    chars_of, occurs_at, occurs_at_exec, replace_chars, replaced, slice_chars, split_on, string_of,
    trim,
};

verus! {

/// For each element of the HTML document `page` that the CSS selector
/// `selector` matches, in the order in which scraper's `Html::select` yields
/// them, its text; `None` where the selector
/// does not parse.
pub uninterp spec fn css_texts(page: Seq<char>, selector: Seq<char>) -> Option<Seq<Seq<char>>>;

/// For each element of `page` that `selector` matches, in the order in which
/// scraper's `Html::select` yields them, the
/// value of its attribute `attr` if it has one; `None` where the selector does
/// not parse.
pub uninterp spec fn css_attrs(page: Seq<char>, selector: Seq<char>, attr: Seq<char>) -> Option<
    Seq<Option<Seq<char>>>,
>;

/// Relies on scraper's `Html::parse_document`, `Selector::parse`, `Html::select`
/// and `ElementRef::text`: the text nodes of each matching element, joined.
#[verifier::external_body]
fn select_texts(page: &str, selector: &str) -> (r: Option<Vec<String>>)
    ensures
        css_texts(page@, selector@) == match r {
            Some(v) => Some(v@.map_values(|t: String| t@)),
            None => None::<Seq<Seq<char>>>,
        },
{
    let dom = scraper::Html::parse_document(page);
    let sel = scraper::Selector::parse(selector).ok()?;
    Some(dom.select(&sel).map(|e| e.text().collect::<String>()).collect())
}

/// Relies on scraper's `Html::parse_document`, `Selector::parse`, `Html::select`
/// and `Element::attr`: the attribute `attr` of each matching element.
#[verifier::external_body]
pub(crate) fn select_attrs(page: &str, selector: &str, attr: &str) -> (r: Option<Vec<Option<String>>>)
    ensures
        css_attrs(page@, selector@, attr@) == match r {
            Some(v) => Some(
                v@.map_values(
                    |a: Option<String>|
                        match a {
                            Some(t) => Some(t@),
                            None => None::<Seq<char>>,
                        },
                ),
            ),
            None => None::<Seq<Option<Seq<char>>>>,
        },
{
    let dom = scraper::Html::parse_document(page);
    let sel = scraper::Selector::parse(selector).ok()?;
    Some(dom.select(&sel).map(|e| e.value().attr(attr).map(|a| a.to_string())).collect())
}

/// The text of the first element that `selector` matches, if any.
pub open spec fn first_text(page: Seq<char>, selector: Seq<char>) -> Option<Seq<char>> {
    match css_texts(page, selector) {
        Some(v) => if v.len() > 0 {
            Some(v[0])
        } else {
            None
        },
        None => None,
    }
}

fn select_first_text(page: &str, selector: &str) -> (r: Option<String>)
    ensures
        first_text(page@, selector@) == match r {
            Some(t) => Some(t@),
            None => None::<Seq<char>>,
        },
{
    match select_texts(page, selector) {
        Some(v) => if v.len() > 0 {
            Some(v[0].clone())
        } else {
            None
        },
        None => None,
    }
}

/// The title of a paper's metadata page; empty where it has no title heading.
pub fn select_title(page: &str) -> (r: String)
    ensures
        r@ == match first_text(page@, "h1.title"@) {
            Some(t) => title_of(t),
            None => Seq::empty(),
        },
{
    match select_first_text(page, "h1.title") {
        Some(t) => parse_title(t.as_str()),
        None => String::new(),
    }
}

/// The abstract of a paper's metadata page; empty where it has none.
pub fn select_description(page: &str) -> (r: String)
    ensures
        r@ == match first_text(page@, "blockquote.abstract"@) {
            Some(t) => description_of(t),
            None => Seq::empty(),
        },
{
    match select_first_text(page, "blockquote.abstract") {
        Some(t) => parse_description(t.as_str()),
        None => String::new(),
    }
}

/// The authors of a paper's metadata page: one for each link in the author
/// list, in order.
pub fn select_authors(page: &str) -> (r: Result<Vec<NewAuthor>>)
    ensures
        r matches Ok(a) && a@.map_values(|x: NewAuthor| x.name@) == match css_texts(
            page@,
            ".authors > a"@,
        ) {
            Some(v) => v,
            None => Seq::empty(),
        },
{
    let texts = match select_texts(page, ".authors > a") {
        Some(v) => v,
        None => Vec::new(),
    };
    let a = authors_from_texts(&texts);
    assert(a@.map_values(|x: NewAuthor| x.name@) =~= texts@.map_values(|t: String| t@));
    Ok(a)
}

/// The subjects of a paper's metadata page: the subjects cell split at `;`,
/// each trimmed; none where the page has no such cell.
pub fn select_subjects(page: &str) -> (r: Result<Vec<NewSubject>>)
    ensures
        r matches Ok(s) && s@.map_values(|x: NewSubject| x.name@) == match first_text(
            page@,
            "td.subjects"@,
        ) {
            Some(t) => split_on(t, ';').map_values(|p: Seq<char>| trim(p)),
            None => Seq::empty(),
        },
{
    match select_first_text(page, "td.subjects") {
        Some(t) => {
            let s = parse_subjects(t.as_str());
            assert(s@.map_values(|x: NewSubject| x.name@) =~= split_on(t@, ';').map_values(
                |p: Seq<char>| trim(p),
            ));
            Ok(s)
        },
        None => {
            let s: Vec<NewSubject> = Vec::new();
            assert(s@.map_values(|x: NewSubject| x.name@) =~= Seq::<Seq<char>>::empty());
            Ok(s)
        },
    }
}

/// The path segment that marks a paper's abstract view.
pub const ABS_SEGMENT: &'static str = "/abs/";

/// The path segment that marks a paper's document view.
pub const PDF_SEGMENT: &'static str = "/pdf/";

/// The site that listing links are relative to.
pub const SITE: &'static str = "https://arxiv.org";

/// The host that serves papers in bulk.
pub const EXPORT_HOST: &'static str = "export.arxiv.org";

/// The host that serves the site.
pub const HOST: &'static str = "arxiv.org";

/// Whether `i` is the first position at which `p` occurs in `s`.
pub open spec fn is_first_at(s: Seq<char>, p: Seq<char>, i: int) -> bool {
    occurs_at(s, p, i) && forall|j: int| 0 <= j < i ==> !occurs_at(s, p, j)
}

/// The position just past the first abstract-view segment of `url`.
pub open spec fn id_start(url: Seq<char>) -> int {
    (choose|i: int| is_first_at(url, ABS_SEGMENT@, i)) + ABS_SEGMENT@.len()
}

/// Whether `url` holds an abstract-view segment.
pub open spec fn has_abs(url: Seq<char>) -> bool {
    exists|i: int| occurs_at(url, ABS_SEGMENT@, i)
}

/// A paper's identifier: what follows the first abstract-view segment of its address.
pub open spec fn id_of(url: Seq<char>) -> Seq<char> {
    url.subrange(id_start(url), url.len() as int)
}

/// A paper's document address: its address with the first abstract-view
/// segment made a document-view segment.
pub open spec fn pdf_url_of(url: Seq<char>) -> Seq<char> {
    url.subrange(0, id_start(url) - ABS_SEGMENT@.len()) + PDF_SEGMENT@ + id_of(url)
}

/// The first position at which the non-empty `p` occurs in `v`, if any.
fn find_chars(v: &Vec<char>, p: &Vec<char>) -> (r: Option<usize>)
    requires
        p@.len() > 0,
    ensures
        match r {
            Some(i) => is_first_at(v@, p@, i as int),
            None => forall|j: int| !occurs_at(v@, p@, j),
        },
{
    let mut i: usize = 0;
    while i < v.len()
        invariant
            i <= v@.len(),
            forall|j: int| 0 <= j < i ==> !occurs_at(v@, p@, j),
        decreases v@.len() - i,
    {
        if occurs_at_exec(v, p, i) {
            return Some(i);
        }
        i = i + 1;
    }
    None
}

/// The position of the first abstract-view segment of `url`, if any.
fn find_abs(url: &Vec<char>) -> (r: Option<usize>)
    ensures
        match r {
            Some(i) => is_first_at(url@, ABS_SEGMENT@, i as int) && i + ABS_SEGMENT@.len()
                == id_start(url@) && has_abs(url@) && i + 5 <= url@.len() && ABS_SEGMENT@.len() == 5,
            None => !has_abs(url@),
        },
{
    proof {
        reveal_strlit("/abs/");
    }
    let r = find_chars(url, &chars_of(ABS_SEGMENT));
    match r {
        Some(i) => {
            proof {
                let j = choose|j: int| is_first_at(url@, ABS_SEGMENT@, j);
                assert(is_first_at(url@, ABS_SEGMENT@, i as int));
                assert(!(j < i) && !(i < j));
            }
        },
        None => {},
    }
    r
}

/// A paper's identifier, taken from its address; an error where the address
/// has no abstract-view segment.
pub fn paper_id(url: &str) -> (r: Result<String>)
    ensures
        r is Ok <==> has_abs(url@),
        r matches Ok(id) ==> id@ == id_of(url@),
{
    let v = chars_of(url);
    match find_abs(&v) {
        Some(i) => {
            proof { reveal_strlit("/abs/"); }
            let n = v.len();
            let id = slice_chars(&v, i + 5, n);
            Ok(string_of(id.as_slice()))
        },
        None => Err(Error::Extraction(String::from_str("no abstract segment in the address"))),
    }
}

/// A paper's document address, derived from its address; an error where the
/// address has no abstract-view segment.
pub fn pdf_url(url: &str) -> (r: Result<String>)
    ensures
        r is Ok <==> has_abs(url@),
        r matches Ok(u) ==> u@ == pdf_url_of(url@),
{
    let v = chars_of(url);
    match find_abs(&v) {
        Some(i) => {
            proof {
                reveal_strlit("/abs/");
                reveal_strlit("/pdf/");
            }
            let mut out = slice_chars(&v, 0, i);
            let seg = chars_of(PDF_SEGMENT);
            let n = v.len();
            let id = slice_chars(&v, i + 5, n);
            let ghost head = out@;
            let mut k: usize = 0;
            while k < 5
                invariant
                    k <= 5,
                    seg@ == PDF_SEGMENT@,
                    seg@.len() == 5,
                    out@ == head + seg@.subrange(0, k as int),
                decreases 5 - k,
            {
                out.push(seg[k]);
                k = k + 1;
                assert(out@ =~= head + seg@.subrange(0, k as int));
            }
            assert(seg@.subrange(0, 5) =~= seg@);
            let ghost mid = out@;
            let mut m: usize = 0;
            while m < id.len()
                invariant
                    m <= id@.len(),
                    out@ == mid + id@.subrange(0, m as int),
                decreases id@.len() - m,
            {
                out.push(id[m]);
                m = m + 1;
                assert(out@ =~= mid + id@.subrange(0, m as int));
            }
            assert(id@.subrange(0, id@.len() as int) =~= id@);
            Ok(string_of(out.as_slice()))
        },
        None => Err(Error::Extraction(String::from_str("no abstract segment in the address"))),
    }
}

/// The address from which a listed paper is downloaded: the site's host made
/// the bulk host, wherever it occurs.
pub fn download_url(url: &str) -> (r: String)
    ensures
        r@ == replaced(url@, HOST@, EXPORT_HOST@),
{
    proof {
        reveal_strlit("arxiv.org");
    }
    let v = replace_chars(&chars_of(url), &chars_of(HOST), &chars_of(EXPORT_HOST));
    string_of(v.as_slice())
}

/// A paper's record, from its download address, the date it was submitted, its
/// metadata page and the texts of its document's pages; an error where the
/// address has no abstract-view segment.
pub fn assemble_paper(url: &str, submission_date: Date, page: &str, pages: &Vec<String>) -> (r:
    Result<NewPaperFull>)
    ensures
        r is Ok <==> has_abs(url@),
        r matches Ok(p) ==> {
            &&& p.arxiv_id@ == id_of(url@)
            &&& p.submission_date == submission_date
            &&& p.title@ == match first_text(page@, "h1.title"@) {
                Some(t) => title_of(t),
                None => Seq::empty(),
            }
            &&& p.description@ == match first_text(page@, "blockquote.abstract"@) {
                Some(t) => description_of(t),
                None => Seq::empty(),
            }
            &&& p.body@ == body_of(pages@.map_values(|t: String| t@))
            &&& p.authors@.map_values(|x: NewAuthor| x.name@) == match css_texts(
                page@,
                ".authors > a"@,
            ) {
                Some(v) => v,
                None => Seq::empty(),
            }
            &&& p.subjects@.map_values(|x: NewSubject| x.name@) == match first_text(
                page@,
                "td.subjects"@,
            ) {
                Some(t) => split_on(t, ';').map_values(|q: Seq<char>| trim(q)),
                None => Seq::empty(),
            }
        },
{
    let arxiv_id = match paper_id(url) {
        Ok(id) => id,
        Err(e) => return Err(e),
    };
    let title = select_title(page);
    let description = select_description(page);
    let body = body_from_pages(pages);
    let authors = match select_authors(page) {
        Ok(a) => a,
        Err(e) => return Err(e),
    };
    let subjects = match select_subjects(page) {
        Ok(s) => s,
        Err(e) => return Err(e),
    };
    Ok(NewPaperFull { arxiv_id, title, description, submission_date, body, authors, subjects })
}

} // verus!
