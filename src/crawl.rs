//! Walking the paginated listing of papers submitted on one date.

use vstd::prelude::*;
use crate::models::{Date, Error, Result};
use crate::page::{css_attrs, select_attrs, SITE};
use crate::text::{chars_of, string_of};

verus! {

/// The CSS selector of a paper's link in a listing page.
pub const LINK_SELECTOR: &'static str = ".list-title > a";

/// The CSS selector of the link to the next listing page.
pub const NEXT_SELECTOR: &'static str = "a.pagination-next";

/// The attribute that holds a link's target.
pub const HREF: &'static str = "href";

/// The search address up to the first date.
pub const SEARCH_HEAD: &'static str = "https://arxiv.org/search/advanced?advanced=&terms-0-operator=AND&terms-0-term=&terms-0-field=title&classification-computer_science=y&classification-economics=y&classification-eess=y&classification-mathematics=y&classification-physics=y&classification-physics_archives=all&classification-q_biology=y&classification-q_finance=y&classification-statistics=y&classification-include_cross_list=include&date-year=&date-filter_by=date_range&date-from_date=";

/// The search address between the two dates.
pub const SEARCH_MID: &'static str = "&date-to_date=";

/// The search address after the second date.
pub const SEARCH_TAIL: &'static str = "&date-date_type=submitted_date_first&abstracts=hide&size=200&order=-announced_date_first";

/// The decimal digits, each at the position of its value.
pub const DIGITS: &'static str = "0123456789";

/// The last `width` decimal digits of `n`, zeros in front.
pub open spec fn padded(n: nat, width: nat) -> Seq<char>
    decreases width,
{
    if width == 0 {
        Seq::empty()
    } else {
        padded(n / 10, (width - 1) as nat).push(DIGITS@[(n % 10) as int])
    }
}

/// A date written `YYYY-MM-DD`.
pub open spec fn iso_of(year: int, month: int, day: int) -> Seq<char> {
    padded(year as nat, 4) + seq!['-'] + padded(month as nat, 2) + seq!['-'] + padded(day as nat, 2)
}

/// The address of the first listing page of the papers submitted on `d`: the
/// range from `d` up to the next day.
pub open spec fn search_url_of(d: Date) -> Seq<char> {
    let n = d.next_spec();
    SEARCH_HEAD@ + iso_of(d.year as int, d.month as int, d.day as int) + SEARCH_MID@ + iso_of(
        n.0,
        n.1,
        n.2,
    ) + SEARCH_TAIL@
}

/// Relies on chrono's `NaiveDate::from_ymd_opt` and `NaiveDate::succ_opt`: the
/// day after a valid date, which exists for the years from 0 to 9999.
#[verifier::external_body]
fn next_day(d: Date) -> (r: Option<Date>)
    ensures
        r matches Some(n) ==> d.wf() && (n.year as int, n.month as int, n.day as int)
            == d.next_spec(),
        d.wf() && 0 <= d.year <= 9999 ==> r is Some,
{
    let nd = chrono::NaiveDate::from_ymd_opt(d.year, d.month, d.day)?.succ_opt()?;
    Some(Date {
        year: chrono::Datelike::year(&nd),
        month: chrono::Datelike::month(&nd),
        day: chrono::Datelike::day(&nd),
    })
}

/// Appends the last `width` decimal digits of `n` to `out`.
fn push_padded(out: &mut Vec<char>, n: u32, width: usize)
    ensures
        final(out)@ == old(out)@ + padded(n as nat, width as nat),
    decreases width,
{
    if width == 0 {
        assert(old(out)@ + padded(n as nat, 0) =~= old(out)@);
        return ;
    }
    push_padded(out, n / 10, width - 1);
    proof {
        reveal_strlit("0123456789");
    }
    let digits = chars_of(DIGITS);
    out.push(digits[(n % 10) as usize]);
    assert(final(out)@ =~= old(out)@ + padded(n as nat, width as nat));
}

/// Appends the characters of `s` to `out`.
fn push_str(out: &mut Vec<char>, s: &str)
    ensures
        final(out)@ == old(out)@ + s@,
{
    let v = chars_of(s);
    let mut i: usize = 0;
    while i < v.len()
        invariant
            i <= v@.len(),
            v@ == s@,
            out@ == old(out)@ + v@.subrange(0, i as int),
        decreases v@.len() - i,
    {
        out.push(v[i]);
        i = i + 1;
        assert(out@ =~= old(out)@ + v@.subrange(0, i as int));
    }
    assert(v@.subrange(0, v@.len() as int) =~= v@);
}

/// Appends `d` written `YYYY-MM-DD` to `out`.
fn push_iso(out: &mut Vec<char>, d: Date)
    requires
        0 <= d.year,
    ensures
        final(out)@ == old(out)@ + iso_of(d.year as int, d.month as int, d.day as int),
{
    push_padded(out, d.year as u32, 4);
    push_str(out, "-");
    push_padded(out, d.month, 2);
    push_str(out, "-");
    push_padded(out, d.day, 2);
    proof {
        reveal_strlit("-");
    }
    assert(final(out)@ =~= old(out)@ + iso_of(d.year as int, d.month as int, d.day as int));
}

/// Whether `d` is a valid date that, with the day after it, can be written
/// with a four-digit year: from 0000-01-01 up to 9999-12-30.
pub open spec fn searchable(d: Date) -> bool {
    d.wf() && 0 <= d.year <= 9999 && !(d.year == 9999 && d.month == 12 && d.day == 31)
}

/// The address of the first listing page of the papers submitted on `d`;
/// `None` where `d` is not searchable.
pub fn search_url(d: Date) -> (r: Option<String>)
    ensures
        r is Some <==> searchable(d),
        r matches Some(u) ==> u@ == search_url_of(d),
{
    if !(1 <= d.month && d.month <= 12 && 1 <= d.day && d.day <= days_in(d.year, d.month) && 0
        <= d.year && d.year <= 9999 && !(d.year == 9999 && d.month == 12 && d.day == 31)) {
        return None;
    }
    let n = match next_day(d) {
        Some(n) => n,
        None => return None,
    };
    let mut out: Vec<char> = Vec::new();
    push_str(&mut out, SEARCH_HEAD);
    push_iso(&mut out, d);
    push_str(&mut out, SEARCH_MID);
    push_iso(&mut out, n);
    push_str(&mut out, SEARCH_TAIL);
    Some(string_of(out.as_slice()))
}

/// The number of days in a month.
pub fn days_in(year: i32, month: u32) -> (r: u32)
    ensures
        r == crate::models::days_in_month(year as int, month as int),
{
    if month == 2 {
        if (year % 4 == 0 && year % 100 != 0) || year % 400 == 0 {
            29
        } else {
            28
        }
    } else if month == 4 || month == 6 || month == 9 || month == 11 {
        30
    } else {
        31
    }
}

/// One listing page: the paper links on it, in order, and the address of the
/// next page, if it links one.
pub struct ListingPage {
    pub links: Vec<String>,
    pub next: Option<String>,
}

/// The values among `s` that are present, in order.
pub open spec fn present(s: Seq<Option<Seq<char>>>) -> Seq<Seq<char>>
    decreases s.len(),
{
    if s.len() == 0 {
        Seq::empty()
    } else {
        present(s.drop_last()) + match s.last() {
            Some(x) => seq![x],
            None => Seq::empty(),
        }
    }
}

/// Whether every value of `s` is present.
pub open spec fn all_present(s: Seq<Option<Seq<char>>>) -> bool {
    forall|i: int| 0 <= i < s.len() ==> #[trigger] s[i] is Some
}

/// Whether a listing page can be read: every paper link has a target, and so
/// does the first next-page link, if there is one.
pub open spec fn listing_readable(page: Seq<char>) -> bool {
    &&& match css_attrs(page, LINK_SELECTOR@, HREF@) {
        Some(v) => all_present(v),
        None => true,
    }
    &&& match css_attrs(page, NEXT_SELECTOR@, HREF@) {
        Some(v) => v.len() == 0 || v[0] is Some,
        None => true,
    }
}

/// The paper links of a listing page.
pub open spec fn links_of(page: Seq<char>) -> Seq<Seq<char>> {
    match css_attrs(page, LINK_SELECTOR@, HREF@) {
        Some(v) => present(v),
        None => Seq::empty(),
    }
}

/// The address of the next listing page: the target of the first next-page
/// link, taken relative to the site.
pub open spec fn next_of(page: Seq<char>) -> Option<Seq<char>> {
    match css_attrs(page, NEXT_SELECTOR@, HREF@) {
        Some(v) => if v.len() > 0 && v[0] is Some {
            Some(SITE@ + v[0]->Some_0)
        } else {
            None
        },
        None => None,
    }
}

/// The characters of an optional string.
pub open spec fn opt_view(o: Option<String>) -> Option<Seq<char>> {
    match o {
        Some(s) => Some(s@),
        None => None,
    }
}

impl ListingPage {
    /// A page with no links and no next page: what a page that could not be
    /// fetched or read counts as.
    pub fn empty() -> (r: ListingPage)
        ensures
            r.links@.len() == 0,
            r.next is None,
    {
        ListingPage { links: Vec::new(), next: None }
    }
}

/// Reads a listing page: its paper links in order and the next page's
/// address. A page that cannot be read counts as empty: no links and no next
/// page, which ends the walk.
pub fn parse_listing(page: &str) -> (r: ListingPage)
    ensures
        listing_readable(page@) ==> r.links@.map_values(|l: String| l@) == links_of(page@)
            && opt_view(r.next) == next_of(page@),
        !listing_readable(page@) ==> r.links@.len() == 0 && r.next is None,
{
    let mut links: Vec<String> = Vec::new();
    match select_attrs(page, LINK_SELECTOR, HREF) {
        Some(v) => {
            let ghost vs = v@.map_values(
                |a: Option<String>|
                    match a {
                        Some(t) => Some(t@),
                        None => None::<Seq<char>>,
                    },
            );
            let mut i: usize = 0;
            while i < v.len()
                invariant
                    i <= v@.len(),
                    vs == v@.map_values(
                        |a: Option<String>|
                            match a {
                                Some(t) => Some(t@),
                                None => None::<Seq<char>>,
                            },
                    ),
                    links@.map_values(|l: String| l@) == present(vs.subrange(0, i as int)),
                    forall|j: int| 0 <= j < i ==> #[trigger] vs[j] is Some,
                    css_attrs(page@, LINK_SELECTOR@, HREF@) == Some(vs),
                decreases v@.len() - i,
            {
                let ghost sub = vs.subrange(0, i + 1);
                assert(sub.drop_last() =~= vs.subrange(0, i as int));
                match &v[i] {
                    Some(t) => {
                        links.push(t.clone());
                    },
                    None => {
                        assert(vs[i as int] is None);
                        assert(!all_present(vs));
                        return ListingPage::empty();
                    },
                }
                assert(links@.map_values(|l: String| l@) =~= present(sub));
                i = i + 1;
            }
            assert(vs.subrange(0, v@.len() as int) =~= vs);
        },
        None => {
            assert(links@.map_values(|l: String| l@) =~= Seq::<Seq<char>>::empty());
        },
    }
    let next = match select_attrs(page, NEXT_SELECTOR, HREF) {
        Some(v) => if v.len() > 0 {
            match &v[0] {
                Some(h) => {
                    let mut out: Vec<char> = Vec::new();
                    push_str(&mut out, SITE);
                    push_str(&mut out, h.as_str());
                    Some(string_of(out.as_slice()))
                },
                None => return ListingPage::empty(),
            }
        } else {
            None
        },
        None => None,
    };
    ListingPage { links, next }
}

/// The listing page that a fetch gave: the page read where the fetch
/// succeeded, an empty page where it failed.
pub fn listing_from_fetch(fetched: Result<String>) -> (r: ListingPage)
    ensures
        fetched is Err ==> r.links@.len() == 0 && r.next is None,
        fetched matches Ok(body) ==> {
            &&& listing_readable(body@) ==> r.links@.map_values(|l: String| l@) == links_of(
                body@,
            ) && opt_view(r.next) == next_of(body@)
            &&& !listing_readable(body@) ==> r.links@.len() == 0 && r.next is None
        },
{
    match fetched {
        Ok(body) => parse_listing(body.as_str()),
        Err(_) => ListingPage::empty(),
    }
}

/// The walk over the listing pages of one date: the paper links found so far,
/// in page order, and the address of the page still to fetch, if any.
pub struct ListingCrawler {
    pub urls: Vec<String>,
    pub next: Option<String>,
}

impl ListingCrawler {
    /// A walk that starts at the first listing page of `d`; `None` where `d` is
    /// not searchable.
    pub fn new(d: Date) -> (r: Option<ListingCrawler>)
        ensures
            r is Some <==> searchable(d),
            r matches Some(c) ==> c.urls@.len() == 0 && opt_view(c.next) == Some(search_url_of(d)),
    {
        match search_url(d) {
            Some(u) => Some(ListingCrawler { urls: Vec::new(), next: Some(u) }),
            None => None,
        }
    }

    /// Takes in the page that was fetched from `self.next`: its links are
    /// appended, and its next-page link, or its lack of one, decides what
    /// comes next. A page without a next-page link ends the walk.
    pub fn record_page(&mut self, page: ListingPage)
        ensures
            final(self).urls@ == old(self).urls@ + page.links@,
            final(self).next == page.next,
    {
        let mut links = page.links;
        self.urls.append(&mut links);
        self.next = page.next;
    }

    /// Whether the walk is over.
    pub fn is_done(&self) -> (r: bool)
        ensures
            r == self.next is None,
    {
        self.next.is_none()
    }
}

} // verus!
