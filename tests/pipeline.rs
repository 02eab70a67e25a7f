use arxiv_scraper::batch::{build_submission, collect_papers};
use arxiv_scraper::config::Config;
use arxiv_scraper::crawl::{
    listing_from_fetch, parse_listing, search_url, ListingCrawler, ListingPage,
};
use arxiv_scraper::extract::{
    body_from_pages, fix_line_breaks, parse_description, parse_subjects, parse_title,
};
use arxiv_scraper::fetch::{Backoff, RateLimiter};
use arxiv_scraper::models::{Date, Error, NewPaperFull};
use arxiv_scraper::page::{
    assemble_paper, download_url, paper_id, pdf_url, select_authors, select_description,
    select_subjects, select_title,
};
use arxiv_scraper::text::is_white_char;

fn date(year: i32, month: u32, day: u32) -> Date {
    Date { year, month, day }
}

fn paper(id: &str) -> NewPaperFull {
    NewPaperFull {
        arxiv_id: id.to_string(),
        title: String::new(),
        description: String::new(),
        submission_date: date(2024, 1, 1),
        body: String::new(),
        authors: Vec::new(),
        subjects: Vec::new(),
    }
}

const PAPER_PAGE: &str = "<html><body>\
    <h1 class=\"title mathjax\"><span class=\"descriptor\">Title:</span>A  Great Paper</h1>\
    <div class=\"authors\"><span class=\"descriptor\">Authors:</span><a href=\"/a/ann\">Ann Lee</a>, <a href=\"/a/bob\">Bob Stone</a></div>\
    <blockquote class=\"abstract mathjax\"><span class=\"descriptor\">Abstract:</span>  First line\nsecond line.\n</blockquote>\
    <table><tr><td class=\"tablecell subjects\">Machine Learning (cs.LG); Statistics (stat.ML)</td></tr></table>\
    </body></html>";

#[test]
fn reflow_joins_hyphenated_wrap() {
    assert_eq!(fix_line_breaks("cap-\ntured".to_string()), "captured");
    assert_eq!(fix_line_breaks("multi-\nline text".to_string()), "multiline text");
}

#[test]
fn reflow_leaves_hyphen_before_space() {
    assert_eq!(fix_line_breaks("cap- \ntured".to_string()), "cap- \ntured");
    assert_eq!(fix_line_breaks("cap-\n tured".to_string()), "cap-\n tured");
    assert_eq!(fix_line_breaks("well-known".to_string()), "well-known");
}

#[test]
fn body_joins_pages_with_single_spaces() {
    let pages = vec!["first page ends cap-\ntured".to_string(), "second".to_string(), "third".to_string()];
    assert_eq!(body_from_pages(&pages), "first page ends captured second third");
}

#[test]
fn body_of_unopened_document_is_empty() {
    assert_eq!(body_from_pages(&Vec::new()), "");
}

#[test]
fn title_label_stripped_and_double_spaces_collapsed() {
    assert_eq!(parse_title("Title: A  Great  Paper"), "A Great Paper");
    assert_eq!(parse_title("  Title:A Paper \n"), "A Paper");
    assert_eq!(parse_title(""), "");
}

#[test]
fn title_triple_space_run_keeps_two() {
    assert_eq!(parse_title("Title: A  Great   Paper"), "A Great  Paper");
}

#[test]
fn description_label_stripped_and_lines_joined() {
    assert_eq!(parse_description("  Abstract: first\nsecond\n"), "first second");
    assert_eq!(parse_description("Abstract:Abstract: twice"), "twice");
}

#[test]
fn subjects_split_and_trimmed() {
    let s = parse_subjects(" Machine Learning (cs.LG);  Statistics (stat.ML) ");
    let names: Vec<&str> = s.iter().map(|x| x.name.as_str()).collect();
    assert_eq!(names, vec!["Machine Learning (cs.LG)", "Statistics (stat.ML)"]);
}

#[test]
fn whitespace_class() {
    assert!(is_white_char(' '));
    assert!(is_white_char('\n'));
    assert!(is_white_char('\u{3000}'));
    assert!(!is_white_char('a'));
    assert!(!is_white_char('-'));
}

#[test]
fn metadata_page_fields() {
    assert_eq!(select_title(PAPER_PAGE), "A Great Paper");
    assert_eq!(select_description(PAPER_PAGE), "First line second line.");
    let authors = select_authors(PAPER_PAGE).unwrap();
    let names: Vec<&str> = authors.iter().map(|a| a.name.as_str()).collect();
    assert_eq!(names, vec!["Ann Lee", "Bob Stone"]);
    let subjects = select_subjects(PAPER_PAGE).unwrap();
    let names: Vec<&str> = subjects.iter().map(|a| a.name.as_str()).collect();
    assert_eq!(names, vec!["Machine Learning (cs.LG)", "Statistics (stat.ML)"]);
}

#[test]
fn missing_fields_default_to_empty() {
    let page = "<html><body><p>nothing here</p></body></html>";
    assert_eq!(select_title(page), "");
    assert_eq!(select_description(page), "");
    assert!(select_authors(page).unwrap().is_empty());
    assert!(select_subjects(page).unwrap().is_empty());
}

#[test]
fn paper_addresses() {
    let url = "https://arxiv.org/abs/2401.00001";
    let export = download_url(url);
    assert_eq!(export, "https://export.arxiv.org/abs/2401.00001");
    assert_eq!(paper_id(&export).unwrap(), "2401.00001");
    assert_eq!(pdf_url(&export).unwrap(), "https://export.arxiv.org/pdf/2401.00001");
}

#[test]
fn address_without_abstract_segment_is_an_error() {
    assert!(matches!(paper_id("https://arxiv.org/list/2401"), Err(Error::Extraction(_))));
    assert!(matches!(pdf_url("https://arxiv.org/list/2401"), Err(Error::Extraction(_))));
}

#[test]
fn search_url_spans_one_day() {
    let u = search_url(date(2024, 1, 1)).unwrap();
    assert!(u.starts_with("https://arxiv.org/search/advanced?"));
    assert!(u.contains("date-from_date=2024-01-01&date-to_date=2024-01-02&"));
    assert!(u.ends_with("size=200&order=-announced_date_first"));
    let u = search_url(date(2023, 12, 31)).unwrap();
    assert!(u.contains("date-from_date=2023-12-31&date-to_date=2024-01-01&"));
    let u = search_url(date(2024, 2, 28)).unwrap();
    assert!(u.contains("date-from_date=2024-02-28&date-to_date=2024-02-29&"));
    let u = search_url(date(999, 3, 5)).unwrap();
    assert!(u.contains("date-from_date=0999-03-05&date-to_date=0999-03-06&"));
}

#[test]
fn search_url_refuses_invalid_date() {
    assert!(search_url(date(2023, 2, 29)).is_none());
    assert!(search_url(date(2024, 13, 1)).is_none());
    assert!(search_url(date(9999, 12, 31)).is_none());
    assert!(search_url(date(-1, 1, 1)).is_none());
}

#[test]
fn listing_page_links_and_next() {
    let page = "<html><body><ol>\
        <li><p class=\"list-title is-inline-block\"><a href=\"https://arxiv.org/abs/1\">arXiv:1</a></p></li>\
        <li><p class=\"list-title is-inline-block\"><a href=\"https://arxiv.org/abs/2\">arXiv:2</a></p></li>\
        </ol><nav><a class=\"pagination-next\" href=\"/search/advanced?start=200\">Next</a></nav></body></html>";
    let l = parse_listing(page);
    assert_eq!(l.links, vec!["https://arxiv.org/abs/1".to_string(), "https://arxiv.org/abs/2".to_string()]);
    assert_eq!(l.next, Some("https://arxiv.org/search/advanced?start=200".to_string()));
}

#[test]
fn last_listing_page_has_no_next() {
    let l = parse_listing("<html><body><p class=\"list-title\"><a href=\"x\">x</a></p></body></html>");
    assert_eq!(l.links, vec!["x".to_string()]);
    assert_eq!(l.next, None);
}

#[test]
fn crawl_stops_at_page_without_next() {
    let mut c = ListingCrawler::new(date(2024, 1, 1)).unwrap();
    assert!(!c.is_done());
    c.record_page(ListingPage { links: vec!["a".to_string(), "b".to_string()], next: Some("p2".to_string()) });
    assert!(!c.is_done());
    assert_eq!(c.next, Some("p2".to_string()));
    c.record_page(ListingPage { links: vec!["c".to_string()], next: None });
    assert!(c.is_done());
    assert_eq!(c.urls, vec!["a".to_string(), "b".to_string(), "c".to_string()]);
}

#[test]
fn failed_listing_page_ends_crawl() {
    let mut c = ListingCrawler::new(date(2024, 1, 1)).unwrap();
    c.record_page(ListingPage { links: vec!["a".to_string()], next: Some("p2".to_string()) });
    c.record_page(ListingPage::empty());
    assert!(c.is_done());
    assert_eq!(c.urls, vec!["a".to_string()]);
}

#[test]
fn dispatches_spaced_one_second() {
    let mut r = RateLimiter::new(0);
    assert_eq!(r.await_turn(0), 1000);
    assert_eq!(r.last_dispatch_millis, 1000);
    assert_eq!(r.await_turn(10), 1990);
    assert_eq!(r.last_dispatch_millis, 2000);
    assert_eq!(r.await_turn(5000), 0);
    assert_eq!(r.last_dispatch_millis, 5000);
    assert_eq!(r.await_turn(5999), 1);
}

#[test]
fn backoff_gives_up_after_seven_attempts() {
    let mut b = Backoff::new();
    let mut sleeps = Vec::new();
    let mut attempts = 1;
    while let Some(s) = b.on_failure() {
        sleeps.push(s);
        attempts += 1;
        assert!(attempts < 100);
    }
    assert_eq!(sleeps, vec![1, 2, 4, 8, 16, 32]);
    assert_eq!(attempts, 7);
    assert!(b.on_failure().is_none());
}

#[test]
fn one_failed_extraction_fails_batch() {
    let results = vec![
        Ok(paper("1")),
        Ok(paper("2")),
        Err(Error::Network("down".to_string())),
        Ok(paper("4")),
        Ok(paper("5")),
    ];
    assert!(matches!(collect_papers(results), Err(Error::Network(_))));
}

#[test]
fn all_extractions_succeed() {
    let results = vec![Ok(paper("1")), Ok(paper("2"))];
    let papers = collect_papers(results).unwrap();
    let ids: Vec<&str> = papers.iter().map(|p| p.arxiv_id.as_str()).collect();
    assert_eq!(ids, vec!["1", "2"]);
}

#[test]
fn end_to_end_one_page_two_documents() {
    let task_date = date(2024, 1, 1);
    let mut c = ListingCrawler::new(task_date).unwrap();
    let listing = "<html><body>\
        <p class=\"list-title\"><a href=\"https://arxiv.org/abs/2401.00001\">1</a></p>\
        <p class=\"list-title\"><a href=\"https://arxiv.org/abs/2401.00002\">2</a></p>\
        </body></html>";
    c.record_page(parse_listing(listing));
    assert!(c.is_done());
    let results: Vec<_> = c
        .urls
        .iter()
        .map(|u| assemble_paper(&download_url(u), task_date, PAPER_PAGE, &vec!["text".to_string()]))
        .collect();
    let s = build_submission(task_date, results).unwrap();
    assert_eq!(s.submission_date, date(2024, 1, 1));
    assert_eq!(s.papers.len(), 2);
    let p = &s.papers[0];
    assert_eq!(p.arxiv_id, "2401.00001");
    assert_eq!(p.title, "A Great Paper");
    assert_eq!(p.body, "text");
    assert_eq!(p.authors.len(), 2);
    assert_eq!(p.subjects.len(), 2);
}

#[test]
fn assemble_refuses_address_without_abstract_segment() {
    let r = assemble_paper("https://arxiv.org/list/x", date(2024, 1, 1), PAPER_PAGE, &Vec::new());
    assert!(matches!(r, Err(Error::Extraction(_))));
}

#[test]
fn default_config() {
    let c = Config::default();
    assert_eq!(c.archivist_url, "http://fire:9000/");
    assert_eq!(c.archivist_new_task_path, "/tasks");
    assert_eq!(c.archivist_submit_task_path, "/tasks");
    assert_eq!(c.request_interval_millis, 500);
    assert_eq!(c.concurrent_jobs, 10);
    assert_eq!(c.log_level, "info");
    assert_eq!(c.search_url_pattern.matches("{}").count(), 2);
}

#[test]
fn search_url_last_searchable_day() {
    let u = search_url(date(9999, 12, 30)).unwrap();
    assert!(u.contains("date-from_date=9999-12-30&date-to_date=9999-12-31&"));
}

#[test]
fn listing_link_without_target_makes_page_empty() {
    let page = "<html><body>\
        <p class=\"list-title\"><a href=\"https://arxiv.org/abs/1\">1</a></p>\
        <p class=\"list-title\"><a>2</a></p>\
        <a class=\"pagination-next\" href=\"/next\">Next</a></body></html>";
    let l = parse_listing(page);
    assert!(l.links.is_empty());
    assert_eq!(l.next, None);
}

#[test]
fn next_link_without_target_makes_page_empty() {
    let page = "<html><body>\
        <p class=\"list-title\"><a href=\"https://arxiv.org/abs/1\">1</a></p>\
        <a class=\"pagination-next\">Next</a></body></html>";
    let l = parse_listing(page);
    assert!(l.links.is_empty());
    assert_eq!(l.next, None);
}

#[test]
fn failed_fetch_gives_empty_listing_page() {
    let l = listing_from_fetch(Err(Error::Network("timeout".to_string())));
    assert!(l.links.is_empty());
    assert_eq!(l.next, None);
    let l = listing_from_fetch(Ok("<p class=\"list-title\"><a href=\"u\">u</a></p>".to_string()));
    assert_eq!(l.links, vec!["u".to_string()]);
}

#[test]
fn title_without_triple_run_is_trimmed_and_single_spaced() {
    let t = parse_title("  Title:  A  Great  Paper \n");
    assert_eq!(t, "A Great Paper");
    assert_eq!(t.trim(), t);
    assert!(!t.contains("  "));
}
