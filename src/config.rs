//! The settings of a crawling process.

use vstd::prelude::*;

verus! {

/// Where the work queue lives, how often it is polled, and how verbose the log is.
#[derive(Clone, Debug)]
pub struct Config {
    pub archivist_url: String,
    pub archivist_new_task_path: String,
    pub archivist_submit_task_path: String,
    pub search_url_pattern: String,
    pub request_interval_millis: u64,
    pub concurrent_jobs: usize,
    pub log_level: String,
}

impl Default for Config {
    fn default() -> (r: Self)
        ensures
            r.archivist_url@ == "http://fire:9000/"@,
            r.archivist_new_task_path@ == "/tasks"@,
            r.archivist_submit_task_path@ == "/tasks"@,
            r.search_url_pattern@ == crate::crawl::SEARCH_HEAD@ + "{}"@ + crate::crawl::SEARCH_MID@
                + "{}"@ + crate::crawl::SEARCH_TAIL@,
            r.request_interval_millis == 500,
            r.log_level@ == "info"@,
            r.concurrent_jobs == crate::batch::CONCURRENT_EXTRACTIONS,
    {
        let mut pattern = String::from_str(crate::crawl::SEARCH_HEAD);
        pattern.append("{}");
        pattern.append(crate::crawl::SEARCH_MID);
        pattern.append("{}");
        pattern.append(crate::crawl::SEARCH_TAIL);
        Config {
            archivist_url: String::from_str("http://fire:9000/"),
            archivist_new_task_path: String::from_str("/tasks"),
            archivist_submit_task_path: String::from_str("/tasks"),
            request_interval_millis: 500,
            log_level: String::from_str("info"),
            concurrent_jobs: crate::batch::CONCURRENT_EXTRACTIONS,
            search_url_pattern: pattern,
        }
    }
}

} // verus!
