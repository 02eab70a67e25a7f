//! Crawls a paginated listing of papers submitted on one date, extracts each
//! paper's fields and text, and assembles the batch handed to an intake service.

pub mod batch;
pub mod config;
pub mod crawl;
pub mod extract;
pub mod fetch;
pub mod models;
pub mod page;
pub mod text;
