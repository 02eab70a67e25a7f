//! The records that a crawl produces and hands on.

use vstd::prelude::*;

verus! {

/// A calendar date of the proleptic Gregorian calendar.
#[derive(Clone, Copy, Debug, PartialEq, Eq, Structural)]
pub struct Date {
    pub year: i32,
    pub month: u32,
    pub day: u32,
}

pub open spec fn is_leap(year: int) -> bool {
    (year % 4 == 0 && year % 100 != 0) || year % 400 == 0
}

pub open spec fn days_in_month(year: int, month: int) -> int {
    if month == 2 {
        if is_leap(year) {
            29
        } else {
            28
        }
    } else if month == 4 || month == 6 || month == 9 || month == 11 {
        30
    } else {
        31
    }
}

impl Date {
    /// The date names a day that exists.
    pub open spec fn wf(self) -> bool {
        1 <= self.month <= 12 && 1 <= self.day <= days_in_month(self.year as int, self.month as int)
    }

    /// The day after this one, as (year, month, day).
    pub open spec fn next_spec(self) -> (int, int, int) {
        if self.day < days_in_month(self.year as int, self.month as int) {
            (self.year as int, self.month as int, self.day + 1)
        } else if self.month < 12 {
            (self.year as int, self.month + 1, 1)
        } else {
            (self.year + 1, 1, 1)
        }
    }
}

/// A unit of work: crawl the papers submitted on one date.
#[derive(Clone, Copy, Debug, PartialEq, Eq, Structural)]
pub struct NewTask {
    pub submission_date: Date,
}

#[derive(Clone, Debug)]
pub struct NewAuthor {
    pub name: String,
}

#[derive(Clone, Debug)]
pub struct NewSubject {
    pub name: String,
}

/// One paper's extracted fields.
#[derive(Clone, Debug)]
pub struct NewPaperFull {
    pub arxiv_id: String,
    pub title: String,
    pub description: String,
    pub submission_date: Date,
    pub body: String,
    pub authors: Vec<NewAuthor>,
    pub subjects: Vec<NewSubject>,
}

/// The batch of papers for one date, handed to the intake service at once.
#[derive(Clone, Debug)]
pub struct TaskSubmission {
    pub submission_date: Date,
    pub papers: Vec<NewPaperFull>,
}

/// Why a fetch or an extraction failed.
#[derive(Clone, Debug)]
pub enum Error {
    /// The transport failed, or the server answered with an error.
    Network(String),
    /// A local file or buffer could not be read.
    File(String),
    /// A document's address or content does not have the expected shape.
    Extraction(String),
}

pub type Result<T> = core::result::Result<T, Error>;

} // verus!
