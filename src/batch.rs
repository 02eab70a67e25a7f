//! Gathering the extracted papers of one date into the batch that is submitted.

use vstd::prelude::*;
use crate::models::{Date, Error, NewPaperFull, Result, TaskSubmission};

verus! {

/// The most extractions in flight at once.
pub const CONCURRENT_EXTRACTIONS: usize = 10;

/// Whether every extraction succeeded.
pub open spec fn all_ok(results: Seq<Result<NewPaperFull>>) -> bool {
    forall|i: int| 0 <= i < results.len() ==> #[trigger] results[i] is Ok
}

/// The papers of a run of extractions, in the order given, if all of them
/// succeeded; the first error otherwise. No partial result is ever returned.
pub fn collect_papers(results: Vec<Result<NewPaperFull>>) -> (r: Result<Vec<NewPaperFull>>)
    ensures
        r is Ok <==> all_ok(results@),
        r matches Ok(p) ==> p@.len() == results@.len() && forall|i: int|
            0 <= i < p@.len() ==> #[trigger] results@[i] == Ok::<NewPaperFull, Error>(p@[i]),
{
    let ghost orig = results@;
    let mut rest = results;
    let mut out: Vec<NewPaperFull> = Vec::new();
    while rest.len() > 0
        invariant
            orig == results@,
            out@.len() + rest@.len() == orig.len(),
            rest@ == orig.subrange(out@.len() as int, orig.len() as int),
            forall|i: int|
                0 <= i < out@.len() ==> #[trigger] orig[i] == Ok::<NewPaperFull, Error>(out@[i]),
        decreases rest@.len(),
    {
        let ghost k: int = out@.len() as int;
        assert(rest@[0] == orig[k]);
        let x = rest.remove(0);
        assert(x == orig[k]);
        assert(rest@ =~= orig.subrange(k + 1, orig.len() as int));
        match x {
            Ok(p) => {
                out.push(p);
            },
            Err(e) => {
                assert(!(orig[k] is Ok));
                assert(!all_ok(orig));
                return Err(e);
            },
        }
    }
    Ok(out)
}

/// The batch of `submission_date` from a run of extractions: all its papers if
/// every extraction succeeded, the first error otherwise.
pub fn build_submission(submission_date: Date, results: Vec<Result<NewPaperFull>>) -> (r: Result<
    TaskSubmission,
>)
    ensures
        r is Ok <==> all_ok(results@),
        r matches Ok(s) ==> s.submission_date == submission_date && s.papers@.len()
            == results@.len() && forall|i: int|
            0 <= i < s.papers@.len() ==> #[trigger] results@[i] == Ok::<NewPaperFull, Error>(
                s.papers@[i],
            ),
{
    match collect_papers(results) {
        Ok(papers) => Ok(TaskSubmission { submission_date, papers }),
        Err(e) => Err(e),
    }
}

/// One failed extraction fails the whole batch, however many others succeeded.
pub proof fn lemma_all_or_nothing(results: Seq<Result<NewPaperFull>>, i: int)
    requires
        0 <= i < results.len(),
        results[i] is Err,
    ensures
        !all_ok(results),
{
}

} // verus!
