//! The ranking pipeline: collapse every failure category — rejected future
//! date, unreachable upstream, a page yielding no rows — into the built-in
//! fallback snapshot, so that a ranking list is always served.

use vstd::prelude::*;

use crate::fallback::{fallback_model, get_fallback_data};
use crate::fetch::{is_future, plan_spec};
use crate::parse::{extract_spec, parse_document, table_cells_of};
use crate::ranking::{models_of, Language, LanguageModel, RankingError};

verus! {

/// What the pipeline serves for a retrieval outcome: the records extracted
/// from a retrieved page, or the fallback snapshot — wholesale, never merged
/// — on any failure or when extraction yields nothing.
pub open spec fn rankings_spec(outcome: Result<Seq<char>, RankingError>) -> Seq<LanguageModel> {
    match outcome {
        Ok(doc) => {
            let parsed = extract_spec(table_cells_of(doc));
            if parsed.len() == 0 {
                fallback_model()
            } else {
                parsed
            }
        },
        Err(_) => fallback_model(),
    }
}

/// The model of a retrieval outcome: the retrieved page text, or the failure
/// category the retrieval ended in.
pub open spec fn outcome_model(outcome: Result<String, RankingError>) -> Result<
    Seq<char>,
    RankingError,
> {
    match outcome {
        Ok(doc) => Ok(doc@),
        Err(e) => Err(e),
    }
}

/// The discriminated result before any collapsing: the extracted records, or
/// exactly which of the three failure categories the run ended in.
pub open spec fn classified_spec(outcome: Result<Seq<char>, RankingError>) -> Result<
    Seq<LanguageModel>,
    RankingError,
> {
    match outcome {
        Ok(doc) => {
            let parsed = extract_spec(table_cells_of(doc));
            if parsed.len() == 0 {
                Err(RankingError::ParseEmpty)
            } else {
                Ok(parsed)
            }
        },
        Err(e) => Err(e),
    }
}

/// Classify a retrieval outcome: parse a retrieved page, and keep the three
/// failure categories distinct — a page yielding no rows is its own
/// category, apart from a rejected date or an unreachable upstream.
pub fn classify_rankings(outcome: Result<String, RankingError>) -> (r: Result<
    Vec<Language>,
    RankingError,
>)
    ensures
        match r {
            Ok(list) => classified_spec(outcome_model(outcome)) == Ok::<
                Seq<LanguageModel>,
                RankingError,
            >(models_of(list@)),
            Err(e) => classified_spec(outcome_model(outcome)) == Err::<
                Seq<LanguageModel>,
                RankingError,
            >(e),
        },
{
    match outcome {
        Ok(doc) => {
            let parsed = parse_document(doc.as_str());
            if parsed.len() == 0 {
                Err(RankingError::ParseEmpty)
            } else {
                Ok(parsed)
            }
        },
        Err(e) => Err(e),
    }
}

/// Serve a ranking list for a retrieval outcome. Total: every failure
/// category collapses into the fallback snapshot, and so does a page from
/// which no row could be extracted.
pub fn get_rankings(outcome: Result<String, RankingError>) -> (r: Vec<Language>)
    ensures
        models_of(r@) == rankings_spec(outcome_model(outcome)),
{
    match classify_rankings(outcome) {
        Ok(list) => list,
        Err(_) => get_fallback_data(),
    }
}

/// Law: collapsing the discriminated result gives exactly the served list —
/// each failure category, and only a failure category, is masked by the
/// fallback snapshot.
pub proof fn lemma_collapse_masks_failures(outcome: Result<Seq<char>, RankingError>)
    ensures
        rankings_spec(outcome) == match classified_spec(outcome) {
            Ok(list) => list,
            Err(_) => fallback_model(),
        },
{
}

/// Law: with the upstream unreachable — any failed retrieval outcome — the
/// pipeline serves exactly the fallback snapshot, value for value.
pub proof fn lemma_failure_serves_fallback(e: RankingError)
    ensures
        rankings_spec(Err(e)) == fallback_model(),
{
}

/// Law: a fully specified request for a future (year, month) is decided as a
/// distinct rejection, and the pipeline turns that rejection into exactly
/// the fallback snapshot — live data is never served for a future period.
pub proof fn lemma_future_request_never_live(year: i32, month: i32, cur_year: i32, cur_month: i32)
    requires
        is_future(year as int, month as int, cur_year as int, cur_month as int),
    ensures
        plan_spec(Some(year), Some(month), cur_year, cur_month) == Err::<
            Seq<char>,
            RankingError,
        >(RankingError::FutureDateRejected),
        rankings_spec(Err(RankingError::FutureDateRejected)) == fallback_model(),
{
}

/// Law: the pipeline is stateless — two runs on equal retrieval outcomes
/// serve equal ranking lists.
pub proof fn lemma_rankings_idempotent(
    first: Result<Seq<char>, RankingError>,
    second: Result<Seq<char>, RankingError>,
)
    requires
        first == second,
    ensures
        rankings_spec(first) == rankings_spec(second),
{
}

} // verus!
