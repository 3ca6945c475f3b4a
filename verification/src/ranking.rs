//! The core data model: one row of the popularity ranking table, its
//! mathematical model, and the discriminated failure categories of the
//! retrieval pipeline.

use vstd::prelude::*;

verus! {

/// One row of the popularity ranking table.
#[derive(Debug, Clone, PartialEq, Eq)]
pub struct Language {
    pub rank: i32,
    pub prev_rank: i32,
    pub name: String,
    pub rating: String,
    pub change: String,
}

/// Mathematical model of a ranking row: unbounded integers and character
/// sequences in place of machine integers and heap strings.
pub ghost struct LanguageModel {
    pub rank: int,
    pub prev_rank: int,
    pub name: Seq<char>,
    pub rating: Seq<char>,
    pub change: Seq<char>,
}

impl View for Language {
    type V = LanguageModel;

    open spec fn view(&self) -> LanguageModel {
        LanguageModel {
            rank: self.rank as int,
            prev_rank: self.prev_rank as int,
            name: self.name@,
            rating: self.rating@,
            change: self.change@,
        }
    }
}

/// The models of a sequence of ranking rows, in order.
pub open spec fn models_of(s: Seq<Language>) -> Seq<LanguageModel> {
    Seq::new(s.len(), |i: int| s[i]@)
}

/// The failure categories of the retrieval pipeline, kept distinct so the
/// boundary layer can decide which of them to surface.
#[derive(Debug, Clone, Copy, PartialEq, Eq, Structural)]
pub enum RankingError {
    /// The request named a (year, month) later than the current one.
    FutureDateRejected,
    /// The upstream page could not be retrieved.
    NetworkFailure,
    /// The page was retrieved but yielded no ranking rows.
    ParseEmpty,
}

} // verus!
