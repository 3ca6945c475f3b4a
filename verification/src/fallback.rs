//! The built-in ranking snapshot: a fixed, ordered list of twenty records
//! served whenever live retrieval or extraction comes up empty.

use vstd::prelude::*;

use crate::ranking::{Language, LanguageModel, models_of};

verus! {

/// A ranking-record model from its five fields.
pub open spec fn record(
    rank: int,
    prev_rank: int,
    name: Seq<char>,
    rating: Seq<char>,
    change: Seq<char>,
) -> LanguageModel {
    LanguageModel { rank, prev_rank, name, rating, change }
}

/// The fixed fallback snapshot, in rank order.
pub open spec fn fallback_model() -> Seq<LanguageModel> {
    seq![
        record(1, 1, "Python"@, "23.64%"@, "-0.21%"@),
        record(2, 4, "C"@, "10.11%"@, "+1.01%"@),
        record(3, 2, "C++"@, "8.95%"@, "-1.87%"@),
        record(4, 3, "Java"@, "8.70%"@, "-1.02%"@),
        record(5, 5, "C#"@, "7.26%"@, "+2.39%"@),
        record(6, 6, "JavaScript"@, "2.96%"@, "-1.66%"@),
        record(7, 9, "Visual Basic"@, "2.81%"@, "+0.85%"@),
        record(8, 8, "SQL"@, "2.10%"@, "+0.11%"@),
        record(9, 26, "Perl"@, "1.97%"@, "+1.33%"@),
        record(10, 16, "R"@, "1.96%"@, "+0.91%"@),
        record(11, 11, "Delphi/Object Pascal"@, "1.91%"@, "+0.48%"@),
        record(12, 10, "Fortran"@, "1.60%"@, "-0.18%"@),
        record(13, 15, "MATLAB"@, "1.52%"@, "+0.43%"@),
        record(14, 24, "Ada"@, "1.49%"@, "+0.77%"@),
        record(15, 7, "Go"@, "1.37%"@, "-0.80%"@),
        record(16, 12, "PHP"@, "1.36%"@, "-0.03%"@),
        record(17, 14, "Rust"@, "1.30%"@, "+0.01%"@),
        record(18, 13, "Scratch"@, "1.11%"@, "-0.23%"@),
        record(19, 17, "Assembly language"@, "1.04%"@, "-0.01%"@),
        record(20, 23, "Kotlin"@, "0.92%"@, "+0.10%"@),
    ]
}

/// A ranking record from its five fields.
fn language(rank: i32, prev_rank: i32, name: &str, rating: &str, change: &str) -> (r: Language)
    ensures
        r@ == record(rank as int, prev_rank as int, name@, rating@, change@),
{
    Language {
        rank,
        prev_rank,
        name: name.to_owned(),
        rating: rating.to_owned(),
        change: change.to_owned(),
    }
}

/// The fallback snapshot as a fresh list, value for value the fixed model.
pub fn get_fallback_data() -> (r: Vec<Language>)
    ensures
        models_of(r@) == fallback_model(),
{
    let mut v: Vec<Language> = Vec::new();
    v.push(language(1, 1, "Python", "23.64%", "-0.21%"));
    v.push(language(2, 4, "C", "10.11%", "+1.01%"));
    v.push(language(3, 2, "C++", "8.95%", "-1.87%"));
    v.push(language(4, 3, "Java", "8.70%", "-1.02%"));
    v.push(language(5, 5, "C#", "7.26%", "+2.39%"));
    v.push(language(6, 6, "JavaScript", "2.96%", "-1.66%"));
    v.push(language(7, 9, "Visual Basic", "2.81%", "+0.85%"));
    v.push(language(8, 8, "SQL", "2.10%", "+0.11%"));
    v.push(language(9, 26, "Perl", "1.97%", "+1.33%"));
    v.push(language(10, 16, "R", "1.96%", "+0.91%"));
    v.push(language(11, 11, "Delphi/Object Pascal", "1.91%", "+0.48%"));
    v.push(language(12, 10, "Fortran", "1.60%", "-0.18%"));
    v.push(language(13, 15, "MATLAB", "1.52%", "+0.43%"));
    v.push(language(14, 24, "Ada", "1.49%", "+0.77%"));
    v.push(language(15, 7, "Go", "1.37%", "-0.80%"));
    v.push(language(16, 12, "PHP", "1.36%", "-0.03%"));
    v.push(language(17, 14, "Rust", "1.30%", "+0.01%"));
    v.push(language(18, 13, "Scratch", "1.11%", "-0.23%"));
    v.push(language(19, 17, "Assembly language", "1.04%", "-0.01%"));
    v.push(language(20, 23, "Kotlin", "0.92%", "+0.10%"));
    proof {
        assert(models_of(v@) =~= fallback_model());
    }
    v
}

/// Law: the fallback snapshot's rank values are exactly one through twenty,
/// so they are unique and its list order equals ascending rank.
pub proof fn lemma_fallback_ranks_ascending()
    ensures
        fallback_model().len() == 20,
        forall|i: int| 0 <= i < 20 ==> #[trigger] fallback_model()[i].rank == i + 1,
{
    assert forall|i: int| 0 <= i < 20 implies #[trigger] fallback_model()[i].rank == i + 1 by {
        assert(fallback_model()[i].rank == i + 1);
    }
}

} // verus!
