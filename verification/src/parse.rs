//! The document parser: locates the ranking table's body rows in a page and
//! extracts one ranking record per well-formed row, tolerating malformed
//! rows. It never fails; a page without the table yields an empty list.

use vstd::prelude::*;

use crate::ranking::{Language, LanguageModel, models_of};
use crate::textops::{parse_i32, parse_i32_spec, trim_text, trimmed_of};

verus! {

/// What scraper's HTML parsing yields for a page: for each body row of the
/// ranking table (the table with id `top20`), the concatenated text of each
/// of its cells, rows and cells in document order. A function of the page
/// text alone.
pub uninterp spec fn table_cells_of(doc: Seq<char>) -> Seq<Seq<Seq<char>>>;

/// Relies on scraper's `Html::parse_document`, `Selector::parse` and
/// `select` (selectors `table#top20 tbody tr` and `td`, constant and valid,
/// so `parse` cannot fail), and on `ElementRef::text`: the body rows of the
/// ranking table, each as the concatenated text of its cells, in document
/// order.
#[verifier::external_body]
fn ranking_table_cells(doc: &str) -> (r: Vec<Vec<String>>)
    ensures
        r.deep_view() == table_cells_of(doc@),
{
    let document = scraper::Html::parse_document(doc);
    let row_selector = scraper::Selector::parse("table#top20 tbody tr").unwrap();
    let cell_selector = scraper::Selector::parse("td").unwrap();
    document
        .select(&row_selector)
        .map(|row| {
            row.select(&cell_selector)
                .map(|cell| cell.text().collect::<String>())
                .collect()
        })
        .collect()
}

/// The rank a cell's text denotes: its trimmed text read as an integer,
/// zero where it reads as none.
pub open spec fn rank_of(cell: Seq<char>) -> int {
    match parse_i32_spec(trimmed_of(cell)) {
        Some(v) => v as int,
        None => 0,
    }
}

/// The record a row of at least five cells denotes.
pub open spec fn row_model(cells: Seq<Seq<char>>) -> LanguageModel {
    LanguageModel {
        rank: rank_of(cells[0]),
        prev_rank: rank_of(cells[1]),
        name: trimmed_of(cells[3]),
        rating: trimmed_of(cells[4]),
        change: if cells.len() > 5 {
            trimmed_of(cells[5])
        } else {
            "N/A"@
        },
    }
}

/// Whether a row contributes a record: at least five cells, a non-empty
/// trimmed name, and a positive rank.
pub open spec fn row_included(cells: Seq<Seq<char>>) -> bool {
    cells.len() >= 5 && trimmed_of(cells[3]).len() > 0 && rank_of(cells[0]) > 0
}

/// The records of the given rows, one per included row, in row order.
pub open spec fn extract_spec(rows: Seq<Seq<Seq<char>>>) -> Seq<LanguageModel>
    decreases rows.len(),
{
    if rows.len() == 0 {
        Seq::<LanguageModel>::empty()
    } else {
        extract_spec(rows.drop_last()) + if row_included(rows.last()) {
            seq![row_model(rows.last())]
        } else {
            Seq::<LanguageModel>::empty()
        }
    }
}

/// Extract ranking records from rows of cell text: rows with fewer than five
/// cells are skipped, a rank that does not read as an integer counts as
/// zero, and a row is kept only with a non-empty name and a positive rank.
pub fn extract_rankings(rows: &Vec<Vec<String>>) -> (r: Vec<Language>)
    ensures
        models_of(r@) == extract_spec(rows.deep_view()),
{
    let ghost all_rows = rows.deep_view();
    let mut out: Vec<Language> = Vec::new();
    let mut i: usize = 0;
    while i < rows.len()
        invariant
            i <= rows@.len(),
            all_rows == rows.deep_view(),
            all_rows.len() == rows@.len(),
            models_of(out@) == extract_spec(all_rows.take(i as int)),
        decreases rows@.len() - i,
    {
        let row = &rows[i];
        let ghost cells = all_rows[i as int];
        proof {
            assert(cells == row.deep_view());
        }
        let ghost out_before = out@;
        if row.len() >= 5 {
            let rank = match parse_i32(trim_text(row[0].as_str()).as_str()) {
                Some(v) => v,
                None => 0,
            };
            let name = trim_text(row[3].as_str());
            proof {
                assert(name@ == trimmed_of(cells[3]));
                assert(rank as int == rank_of(cells[0]));
            }
            if !name.as_str().is_empty() && rank > 0 {
                let prev_rank = match parse_i32(trim_text(row[1].as_str()).as_str()) {
                    Some(v) => v,
                    None => 0,
                };
                let rating = trim_text(row[4].as_str());
                let change = if row.len() > 5 {
                    trim_text(row[5].as_str())
                } else {
                    "N/A".to_owned()
                };
                let lang = Language { rank, prev_rank, name, rating, change };
                proof {
                    assert(lang@ == row_model(cells));
                    assert(row_included(cells));
                }
                out.push(lang);
            } else {
                proof {
                    assert(!row_included(cells));
                }
            }
        } else {
            proof {
                assert(!row_included(cells));
            }
        }
        proof {
            let taken = all_rows.take(i + 1 as int);
            assert(taken.drop_last() =~= all_rows.take(i as int));
            assert(taken.last() == cells);
            if row_included(cells) {
                assert(models_of(out@) =~= models_of(out_before) + seq![row_model(cells)]);
            } else {
                assert(models_of(out@) =~= models_of(out_before));
                assert(extract_spec(taken) =~= extract_spec(all_rows.take(i as int)));
            }
            assert(models_of(out@) =~= extract_spec(taken));
        }
        i = i + 1;
    }
    proof {
        assert(all_rows.take(rows@.len() as int) =~= all_rows);
    }
    out
}

/// Parse a page into ranking records: locate the ranking table's body rows
/// and extract one record per well-formed row. Total: a page without the
/// table yields an empty list rather than a failure.
pub fn parse_document(doc: &str) -> (r: Vec<Language>)
    ensures
        models_of(r@) == extract_spec(table_cells_of(doc@)),
{
    let rows = ranking_table_cells(doc);
    extract_rankings(&rows)
}

/// Law: extraction distributes over concatenation of row sequences, so
/// records appear in source row order and are never re-sorted — appending
/// source rows only ever appends records.
pub proof fn lemma_extract_preserves_order(a: Seq<Seq<Seq<char>>>, b: Seq<Seq<Seq<char>>>)
    ensures
        extract_spec(a + b) == extract_spec(a) + extract_spec(b),
    decreases b.len(),
{
    if b.len() == 0 {
        assert(a + b =~= a);
        assert(extract_spec(b) =~= Seq::<LanguageModel>::empty());
        assert(extract_spec(a) + extract_spec(b) =~= extract_spec(a));
    } else {
        lemma_extract_preserves_order(a, b.drop_last());
        assert((a + b).drop_last() =~= a + b.drop_last());
        assert((a + b).len() > 0);
        assert((a + b).last() == b.last());
        assert(extract_spec(a + b) == extract_spec(a + b.drop_last()) + if row_included(
            b.last(),
        ) {
            seq![row_model(b.last())]
        } else {
            Seq::<LanguageModel>::empty()
        });
        assert(extract_spec(a) + extract_spec(b) =~= extract_spec(a) + extract_spec(b.drop_last())
            + if row_included(b.last()) {
            seq![row_model(b.last())]
        } else {
            Seq::<LanguageModel>::empty()
        });
    }
}

/// Law: a row with fewer than five cells contributes nothing — removing it
/// from the source leaves the extracted records unchanged.
pub proof fn lemma_short_row_excluded(rows: Seq<Seq<Seq<char>>>, i: int)
    requires
        0 <= i < rows.len(),
        rows[i].len() < 5,
    ensures
        extract_spec(rows) == extract_spec(rows.remove(i)),
{
    let prefix = rows.take(i);
    let middle = seq![rows[i]];
    let suffix = rows.skip(i + 1);
    assert(rows =~= (prefix + middle) + suffix);
    assert(rows.remove(i) =~= prefix + suffix);
    lemma_extract_preserves_order(prefix + middle, suffix);
    lemma_extract_preserves_order(prefix, middle);
    lemma_extract_preserves_order(prefix, suffix);
    assert(middle.drop_last() =~= Seq::<Seq<Seq<char>>>::empty());
    assert(!row_included(middle.last()));
    assert(extract_spec(Seq::<Seq<Seq<char>>>::empty()) == Seq::<LanguageModel>::empty());
    assert(extract_spec(middle) == extract_spec(middle.drop_last()) + Seq::<
        LanguageModel,
    >::empty());
    assert(extract_spec(middle) =~= Seq::<LanguageModel>::empty());
    assert(extract_spec(prefix) + extract_spec(middle) =~= extract_spec(prefix));
}

} // verus!
