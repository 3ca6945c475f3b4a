use rust_tiobe::fallback::get_fallback_data;
use rust_tiobe::fetch::{plan_request, plan_request_now};
use rust_tiobe::parse::parse_document;
use rust_tiobe::pipeline::{classify_rankings, get_rankings};
use rust_tiobe::ranking::RankingError;

fn table(rows: &str) -> String {
    format!(
        "<html><body><table id=\"top20\"><tbody>{}</tbody></table></body></html>",
        rows
    )
}

#[test]
fn fallback_has_twenty_rows_in_rank_order() {
    let data = get_fallback_data();
    assert_eq!(data.len(), 20);
    for (i, lang) in data.iter().enumerate() {
        assert_eq!(lang.rank, (i + 1) as i32);
    }
    assert_eq!(data[0].name, "Python");
    assert_eq!(data[0].rating, "23.64%");
    assert_eq!(data[0].change, "-0.21%");
    assert_eq!(data[0].prev_rank, 1);
    assert_eq!(data[8].name, "Perl");
    assert_eq!(data[8].prev_rank, 26);
    assert_eq!(data[19].name, "Kotlin");
    assert_eq!(data[19].rating, "0.92%");
}

#[test]
fn parser_extracts_rows_in_source_order() {
    let html = table(
        "<tr><td>1</td><td>2</td><td>img</td><td>Python</td><td>23.5%</td><td>+1.0%</td></tr>\
         <tr><td>2</td><td>1</td><td>img</td><td>C</td><td>10.0%</td><td>-0.5%</td></tr>\
         <tr><td>3</td><td>3</td><td>img</td><td>Java</td><td>9.0%</td><td>+0.2%</td></tr>",
    );
    let langs = parse_document(&html);
    assert_eq!(langs.len(), 3);
    assert_eq!(langs[0].name, "Python");
    assert_eq!(langs[0].rank, 1);
    assert_eq!(langs[0].prev_rank, 2);
    assert_eq!(langs[0].rating, "23.5%");
    assert_eq!(langs[0].change, "+1.0%");
    assert_eq!(langs[1].name, "C");
    assert_eq!(langs[2].name, "Java");
}

#[test]
fn parser_skips_rows_with_fewer_than_five_cells() {
    let html = table(
        "<tr><td>1</td><td>1</td><td>img</td><td>Python</td><td>23.5%</td></tr>\
         <tr><td>2</td><td>2</td><td>img</td><td>C</td></tr>\
         <tr><td>broken</td></tr>\
         <tr><td>3</td><td>3</td><td>img</td><td>Java</td><td>9.0%</td></tr>",
    );
    let langs = parse_document(&html);
    assert_eq!(langs.len(), 2);
    assert_eq!(langs[0].name, "Python");
    assert_eq!(langs[1].name, "Java");
}

#[test]
fn parser_missing_sixth_cell_yields_na_change() {
    let html = table("<tr><td>1</td><td>1</td><td>img</td><td>Go</td><td>1.4%</td></tr>");
    let langs = parse_document(&html);
    assert_eq!(langs.len(), 1);
    assert_eq!(langs[0].change, "N/A");
}

#[test]
fn parser_trims_cell_text() {
    let html = table(
        "<tr><td> 1 </td><td>\n2\t</td><td>img</td><td>  Python  </td><td> 23.5% </td><td> +1.0% </td></tr>",
    );
    let langs = parse_document(&html);
    assert_eq!(langs.len(), 1);
    assert_eq!(langs[0].rank, 1);
    assert_eq!(langs[0].prev_rank, 2);
    assert_eq!(langs[0].name, "Python");
    assert_eq!(langs[0].rating, "23.5%");
    assert_eq!(langs[0].change, "+1.0%");
}

#[test]
fn parser_defaults_unparsable_numbers_to_zero() {
    let html = table(
        "<tr><td>one</td><td>1</td><td>img</td><td>Python</td><td>23.5%</td></tr>\
         <tr><td>2</td><td>old</td><td>img</td><td>C</td><td>10.0%</td></tr>",
    );
    let langs = parse_document(&html);
    // An unparsable rank counts as zero, and a zero rank excludes the row;
    // an unparsable previous rank merely defaults to zero.
    assert_eq!(langs.len(), 1);
    assert_eq!(langs[0].name, "C");
    assert_eq!(langs[0].prev_rank, 0);
}

#[test]
fn parser_excludes_empty_names_and_nonpositive_ranks() {
    let html = table(
        "<tr><td>1</td><td>1</td><td>img</td><td>   </td><td>23.5%</td></tr>\
         <tr><td>0</td><td>1</td><td>img</td><td>C</td><td>10.0%</td></tr>\
         <tr><td>-3</td><td>1</td><td>img</td><td>Java</td><td>9.0%</td></tr>\
         <tr><td>4</td><td>1</td><td>img</td><td>Rust</td><td>1.3%</td></tr>",
    );
    let langs = parse_document(&html);
    assert_eq!(langs.len(), 1);
    assert_eq!(langs[0].name, "Rust");
}

#[test]
fn parser_yields_nothing_without_the_ranking_table() {
    assert_eq!(parse_document("<html><body><p>nothing here</p></body></html>").len(), 0);
    assert_eq!(parse_document("").len(), 0);
    let other_table = "<html><table id=\"other\"><tbody>\
        <tr><td>1</td><td>1</td><td>img</td><td>Python</td><td>23.5%</td></tr>\
        </tbody></table></html>";
    assert_eq!(parse_document(other_table).len(), 0);
}

#[test]
fn network_failure_serves_exactly_the_fallback() {
    let served = get_rankings(Err(RankingError::NetworkFailure));
    assert_eq!(served, get_fallback_data());
}

#[test]
fn rejected_future_date_serves_exactly_the_fallback() {
    let served = get_rankings(Err(RankingError::FutureDateRejected));
    assert_eq!(served, get_fallback_data());
}

#[test]
fn empty_parse_serves_exactly_the_fallback() {
    let served = get_rankings(Ok("<html><body></body></html>".to_string()));
    assert_eq!(served, get_fallback_data());
}

#[test]
fn classification_keeps_the_three_failure_categories_distinct() {
    assert_eq!(
        classify_rankings(Ok("<html><body></body></html>".to_string())),
        Err(RankingError::ParseEmpty)
    );
    assert_eq!(
        classify_rankings(Err(RankingError::NetworkFailure)),
        Err(RankingError::NetworkFailure)
    );
    assert_eq!(
        classify_rankings(Err(RankingError::FutureDateRejected)),
        Err(RankingError::FutureDateRejected)
    );
    let html = table("<tr><td>1</td><td>1</td><td>img</td><td>Python</td><td>23.5%</td></tr>");
    let classified = classify_rankings(Ok(html)).unwrap();
    assert_eq!(classified.len(), 1);
    assert_eq!(classified[0].name, "Python");
}

#[test]
fn live_rows_are_served_unchanged() {
    let html = table("<tr><td>1</td><td>1</td><td>img</td><td>Zig</td><td>3.0%</td></tr>");
    let served = get_rankings(Ok(html));
    assert_eq!(served.len(), 1);
    assert_eq!(served[0].name, "Zig");
}

#[test]
fn get_rankings_is_idempotent_under_equal_outcomes() {
    let html = table(
        "<tr><td>1</td><td>2</td><td>img</td><td>Python</td><td>23.5%</td><td>+1.0%</td></tr>",
    );
    let first = get_rankings(Ok(html.clone()));
    let second = get_rankings(Ok(html));
    assert_eq!(first, second);
    let failed_first = get_rankings(Err(RankingError::NetworkFailure));
    let failed_second = get_rankings(Err(RankingError::NetworkFailure));
    assert_eq!(failed_first, failed_second);
}

#[test]
fn plan_rejects_a_future_period() {
    assert_eq!(
        plan_request(Some(2031), Some(1), 2030, 6),
        Err(RankingError::FutureDateRejected)
    );
    assert_eq!(
        plan_request(Some(2030), Some(7), 2030, 6),
        Err(RankingError::FutureDateRejected)
    );
}

#[test]
fn plan_builds_the_historical_address() {
    assert_eq!(
        plan_request(Some(2020), Some(5), 2030, 6),
        Ok("https://www.tiobe.com/tiobe-index/?page=index&year=2020&month=5".to_string())
    );
    // The current month itself is not future.
    assert_eq!(
        plan_request(Some(2030), Some(6), 2030, 6),
        Ok("https://www.tiobe.com/tiobe-index/?page=index&year=2030&month=6".to_string())
    );
}

#[test]
fn plan_treats_a_partial_selector_as_current() {
    let current = Ok("https://www.tiobe.com/tiobe-index/".to_string());
    assert_eq!(plan_request(None, None, 2030, 6), current);
    assert_eq!(plan_request(Some(2099), None, 2030, 6), current);
    assert_eq!(plan_request(None, Some(12), 2030, 6), current);
}

#[test]
fn plan_against_the_clock_accepts_the_past() {
    assert_eq!(
        plan_request_now(Some(2000), Some(1)),
        Ok("https://www.tiobe.com/tiobe-index/?page=index&year=2000&month=1".to_string())
    );
    assert_eq!(
        plan_request_now(None, None),
        Ok("https://www.tiobe.com/tiobe-index/".to_string())
    );
}
