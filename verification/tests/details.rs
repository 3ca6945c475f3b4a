use rust_tiobe::detail::{
    detail_registry, find_language, get_language_detail, language_detail_from_rankings,
};
use rust_tiobe::fallback::get_fallback_data;
use rust_tiobe::ranking::Language;

fn lang(rank: i32, prev_rank: i32, name: &str, rating: &str, change: &str) -> Language {
    Language {
        rank,
        prev_rank,
        name: name.to_string(),
        rating: rating.to_string(),
        change: change.to_string(),
    }
}

#[test]
fn detail_lookup_is_case_insensitive() {
    let list = get_fallback_data();
    let upper = language_detail_from_rankings("PYTHON", &list);
    let lower = language_detail_from_rankings("python", &list);
    let mixed = language_detail_from_rankings("Python", &list);
    assert_eq!(upper, lower);
    assert_eq!(lower, mixed);
    assert_eq!(mixed.rank, 1);
}

#[test]
fn unknown_name_gets_placeholder_and_default_metadata() {
    let list = get_fallback_data();
    let detail = language_detail_from_rankings("Zig", &list);
    assert_eq!(detail.name, "Zig");
    assert_eq!(detail.rank, 0);
    assert_eq!(detail.rating, "N/A");
    assert_eq!(detail.description, "这是一种流行的编程语言。");
    assert_eq!(detail.use_cases, vec!["通用编程".to_string()]);
    assert_eq!(detail.frameworks, vec!["暂无".to_string()]);
}

#[test]
fn listed_name_keeps_its_exact_rank_and_rating() {
    let list = get_fallback_data();
    let detail = language_detail_from_rankings("Python", &list);
    assert_eq!(detail.name, "Python");
    assert_eq!(detail.rank, 1);
    assert_eq!(detail.rating, "23.64%");
    assert_eq!(
        detail.description,
        "Python 是一种高级、通用的编程语言，以其简洁易读的语法著称。"
    );
    assert_eq!(detail.use_cases.len(), 5);
    assert_eq!(detail.use_cases[0], "数据科学");
    assert_eq!(detail.frameworks.len(), 6);
    assert_eq!(detail.frameworks[0], "Django");

    let rust_detail = language_detail_from_rankings("rust", &list);
    assert_eq!(rust_detail.rank, 17);
    assert_eq!(rust_detail.rating, "1.30%");
    assert_eq!(
        rust_detail.description,
        "Rust 是一种系统编程语言，注重安全性、并发性和性能。"
    );
}

#[test]
fn enrichment_uses_the_record_it_is_given() {
    let record = lang(7, 9, "Go", "1.37%", "-0.80%");
    let detail = get_language_detail("go", &record);
    assert_eq!(detail.name, "Go");
    assert_eq!(detail.rank, 7);
    assert_eq!(detail.rating, "1.37%");
    assert_eq!(
        detail.description,
        "Go 是 Google 开发的编程语言，以其简洁和高并发性能著称。"
    );
    assert_eq!(detail.frameworks[2], "Kubernetes");
}

#[test]
fn both_delphi_spellings_share_one_entry() {
    let record = lang(11, 11, "Delphi/Object Pascal", "1.91%", "+0.48%");
    let by_full_name = get_language_detail("Delphi/Object Pascal", &record);
    let by_short_name = get_language_detail("DELPHI", &record);
    assert_eq!(by_full_name.description, by_short_name.description);
    assert_eq!(by_full_name.use_cases, by_short_name.use_cases);
    assert_eq!(by_full_name.frameworks, by_short_name.frameworks);
    assert_eq!(
        by_full_name.description,
        "Delphi/Object Pascal 是一种面向对象的编程语言。"
    );
}

#[test]
fn registry_carries_both_assembly_spellings() {
    let registry = detail_registry();
    assert_eq!(registry.len(), 22);
    let long_form = registry.iter().find(|e| e.key == "assembly language").unwrap();
    let short_form = registry.iter().find(|e| e.key == "assembly").unwrap();
    assert_eq!(long_form.description, short_form.description);
    assert_eq!(long_form.frameworks, vec![
        "NASM".to_string(),
        "MASM".to_string(),
        "GAS".to_string(),
    ]);
}

#[test]
fn find_language_returns_the_first_case_insensitive_match() {
    let list = vec![
        lang(1, 1, "Python", "23.64%", "-0.21%"),
        lang(2, 4, "C", "10.11%", "+1.01%"),
        lang(3, 2, "C++", "8.95%", "-1.87%"),
    ];
    assert_eq!(find_language(&list, "c"), Some(1));
    assert_eq!(find_language(&list, "C++"), Some(2));
    assert_eq!(find_language(&list, "pYtHoN"), Some(0));
    assert_eq!(find_language(&list, "Haskell"), None);
}

#[test]
fn placeholder_is_synthesized_for_an_empty_list() {
    let list: Vec<Language> = Vec::new();
    let detail = language_detail_from_rankings("SQL", &list);
    assert_eq!(detail.name, "SQL");
    assert_eq!(detail.rank, 0);
    assert_eq!(detail.rating, "N/A");
    assert_eq!(
        detail.description,
        "SQL 是用于管理关系数据库的标准语言。"
    );
}
