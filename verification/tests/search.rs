//! Search ordering, pagination and totals.

use ghostcrate::models::PublishRequest;
use ghostcrate::registry::Registry;

fn named(name: &str, description: &str) -> PublishRequest {
    PublishRequest {
        name: name.to_string(),
        vers: "1.0.0".to_string(),
        deps: Vec::new(),
        features: Vec::new(),
        authors: Vec::new(),
        description: Some(description.to_string()),
        homepage: None,
        documentation: None,
        readme: None,
        readme_file: None,
        keywords: Vec::new(),
        categories: Vec::new(),
        license: None,
        license_file: None,
        repository: None,
        links: None,
    }
}

/// Publishes `names` and then downloads each one as many times as given, so
/// the download counters differ.
fn seeded(names: &[(&str, u64)]) -> Registry {
    let mut reg = Registry::new();
    for (name, downloads) in names {
        reg.publish(1, &named(name, "a package"), b"bytes", 1).expect("publish succeeds");
        for _ in 0..*downloads {
            reg.download(name, "1.0.0").expect("download succeeds");
        }
    }
    reg
}

#[test]
fn empty_query_returns_all_by_downloads_then_name() {
    let reg = seeded(&[("cherry", 2), ("apple", 5), ("banana", 2), ("damson", 0)]);
    let rows = reg.catalog.search_crates("", 10, 0);
    let names: Vec<&str> = rows.iter().map(|c| c.name.as_str()).collect();
    // downloads descending, ties broken by name ascending
    assert_eq!(names, vec!["apple", "banana", "cherry", "damson"]);
    assert_eq!(reg.catalog.count_search_results(""), 4);
}

#[test]
fn total_is_independent_of_limit() {
    let reg = seeded(&[("one", 0), ("two", 1), ("three", 2), ("four", 3), ("five", 4)]);
    let page = reg.catalog.search_crates("", 2, 0);
    assert_eq!(page.len(), 2);
    assert_eq!(reg.catalog.count_search_results(""), 5);
    let response = reg.search("", 2, 1);
    assert_eq!(response.crates.len(), 2);
    assert_eq!(response.meta.total, 5);
}

#[test]
fn pagination_slices_the_ranked_list() {
    let reg = seeded(&[("a", 4), ("b", 3), ("c", 2), ("d", 1), ("e", 0)]);
    let page1 = reg.catalog.search_crates("", 2, 0);
    let page2 = reg.catalog.search_crates("", 2, 2);
    let page3 = reg.catalog.search_crates("", 2, 4);
    let beyond = reg.catalog.search_crates("", 2, 6);
    assert_eq!(page1[0].name, "a");
    assert_eq!(page1[1].name, "b");
    assert_eq!(page2[0].name, "c");
    assert_eq!(page2[1].name, "d");
    assert_eq!(page3.len(), 1);
    assert_eq!(page3[0].name, "e");
    assert_eq!(beyond.len(), 0);
}

#[test]
fn substring_matches_name_or_description() {
    let mut reg = Registry::new();
    reg.publish(1, &named("serde-tools", "serialization helpers"), b"x", 1).unwrap();
    reg.publish(1, &named("parser", "works with serde-tools"), b"y", 2).unwrap();
    reg.publish(1, &named("unrelated", "nothing here"), b"z", 3).unwrap();
    assert_eq!(reg.catalog.count_search_results("serde"), 2);
    assert_eq!(reg.catalog.count_search_results("nothing"), 1);
    assert_eq!(reg.catalog.count_search_results("absent"), 0);
    let rows = reg.catalog.search_crates("serde", 10, 0);
    assert_eq!(rows.len(), 2);
}

#[test]
fn search_response_carries_versions_and_links() {
    let mut reg = Registry::new();
    reg.publish(4, &named("linky", "has links"), b"data", 9).unwrap();
    let response = reg.search("linky", 10, 1);
    assert_eq!(response.meta.total, 1);
    assert_eq!(response.crates.len(), 1);
    let c = &response.crates[0];
    assert_eq!(c.name, "linky");
    assert_eq!(c.max_version, "1.0.0");
    assert_eq!(c.links.versions, "/api/v1/crates/linky/versions");
    assert_eq!(c.versions.len(), 1);
    assert_eq!(c.versions[0].num, "1.0.0");
    assert_eq!(c.versions[0].dl_path, "/api/v1/crates/linky/1.0.0/download");
    assert_eq!(c.versions[0].crate_size, Some(4));
    assert!(c.exact_match);
}

#[test]
fn search_matches_ascii_case_insensitively() {
    let mut reg = Registry::new();
    reg.publish(1, &named("Foo", "a Package"), b"x", 1).unwrap();
    assert_eq!(reg.catalog.count_search_results("foo"), 1);
    assert_eq!(reg.catalog.count_search_results("FOO"), 1);
    assert_eq!(reg.catalog.count_search_results("pAckAge"), 1);
    assert_eq!(reg.catalog.count_search_results("bar"), 0);
    let rows = reg.catalog.search_crates("fo", 10, 0);
    assert_eq!(rows.len(), 1);
    assert_eq!(rows[0].name, "Foo");
}

#[test]
fn exact_match_ignores_case() {
    let mut reg = Registry::new();
    reg.publish(1, &named("MixedCase", "cased"), b"x", 1).unwrap();
    let response = reg.search("mixedcase", 10, 1);
    assert_eq!(response.crates.len(), 1);
    assert!(response.crates[0].exact_match);
    let response = reg.search("Case", 10, 1);
    assert_eq!(response.crates.len(), 1);
    assert!(!response.crates[0].exact_match);
}

#[test]
fn per_page_is_capped_at_one_hundred() {
    let mut reg = Registry::new();
    for i in 0..120 {
        let name = format!("pkg{:03}", i);
        reg.publish(1, &named(&name, "bulk"), b"x", i).unwrap();
    }
    let response = reg.search("", 500, 1);
    assert_eq!(response.crates.len(), 100);
    assert_eq!(response.meta.total, 120);
}
