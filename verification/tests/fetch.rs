use pixi_global::error::GlobalError;
use pixi_global::fetch::{distinct_channels, fetch_scope, gather_fetched, FetchTarget};
use pixi_global::text::contains_text;

fn texts(items: &[&str]) -> Vec<String> {
    items.iter().map(|s| s.to_string()).collect()
}

fn pairs(targets: &[FetchTarget]) -> Vec<(&str, &str)> {
    targets.iter().map(|t| (t.channel.as_str(), t.platform.as_str())).collect()
}

#[test]
fn channels_are_kept_once_in_their_order() {
    let set = distinct_channels(&texts(&["conda-forge", "bioconda", "conda-forge", "main", "bioconda"]));
    assert_eq!(set, texts(&["conda-forge", "bioconda", "main"]));
    assert_eq!(distinct_channels(&Vec::new()), Vec::<String>::new());
}

#[test]
fn contains_text_finds_exact_texts_only() {
    let list = texts(&["conda-forge", "main"]);
    assert!(contains_text(&list, "main"));
    assert!(!contains_text(&list, "mai"));
    assert!(!contains_text(&list, "Main"));
    assert!(!contains_text(&Vec::new(), ""));
}

#[test]
fn each_channel_is_fetched_for_the_platform_and_noarch() {
    let targets = fetch_scope(&texts(&["conda-forge", "bioconda", "conda-forge"]), "linux-64");
    assert_eq!(
        pairs(&targets),
        vec![
            ("conda-forge", "linux-64"),
            ("conda-forge", "noarch"),
            ("bioconda", "linux-64"),
            ("bioconda", "noarch"),
        ]
    );
}

#[test]
fn noarch_is_fetched_once() {
    let targets = fetch_scope(&texts(&["conda-forge"]), "noarch");
    assert_eq!(pairs(&targets), vec![("conda-forge", "noarch")]);
    assert!(fetch_scope(&Vec::new(), "linux-64").is_empty());
}

#[test]
fn a_fetch_keeps_every_part_in_its_place() {
    let results: Vec<Result<u32, String>> = vec![Ok(1), Ok(2), Ok(3)];
    assert_eq!(gather_fetched(results).unwrap(), vec![1, 2, 3]);
    let none: Vec<Result<u32, String>> = Vec::new();
    assert_eq!(gather_fetched(none).unwrap(), Vec::<u32>::new());
}

#[test]
fn one_failure_fails_the_fetch() {
    let results: Vec<Result<u32, String>> =
        vec![Ok(1), Err("timeout".to_string()), Ok(3), Err("refused".to_string())];
    match gather_fetched(results) {
        Err(GlobalError::Network { message }) => assert_eq!(message, "timeout"),
        other => panic!("unexpected: {:?}", other),
    }
}
