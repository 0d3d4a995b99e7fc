use pixi_global::error::GlobalError;
use pixi_global::layout::DirPath;
use pixi_global::locate::{
    channel_name, channel_name_from_prefix, find_designated_package, find_installed_package,
    friendly_channel_name, prefix_is_scanned, ChannelNames, InstalledRecord,
};
use pixi_global::package_name::PackageName;
use rattler_conda_types::ChannelConfig;

fn home() -> DirPath<String> {
    DirPath::at("/home/u/.pixi".to_string())
}

fn name(text: &str) -> PackageName {
    PackageName::new(text.to_string()).unwrap()
}

fn record(package: &str, version: &str) -> InstalledRecord {
    InstalledRecord {
        name: name(package),
        version: version.to_string(),
        build: "0".to_string(),
        channel: Some("conda-forge".to_string()),
        file_name: format!("{}-{}-0.conda", package, version),
        files: vec![format!("bin/{}", package)],
    }
}

#[test]
fn the_record_of_the_package_is_found() {
    let records = vec![record("libfoo", "2.0"), record("foo", "1.2"), record("bar", "3.0")];
    let found = find_designated_package(records, &name("foo")).unwrap();
    assert_eq!(found.name.as_normalized(), "foo");
    assert_eq!(found.version, "1.2");
    assert_eq!(found.file_name, "foo-1.2-0.conda");
    assert_eq!(found.files, vec!["bin/foo".to_string()]);
}

#[test]
fn the_first_of_two_records_is_found() {
    let records = vec![record("bar", "3.0"), record("foo", "1.0"), record("Foo", "2.0")];
    let found = find_designated_package(records, &name("FOO")).unwrap();
    assert_eq!(found.version, "1.0");
}

#[test]
fn names_match_exactly_on_the_normal_form() {
    let records = vec![record("foobar", "1.0"), record("fo", "1.0")];
    match find_designated_package(records, &name("Foo")) {
        Err(GlobalError::NotFoundInPrefix { name }) => assert_eq!(name, "Foo"),
        other => panic!("unexpected: {:?}", other),
    }
}

#[test]
fn an_empty_environment_holds_no_record() {
    match find_designated_package(Vec::new(), &name("foo")) {
        Err(GlobalError::NotFoundInPrefix { name }) => assert_eq!(name, "foo"),
        other => panic!("unexpected: {:?}", other),
    }
}

#[test]
fn a_package_without_environment_is_not_installed() {
    match find_installed_package(home(), &name("Foo"), Ok(false), vec![record("foo", "1.0")]) {
        Err(GlobalError::NotInstalled { package }) => assert_eq!(package.as_deref(), Some("Foo")),
        other => panic!("unexpected: {:?}", other),
    }
}

#[test]
fn a_failed_look_is_passed_on_as_the_failure_it_was() {
    match find_installed_package(home(), &name("foo"), Err("denied".to_string()), vec![record("foo", "1.0")]) {
        Err(GlobalError::Io { message }) => assert_eq!(message, "denied"),
        other => panic!("unexpected: {:?}", other),
    }
}

#[test]
fn only_an_environment_that_was_found_is_read() {
    assert!(prefix_is_scanned(&Ok(true)));
    assert!(!prefix_is_scanned(&Ok(false)));
    assert!(!prefix_is_scanned(&Err("denied".to_string())));
}

#[test]
fn an_environment_without_the_record_is_not_found_in_prefix() {
    match find_installed_package(home(), &name("foo"), Ok(true), vec![record("bar", "1.0")]) {
        Err(GlobalError::NotFoundInPrefix { name }) => assert_eq!(name, "foo"),
        other => panic!("unexpected: {:?}", other),
    }
}

#[test]
fn locating_foo_does_not_depend_on_bar() {
    let with_bar = find_installed_package(
        home(),
        &name("foo"),
        Ok(true),
        vec![record("bar", "3.0"), record("foo", "1.2")],
    ).unwrap();
    let without_bar =
        find_installed_package(home(), &name("foo"), Ok(true), vec![record("foo", "1.2")]).unwrap();
    assert_eq!(with_bar.name.as_source(), "foo");
    assert_eq!(with_bar.version, "1.2");
    assert_eq!(without_bar.name.as_source(), "foo");
    assert_eq!(without_bar.version, "1.2");
}

fn on_channel(channel: Option<&str>) -> InstalledRecord {
    let mut installed = record("foo", "1.0");
    installed.channel = channel.map(|c| c.to_string());
    installed
}

#[test]
fn a_channel_is_shown_by_its_short_name() {
    let config = ChannelConfig::default_with_root_dir(std::path::PathBuf::from("/"));
    assert_eq!(channel_name_from_prefix(&on_channel(Some("conda-forge")), &config), "conda-forge");
    assert_eq!(
        channel_name_from_prefix(&on_channel(Some("https://conda.anaconda.org/conda-forge")), &config),
        "conda-forge"
    );
}

#[test]
fn a_text_that_is_no_channel_is_shown_as_it_is() {
    let config = ChannelConfig::default_with_root_dir(std::path::PathBuf::from("/"));
    assert_eq!(channel_name_from_prefix(&on_channel(Some("no:channel]")), &config), "no:channel]");
    assert_eq!(channel_name_from_prefix(&on_channel(None), &config), "");
}

#[test]
fn the_friendly_name_is_the_short_name_or_the_canonical_one() {
    let named = ChannelNames { name: Some("main".to_string()), canonical: "https://x/main/".to_string() };
    assert_eq!(friendly_channel_name(named), "main");
    let unnamed = ChannelNames { name: None, canonical: "https://x/main/".to_string() };
    assert_eq!(friendly_channel_name(unnamed), "https://x/main/");
    assert_eq!(channel_name("raw", None), "raw");
    let named = ChannelNames { name: Some("main".to_string()), canonical: "https://x/main/".to_string() };
    assert_eq!(channel_name("raw", Some(named)), "main");
}
