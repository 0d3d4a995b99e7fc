use bytes::Bytes;
use indexmap::IndexMap;
use pixi_global::error::GlobalError;
use pixi_global::package_name::PackageName;
use pixi_global::resolve::{
    build_request, load_outcome, load_package_records, package_name, solve_error, solve_outcome,
    solver_outcome, PackageSpecification, SolveFailure, SolveRequest,
};
use rattler_conda_types::{
    Channel, ChannelConfig, GenericVirtualPackage, MatchSpec, NamelessMatchSpec, ParseMatchSpecOptions,
    RepoDataRecord, Subdir,
};
use rattler_repodata_gateway::sparse::SparseRepoData;
use rattler_solve::resolvo::Solver;
use rattler_solve::{SolveError, SolverImpl, SolverTask};

const REPODATA: &str = r#"{
  "info": { "subdir": "noarch" },
  "packages": {
    "a-1.0-0.tar.bz2": { "name": "a", "version": "1.0", "build": "0", "build_number": 0,
                         "depends": ["b >=1"], "subdir": "noarch" },
    "b-1.0-0.tar.bz2": { "name": "b", "version": "1.0", "build": "0", "build_number": 0,
                         "depends": [], "subdir": "noarch" },
    "c-1.0-0.tar.bz2": { "name": "c", "version": "1.0", "build": "0", "build_number": 0,
                         "depends": ["a"], "subdir": "noarch" },
    "d-1.0-0.tar.bz2": { "name": "d", "version": "1.0", "build": "0", "build_number": 0,
                         "depends": ["b >=2"], "subdir": "noarch" },
    "e-1.0-0.tar.bz2": { "name": "e", "version": "1.0", "build": "0", "build_number": 0,
                         "depends": ["__glibc >=2.17"], "subdir": "noarch" },
    "e-2.0-0.tar.bz2": { "name": "e", "version": "2.0", "build": "0", "build_number": 0,
                         "depends": ["__glibc >=2.34"], "subdir": "noarch" }
  },
  "packages.conda": {}
}"#;

const BROKEN: &str = r#"{
  "info": { "subdir": "noarch" },
  "packages": {
    "a-1.0-0.tar.bz2": { "name": "a", "build": "0", "build_number": "none" }
  },
  "packages.conda": {}
}"#;

fn index_of(json: &'static str) -> IndexMap<(Channel, Subdir), SparseRepoData> {
    let config = ChannelConfig::default_with_root_dir(std::path::PathBuf::from("/"));
    let channel = Channel::from_str("dummy", &config).unwrap();
    let data = SparseRepoData::from_bytes(channel.clone(), "noarch", Bytes::from(json), None).unwrap();
    let mut index = IndexMap::new();
    index.insert((channel, Subdir::NoArch), data);
    index
}

fn index() -> IndexMap<(Channel, Subdir), SparseRepoData> {
    index_of(REPODATA)
}

fn matchers(text: &str) -> NamelessMatchSpec {
    NamelessMatchSpec::from_str(text, ParseMatchSpecOptions::strict()).unwrap()
}

fn spec(name: Option<&str>, constraints: &str) -> PackageSpecification {
    PackageSpecification {
        name: name.map(|n| PackageName::new(n.to_string()).unwrap()),
        text: format!("{} {}", name.unwrap_or("*"), constraints),
        constraints: matchers(constraints),
    }
}

/// Runs the solver on a request of the library.
fn solve(request: &SolveRequest) -> Result<Vec<RepoDataRecord>, SolveError> {
    let task = SolverTask {
        specs: request
            .specs
            .iter()
            .map(|spec| {
                let name = rattler_conda_types::PackageName::new_unchecked(spec.name.as_normalized());
                MatchSpec::from_nameless(spec.constraints.clone(), name.into())
            })
            .collect(),
        virtual_packages: request.virtual_packages.clone(),
        locked_packages: request.locked_packages.iter().collect(),
        pinned_packages: request.pinned_packages.iter().collect(),
        timeout: request.timeout_millis.map(std::time::Duration::from_millis),
        ..request.available_packages.iter().collect()
    };
    Solver.solve(task).map(|solved| solved.records)
}

/// Resolves a specification: the library decides, the conda crates load and solve.
fn resolve(
    specification: PackageSpecification,
    index: &IndexMap<(Channel, Subdir), SparseRepoData>,
    virtual_packages: Vec<GenericVirtualPackage>,
) -> Result<Vec<RepoDataRecord>, GlobalError> {
    let needed = load_package_records(specification)?;
    let root = rattler_conda_types::PackageName::new_unchecked(needed.name.as_normalized());
    let loaded =
        SparseRepoData::load_records_recursive(index.values(), vec![root], None, Default::default())
            .map_err(|e| e.to_string());
    let available = load_outcome(loaded)?;
    let request = build_request(needed.name, needed.constraints, available, virtual_packages);
    solver_outcome(solve(&request))
}

fn names(records: &[RepoDataRecord]) -> Vec<String> {
    let mut names: Vec<String> =
        records.iter().map(|r| r.package_record.name.as_normalized().to_string()).collect();
    names.sort();
    names
}

#[test]
fn a_spec_without_a_name_is_refused() {
    match load_package_records(spec(None, ">=1.0")) {
        Err(GlobalError::MissingName { spec }) => assert_eq!(spec, "* >=1.0"),
        other => panic!("unexpected: {:?}", other),
    }
    let empty: IndexMap<(Channel, Subdir), SparseRepoData> = IndexMap::new();
    let result = resolve(spec(None, ">=1.0"), &empty, Vec::new());
    assert!(matches!(result, Err(GlobalError::MissingName { .. })));
    let result = resolve(spec(None, ""), &index(), Vec::new());
    assert!(matches!(result, Err(GlobalError::MissingName { .. })));
}

#[test]
fn a_spec_with_a_name_says_what_to_load() {
    let needed = load_package_records(spec(Some("NumPy"), ">=1.0")).unwrap();
    assert_eq!(needed.name.as_source(), "NumPy");
    assert_eq!(needed.name.as_normalized(), "numpy");
    assert_eq!(needed.constraints, matchers(">=1.0"));
}

#[test]
fn package_name_is_the_name_of_the_spec() {
    let found = package_name(&spec(Some("Foo"), "")).unwrap();
    assert_eq!(found.as_source(), "Foo");
    assert_eq!(found.as_normalized(), "foo");
    match package_name(&spec(None, "1.2.*")) {
        Err(GlobalError::MissingName { spec }) => assert_eq!(spec, "* 1.2.*"),
        other => panic!("unexpected: {:?}", other),
    }
}

#[test]
fn a_depending_on_b_resolves_to_both() {
    let records = resolve(spec(Some("a"), ""), &index(), Vec::new()).unwrap();
    assert_eq!(records.len(), 2);
    assert_eq!(names(&records), vec!["a".to_string(), "b".to_string()]);
    let b = records.iter().find(|r| r.package_record.name.as_normalized() == "b").unwrap();
    assert_eq!(b.package_record.version.as_str(), "1.0");
}

#[test]
fn a_package_without_dependencies_resolves_to_itself() {
    let records = resolve(spec(Some("B"), "1.0.*"), &index(), Vec::new()).unwrap();
    assert_eq!(names(&records), vec!["b".to_string()]);
}

#[test]
fn a_version_that_no_record_has_is_unsatisfiable() {
    match resolve(spec(Some("a"), ">=2"), &index(), Vec::new()) {
        Err(GlobalError::Unsatisfiable { reasons }) => assert!(!reasons.is_empty()),
        other => panic!("unexpected: {:?}", other),
    }
}

#[test]
fn a_dependency_that_cannot_be_met_is_unsatisfiable() {
    let result = resolve(spec(Some("d"), ""), &index(), Vec::new());
    assert!(matches!(result, Err(GlobalError::Unsatisfiable { .. })));
}

#[test]
fn an_unknown_package_is_unsatisfiable() {
    let result = resolve(spec(Some("nowhere"), ""), &index(), Vec::new());
    assert!(matches!(result, Err(GlobalError::Unsatisfiable { .. })));
}

#[test]
fn the_request_holds_one_spec_and_nothing_locked() {
    let name = PackageName::new("a".to_string()).unwrap();
    let request = build_request(name, matchers(">=1"), vec![Vec::new(), Vec::new()], Vec::new());
    assert_eq!(request.specs[0].constraints, matchers(">=1"));
    assert_eq!(request.specs.len(), 1);
    assert_eq!(request.specs[0].name.as_normalized(), "a");
    assert_eq!(request.available_packages.len(), 2);
    assert!(request.virtual_packages.is_empty());
    assert!(request.locked_packages.is_empty());
    assert!(request.pinned_packages.is_empty());
    assert_eq!(request.timeout_millis, None);
}

#[test]
fn solver_failures_are_told_apart() {
    match solve_error(SolveFailure::Unsolvable(vec!["no b".to_string()])) {
        GlobalError::Unsatisfiable { reasons } => assert_eq!(reasons, vec!["no b".to_string()]),
        other => panic!("unexpected: {:?}", other),
    }
    assert!(matches!(
        solve_error(SolveFailure::Cancelled),
        GlobalError::Solver { failure: SolveFailure::Cancelled }
    ));
    match solve_error(SolveFailure::DuplicateRecords("a-1.0-0.conda".to_string())) {
        GlobalError::Solver { failure: SolveFailure::DuplicateRecords(file) } => assert_eq!(file, "a-1.0-0.conda"),
        other => panic!("unexpected: {:?}", other),
    }
    assert!(matches!(
        solve_error(SolveFailure::UnsupportedOperations(Vec::new())),
        GlobalError::Solver { failure: SolveFailure::UnsupportedOperations(_) }
    ));
    assert!(matches!(
        solve_error(SolveFailure::ParseMatchSpec("bad".to_string())),
        GlobalError::Solver { failure: SolveFailure::ParseMatchSpec(_) }
    ));
}

#[test]
fn a_failed_load_is_an_io_error() {
    match load_outcome(Err("truncated".to_string())) {
        Err(GlobalError::Io { message }) => assert_eq!(message, "truncated"),
        other => panic!("unexpected: {:?}", other),
    }
    assert_eq!(load_outcome(Ok(vec![Vec::new()])).unwrap().len(), 1);
}

#[test]
fn metadata_that_cannot_be_read_is_an_io_error() {
    match resolve(spec(Some("a"), ""), &index_of(BROKEN), Vec::new()) {
        Err(GlobalError::Io { message }) => assert!(!message.is_empty()),
        other => panic!("unexpected: {:?}", other),
    }
}

#[test]
fn records_outside_the_closure_are_not_candidates() {
    let records = resolve(spec(Some("c"), ""), &index(), Vec::new()).unwrap();
    assert_eq!(names(&records), vec!["a".to_string(), "b".to_string(), "c".to_string()]);
}

fn glibc(version: &str) -> GenericVirtualPackage {
    GenericVirtualPackage {
        name: "__glibc".parse().unwrap(),
        version: version.parse().unwrap(),
        build_string: "0".parse().unwrap(),
    }
}

#[test]
fn the_capabilities_of_the_machine_decide_what_can_be_installed() {
    let records = resolve(spec(Some("e"), ""), &index(), vec![glibc("2.31")]).unwrap();
    assert_eq!(names(&records), vec!["e".to_string()]);
    assert_eq!(records[0].package_record.version.as_str(), "1.0");
    let records = resolve(spec(Some("e"), ""), &index(), vec![glibc("2.35")]).unwrap();
    assert_eq!(records[0].package_record.version.as_str(), "2.0");
    let without = resolve(spec(Some("e"), ""), &index(), Vec::new());
    assert!(matches!(without, Err(GlobalError::Unsatisfiable { .. })));
    let too_old = resolve(spec(Some("e"), ""), &index(), vec![glibc("2.5")]);
    assert!(matches!(too_old, Err(GlobalError::Unsatisfiable { .. })));
}

#[test]
fn the_newest_record_that_the_matchers_allow_is_chosen() {
    let records = resolve(spec(Some("e"), "<2"), &index(), vec![glibc("2.35")]).unwrap();
    assert_eq!(records[0].package_record.version.as_str(), "1.0");
    let records = resolve(spec(Some("E"), ">=2"), &index(), vec![glibc("2.35")]).unwrap();
    assert_eq!(records[0].package_record.version.as_str(), "2.0");
}

#[test]
fn the_answer_of_the_solver_is_handed_on_whole_or_not_at_all() {
    let records = resolve(spec(Some("a"), ""), &index(), Vec::new()).unwrap();
    let count = records.len();
    assert_eq!(solve_outcome(Ok(records)).unwrap().len(), count);
    assert!(matches!(
        solve_outcome(Err(SolveFailure::Cancelled)),
        Err(GlobalError::Solver { failure: SolveFailure::Cancelled })
    ));
    assert!(solver_outcome(Ok(Vec::new())).unwrap().is_empty());
    match solver_outcome(Err(SolveError::Unsolvable(vec!["no b".to_string()]))) {
        Err(GlobalError::Unsatisfiable { reasons }) => assert_eq!(reasons, vec!["no b".to_string()]),
        other => panic!("unexpected: {:?}", other),
    }
    match solver_outcome(Err(SolveError::DuplicateRecords("a-1.conda".to_string()))) {
        Err(GlobalError::Solver { failure: SolveFailure::DuplicateRecords(file) }) => assert_eq!(file, "a-1.conda"),
        other => panic!("unexpected: {:?}", other),
    }
    assert!(matches!(
        solver_outcome(Err(SolveError::Cancelled)),
        Err(GlobalError::Solver { failure: SolveFailure::Cancelled })
    ));
}
