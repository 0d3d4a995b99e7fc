use pixi_global::error::GlobalError;
use pixi_global::text::join_texts;
use pixi_global::resolve::{solver_outcome, SolveFailure};
use rattler_conda_types::ParseMatchSpecError;
use rattler_solve::SolveError;

fn texts(items: &[&str]) -> Vec<String> {
    items.iter().map(|s| s.to_string()).collect()
}

#[test]
fn texts_are_joined_with_the_separator_between() {
    assert_eq!(join_texts(&texts(&["a", "b", "c"]), ", "), "a, b, c");
    assert_eq!(join_texts(&texts(&["a"]), ", "), "a");
    assert_eq!(join_texts(&Vec::new(), ", "), "");
    assert_eq!(join_texts(&texts(&["", ""]), "-"), "-");
}

#[test]
fn errors_name_their_subject() {
    assert_eq!(GlobalError::Config.message(), "could not find home directory");
    assert_eq!(
        GlobalError::InvalidName { name: "a b".to_string() }.message(),
        "'a b' is not a valid package name"
    );
    assert_eq!(
        GlobalError::NotInstalled { package: Some("RipGrep".to_string()) }.message(),
        "Package RipGrep is not globally installed"
    );
    assert_eq!(
        GlobalError::NotInstalled { package: None }.message(),
        "binary executable directory does not exist"
    );
    assert_eq!(
        GlobalError::NotFoundInPrefix { name: "foo".to_string() }.message(),
        "could not find foo in prefix"
    );
    assert_eq!(
        GlobalError::MissingName { spec: "* >=1.0".to_string() }.message(),
        "could not find package name in MatchSpec * >=1.0"
    );
    assert_eq!(GlobalError::InvalidRegex.message(), "Invalid regex");
    assert_eq!(GlobalError::Io { message: "disk full".to_string() }.message(), "disk full");
    assert_eq!(GlobalError::Network { message: "timeout".to_string() }.message(), "timeout");
}

#[test]
fn solver_failures_read_as_the_solver_words_them() {
    assert_eq!(
        GlobalError::Unsatisfiable { reasons: texts(&["no b", "no c"]) }.message(),
        "Cannot solve the request because of: no b, no c"
    );
    assert_eq!(
        SolveFailure::Unsolvable(texts(&["no b"])).message(),
        "Cannot solve the request because of: no b"
    );
    assert_eq!(
        SolveFailure::UnsupportedOperations(texts(&["x", "y"])).message(),
        "Unsupported operations: x, y"
    );
    assert_eq!(
        GlobalError::Solver { failure: SolveFailure::ParseMatchSpec("bad".to_string()) }.message(),
        "Error parsing match spec: bad"
    );
    assert_eq!(
        SolveFailure::DuplicateRecords("a-1.conda".to_string()).message(),
        "encountered duplicate records for a-1.conda"
    );
    assert_eq!(SolveFailure::Cancelled.message(), "Solve operation has been cancelled");
}

fn solver_errors() -> Vec<SolveError> {
    vec![
        SolveError::Unsolvable(texts(&["no b", "no c"])),
        SolveError::Unsolvable(Vec::new()),
        SolveError::UnsupportedOperations(texts(&["x"])),
        SolveError::UnsupportedOperations(texts(&["x", "y", "z"])),
        SolveError::ParseMatchSpecError(ParseMatchSpecError::MissingPackageName),
        SolveError::ParseMatchSpecError(ParseMatchSpecError::InvalidBracketKey("when".to_string())),
        SolveError::DuplicateRecords("a-1.0-0.conda".to_string()),
        SolveError::Cancelled,
    ]
}

#[test]
fn solver_failures_read_as_the_solver_itself_words_them() {
    let words: Vec<String> = solver_errors().iter().map(|error| error.to_string()).collect();
    for (error, words) in solver_errors().into_iter().zip(words) {
        let outcome = solver_outcome(Err(error));
        assert_eq!(outcome.unwrap_err().message(), words);
    }
}
