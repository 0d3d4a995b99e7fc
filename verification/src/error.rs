//! The failures that the library reports.

use crate::resolve::{SolveFailure, SolveFailureView};
use crate::text::{join_texts, joined, text_option, texts};
use vstd::prelude::*;
use vstd::string::StringExecFns;

verus! {

/// Why an operation on the global installation failed.
#[derive(Debug)]
pub enum GlobalError {
    /// No home directory could be determined.
    Config,
    /// A text is not the name of a package.
    InvalidName { name: String },
    /// A directory that must exist is absent: that of the named package, or
    /// the directory of executables where no package is named.
    NotInstalled { package: Option<String> },
    /// The environment of the package exists but holds no record of it.
    NotFoundInPrefix { name: String },
    /// A specification names no package; `spec` is the specification as written.
    MissingName { spec: String },
    /// Channel metadata could not be fetched.
    Network { message: String },
    /// No set of packages satisfies the specification.
    Unsatisfiable { reasons: Vec<String> },
    /// The solver failed for another reason than unsatisfiability.
    Solver { failure: SolveFailure },
    /// The file system failed.
    Io { message: String },
    /// A text is not a regular expression.
    InvalidRegex,
}

/// What a [`GlobalError`] holds, as sequences of characters.
pub enum GlobalErrorView {
    Config,
    InvalidName { name: Seq<char> },
    NotInstalled { package: Option<Seq<char>> },
    NotFoundInPrefix { name: Seq<char> },
    MissingName { spec: Seq<char> },
    Network { message: Seq<char> },
    Unsatisfiable { reasons: Seq<Seq<char>> },
    Solver { failure: SolveFailureView },
    Io { message: Seq<char> },
    InvalidRegex,
}

impl View for GlobalError {
    type V = GlobalErrorView;

    open spec fn view(&self) -> GlobalErrorView {
        match self {
            GlobalError::Config => GlobalErrorView::Config,
            GlobalError::InvalidName { name } => GlobalErrorView::InvalidName { name: name@ },
            GlobalError::NotInstalled { package } => GlobalErrorView::NotInstalled {
                package: text_option(*package),
            },
            GlobalError::NotFoundInPrefix { name } => GlobalErrorView::NotFoundInPrefix { name: name@ },
            GlobalError::MissingName { spec } => GlobalErrorView::MissingName { spec: spec@ },
            GlobalError::Network { message } => GlobalErrorView::Network { message: message@ },
            GlobalError::Unsatisfiable { reasons } => GlobalErrorView::Unsatisfiable {
                reasons: texts(reasons@),
            },
            GlobalError::Solver { failure } => GlobalErrorView::Solver { failure: failure@ },
            GlobalError::Io { message } => GlobalErrorView::Io { message: message@ },
            GlobalError::InvalidRegex => GlobalErrorView::InvalidRegex,
        }
    }
}

/// Is `r` the failure `e`?
pub open spec fn fails_with<T>(r: Result<T, GlobalError>, e: GlobalErrorView) -> bool {
    r is Err && r->Err_0@ == e
}

/// What a failure of the solver reads like.
pub open spec fn failure_message_spec(failure: SolveFailureView) -> Seq<char> {
    match failure {
        SolveFailureView::Unsolvable(reasons) => "Cannot solve the request because of: "@ + joined(
            reasons,
            ", "@,
        ),
        SolveFailureView::UnsupportedOperations(operations) => "Unsupported operations: "@ + joined(
            operations,
            ", "@,
        ),
        SolveFailureView::ParseMatchSpec(message) => "Error parsing match spec: "@ + message,
        SolveFailureView::DuplicateRecords(file) => "encountered duplicate records for "@ + file,
        SolveFailureView::Cancelled => "Solve operation has been cancelled"@,
    }
}

/// What an error reads like. It names the package that it is about.
pub open spec fn message_spec(e: GlobalErrorView) -> Seq<char> {
    match e {
        GlobalErrorView::Config => "could not find home directory"@,
        GlobalErrorView::InvalidName { name } => "'"@ + name + "' is not a valid package name"@,
        GlobalErrorView::NotInstalled { package: Some(package) } => "Package "@ + package
            + " is not globally installed"@,
        GlobalErrorView::NotInstalled { package: None } => "binary executable directory does not exist"@,
        GlobalErrorView::NotFoundInPrefix { name } => "could not find "@ + name + " in prefix"@,
        GlobalErrorView::MissingName { spec } => "could not find package name in MatchSpec "@ + spec,
        GlobalErrorView::Network { message } => message,
        GlobalErrorView::Unsatisfiable { reasons } => failure_message_spec(SolveFailureView::Unsolvable(reasons)),
        GlobalErrorView::Solver { failure } => failure_message_spec(failure),
        GlobalErrorView::Io { message } => message,
        GlobalErrorView::InvalidRegex => "Invalid regex"@,
    }
}

/// `lead` followed by the parts, with `, ` between each two.
fn listed(lead: &str, parts: &Vec<String>) -> (text: String)
    ensures
        text@ == lead@ + joined(texts(parts@), ", "@),
{
    let mut text = lead.to_owned();
    text.append(join_texts(parts, ", ").as_str());
    text
}

/// `lead` followed by `subject` and `trail`.
fn framed(lead: &str, subject: &str, trail: &str) -> (text: String)
    ensures
        text@ == lead@ + subject@ + trail@,
{
    let mut text = lead.to_owned();
    text.append(subject);
    text.append(trail);
    text
}

impl SolveFailure {
    /// What the failure reads like.
    pub fn message(&self) -> (text: String)
        ensures
            text@ == failure_message_spec(self@),
    {
        match self {
            SolveFailure::Unsolvable(reasons) => listed("Cannot solve the request because of: ", reasons),
            SolveFailure::UnsupportedOperations(operations) => listed("Unsupported operations: ", operations),
            SolveFailure::ParseMatchSpec(message) => {
                let text = framed("Error parsing match spec: ", message.as_str(), "");
                assert(text@ =~= "Error parsing match spec: "@ + message@) by {
                    reveal_strlit("");
                }
                text
            },
            SolveFailure::DuplicateRecords(file) => {
                let text = framed("encountered duplicate records for ", file.as_str(), "");
                assert(text@ =~= "encountered duplicate records for "@ + file@) by {
                    reveal_strlit("");
                }
                text
            },
            SolveFailure::Cancelled => "Solve operation has been cancelled".to_owned(),
        }
    }
}

impl GlobalError {
    /// What the error reads like. It names the package that it is about.
    pub fn message(&self) -> (text: String)
        ensures
            text@ == message_spec(self@),
    {
        match self {
            GlobalError::Config => "could not find home directory".to_owned(),
            GlobalError::InvalidName { name } => framed("'", name.as_str(), "' is not a valid package name"),
            GlobalError::NotInstalled { package: Some(package) } => framed(
                "Package ",
                package.as_str(),
                " is not globally installed",
            ),
            GlobalError::NotInstalled { package: None } => "binary executable directory does not exist".to_owned(),
            GlobalError::NotFoundInPrefix { name } => framed("could not find ", name.as_str(), " in prefix"),
            GlobalError::MissingName { spec } => {
                let text = framed("could not find package name in MatchSpec ", spec.as_str(), "");
                assert(text@ =~= "could not find package name in MatchSpec "@ + spec@) by {
                    reveal_strlit("");
                }
                text
            },
            GlobalError::Network { message } => message.clone(),
            GlobalError::Unsatisfiable { reasons } => listed("Cannot solve the request because of: ", reasons),
            GlobalError::Solver { failure } => failure.message(),
            GlobalError::Io { message } => message.clone(),
            GlobalError::InvalidRegex => "Invalid regex".to_owned(),
        }
    }
}

} // verus!
