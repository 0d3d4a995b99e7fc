//! From a package specification to the records that satisfy it.
//!
//! Loading the candidates and running the solver are the caller's: both read
//! metadata that this crate cannot look into. What this module owns is every
//! decision between them. A specification without a name is refused before
//! anything is loaded; the request that the solver is given holds the one
//! requested specification, the candidates reachable from its name, the
//! capabilities of the machine, nothing locked, nothing pinned and no timeout;
//! and what the solver answers is handed on whole or not at all.

use crate::error::{fails_with, GlobalError, GlobalErrorView};
use crate::outside::solve_failure;
use crate::package_name::PackageName;
use crate::text::texts;
use rattler_conda_types::{GenericVirtualPackage, NamelessMatchSpec, RepoDataRecord};
use rattler_solve::SolveError;
use vstd::prelude::*;

verus! {

/// A request for a package: its name, where one was given, the matchers that
/// its version and build must meet, and the request as it was written.
#[derive(Debug)]
pub struct PackageSpecification {
    pub name: Option<PackageName>,
    pub text: String,
    pub constraints: NamelessMatchSpec,
}

/// What has to be loaded before the solver can be asked: the records that the
/// name reaches through dependencies. The matchers wait for the request.
#[derive(Debug)]
pub struct RecordsNeeded {
    pub name: PackageName,
    pub constraints: NamelessMatchSpec,
}

/// One entry of the list of specifications that the solver is asked to meet.
#[derive(Debug)]
pub struct RequestedSpec {
    pub name: PackageName,
    pub constraints: NamelessMatchSpec,
}

/// What the solver is asked.
#[derive(Debug)]
pub struct SolveRequest {
    /// The specifications to satisfy.
    pub specs: Vec<RequestedSpec>,
    /// The candidates, one list for each source of metadata.
    pub available_packages: Vec<Vec<RepoDataRecord>>,
    /// The capabilities of the machine.
    pub virtual_packages: Vec<GenericVirtualPackage>,
    /// Records to prefer.
    pub locked_packages: Vec<RepoDataRecord>,
    /// Records that may not change.
    pub pinned_packages: Vec<RepoDataRecord>,
    /// After how many milliseconds the solver gives up, if ever.
    pub timeout_millis: Option<u64>,
}

/// Why the solver gave up, variant by variant as the solver reports it.
#[derive(Debug)]
pub enum SolveFailure {
    /// No set of packages satisfies the request; the texts say why.
    Unsolvable(Vec<String>),
    /// The solver answered with operations that cannot be carried out.
    UnsupportedOperations(Vec<String>),
    /// A dependency of a candidate could not be parsed.
    ParseMatchSpec(String),
    /// The candidates hold the same record twice.
    DuplicateRecords(String),
    /// The solve was cancelled.
    Cancelled,
}

/// What a [`SolveFailure`] holds, as sequences of characters.
pub enum SolveFailureView {
    Unsolvable(Seq<Seq<char>>),
    UnsupportedOperations(Seq<Seq<char>>),
    ParseMatchSpec(Seq<char>),
    DuplicateRecords(Seq<char>),
    Cancelled,
}

impl View for SolveFailure {
    type V = SolveFailureView;

    open spec fn view(&self) -> SolveFailureView {
        match self {
            SolveFailure::Unsolvable(reasons) => SolveFailureView::Unsolvable(texts(reasons@)),
            SolveFailure::UnsupportedOperations(operations) => SolveFailureView::UnsupportedOperations(
                texts(operations@),
            ),
            SolveFailure::ParseMatchSpec(message) => SolveFailureView::ParseMatchSpec(message@),
            SolveFailure::DuplicateRecords(file) => SolveFailureView::DuplicateRecords(file@),
            SolveFailure::Cancelled => SolveFailureView::Cancelled,
        }
    }
}

/// The error that stands for a failure of the solver: unsatisfiability is told
/// apart from every other failure.
pub open spec fn failure_error(failure: SolveFailureView) -> GlobalErrorView {
    match failure {
        SolveFailureView::Unsolvable(reasons) => GlobalErrorView::Unsatisfiable { reasons },
        other => GlobalErrorView::Solver { failure: other },
    }
}

/// `MissingName` with the specification as it was written.
pub open spec fn missing_name(package_matchspec: PackageSpecification) -> GlobalErrorView {
    GlobalErrorView::MissingName { spec: package_matchspec.text@ }
}

/// The name that a specification asks for; `MissingName`, which shows the
/// specification, where it has none.
pub fn package_name(package_matchspec: &PackageSpecification) -> (r: Result<PackageName, GlobalError>)
    ensures
        package_matchspec.name matches Some(name) ==> r matches Ok(found) && found@ == name@,
        package_matchspec.name is None ==> fails_with(r, missing_name(*package_matchspec)),
{
    match &package_matchspec.name {
        Some(name) => Ok(name.duplicate()),
        None => Err(GlobalError::MissingName { spec: package_matchspec.text.clone() }),
    }
}

/// The candidates that were loaded, or the error that stands for the failure
/// to load them.
pub fn load_outcome(loaded: Result<Vec<Vec<RepoDataRecord>>, String>) -> (r: Result<
    Vec<Vec<RepoDataRecord>>,
    GlobalError,
>)
    ensures
        loaded matches Ok(records) ==> r == Ok::<Vec<Vec<RepoDataRecord>>, GlobalError>(records),
        loaded matches Err(message) ==> fails_with(r, (GlobalErrorView::Io { message: message@ })),
{
    match loaded {
        Ok(records) => Ok(records),
        Err(message) => Err(GlobalError::Io { message }),
    }
}

/// The request for one specification: it alone is requested, against the given
/// candidates and capabilities; nothing is locked or pinned, and no timeout is set.
pub fn build_request(
    name: PackageName,
    constraints: NamelessMatchSpec,
    available_packages: Vec<Vec<RepoDataRecord>>,
    virtual_packages: Vec<GenericVirtualPackage>,
) -> (request: SolveRequest)
    ensures
        request.specs@ == seq![(RequestedSpec { name, constraints })],
        request.available_packages == available_packages,
        request.virtual_packages == virtual_packages,
        request.locked_packages@ == Seq::<RepoDataRecord>::empty(),
        request.pinned_packages@ == Seq::<RepoDataRecord>::empty(),
        request.timeout_millis is None,
{
    let mut specs: Vec<RequestedSpec> = Vec::new();
    specs.push(RequestedSpec { name, constraints });
    SolveRequest {
        specs,
        available_packages,
        virtual_packages,
        locked_packages: Vec::new(),
        pinned_packages: Vec::new(),
        timeout_millis: None,
    }
}

/// The error that stands for a failure of the solver.
pub fn solve_error(failure: SolveFailure) -> (e: GlobalError)
    ensures
        e@ == failure_error(failure@),
{
    match failure {
        SolveFailure::Unsolvable(reasons) => GlobalError::Unsatisfiable { reasons },
        other => GlobalError::Solver { failure: other },
    }
}

/// What resolving gives once the solver has answered: its records, all of
/// them and nothing else, or the error that stands for its failure. No part
/// of a failed solve is handed on.
pub fn solve_outcome(outcome: Result<Vec<RepoDataRecord>, SolveFailure>) -> (r: Result<
    Vec<RepoDataRecord>,
    GlobalError,
>)
    ensures
        outcome matches Ok(records) ==> r == Ok::<Vec<RepoDataRecord>, GlobalError>(records),
        outcome matches Err(failure) ==> fails_with(r, failure_error(failure@)),
{
    match outcome {
        Ok(records) => Ok(records),
        Err(failure) => Err(solve_error(failure)),
    }
}

/// What resolving gives for the answer of the solver as the solver words it:
/// its records, all of them, or the error that stands for its failure. The
/// variants of the solver's error are told apart by a trusted reading; what
/// each stands for is [`solve_outcome`]'s to say.
pub fn solver_outcome(outcome: Result<Vec<RepoDataRecord>, SolveError>) -> (r: Result<
    Vec<RepoDataRecord>,
    GlobalError,
>)
    ensures
        outcome matches Ok(records) ==> r == Ok::<Vec<RepoDataRecord>, GlobalError>(records),
        outcome is Err ==> (r matches Err(e) && (e@ is Unsatisfiable || (e@ matches GlobalErrorView::Solver {
            failure,
        } && !(failure is Unsolvable)))),
{
    solve_outcome(
        match outcome {
            Ok(records) => Ok(records),
            Err(error) => Err(solve_failure(error)),
        },
    )
}

/// The first step of resolving `package_matchspec`: what has to be loaded.
///
/// Without a name the answer is `MissingName`, which shows the specification,
/// and nothing is to be loaded or solved. With one, the caller loads the
/// records that the name reaches and hands what loading gave to
/// [`load_outcome`], has the request made by [`build_request`], runs the
/// solver on it and hands the answer to [`solver_outcome`].
pub fn load_package_records(package_matchspec: PackageSpecification) -> (r: Result<RecordsNeeded, GlobalError>)
    ensures
        package_matchspec.name is None ==> fails_with(r, missing_name(package_matchspec)),
        package_matchspec.name matches Some(name) ==> r == Ok::<RecordsNeeded, GlobalError>(
            RecordsNeeded { name, constraints: package_matchspec.constraints },
        ),
{
    let PackageSpecification { name, text, constraints } = package_matchspec;
    match name {
        Some(name) => Ok(RecordsNeeded { name, constraints }),
        None => Err(GlobalError::MissingName { spec: text }),
    }
}

} // verus!
