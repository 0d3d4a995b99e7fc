//! Where a global installation keeps its state.
//!
//! Below the home directory lie `bin`, the one directory of executable entry
//! points that all packages share, and `envs/<name>`, one environment for each
//! installed package, named by the normal form of the package's name.
//!
//! Nothing here touches the file system. A function says which directory is
//! meant and what is to be done with it; the caller does it and hands back what
//! happened.

use crate::error::{GlobalError, GlobalErrorView};
use crate::package_name::{PackageName, PackageNameView};
use crate::text::texts;
use vstd::prelude::*;

verus! {

/// A directory, given by a root and the names of the directories that lead
/// down from it, outermost first. The root is the caller's: a path of the
/// platform, or a text. It is carried along and never looked into.
#[derive(Debug)]
pub struct DirPath<R> {
    pub root: R,
    pub segments: Vec<String>,
}

/// What a [`DirPath`] holds, the names as sequences of characters.
pub struct DirPathView<R> {
    pub root: R,
    pub segments: Seq<Seq<char>>,
}

impl<R> View for DirPath<R> {
    type V = DirPathView<R>;

    open spec fn view(&self) -> DirPathView<R> {
        DirPathView { root: self.root, segments: texts(self.segments@) }
    }
}

impl<R> DirPathView<R> {
    /// The root itself.
    pub open spec fn at(root: R) -> DirPathView<R> {
        DirPathView { root, segments: Seq::empty() }
    }

    /// The directory `segment` inside `self`.
    pub open spec fn join(self, segment: Seq<char>) -> DirPathView<R> {
        DirPathView { root: self.root, segments: self.segments.push(segment) }
    }
}

/// The two kinds of directory that an installation owns.
#[derive(Debug)]
pub enum DirKind {
    /// The directory of executable entry points.
    Shim,
    /// The environment of one package.
    Environment(PackageName),
}

/// What a [`DirKind`] holds, as sequences of characters.
pub enum DirKindView {
    Shim,
    Environment(PackageNameView),
}

impl View for DirKind {
    type V = DirKindView;

    open spec fn view(&self) -> DirKindView {
        match self {
            DirKind::Shim => DirKindView::Shim,
            DirKind::Environment(name) => DirKindView::Environment(name@),
        }
    }
}

/// What the caller is asked to do to a directory.
#[derive(Debug)]
pub enum DirAction<R> {
    /// Create the directory and the directories above it that are missing.
    CreateAll(DirPath<R>),
    /// Find out whether the directory exists, creating nothing.
    CheckExists(DirPath<R>),
}

/// What a [`DirAction`] holds, as sequences of characters.
pub enum DirActionView<R> {
    CreateAll(DirPathView<R>),
    CheckExists(DirPathView<R>),
}

impl<R> View for DirAction<R> {
    type V = DirActionView<R>;

    open spec fn view(&self) -> DirActionView<R> {
        match self {
            DirAction::CreateAll(path) => DirActionView::CreateAll(path@),
            DirAction::CheckExists(path) => DirActionView::CheckExists(path@),
        }
    }
}

/// The directory of executable entry points of an installation.
#[derive(Debug)]
pub struct BinDir<R>(pub DirPath<R>);

/// The environment of one installed package.
#[derive(Debug)]
pub struct BinEnvDir<R>(pub DirPath<R>);

/// The name of the state directory inside the user's home directory.
pub open spec fn home_segment() -> Seq<char> {
    ".pixi"@
}

/// The name of the directory of executable entry points.
pub open spec fn bin_segment() -> Seq<char> {
    "bin"@
}

/// The name of the directory that holds the environments.
pub open spec fn envs_segment() -> Seq<char> {
    "envs"@
}

/// The home directory: the override where one is set, else the state directory
/// inside the user's home, else a failure.
pub open spec fn home_path_spec<R>(home_override: Option<R>, user_home: Option<R>) -> Result<
    DirPathView<R>,
    GlobalErrorView,
> {
    match home_override {
        Some(path) => Ok(DirPathView::at(path)),
        None => match user_home {
            Some(home) => Ok(DirPathView::at(home).join(home_segment())),
            None => Err(GlobalErrorView::Config),
        },
    }
}

/// The directory of executable entry points below `home`.
pub open spec fn bin_dir_spec<R>(home: DirPathView<R>) -> DirPathView<R> {
    home.join(bin_segment())
}

/// The directory below `home` that holds the environments.
pub open spec fn bin_env_dir_spec<R>(home: DirPathView<R>) -> DirPathView<R> {
    home.join(envs_segment())
}

/// The directory of the given kind below `home`.
pub open spec fn dir_path_spec<R>(home: DirPathView<R>, kind: DirKindView) -> DirPathView<R> {
    match kind {
        DirKindView::Shim => bin_dir_spec(home),
        DirKindView::Environment(name) => bin_env_dir_spec(home).join(name.normalized),
    }
}

/// Whose absence a missing directory of the given kind reports.
pub open spec fn subject_spec(kind: DirKindView) -> Option<Seq<char>> {
    match kind {
        DirKindView::Shim => None,
        DirKindView::Environment(name) => Some(name.source),
    }
}

/// The outcome of ensuring a directory, given what creating it gave.
pub open spec fn ensure_spec<R>(home: DirPathView<R>, kind: DirKindView, created: Result<(), Seq<char>>) -> Result<
    DirPathView<R>,
    GlobalErrorView,
> {
    match created {
        Ok(_) => Ok(dir_path_spec(home, kind)),
        Err(message) => Err(GlobalErrorView::Io { message }),
    }
}

/// The outcome of requiring a directory, given what looking for it gave.
pub open spec fn require_existing_spec<R>(
    home: DirPathView<R>,
    kind: DirKindView,
    exists: Result<bool, Seq<char>>,
) -> Result<DirPathView<R>, GlobalErrorView> {
    match exists {
        Ok(true) => Ok(dir_path_spec(home, kind)),
        Ok(false) => Err(GlobalErrorView::NotInstalled { package: subject_spec(kind) }),
        Err(message) => Err(GlobalErrorView::Io { message }),
    }
}

/// The outcome of creating a directory, with the message as characters.
pub open spec fn created_view(created: Result<(), String>) -> Result<(), Seq<char>> {
    match created {
        Ok(_) => Ok(()),
        Err(message) => Err(message@),
    }
}

/// The outcome of looking for a directory, with the message as characters.
pub open spec fn exists_view(exists: Result<bool, String>) -> Result<bool, Seq<char>> {
    match exists {
        Ok(found) => Ok(found),
        Err(message) => Err(message@),
    }
}

/// A directory or a failure, as sequences of characters.
pub open spec fn path_result_view<R>(r: Result<DirPath<R>, GlobalError>) -> Result<DirPathView<R>, GlobalErrorView> {
    match r {
        Ok(path) => Ok(path@),
        Err(e) => Err(e@),
    }
}

impl<R> DirPath<R> {
    /// The root itself.
    pub fn at(root: R) -> (path: DirPath<R>)
        ensures
            path@ == DirPathView::at(root),
    {
        let path = DirPath { root, segments: Vec::new() };
        assert(path@.segments =~= Seq::empty());
        path
    }

    /// The directory `segment` inside `self`.
    pub fn join(self, segment: &str) -> (path: DirPath<R>)
        ensures
            path@ == self@.join(segment@),
    {
        let DirPath { root, segments } = self;
        let mut segments = segments;
        segments.push(segment.to_owned());
        let path = DirPath { root, segments };
        assert(path@.segments =~= self@.segments.push(segment@));
        path
    }
}

/// The home directory of the installation. `home_override` is the value of the
/// override variable where it is set, `user_home` the home directory of the
/// user where the platform knows one. Both are handed on as they are.
pub fn home_path<R>(home_override: Option<R>, user_home: Option<R>) -> (r: Result<DirPath<R>, GlobalError>)
    ensures
        path_result_view(r) == home_path_spec(home_override, user_home),
{
    match home_override {
        Some(path) => Ok(DirPath::at(path)),
        None => match user_home {
            Some(home) => Ok(DirPath::at(home).join(".pixi")),
            None => Err(GlobalError::Config),
        },
    }
}

/// The directory of executable entry points below `home`.
pub fn bin_dir<R>(home: DirPath<R>) -> (path: DirPath<R>)
    ensures
        path@ == bin_dir_spec(home@),
{
    home.join("bin")
}

/// The directory below `home` that holds the environments.
pub fn bin_env_dir<R>(home: DirPath<R>) -> (path: DirPath<R>)
    ensures
        path@ == bin_env_dir_spec(home@),
{
    home.join("envs")
}

/// The directory of the given kind below `home`.
pub fn dir_path<R>(home: DirPath<R>, kind: &DirKind) -> (path: DirPath<R>)
    ensures
        path@ == dir_path_spec(home@, kind@),
{
    match kind {
        DirKind::Shim => bin_dir(home),
        DirKind::Environment(name) => bin_env_dir(home).join(name.as_normalized()),
    }
}

/// What installing asks of the file system: that the directory be created.
pub fn ensure_action<R>(home: DirPath<R>, kind: &DirKind) -> (action: DirAction<R>)
    ensures
        action@ == DirActionView::CreateAll(dir_path_spec(home@, kind@)),
{
    DirAction::CreateAll(dir_path(home, kind))
}

/// What a query asks of the file system: a look, and never a creation.
pub fn require_existing_action<R>(home: DirPath<R>, kind: &DirKind) -> (action: DirAction<R>)
    ensures
        action@ == DirActionView::CheckExists(dir_path_spec(home@, kind@)),
{
    DirAction::CheckExists(dir_path(home, kind))
}

/// The directory of the given kind, once the caller has created it. `created`
/// is what creating the directory of [`ensure_action`] gave; a failure of the
/// file system is passed on as `Io`.
pub fn ensure<R>(home: DirPath<R>, kind: &DirKind, created: Result<(), String>) -> (r: Result<
    DirPath<R>,
    GlobalError,
>)
    ensures
        path_result_view(r) == ensure_spec(home@, kind@, created_view(created)),
{
    match created {
        Ok(_) => Ok(dir_path(home, kind)),
        Err(message) => Err(GlobalError::Io { message }),
    }
}

/// The directory of the given kind, which must exist already. `exists` is what
/// the look of [`require_existing_action`] gave. An absent directory gives
/// `NotInstalled`, naming the package where the kind has one.
pub fn require_existing<R>(home: DirPath<R>, kind: &DirKind, exists: Result<bool, String>) -> (r: Result<
    DirPath<R>,
    GlobalError,
>)
    ensures
        path_result_view(r) == require_existing_spec(home@, kind@, exists_view(exists)),
{
    match exists {
        Ok(true) => Ok(dir_path(home, kind)),
        Ok(false) => {
            let package = match kind {
                DirKind::Shim => None,
                DirKind::Environment(name) => Some(name.as_source().to_owned()),
            };
            Err(GlobalError::NotInstalled { package })
        },
        Err(message) => Err(GlobalError::Io { message }),
    }
}

/// A directory of executables or a failure, as sequences of characters.
pub open spec fn bin_result_view<R>(r: Result<BinDir<R>, GlobalError>) -> Result<DirPathView<R>, GlobalErrorView> {
    match r {
        Ok(dir) => Ok(dir.0@),
        Err(e) => Err(e@),
    }
}

/// An environment or a failure, as sequences of characters.
pub open spec fn env_result_view<R>(r: Result<BinEnvDir<R>, GlobalError>) -> Result<DirPathView<R>, GlobalErrorView> {
    match r {
        Ok(dir) => Ok(dir.0@),
        Err(e) => Err(e@),
    }
}

impl<R> BinDir<R> {
    /// The directory of executables below `home`, once the caller has created it.
    pub fn create(home: DirPath<R>, created: Result<(), String>) -> (r: Result<BinDir<R>, GlobalError>)
        ensures
            bin_result_view(r) == ensure_spec(home@, DirKindView::Shim, created_view(created)),
    {
        match ensure(home, &DirKind::Shim, created) {
            Ok(path) => Ok(BinDir(path)),
            Err(e) => Err(e),
        }
    }

    /// The directory of executables below `home`, which must exist already.
    pub fn from_existing(home: DirPath<R>, exists: Result<bool, String>) -> (r: Result<BinDir<R>, GlobalError>)
        ensures
            bin_result_view(r) == require_existing_spec(home@, DirKindView::Shim, exists_view(exists)),
    {
        match require_existing(home, &DirKind::Shim, exists) {
            Ok(path) => Ok(BinDir(path)),
            Err(e) => Err(e),
        }
    }
}

impl<R> BinEnvDir<R> {
    /// The environment directory of the package `package_name` below `home`.
    pub fn package_bin_env_dir(home: DirPath<R>, package_name: &PackageName) -> (path: DirPath<R>)
        ensures
            path@ == dir_path_spec(home@, DirKindView::Environment(package_name@)),
    {
        bin_env_dir(home).join(package_name.as_normalized())
    }

    /// The environment of `package_name` below `home`, which must exist already.
    pub fn from_existing(home: DirPath<R>, package_name: &PackageName, exists: Result<bool, String>) -> (r:
        Result<BinEnvDir<R>, GlobalError>)
        ensures
            env_result_view(r) == require_existing_spec(
                home@,
                DirKindView::Environment(package_name@),
                exists_view(exists),
            ),
    {
        match require_existing(home, &DirKind::Environment(package_name.duplicate()), exists) {
            Ok(path) => Ok(BinEnvDir(path)),
            Err(e) => Err(e),
        }
    }

    /// The environment of `package_name` below `home`, once the caller has
    /// created it.
    pub fn create(home: DirPath<R>, package_name: &PackageName, created: Result<(), String>) -> (r: Result<
        BinEnvDir<R>,
        GlobalError,
    >)
        ensures
            env_result_view(r) == ensure_spec(
                home@,
                DirKindView::Environment(package_name@),
                created_view(created),
            ),
    {
        match ensure(home, &DirKind::Environment(package_name.duplicate()), created) {
            Ok(path) => Ok(BinEnvDir(path)),
            Err(e) => Err(e),
        }
    }
}

/// Where the override is set it is the home directory, whatever the platform
/// knows of the user's home.
pub proof fn override_decides_home<R>(path: R, user_home: Option<R>)
    ensures
        home_path_spec(Some(path), user_home) == Ok::<DirPathView<R>, GlobalErrorView>(DirPathView::at(path)),
{
}

/// Requiring a directory that is absent fails with `NotInstalled`, which names
/// the package where the directory is an environment.
pub proof fn missing_directory_is_not_installed<R>(home: DirPathView<R>, kind: DirKindView)
    ensures
        require_existing_spec(home, kind, Ok(false)) == Err::<DirPathView<R>, GlobalErrorView>(
            GlobalErrorView::NotInstalled { package: subject_spec(kind) },
        ),
        kind matches DirKindView::Environment(name) ==> subject_spec(kind) == Some(name.source),
{
}

/// Ensuring a directory again changes nothing: whenever the file system reports
/// success, the directory ensured is the one directory of that home and kind,
/// and ensuring fails only where the file system did.
pub proof fn ensure_is_idempotent<R>(
    home: DirPathView<R>,
    kind: DirKindView,
    first: Result<(), Seq<char>>,
    second: Result<(), Seq<char>>,
)
    ensures
        second is Ok ==> ensure_spec(home, kind, second) is Ok,
        first is Ok && second is Ok ==> ensure_spec(home, kind, first) == ensure_spec(home, kind, second),
        ensure_spec(home, kind, second) matches Ok(path) ==> path == dir_path_spec(home, kind),
{
}

/// No two packages share an environment: below one home, two names lead to the
/// same directory exactly when they have the same normal form. And no
/// environment is the directory of executables.
pub proof fn environments_are_distinct<R>(home: DirPathView<R>, a: PackageNameView, b: PackageNameView)
    ensures
        dir_path_spec(home, DirKindView::Environment(a)) == dir_path_spec(home, DirKindView::Environment(b))
            <==> a.same_package(b),
        dir_path_spec(home, DirKindView::Environment(a)) != dir_path_spec(home, DirKindView::Shim),
{
    let envs = bin_env_dir_spec(home);
    let of_a = dir_path_spec(home, DirKindView::Environment(a));
    let of_b = dir_path_spec(home, DirKindView::Environment(b));
    assert(of_a.segments.last() == a.normalized);
    assert(of_b.segments.last() == b.normalized);
    assert(of_a.segments.len() == home.segments.len() + 2);
    assert(dir_path_spec(home, DirKindView::Shim).segments.len() == home.segments.len() + 1);
}

} // verus!
