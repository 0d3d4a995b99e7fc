//! Choosing and ordering the packages of an environment for display.

use crate::outside::{matching_names, pattern_is_valid, pattern_matches, text_at_most};
use crate::error::{GlobalError, GlobalErrorView};
use crate::order::reversed;
use crate::text::{contains_text, text_option, texts};
use vstd::prelude::*;

verus! {

/// By what the listed packages are ordered.
#[derive(Clone, Copy, Debug, PartialEq, Eq, Structural)]
pub enum SortBy {
    Size,
    Name,
    Type,
}

/// One line of the listing.
#[derive(Debug)]
pub struct PackageToOutput {
    pub name: String,
    pub version: String,
    pub build: Option<String>,
    pub size_bytes: Option<u64>,
    pub kind: String,
    pub source: Option<String>,
    pub is_explicit: bool,
}

/// A package as a lock file records it.
#[derive(Debug)]
pub enum LockedPackage {
    /// A conda package, with the size and the archive name where the lock
    /// file has them.
    Conda { name: String, version: String, build: String, size: Option<u64>, file_name: Option<String> },
    /// A package from the Python package index.
    Pypi { name: String, version: String },
}

/// What the wheel cache holds of a Python package.
#[derive(Debug)]
pub struct CachedWheel {
    /// The size of the unpacked wheel, where it could be measured.
    pub size_bytes: Option<u64>,
    /// The file name of the wheel.
    pub file_name: String,
}

/// How the listing is put out.
#[derive(Clone, Copy, Debug, PartialEq, Eq, Structural)]
pub enum ListOutput {
    /// Nothing is listed; a note says so.
    NoPackages,
    /// As JSON, indented or on one line.
    Json { pretty: bool },
    /// As a table.
    Table,
}

/// Does `a` come before `b`, or are they equal, in the order of strings: the
/// order of the first character in which they differ, a prefix before its
/// extensions?
pub open spec fn text_le(a: Seq<char>, b: Seq<char>) -> bool
    decreases a.len(),
{
    if a.len() == 0 {
        true
    } else if b.len() == 0 {
        false
    } else if (a[0] as u32) < (b[0] as u32) {
        true
    } else if (b[0] as u32) < (a[0] as u32) {
        false
    } else {
        text_le(a.drop_first(), b.drop_first())
    }
}

/// The size by which a package is ordered: zero where none is known.
pub open spec fn size_key(p: PackageToOutput) -> u64 {
    match p.size_bytes {
        Some(size) => size,
        None => 0,
    }
}

/// May `a` stand before `b` in a listing ordered by `by`?
pub open spec fn in_order(a: PackageToOutput, b: PackageToOutput, by: SortBy) -> bool {
    match by {
        SortBy::Size => size_key(a) <= size_key(b),
        SortBy::Name => text_le(a.name@, b.name@),
        SortBy::Type => text_le(a.kind@, b.kind@),
    }
}

/// Does `places` name the place `x`?
pub open spec fn names_place(places: Seq<int>, x: int) -> bool {
    exists|i: int| 0 <= i < places.len() && places[i] == x
}

/// `places` names every place below `n`, each once, and no other.
pub open spec fn is_rearrangement(places: Seq<int>, n: nat) -> bool {
    &&& places.len() == n
    &&& forall|i: int| 0 <= i < n ==> 0 <= #[trigger] places[i] < n
    &&& forall|i: int, j: int| 0 <= i < j < n ==> places[i] != places[j]
    &&& forall|x: int| 0 <= x < n ==> #[trigger] names_place(places, x)
}

/// The first `upto` entries of `listing` are entries of `input` in the order
/// `by`, entries that the order does not tell apart standing as in `input`;
/// `places` says where in `input` each entry of `listing` stood, and the
/// entries from `upto` on have not moved.
pub open spec fn ordered_upto(
    listing: Seq<PackageToOutput>,
    input: Seq<PackageToOutput>,
    by: SortBy,
    places: Seq<int>,
    upto: int,
) -> bool {
    &&& listing.len() == input.len()
    &&& is_rearrangement(places, input.len())
    &&& forall|i: int| 0 <= i < listing.len() ==> #[trigger] listing[i] == input[places[i]]
    &&& forall|i: int| upto <= i < listing.len() ==> #[trigger] places[i] == i
    &&& forall|i: int| 0 <= i < upto && i < listing.len() ==> #[trigger] places[i] < upto
    &&& forall|i: int, j: int|
        0 <= i < j < upto && j < listing.len() ==> in_order(#[trigger] listing[i], #[trigger] listing[j], by)
    &&& forall|i: int, j: int|
        0 <= i < j < upto && j < listing.len() && in_order(#[trigger] listing[j], #[trigger] listing[i], by)
            ==> places[i] < places[j]
}

/// `listing` holds the entries of `input`, each once, in the order `by`;
/// entries that the order does not tell apart stand as they stood in `input`.
pub open spec fn is_stable_sort(listing: Seq<PackageToOutput>, input: Seq<PackageToOutput>, by: SortBy) -> bool {
    exists|places: Seq<int>| ordered_upto(listing, input, by, places, input.len() as int)
}

/// The entries of `packages` whose mark is set, in their order. An entry
/// without a mark counts as not marked.
pub open spec fn marked(packages: Seq<PackageToOutput>, marks: Seq<bool>) -> Seq<PackageToOutput>
    decreases packages.len(),
{
    if packages.len() == 0 {
        Seq::empty()
    } else {
        let before = marked(packages.drop_last(), marks);
        if packages.len() <= marks.len() && marks[packages.len() - 1] {
            before.push(packages.last())
        } else {
            before
        }
    }
}

/// How a listing of `count` packages is put out.
pub open spec fn list_output_spec(count: nat, json: bool, json_pretty: bool) -> ListOutput {
    if count == 0 {
        ListOutput::NoPackages
    } else if json || json_pretty {
        ListOutput::Json { pretty: json_pretty }
    } else {
        ListOutput::Table
    }
}

/// The order of strings is total.
pub proof fn text_le_is_total(a: Seq<char>, b: Seq<char>)
    ensures
        text_le(a, b) || text_le(b, a),
    decreases a.len(),
{
    if a.len() > 0 && b.len() > 0 && a[0] as u32 == b[0] as u32 {
        text_le_is_total(a.drop_first(), b.drop_first());
    }
}

/// The order of strings is transitive.
pub proof fn text_le_is_transitive(a: Seq<char>, b: Seq<char>, c: Seq<char>)
    requires
        text_le(a, b),
        text_le(b, c),
    ensures
        text_le(a, c),
    decreases a.len(),
{
    if a.len() > 0 && b.len() > 0 && c.len() > 0 && a[0] as u32 == b[0] as u32 && b[0] as u32 == c[0] as u32 {
        text_le_is_transitive(a.drop_first(), b.drop_first(), c.drop_first());
    }
}

/// Of two packages one may stand before the other.
pub proof fn in_order_is_total(a: PackageToOutput, b: PackageToOutput, by: SortBy)
    ensures
        in_order(a, b, by) || in_order(b, a, by),
{
    text_le_is_total(a.name@, b.name@);
    text_le_is_total(a.kind@, b.kind@);
}

/// Standing before is transitive.
pub proof fn in_order_is_transitive(a: PackageToOutput, b: PackageToOutput, c: PackageToOutput, by: SortBy)
    requires
        in_order(a, b, by),
        in_order(b, c, by),
    ensures
        in_order(a, c, by),
{
    match by {
        SortBy::Size => {},
        SortBy::Name => text_le_is_transitive(a.name@, b.name@, c.name@),
        SortBy::Type => text_le_is_transitive(a.kind@, b.kind@, c.kind@),
    }
}

/// A list of places that rises from entry to entry and stays below its own
/// length names every place where it stands.
proof fn rising_places_stand_still(places: Seq<int>, i: int)
    requires
        forall|k: int| 0 <= k < places.len() ==> 0 <= #[trigger] places[k] < places.len(),
        forall|k: int, l: int| 0 <= k < l < places.len() ==> places[k] < places[l],
        0 <= i < places.len(),
    ensures
        places[i] == i,
{
    rising_places_are_not_behind(places, i);
    rising_places_are_not_ahead(places, i);
}

proof fn rising_places_are_not_behind(places: Seq<int>, i: int)
    requires
        forall|k: int| 0 <= k < places.len() ==> 0 <= #[trigger] places[k] < places.len(),
        forall|k: int, l: int| 0 <= k < l < places.len() ==> places[k] < places[l],
        0 <= i < places.len(),
    ensures
        places[i] >= i,
    decreases i,
{
    if i > 0 {
        rising_places_are_not_behind(places, i - 1);
    }
}

proof fn rising_places_are_not_ahead(places: Seq<int>, i: int)
    requires
        forall|k: int| 0 <= k < places.len() ==> 0 <= #[trigger] places[k] < places.len(),
        forall|k: int, l: int| 0 <= k < l < places.len() ==> places[k] < places[l],
        0 <= i < places.len(),
    ensures
        places[i] <= i,
    decreases places.len() - i,
{
    if i + 1 < places.len() {
        rising_places_are_not_ahead(places, i + 1);
    }
}

/// The order of a listing leaves no choice: two listings of the same packages
/// in the same order, both keeping the given order among packages that the
/// order does not tell apart, are the same listing.
pub proof fn stable_sort_is_unique(
    first: Seq<PackageToOutput>,
    second: Seq<PackageToOutput>,
    input: Seq<PackageToOutput>,
    by: SortBy,
)
    requires
        is_stable_sort(first, input, by),
        is_stable_sort(second, input, by),
    ensures
        first == second,
{
    let n = input.len() as int;
    let p = choose|places: Seq<int>| ordered_upto(first, input, by, places, n);
    let q = choose|places: Seq<int>| ordered_upto(second, input, by, places, n);
    // where in `second` the entry at each place of `first` stands
    let across = Seq::new(input.len(), |i: int| choose|j: int| 0 <= j < q.len() && q[j] == p[i]);
    assert forall|i: int| 0 <= i < n implies 0 <= #[trigger] across[i] < n && q[across[i]] == p[i] by {
        assert(names_place(q, p[i]));
    }
    assert forall|i: int, j: int| 0 <= i < j < n implies across[i] < across[j] by {
        assert(q[across[i]] == p[i]);
        assert(q[across[j]] == p[j]);
        assert(first[i] == input[p[i]]);
        assert(first[j] == input[p[j]]);
        assert(second[across[i]] == input[q[across[i]]]);
        assert(second[across[j]] == input[q[across[j]]]);
        assert(in_order(first[i], first[j], by));
        if across[i] > across[j] {
            assert(in_order(second[across[j]], second[across[i]], by));
            assert(in_order(first[j], first[i], by));
            assert(p[i] < p[j]);
            assert(in_order(second[across[i]], second[across[j]], by));
            assert(q[across[j]] < q[across[i]]);
        }
    }
    assert forall|i: int| 0 <= i < n implies first[i] == second[i] by {
        rising_places_stand_still(across, i);
        assert(q[across[i]] == p[i]);
        assert(first[i] == input[p[i]]);
        assert(second[i] == input[q[i]]);
    }
    assert(first =~= second);
}

/// May `a` stand before `b` in a listing ordered by `by`?
pub fn precedes(a: &PackageToOutput, b: &PackageToOutput, by: SortBy) -> (r: bool)
    ensures
        r == in_order(*a, *b, by),
{
    match by {
        SortBy::Size => {
            let size_a: u64 = match a.size_bytes {
                Some(size) => size,
                None => 0,
            };
            let size_b: u64 = match b.size_bytes {
                Some(size) => size,
                None => 0,
            };
            size_a <= size_b
        },
        SortBy::Name => text_at_most(a.name.as_str(), b.name.as_str()),
        SortBy::Type => text_at_most(a.kind.as_str(), b.kind.as_str()),
    }
}

/// Moving the entry at `upto` down to the place `to`, behind every earlier
/// entry that may stand before it, extends the ordered part by one.
proof fn insertion_extends_order(
    listing: Seq<PackageToOutput>,
    input: Seq<PackageToOutput>,
    by: SortBy,
    places: Seq<int>,
    upto: int,
    to: int,
)
    requires
        ordered_upto(listing, input, by, places, upto),
        0 <= to <= upto < listing.len(),
        forall|k: int| to <= k < upto ==> !in_order(#[trigger] listing[k], listing[upto], by),
        to > 0 ==> in_order(listing[to - 1], listing[upto], by),
    ensures
        ordered_upto(
            listing.remove(upto).insert(to, listing[upto]),
            input,
            by,
            places.remove(upto).insert(to, upto),
            upto + 1,
        ),
{
    let moved = listing[upto];
    let next = listing.remove(upto).insert(to, moved);
    let next_places = places.remove(upto).insert(to, upto);
    let n = listing.len() as int;
    // where the entry at a place of `next` stood in `listing`
    let from = |i: int| if i < to { i } else if i == to { upto } else if i <= upto { i - 1 } else { i };
    assert forall|i: int| 0 <= i < n implies #[trigger] next[i] == listing[from(i)] && next_places[i]
        == places[from(i)] by {}
    assert(places[upto] == upto);
    assert forall|i: int| 0 <= i < n implies 0 <= #[trigger] next_places[i] < n by {
        assert(next_places[i] == places[from(i)]);
    }
    assert forall|i: int, j: int| 0 <= i < j < n implies next_places[i] != next_places[j] by {
        assert(next_places[i] == places[from(i)]);
        assert(next_places[j] == places[from(j)]);
        assert(from(i) != from(j));
        if from(i) < from(j) {
            assert(places[from(i)] != places[from(j)]);
        } else {
            assert(places[from(j)] != places[from(i)]);
        }
    }
    assert forall|x: int| 0 <= x < n implies #[trigger] names_place(next_places, x) by {
        assert(names_place(places, x));
        let k = choose|k: int| 0 <= k < places.len() && places[k] == x;
        let moved_to = if k < to { k } else if k == upto { to } else if k < upto { k + 1 } else { k };
        assert(from(moved_to) == k);
        assert(next_places[moved_to] == places[from(moved_to)]);
    }
    assert forall|i: int| 0 <= i < n implies #[trigger] next[i] == input[next_places[i]] by {
        assert(next[i] == listing[from(i)]);
        assert(listing[from(i)] == input[places[from(i)]]);
    }
    assert forall|i: int| upto + 1 <= i < n implies #[trigger] next_places[i] == i by {
        assert(next_places[i] == places[from(i)]);
    }
    assert forall|i: int| 0 <= i < upto + 1 && i < n implies #[trigger] next_places[i] < upto + 1 by {
        assert(next_places[i] == places[from(i)]);
    }
    assert forall|i: int, j: int| 0 <= i < j < upto + 1 && j < n implies in_order(
        #[trigger] next[i],
        #[trigger] next[j],
        by,
    ) by {
        assert(next[i] == listing[from(i)]);
        assert(next[j] == listing[from(j)]);
        if j == to {
            // an earlier entry against the moved one
            if i < to - 1 {
                assert(in_order(listing[i], listing[to - 1], by));
                in_order_is_transitive(listing[i], listing[to - 1], moved, by);
            }
        } else if i == to {
            // the moved entry against one that it passed
            assert(!in_order(listing[from(j)], moved, by));
            in_order_is_total(listing[from(j)], moved, by);
        } else {
            assert(in_order(listing[from(i)], listing[from(j)], by));
        }
    }
    assert forall|i: int, j: int|
        0 <= i < j < upto + 1 && j < n && in_order(
            #[trigger] next[j],
            #[trigger] next[i],
            by,
        ) implies next_places[i] < next_places[j] by {
        assert(next[i] == listing[from(i)]);
        assert(next[j] == listing[from(j)]);
        assert(next_places[i] == places[from(i)]);
        assert(next_places[j] == places[from(j)]);
        if j == to {
            assert(places[from(i)] < upto);
        } else if i == to {
            assert(!in_order(listing[from(j)], moved, by));
        } else {
            assert(in_order(listing[from(j)], listing[from(i)], by));
        }
    }
}

/// The packages in the order `sort_by`. Packages that the order does not tell
/// apart keep the order in which they were given.
pub fn sort_packages(packages: Vec<PackageToOutput>, sort_by: SortBy) -> (listing: Vec<PackageToOutput>)
    ensures
        is_stable_sort(listing@, packages@, sort_by),
{
    let mut listing = packages;
    let ghost mut places: Seq<int> = Seq::new(packages@.len(), |i: int| i);
    let mut upto: usize = 0;
    proof {
        assert forall|x: int| 0 <= x < packages@.len() implies #[trigger] names_place(places, x) by {
            assert(places[x] == x);
        }
    }
    while upto < listing.len()
        invariant
            upto <= listing.len(),
            ordered_upto(listing@, packages@, sort_by, places, upto as int),
        decreases listing.len() - upto,
    {
        let ghost start = listing@;
        let moved = listing.remove(upto);
        let mut to: usize = upto;
        while to > 0 && !precedes(&listing[to - 1], &moved, sort_by)
            invariant
                to <= upto < start.len(),
                listing@ == start.remove(upto as int),
                moved == start[upto as int],
                forall|k: int| to <= k < upto ==> !in_order(#[trigger] start[k], moved, sort_by),
            decreases to,
        {
            to -= 1;
        }
        listing.insert(to, moved);
        proof {
            insertion_extends_order(start, packages@, sort_by, places, upto as int, to as int);
            places = places.remove(upto as int).insert(to as int, upto as int);
        }
        upto += 1;
    }
    listing
}

/// The packages whose mark is set, in their order. A package without a mark
/// counts as not marked.
pub fn keep_marked(packages: Vec<PackageToOutput>, marks: &Vec<bool>) -> (kept: Vec<PackageToOutput>)
    ensures
        kept@ == marked(packages@, marks@),
{
    let total = packages.len();
    let mut reversed = reversed(packages);
    let mut kept: Vec<PackageToOutput> = Vec::new();
    let mut i: usize = 0;
    assert(packages@.take(0) =~= Seq::empty());
    while reversed.len() > 0
        invariant
            total == packages@.len(),
            i + reversed@.len() == packages@.len(),
            kept@ == marked(packages@.take(i as int), marks@),
            forall|j: int| 0 <= j < reversed@.len() ==> reversed@[j] == packages@[packages@.len() - 1 - j],
        decreases reversed.len(),
    {
        let ghost prefix = packages@.take(i as int + 1);
        assert(prefix.drop_last() =~= packages@.take(i as int));
        assert(prefix.last() == packages@[i as int]);
        let item = reversed.pop().unwrap();
        if i < marks.len() && marks[i] {
            kept.push(item);
        }
        i += 1;
    }
    assert(packages@.take(i as int) =~= packages@);
    kept
}

/// What a [`PackageToOutput`] holds, as sequences of characters.
pub struct PackageToOutputView {
    pub name: Seq<char>,
    pub version: Seq<char>,
    pub build: Option<Seq<char>>,
    pub size_bytes: Option<u64>,
    pub kind: Seq<char>,
    pub source: Option<Seq<char>>,
    pub is_explicit: bool,
}

impl View for PackageToOutput {
    type V = PackageToOutputView;

    open spec fn view(&self) -> PackageToOutputView {
        PackageToOutputView {
            name: self.name@,
            version: self.version@,
            build: text_option(self.build),
            size_bytes: self.size_bytes,
            kind: self.kind@,
            source: text_option(self.source),
            is_explicit: self.is_explicit,
        }
    }
}

/// The line of the listing for a locked package. A conda package shows what
/// the lock file holds; a Python package has no build, and its size and source
/// are those of its cached wheel, where there is one. A package is explicit
/// when the project names it as a dependency.
pub open spec fn package_output_spec(
    p: LockedPackage,
    project_dependency_names: Seq<Seq<char>>,
    wheel: Option<CachedWheel>,
) -> PackageToOutputView {
    match p {
        LockedPackage::Conda { name, version, build, size, file_name } => PackageToOutputView {
            name: name@,
            version: version@,
            build: Some(build@),
            size_bytes: size,
            kind: "conda"@,
            source: text_option(file_name),
            is_explicit: project_dependency_names.contains(name@),
        },
        LockedPackage::Pypi { name, version } => PackageToOutputView {
            name: name@,
            version: version@,
            build: None,
            size_bytes: match wheel {
                Some(cached) => cached.size_bytes,
                None => None,
            },
            kind: "pypi"@,
            source: match wheel {
                Some(cached) => Some(cached.file_name@),
                None => None,
            },
            is_explicit: project_dependency_names.contains(name@),
        },
    }
}

/// One mark for each package: does the pattern match its name?
pub open spec fn name_marks(packages: Seq<PackageToOutput>, pattern: Seq<char>) -> Seq<bool> {
    Seq::new(packages.len(), |i: int| pattern_matches(pattern, packages[i].name@))
}

/// The packages that are listed: all where no pattern is given, those whose
/// name the pattern matches where it is a regular expression, and
/// `InvalidRegex` where it is none.
pub open spec fn filter_spec(packages: Seq<PackageToOutput>, regex: Option<Seq<char>>) -> Result<
    Seq<PackageToOutput>,
    GlobalErrorView,
> {
    match regex {
        None => Ok(packages),
        Some(pattern) => if pattern_is_valid(pattern) {
            Ok(marked(packages, name_marks(packages, pattern)))
        } else {
            Err(GlobalErrorView::InvalidRegex)
        },
    }
}

/// A copy of an optional text.
fn duplicate_text(text: &Option<String>) -> (copy: Option<String>)
    ensures
        text_option(copy) == text_option(*text),
{
    match text {
        Some(t) => Some(t.clone()),
        None => None,
    }
}

/// The line of the listing for the locked package `p`. `wheel` is what the
/// wheel cache holds of `p`; it is read for a Python package only.
pub fn create_package_to_output(
    p: &LockedPackage,
    project_dependency_names: &Vec<String>,
    wheel: Option<CachedWheel>,
) -> (line: PackageToOutput)
    ensures
        line@ == package_output_spec(*p, texts(project_dependency_names@), wheel),
{
    match p {
        LockedPackage::Conda { name, version, build, size, file_name } => PackageToOutput {
            name: name.clone(),
            version: version.clone(),
            build: Some(build.clone()),
            size_bytes: *size,
            kind: "conda".to_owned(),
            source: duplicate_text(file_name),
            is_explicit: contains_text(project_dependency_names, name.as_str()),
        },
        LockedPackage::Pypi { name, version } => {
            let (size_bytes, source) = match wheel {
                Some(cached) => (cached.size_bytes, Some(cached.file_name)),
                None => (None, None),
            };
            PackageToOutput {
                name: name.clone(),
                version: version.clone(),
                build: None,
                size_bytes,
                kind: "pypi".to_owned(),
                source,
                is_explicit: contains_text(project_dependency_names, name.as_str()),
            }
        },
    }
}

/// The packages that are listed under the pattern `regex`, in their order.
pub fn filter_packages(packages: Vec<PackageToOutput>, regex: Option<&str>) -> (r: Result<
    Vec<PackageToOutput>,
    GlobalError,
>)
    ensures
        match filter_spec(packages@, optional_pattern(regex)) {
            Ok(kept) => r is Ok && r->Ok_0@ == kept,
            Err(e) => r is Err && r->Err_0@ == e,
        },
{
    match regex {
        None => Ok(packages),
        Some(pattern) => {
            let mut names: Vec<String> = Vec::new();
            let mut i: usize = 0;
            while i < packages.len()
                invariant
                    i <= packages.len(),
                    names@.len() == i,
                    forall|j: int| 0 <= j < i ==> names@[j]@ == packages@[j].name@,
                decreases packages.len() - i,
            {
                names.push(packages[i].name.clone());
                i += 1;
            }
            match matching_names(pattern, &names) {
                Some(marks) => {
                    assert forall|i: int| 0 <= i < marks@.len() implies marks@[i] == name_marks(
                        packages@,
                        pattern@,
                    )[i] by {
                        assert(names@[i]@ == packages@[i].name@);
                    }
                    assert(marks@ =~= name_marks(packages@, pattern@));
                    Ok(keep_marked(packages, &marks))
                },
                None => Err(GlobalError::InvalidRegex),
            }
        },
    }
}

/// An optional pattern as an optional sequence of characters.
pub open spec fn optional_pattern(regex: Option<&str>) -> Option<Seq<char>> {
    match regex {
        Some(pattern) => Some(pattern@),
        None => None,
    }
}

/// The listing: the packages that the pattern lets through, in the order
/// `sort_by`; `InvalidRegex` where the pattern is no regular expression.
pub fn select_packages(packages: Vec<PackageToOutput>, regex: Option<&str>, sort_by: SortBy) -> (r: Result<
    Vec<PackageToOutput>,
    GlobalError,
>)
    ensures
        match filter_spec(packages@, optional_pattern(regex)) {
            Ok(kept) => r is Ok && is_stable_sort(r->Ok_0@, kept, sort_by),
            Err(e) => r is Err && r->Err_0@ == e,
        },
{
    match filter_packages(packages, regex) {
        Ok(kept) => Ok(sort_packages(kept, sort_by)),
        Err(e) => Err(e),
    }
}

/// How a listing of `count` packages is put out: a note where it is empty,
/// else JSON where either JSON flag is set, indented where the second is, else
/// a table.
pub fn list_output(count: usize, json: bool, json_pretty: bool) -> (output: ListOutput)
    ensures
        output == list_output_spec(count as nat, json, json_pretty),
{
    if count == 0 {
        ListOutput::NoPackages
    } else if json || json_pretty {
        ListOutput::Json { pretty: json_pretty }
    } else {
        ListOutput::Table
    }
}

} // verus!
