//! Finding the record of an installed package again.

use crate::outside::parse_channel;
use crate::error::{GlobalError, GlobalErrorView};
use crate::layout::{exists_view, BinEnvDir, DirPath};
use crate::package_name::{PackageName, PackageNameView};
use rattler_conda_types::ChannelConfig;
use vstd::prelude::*;

verus! {

/// What an environment records of a package installed in it.
#[derive(Debug)]
pub struct InstalledRecord {
    /// The name of the package.
    pub name: PackageName,
    /// Its version.
    pub version: String,
    /// Its build string.
    pub build: String,
    /// The channel it came from, where that is known.
    pub channel: Option<String>,
    /// The name of the archive it was unpacked from.
    pub file_name: String,
    /// The files it placed in the environment, relative to the environment.
    pub files: Vec<String>,
}

/// The names of a channel: the short name where it has one, and the name
/// that spells out where the channel lies.
#[derive(Debug)]
pub struct ChannelNames {
    pub name: Option<String>,
    pub canonical: String,
}

/// The name under which a channel is shown: its short name where it has one,
/// else its canonical name.
pub open spec fn friendly_name_spec(names: ChannelNames) -> Seq<char> {
    match names.name {
        Some(name) => name@,
        None => names.canonical@,
    }
}

/// The name under which the channel of a record is shown: the friendly name of
/// the channel where the text of the record is a channel, else that text.
pub open spec fn channel_name_spec(channel: Seq<char>, parsed: Option<ChannelNames>) -> Seq<char> {
    match parsed {
        Some(names) => friendly_name_spec(names),
        None => channel,
    }
}

/// Does the record at `i` belong to the package `name`?
pub open spec fn matches_at(records: Seq<InstalledRecord>, name: PackageNameView, i: int) -> bool {
    0 <= i < records.len() && records[i].name@.same_package(name)
}

/// Is `i` the first place at which a record of the package `name` stands?
pub open spec fn is_first_match(records: Seq<InstalledRecord>, name: PackageNameView, i: int) -> bool {
    matches_at(records, name, i) && forall|j: int| 0 <= j < i ==> !matches_at(records, name, j)
}

/// The first record of the package `name` among `records`, or
/// `NotFoundInPrefix` with the name as written where there is none.
pub open spec fn find_spec(records: Seq<InstalledRecord>, name: PackageNameView) -> Result<
    InstalledRecord,
    GlobalErrorView,
> {
    if exists|i: int| is_first_match(records, name, i) {
        Ok(records[choose|i: int| is_first_match(records, name, i)])
    } else {
        Err(GlobalErrorView::NotFoundInPrefix { name: name.source })
    }
}

/// Is the environment read for its records? Only where the look found it.
pub open spec fn prefix_is_scanned_spec(exists: Result<bool, Seq<char>>) -> bool {
    exists == Ok::<bool, Seq<char>>(true)
}

/// The record of the package `name`, given what the look for its environment
/// gave and what the environment records: `NotInstalled` where the
/// environment is absent, `Io` where the look failed, else what [`find_spec`]
/// gives.
pub open spec fn locate_spec(
    exists: Result<bool, Seq<char>>,
    records: Seq<InstalledRecord>,
    name: PackageNameView,
) -> Result<InstalledRecord, GlobalErrorView> {
    match exists {
        Ok(true) => find_spec(records, name),
        Ok(false) => Err(GlobalErrorView::NotInstalled { package: Some(name.source) }),
        Err(message) => Err(GlobalErrorView::Io { message }),
    }
}

/// A record or a failure, the failure as sequences of characters.
pub open spec fn record_result_view(r: Result<InstalledRecord, GlobalError>) -> Result<
    InstalledRecord,
    GlobalErrorView,
> {
    match r {
        Ok(record) => Ok(record),
        Err(e) => Err(e@),
    }
}

/// Two places cannot both be the first match.
pub proof fn first_match_is_unique(records: Seq<InstalledRecord>, name: PackageNameView, i: int, k: int)
    requires
        is_first_match(records, name, i),
        is_first_match(records, name, k),
    ensures
        i == k,
{
    if i < k {
        assert(!matches_at(records, name, i));
    } else if k < i {
        assert(!matches_at(records, name, k));
    }
}

/// Where any record matches, some record is the first to match.
pub proof fn some_match_has_a_first(records: Seq<InstalledRecord>, name: PackageNameView, i: int)
    requires
        matches_at(records, name, i),
    ensures
        exists|k: int| 0 <= k <= i && is_first_match(records, name, k),
    decreases i,
{
    if forall|j: int| 0 <= j < i ==> !matches_at(records, name, j) {
        assert(is_first_match(records, name, i));
    } else {
        let j = choose|j: int| 0 <= j < i && matches_at(records, name, j);
        some_match_has_a_first(records, name, j);
    }
}

/// The name under which a channel is shown.
pub fn friendly_channel_name(names: ChannelNames) -> (shown: String)
    ensures
        shown@ == friendly_name_spec(names),
{
    match names.name {
        Some(name) => name,
        None => names.canonical,
    }
}

/// The name under which the channel `channel` of a record is shown, given what
/// reading it as a channel gave.
pub fn channel_name(channel: &str, parsed: Option<ChannelNames>) -> (shown: String)
    ensures
        shown@ == channel_name_spec(channel@, parsed),
{
    match parsed {
        Some(names) => friendly_channel_name(names),
        None => channel.to_owned(),
    }
}

/// The name under which the channel of an installed package is shown. A
/// record without a channel shows the empty name.
pub fn channel_name_from_prefix(prefix_package: &InstalledRecord, channel_config: &ChannelConfig) -> (shown:
    String)
    ensures
        prefix_package.channel is None ==> shown@ == Seq::<char>::empty(),
        prefix_package.channel matches Some(channel) ==> exists|parsed: Option<ChannelNames>|
            shown@ == channel_name_spec(channel@, parsed),
{
    match &prefix_package.channel {
        Some(channel) => channel_name(channel.as_str(), parse_channel(channel.as_str(), channel_config)),
        None => String::new(),
    }
}

/// The record that an environment holds of the package `package_name`: the
/// first of `prefix_records` whose name has the same normal form.
pub fn find_designated_package(prefix_records: Vec<InstalledRecord>, package_name: &PackageName) -> (r:
    Result<InstalledRecord, GlobalError>)
    ensures
        record_result_view(r) == find_spec(prefix_records@, package_name@),
{
    let mut records = prefix_records;
    let mut i: usize = 0;
    while i < records.len()
        invariant
            records@ == prefix_records@,
            i <= records.len(),
            forall|j: int| 0 <= j < i ==> !matches_at(prefix_records@, package_name@, j),
        decreases records.len() - i,
    {
        if records[i].name.same_package(package_name) {
            proof {
                assert(is_first_match(prefix_records@, package_name@, i as int));
                let k = choose|k: int| is_first_match(prefix_records@, package_name@, k);
                first_match_is_unique(prefix_records@, package_name@, i as int, k);
            }
            let record = records.remove(i);
            return Ok(record);
        }
        i += 1;
    }
    Err(GlobalError::NotFoundInPrefix { name: package_name.as_source().to_owned() })
}

/// Is the environment read for its records? `exists` is what the look for the
/// environment gave: only an environment that was found is read.
pub fn prefix_is_scanned(exists: &Result<bool, String>) -> (scanned: bool)
    ensures
        scanned == prefix_is_scanned_spec(exists_view(*exists)),
{
    match exists {
        Ok(found) => *found,
        Err(_) => false,
    }
}

/// The record of the installed package `package_name`. `exists` is what the
/// look for its environment below `home` gave, and `prefix_records` what that
/// environment records. An absent environment means that the package is not
/// installed; a look that failed is passed on as the failure it was. Either
/// way `prefix_records` is not read.
pub fn find_installed_package<R>(
    home: DirPath<R>,
    package_name: &PackageName,
    exists: Result<bool, String>,
    prefix_records: Vec<InstalledRecord>,
) -> (r: Result<InstalledRecord, GlobalError>)
    ensures
        record_result_view(r) == locate_spec(exists_view(exists), prefix_records@, package_name@),
{
    match BinEnvDir::from_existing(home, package_name, exists) {
        Ok(_) => find_designated_package(prefix_records, package_name),
        Err(e) => Err(e),
    }
}

/// A record that is found belongs to the package that was asked for, and is
/// one of the records that were searched.
pub proof fn found_record_is_of_the_package(records: Seq<InstalledRecord>, name: PackageNameView)
    ensures
        find_spec(records, name) matches Ok(record) ==> record.name@.same_package(name)
            && records.contains(record),
        find_spec(records, name) is Ok <==> exists|i: int| matches_at(records, name, i),
{
    if exists|i: int| is_first_match(records, name, i) {
        let k = choose|i: int| is_first_match(records, name, i);
        assert(matches_at(records, name, k));
        assert(records[k] == records[k]);
    }
    if exists|i: int| matches_at(records, name, i) {
        let i = choose|i: int| matches_at(records, name, i);
        some_match_has_a_first(records, name, i);
    }
}

/// What is found of one package does not depend on the records of another: a
/// record of another package, put in at any place, changes nothing.
pub proof fn other_packages_do_not_matter(
    records: Seq<InstalledRecord>,
    other: InstalledRecord,
    at: int,
    name: PackageNameView,
)
    requires
        0 <= at <= records.len(),
        !other.name@.same_package(name),
    ensures
        find_spec(records.insert(at, other), name) == find_spec(records, name),
{
    let more = records.insert(at, other);
    assert forall|i: int| 0 <= i < records.len() implies #[trigger] matches_at(records, name, i)
        == matches_at(more, name, if i < at { i } else { i + 1 }) by {}
    assert(!matches_at(more, name, at));
    if exists|i: int| is_first_match(records, name, i) {
        let i = choose|i: int| is_first_match(records, name, i);
        let moved = if i < at { i } else { i + 1 };
        assert forall|j: int| 0 <= j < moved implies !matches_at(more, name, j) by {
            if j != at {
                let back = if j < at { j } else { j - 1 };
                assert(matches_at(records, name, back) == matches_at(more, name, j));
            }
        }
        assert(is_first_match(more, name, moved));
        let k = choose|k: int| is_first_match(more, name, k);
        first_match_is_unique(more, name, moved, k);
        assert(more[moved] == records[i]);
    } else {
        if exists|k: int| is_first_match(more, name, k) {
            let k = choose|k: int| is_first_match(more, name, k);
            let back = if k < at { k } else { k - 1 };
            assert(matches_at(records, name, back) == matches_at(more, name, k));
            some_match_has_a_first(records, name, back);
        }
    }
}

/// A package whose environment is absent is not installed, whatever records
/// are at hand; a look that failed is no verdict on the package, but the
/// failure itself; and where the environment was found, what is found is what
/// it records of that package, so that "not installed" never stands for an
/// environment that is there.
pub proof fn not_installed_differs_from_not_found(
    exists: Result<bool, Seq<char>>,
    records: Seq<InstalledRecord>,
    name: PackageNameView,
)
    ensures
        exists == Ok::<bool, Seq<char>>(false) ==> locate_spec(exists, records, name) == Err::<
            InstalledRecord,
            GlobalErrorView,
        >(GlobalErrorView::NotInstalled { package: Some(name.source) }),
        exists matches Err(message) ==> locate_spec(exists, records, name) == Err::<
            InstalledRecord,
            GlobalErrorView,
        >(GlobalErrorView::Io { message }),
        exists == Ok::<bool, Seq<char>>(true) ==> locate_spec(exists, records, name) == find_spec(records, name),
        !(locate_spec(Ok(true), records, name) matches Err(GlobalErrorView::NotInstalled { .. })),
        !prefix_is_scanned_spec(exists) ==> locate_spec(exists, records, name) == locate_spec(
            exists,
            Seq::empty(),
            name,
        ),
{
}

} // verus!
