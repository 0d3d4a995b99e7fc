//! What is fetched before a specification can be resolved.
//!
//! The metadata of every channel is needed for the current platform and for
//! the platform-independent directory, once each, in the order in which the
//! channels were given. Fetching itself is the caller's; a single failure
//! fails the whole fetch.

use crate::error::{GlobalError, GlobalErrorView};
use crate::order::reversed;
use crate::text::{contains_text, texts};
use vstd::prelude::*;
use vstd::seq_lib::{lemma_no_dup_in_concat, lemma_seq_concat_contains_all_elements, lemma_seq_contains_after_push};

verus! {

/// One platform directory of one channel.
#[derive(Debug)]
pub struct FetchTarget {
    pub channel: String,
    pub platform: String,
}

/// What a [`FetchTarget`] holds, as sequences of characters.
pub struct FetchTargetView {
    pub channel: Seq<char>,
    pub platform: Seq<char>,
}

impl View for FetchTarget {
    type V = FetchTargetView;

    open spec fn view(&self) -> FetchTargetView {
        FetchTargetView { channel: self.channel@, platform: self.platform@ }
    }
}

/// The targets of `v`, each as sequences of characters.
pub open spec fn target_views(v: Seq<FetchTarget>) -> Seq<FetchTargetView> {
    Seq::new(v.len(), |i: int| v[i]@)
}

/// The name of the platform-independent directory of a channel.
pub open spec fn noarch() -> Seq<char> {
    "noarch"@
}

/// The channels of `channels` in the order of their first occurrence, each once.
pub open spec fn distinct(channels: Seq<Seq<char>>) -> Seq<Seq<char>>
    decreases channels.len(),
{
    if channels.len() == 0 {
        Seq::empty()
    } else {
        let before = distinct(channels.drop_last());
        if before.contains(channels.last()) {
            before
        } else {
            before.push(channels.last())
        }
    }
}

/// The directories of one channel that resolving for `platform` needs.
pub open spec fn targets_of_channel(channel: Seq<char>, platform: Seq<char>) -> Seq<FetchTargetView> {
    if platform == noarch() {
        seq![(FetchTargetView { channel, platform })]
    } else {
        seq![(FetchTargetView { channel, platform }), (FetchTargetView { channel, platform: noarch() })]
    }
}

/// The directories of the given channels, channel after channel.
pub open spec fn targets_of(channels: Seq<Seq<char>>, platform: Seq<char>) -> Seq<FetchTargetView>
    decreases channels.len(),
{
    if channels.len() == 0 {
        Seq::empty()
    } else {
        targets_of(channels.drop_last(), platform) + targets_of_channel(channels.last(), platform)
    }
}

/// What has to be fetched to resolve for `platform` against `channels`.
pub open spec fn fetch_scope_spec(channels: Seq<Seq<char>>, platform: Seq<char>) -> Seq<FetchTargetView> {
    targets_of(distinct(channels), platform)
}

/// The values of `results` where all succeeded, else the message of the first
/// that failed.
pub open spec fn gathered<T>(results: Seq<Result<T, String>>) -> Result<Seq<T>, Seq<char>>
    decreases results.len(),
{
    if results.len() == 0 {
        Ok(Seq::empty())
    } else {
        match gathered(results.drop_last()) {
            Err(message) => Err(message),
            Ok(values) => match results.last() {
                Ok(value) => Ok(values.push(value)),
                Err(message) => Err(message@),
            },
        }
    }
}

/// The channels in the order of their first occurrence, each once.
pub fn distinct_channels(channels: &Vec<String>) -> (set: Vec<String>)
    ensures
        texts(set@) == distinct(texts(channels@)),
{
    let mut set: Vec<String> = Vec::new();
    let mut i: usize = 0;
    assert(texts(channels@).take(0) =~= Seq::empty());
    assert(texts(set@) =~= Seq::empty());
    while i < channels.len()
        invariant
            i <= channels.len(),
            texts(set@) == distinct(texts(channels@).take(i as int)),
        decreases channels.len() - i,
    {
        let ghost before = texts(set@);
        let ghost prefix = texts(channels@).take(i as int + 1);
        assert(prefix.drop_last() =~= texts(channels@).take(i as int));
        assert(prefix.last() == channels[i as int]@);
        if !contains_text(&set, channels[i].as_str()) {
            set.push(channels[i].clone());
            assert(texts(set@) =~= before.push(channels[i as int]@));
        }
        i += 1;
    }
    assert(texts(channels@).take(i as int) =~= texts(channels@));
    set
}

/// What has to be fetched to resolve for `platform` against `channels`: for
/// each channel, once, its directory for the platform and its
/// platform-independent directory.
pub fn fetch_scope(channels: &Vec<String>, platform: &str) -> (targets: Vec<FetchTarget>)
    ensures
        target_views(targets@) == fetch_scope_spec(texts(channels@), platform@),
{
    let set = distinct_channels(channels);
    let independent = platform.eq("noarch");
    let mut targets: Vec<FetchTarget> = Vec::new();
    let mut i: usize = 0;
    assert(texts(set@).take(0) =~= Seq::empty());
    assert(target_views(targets@) =~= Seq::empty());
    while i < set.len()
        invariant
            i <= set.len(),
            independent == (platform@ == noarch()),
            target_views(targets@) == targets_of(texts(set@).take(i as int), platform@),
        decreases set.len() - i,
    {
        let ghost before = target_views(targets@);
        let ghost prefix = texts(set@).take(i as int + 1);
        assert(prefix.drop_last() =~= texts(set@).take(i as int));
        assert(prefix.last() == set[i as int]@);
        targets.push(FetchTarget { channel: set[i].clone(), platform: platform.to_owned() });
        if !independent {
            targets.push(FetchTarget { channel: set[i].clone(), platform: "noarch".to_owned() });
        }
        assert(target_views(targets@) =~= before + targets_of_channel(set[i as int]@, platform@));
        i += 1;
    }
    assert(texts(set@).take(i as int) =~= texts(set@));
    targets
}

/// What the fetches gave, where all succeeded; else `Network` with the message
/// of the first that failed. No part of a fetch is kept when another part failed.
pub fn gather_fetched<T>(results: Vec<Result<T, String>>) -> (r: Result<Vec<T>, GlobalError>)
    ensures
        match gathered(results@) {
            Ok(values) => r is Ok && r->Ok_0@ == values,
            Err(message) => r is Err && r->Err_0@ == (GlobalErrorView::Network { message }),
        },
{
    let mut reversed = reversed(results);
    assert(results@.take(0) =~= Seq::empty());
    let mut values: Vec<T> = Vec::new();
    while reversed.len() > 0
        invariant
            reversed@.len() <= results@.len(),
            gathered(results@.take(results@.len() - reversed@.len())) == Ok::<Seq<T>, Seq<char>>(values@),
            forall|j: int| 0 <= j < reversed@.len() ==> reversed@[j] == results@[results@.len() - 1 - j],
        decreases reversed.len(),
    {
        let ghost done = results@.len() - reversed@.len();
        let ghost prefix = results@.take(done + 1);
        assert(prefix.drop_last() =~= results@.take(done));
        assert(prefix.last() == results@[done]);
        match reversed.pop().unwrap() {
            Ok(value) => {
                values.push(value);
            },
            Err(message) => {
                proof {
                    failure_decides(results@, done + 1);
                }
                return Err(GlobalError::Network { message });
            },
        }
    }
    assert(results@.take(results@.len() as int) =~= results@);
    Ok(values)
}

/// Once a part of the fetches has failed, what follows changes nothing.
pub proof fn failure_decides<T>(results: Seq<Result<T, String>>, upto: int)
    requires
        0 <= upto <= results.len(),
        gathered(results.take(upto)) is Err,
    ensures
        gathered(results) == gathered(results.take(upto)),
    decreases results.len() - upto,
{
    if upto == results.len() {
        assert(results.take(upto) =~= results);
    } else {
        assert(results.take(upto + 1).drop_last() =~= results.take(upto));
        failure_decides(results, upto + 1);
    }
}

/// Every channel stands exactly once among the distinct channels, and nothing
/// else stands there.
pub proof fn distinct_holds_each_channel_once(channels: Seq<Seq<char>>)
    ensures
        distinct(channels).no_duplicates(),
        forall|c: Seq<char>| distinct(channels).contains(c) <==> channels.contains(c),
    decreases channels.len(),
{
    if channels.len() > 0 {
        let rest = channels.drop_last();
        let last = channels.last();
        let before = distinct(rest);
        distinct_holds_each_channel_once(rest);
        assert(channels =~= rest.push(last));
        assert forall|c: Seq<char>| distinct(channels).contains(c) <==> channels.contains(c) by {
            lemma_seq_contains_after_push(before, last, c);
            lemma_seq_contains_after_push(rest, last, c);
        }
        if !before.contains(last) {
            assert forall|i: int, j: int|
                0 <= i < before.len() + 1 && 0 <= j < before.len() + 1 && i != j implies before.push(
                last,
            )[i] != before.push(last)[j] by {
                if i < before.len() {
                    assert(before.contains(before[i]));
                }
                if j < before.len() {
                    assert(before.contains(before[j]));
                }
            }
        }
    }
}

/// The targets of a list of channels are the directories for the platform and
/// the platform-independent directories of those channels, and where no
/// channel stands twice, no target does.
pub proof fn targets_are_exact(channels: Seq<Seq<char>>, platform: Seq<char>)
    ensures
        forall|t: FetchTargetView|
            targets_of(channels, platform).contains(t) <==> channels.contains(t.channel) && (t.platform
                == platform || t.platform == noarch()),
        channels.no_duplicates() ==> targets_of(channels, platform).no_duplicates(),
    decreases channels.len(),
{
    if channels.len() > 0 {
        let rest = channels.drop_last();
        let last = channels.last();
        let before = targets_of(rest, platform);
        let added = targets_of_channel(last, platform);
        targets_are_exact(rest, platform);
        assert(channels =~= rest.push(last));
        assert forall|t: FetchTargetView|
            targets_of(channels, platform).contains(t) <==> channels.contains(t.channel) && (t.platform
                == platform || t.platform == noarch()) by {
            lemma_seq_concat_contains_all_elements(before, added, t);
            lemma_seq_contains_after_push(rest, last, t.channel);
            if added.contains(t) {
                let i = choose|i: int| 0 <= i < added.len() && added[i] == t;
                assert(t.channel == last);
            }
            if t.channel == last && t.platform == platform {
                assert(added[0] == t);
            }
            if t.channel == last && t.platform == noarch() {
                assert(added[added.len() - 1] == t);
            }
        }
        if channels.no_duplicates() {
            assert(rest.no_duplicates());
            assert(added.no_duplicates());
            assert forall|i: int, j: int| 0 <= i < before.len() && 0 <= j < added.len() implies before[i]
                != added[j] by {
                assert(before.contains(before[i]));
                assert(rest.contains(before[i].channel));
                let k = choose|k: int| 0 <= k < rest.len() && rest[k] == before[i].channel;
                assert(channels[k] == rest[k]);
                assert(channels[channels.len() - 1] == last);
            }
            lemma_no_dup_in_concat(before, added);
        }
    }
}

/// The scope of a fetch holds, for every channel that was given, its directory
/// for the platform and its platform-independent directory, each once, and
/// nothing else.
pub proof fn scope_is_exact(channels: Seq<Seq<char>>, platform: Seq<char>)
    ensures
        fetch_scope_spec(channels, platform).no_duplicates(),
        forall|t: FetchTargetView|
            fetch_scope_spec(channels, platform).contains(t) <==> channels.contains(t.channel) && (
            t.platform == platform || t.platform == noarch()),
{
    distinct_holds_each_channel_once(channels);
    targets_are_exact(distinct(channels), platform);
}

/// A fetch succeeds exactly when every part of it did, and then it keeps every
/// part in its place.
pub proof fn gathered_is_all_or_nothing<T>(results: Seq<Result<T, String>>)
    ensures
        gathered(results) is Ok <==> forall|i: int| 0 <= i < results.len() ==> results[i] is Ok,
        gathered(results) matches Ok(values) ==> values.len() == results.len() && forall|i: int|
            0 <= i < results.len() ==> results[i] == Ok::<T, String>(values[i]),
    decreases results.len(),
{
    if results.len() > 0 {
        let rest = results.drop_last();
        gathered_is_all_or_nothing(rest);
        if gathered(results) is Ok {
            let values = gathered(results)->Ok_0;
            let earlier = gathered(rest)->Ok_0;
            assert(values == earlier.push(results.last()->Ok_0));
            assert forall|i: int| 0 <= i < results.len() implies results[i] == Ok::<T, String>(
                values[i],
            ) by {
                if i < rest.len() {
                    assert(rest[i] == results[i]);
                    assert(values[i] == earlier[i]);
                }
            }
        } else if gathered(rest) is Ok {
            assert(!(results[results.len() - 1] is Ok));
        } else {
            let i = choose|i: int| 0 <= i < rest.len() && !(rest[i] is Ok);
            assert(rest[i] == results[i]);
        }
    }
}

} // verus!
