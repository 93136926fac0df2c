//! Synchronization of a configuration with discovered repositories: every
//! repository that the configuration does not name yet becomes an
//! open-source entry, and the entries are then put in order.

use vstd::prelude::*;
use vstd::string::StringExecFns;
use crate::config::{TargetConfig, TargetEntry, TargetEntryView, TargetKind};
use crate::discover::{repository_keys, DiscoveredRepository};
use crate::normalizer::entry_views;
use crate::text::{
    decimal, decimal_text, key_before, key_lt, key_lt_irreflexive, key_lt_total, key_lt_transitive,
    text_eq,
};

verus! {

/// The owner and the repository of an entry.
pub open spec fn entry_key(entry: TargetEntryView) -> (Seq<char>, Option<Seq<char>>) {
    (entry.owner, entry.repository)
}

/// The entry made for a discovered repository: an open-source target
/// without overrides.
pub open spec fn discovered_entry(key: (Seq<char>, Option<Seq<char>>)) -> TargetEntryView {
    TargetEntryView {
        owner: key.0,
        repository: key.1,
        target_type: TargetKind::OpenSource,
        slug: None,
        branch_name: None,
        contributors_branch: None,
        target_path: None,
        temp_artifact: None,
        time_zone: None,
        display_name: None,
        include_private: None,
        badge: None,
    }
}

/// Whether one of the entries has the given owner and repository.
pub open spec fn is_known(existing: Seq<TargetEntryView>, key: (Seq<char>, Option<Seq<char>>)) -> bool {
    exists|k: int| 0 <= k < existing.len() && entry_key(#[trigger] existing[k]) == key
}

/// The entries made for the discovered repositories that the existing
/// entries do not name, in the order of discovery.
pub open spec fn fresh_entries(
    existing: Seq<TargetEntryView>,
    discovered: Seq<(Seq<char>, Option<Seq<char>>)>,
) -> Seq<TargetEntryView>
    decreases discovered.len(),
{
    if discovered.len() == 0 {
        Seq::empty()
    } else if is_known(existing, discovered.last()) {
        fresh_entries(existing, discovered.drop_last())
    } else {
        fresh_entries(existing, discovered.drop_last()).push(discovered_entry(discovered.last()))
    }
}

/// `sorted` with `entry` put before the first entry whose key does not come
/// before its own.
pub open spec fn placed(entry: TargetEntryView, sorted: Seq<TargetEntryView>) -> Seq<
    TargetEntryView,
>
    decreases sorted.len(),
{
    if sorted.len() == 0 {
        seq![entry]
    } else if key_lt(entry_key(sorted[0]), entry_key(entry)) {
        seq![sorted[0]] + placed(entry, sorted.drop_first())
    } else {
        seq![entry] + sorted
    }
}

/// The entries by owner and then by repository, an entry without repository
/// before the repositories of its owner; entries with the same owner and
/// repository keep their order.
pub open spec fn stably_sorted(entries: Seq<TargetEntryView>) -> Seq<TargetEntryView>
    decreases entries.len(),
{
    if entries.len() == 0 {
        Seq::empty()
    } else {
        placed(entries[0], stably_sorted(entries.drop_first()))
    }
}

/// The entries of a configuration after the synchronization: unchanged
/// where every discovered repository is named already, else the existing
/// entries and the new ones, in order.
pub open spec fn merged_targets(
    existing: Seq<TargetEntryView>,
    discovered: Seq<(Seq<char>, Option<Seq<char>>)>,
) -> Seq<TargetEntryView> {
    if fresh_entries(existing, discovered).len() == 0 {
        existing
    } else {
        stably_sorted(existing + fresh_entries(existing, discovered))
    }
}

/// No entry has a key that comes before the key of an entry before it.
pub open spec fn in_order(entries: Seq<TargetEntryView>) -> bool {
    forall|i: int, j: int|
        0 <= i < j < entries.len() ==> !key_lt(entry_key(entries[j]), entry_key(entries[i]))
}

proof fn placed_keeps_order(entry: TargetEntryView, sorted: Seq<TargetEntryView>)
    requires
        in_order(sorted),
    ensures
        in_order(placed(entry, sorted)),
        placed(entry, sorted).len() == sorted.len() + 1,
        forall|k: int|
            0 <= k < sorted.len() + 1 ==> (#[trigger] placed(entry, sorted)[k] == entry || exists|
                i: int,
            |
                0 <= i < sorted.len() && sorted[i] == placed(entry, sorted)[k]),
    decreases sorted.len(),
{
    let out = placed(entry, sorted);
    if sorted.len() == 0 {
    } else if key_lt(entry_key(sorted[0]), entry_key(entry)) {
        let tail = sorted.drop_first();
        assert forall|i: int, j: int| 0 <= i < j < tail.len() implies !key_lt(
            entry_key(tail[j]),
            entry_key(tail[i]),
        ) by {
            assert(tail[i] == sorted[i + 1]);
            assert(tail[j] == sorted[j + 1]);
        }
        placed_keeps_order(entry, tail);
        let inner = placed(entry, tail);
        assert(out == seq![sorted[0]] + inner);
        assert forall|k: int| 0 <= k < sorted.len() + 1 implies (#[trigger] out[k] == entry
            || exists|i: int| 0 <= i < sorted.len() && sorted[i] == out[k]) by {
            if k == 0 {
                assert(sorted[0] == out[0]);
            } else {
                assert(out[k] == inner[k - 1]);
                if inner[k - 1] != entry {
                    let i = choose|i: int| 0 <= i < tail.len() && tail[i] == inner[k - 1];
                    assert(sorted[i + 1] == out[k]);
                }
            }
        }
        assert forall|i: int, j: int| 0 <= i < j < out.len() implies !key_lt(
            entry_key(out[j]),
            entry_key(out[i]),
        ) by {
            if i == 0 {
                assert(out[j] == inner[j - 1]);
                if inner[j - 1] == entry {
                    if key_lt(entry_key(entry), entry_key(sorted[0])) {
                        key_lt_transitive(
                            entry_key(entry),
                            entry_key(sorted[0]),
                            entry_key(entry),
                        );
                        key_lt_irreflexive(entry_key(entry));
                    }
                } else {
                    let at = choose|at: int| 0 <= at < tail.len() && tail[at] == inner[j - 1];
                    assert(tail[at] == sorted[at + 1]);
                }
            } else {
                assert(out[i] == inner[i - 1]);
                assert(out[j] == inner[j - 1]);
            }
        }
    } else {
        assert(out == seq![entry] + sorted);
        assert forall|k: int| 0 <= k < sorted.len() + 1 implies (#[trigger] out[k] == entry
            || exists|i: int| 0 <= i < sorted.len() && sorted[i] == out[k]) by {
            if k > 0 {
                assert(sorted[k - 1] == out[k]);
            }
        }
        assert forall|i: int, j: int| 0 <= i < j < out.len() implies !key_lt(
            entry_key(out[j]),
            entry_key(out[i]),
        ) by {
            assert(out[j] == sorted[j - 1]);
            if i == 0 {
                if j > 1 {
                    if key_lt(entry_key(sorted[j - 1]), entry_key(entry)) {
                        key_lt_total(entry_key(sorted[0]), entry_key(entry));
                        if entry_key(sorted[0]) != entry_key(entry) {
                            key_lt_transitive(
                                entry_key(sorted[j - 1]),
                                entry_key(entry),
                                entry_key(sorted[0]),
                            );
                        }
                    }
                }
            } else {
                assert(out[i] == sorted[i - 1]);
            }
        }
    }
}

/// The sorted entries are in order.
pub proof fn stably_sorted_is_in_order(entries: Seq<TargetEntryView>)
    ensures
        in_order(stably_sorted(entries)),
        stably_sorted(entries).len() == entries.len(),
    decreases entries.len(),
{
    if entries.len() > 0 {
        stably_sorted_is_in_order(entries.drop_first());
        placed_keeps_order(entries[0], stably_sorted(entries.drop_first()));
    }
}

proof fn placed_keeps_entries(entry: TargetEntryView, sorted: Seq<TargetEntryView>)
    ensures
        placed(entry, sorted).to_multiset() == sorted.push(entry).to_multiset(),
    decreases sorted.len(),
{
    if sorted.len() == 0 {
        assert(placed(entry, sorted) == sorted.push(entry));
    } else if key_lt(entry_key(sorted[0]), entry_key(entry)) {
        let tail = sorted.drop_first();
        placed_keeps_entries(entry, tail);
        vstd::seq_lib::lemma_multiset_commutative(seq![sorted[0]], placed(entry, tail));
        vstd::seq_lib::lemma_multiset_commutative(seq![sorted[0]], tail.push(entry));
        assert(seq![sorted[0]] + tail.push(entry) == sorted.push(entry));
    } else {
        vstd::seq_lib::lemma_seq_union_to_multiset_commutative(seq![entry], sorted);
        assert(sorted + seq![entry] == sorted.push(entry));
    }
}

/// The sorted entries are the entries given, each as often as it was given.
pub proof fn stably_sorted_keeps_entries(entries: Seq<TargetEntryView>)
    ensures
        stably_sorted(entries).to_multiset() == entries.to_multiset(),
    decreases entries.len(),
{
    if entries.len() == 0 {
        assert(stably_sorted(entries) == entries);
    } else {
        let tail = entries.drop_first();
        let first = entries[0];
        stably_sorted_keeps_entries(tail);
        placed_keeps_entries(first, stably_sorted(tail));
        vstd::seq_lib::to_multiset_build(stably_sorted(tail), first);
        vstd::seq_lib::to_multiset_build(tail, first);
        vstd::seq_lib::lemma_seq_union_to_multiset_commutative(seq![first], tail);
        assert(tail + seq![first] == tail.push(first));
        assert(seq![first] + tail == entries);
    }
}

/// The repository of an entry as a borrowed text.
fn repository_of(entry: &TargetEntry) -> (r: Option<&str>)
    ensures
        match r {
            Some(text) => entry@.repository == Some(text@),
            None => entry@.repository is None,
        },
{
    match &entry.repository {
        Some(name) => Some(name.as_str()),
        None => None,
    }
}

/// Whether one of the entries names the repository.
fn names_repository(entries: &Vec<TargetEntry>, repository: &DiscoveredRepository) -> (r: bool)
    ensures
        r == is_known(entry_views(entries@), (repository.owner@, Some(repository.repository@))),
{
    let ghost views = entry_views(entries@);
    let ghost key = (repository.owner@, Some(repository.repository@));
    let mut at: usize = 0;
    while at < entries.len()
        invariant
            at <= entries.len(),
            views == entry_views(entries@),
            key == (repository.owner@, Some(repository.repository@)),
            forall|k: int| 0 <= k < at ==> entry_key(#[trigger] views[k]) != key,
        decreases entries.len() - at,
    {
        assert(views[at as int] == entries@[at as int]@);
        let entry = &entries[at];
        let same_repository = match repository_of(entry) {
            Some(name) => text_eq(name, repository.repository.as_str()),
            None => false,
        };
        let same_owner = text_eq(entry.owner.as_str(), repository.owner.as_str());
        if same_repository && same_owner {
            assert(entry_key(views[at as int]) == key);
            return true;
        }
        at += 1;
    }
    false
}

/// Puts an entry before the first entry whose key does not come before its
/// own.
fn place(sorted: &mut Vec<TargetEntry>, entry: TargetEntry)
    ensures
        entry_views(final(sorted)@) == placed(entry@, entry_views(old(sorted)@)),
{
    let ghost before = entry_views(sorted@);
    let mut at: usize = 0;
    assert(before.skip(0) == before);
    assert(before.take(0) + placed(entry@, before) == placed(entry@, before));
    while at < sorted.len() && key_before(
        sorted[at].owner.as_str(),
        repository_of(&sorted[at]),
        entry.owner.as_str(),
        repository_of(&entry),
    )
        invariant
            at <= sorted.len(),
            sorted@ == old(sorted)@,
            before == entry_views(sorted@),
            placed(entry@, before) == before.take(at as int) + placed(
                entry@,
                before.skip(at as int),
            ),
        decreases sorted.len() - at,
    {
        proof {
            let rest = before.skip(at as int);
            assert(rest[0] == sorted@[at as int]@);
            assert(rest.drop_first() == before.skip(at as int + 1));
            assert(before.take(at as int) + (seq![rest[0]] + placed(entry@, rest.drop_first()))
                == before.take(at as int + 1) + placed(entry@, before.skip(at as int + 1)));
        }
        at += 1;
    }
    proof {
        let rest = before.skip(at as int);
        if at < sorted.len() {
            assert(rest[0] == sorted@[at as int]@);
        }
        assert(placed(entry@, rest) == seq![entry@] + rest);
    }
    sorted.insert(at, entry);
    assert(entry_views(sorted@) == before.take(at as int) + (seq![entry@] + before.skip(
        at as int,
    )));
}

/// Adds the discovered repositories that the configuration does not name
/// yet, as open-source entries, and puts the entries in order where any was
/// added. Returns the number of entries added.
pub fn merge_discovered_targets(config: &mut TargetConfig, discovered: &[DiscoveredRepository]) -> (added:
    usize)
    ensures
        entry_views(final(config).targets@) == merged_targets(
            entry_views(old(config).targets@),
            repository_keys(discovered@),
        ),
        added == fresh_entries(
            entry_views(old(config).targets@),
            repository_keys(discovered@),
        ).len(),
        added > 0 ==> in_order(entry_views(final(config).targets@)),
{
    let ghost existing = entry_views(config.targets@);
    let ghost keys = repository_keys(discovered@);
    let mut fresh: Vec<TargetEntry> = Vec::new();
    let mut at: usize = 0;
    assert(keys.take(0) == Seq::<(Seq<char>, Option<Seq<char>>)>::empty());
    assert(entry_views(fresh@) == Seq::<TargetEntryView>::empty());
    while at < discovered.len()
        invariant
            at <= discovered.len(),
            config.targets@ == old(config).targets@,
            existing == entry_views(config.targets@),
            keys == repository_keys(discovered@),
            entry_views(fresh@) == fresh_entries(existing, keys.take(at as int)),
            fresh@.len() <= at,
        decreases discovered.len() - at,
    {
        proof {
            let upto = keys.take(at as int + 1);
            assert(upto.drop_last() == keys.take(at as int));
            assert(upto.last() == (
                discovered@[at as int].owner@,
                Some(discovered@[at as int].repository@),
            ));
        }
        if !names_repository(&config.targets, &discovered[at]) {
            let ghost before = entry_views(fresh@);
            let entry = TargetEntry {
                owner: discovered[at].owner.clone(),
                repository: Some(discovered[at].repository.clone()),
                target_type: TargetKind::OpenSource,
                slug: None,
                branch_name: None,
                contributors_branch: None,
                target_path: None,
                temp_artifact: None,
                time_zone: None,
                display_name: None,
                include_private: None,
                badge: None,
            };
            fresh.push(entry);
            assert(entry_views(fresh@) == before.push(
                discovered_entry(
                    (discovered@[at as int].owner@, Some(discovered@[at as int].repository@)),
                ),
            ));
        }
        at += 1;
    }
    assert(keys.take(discovered.len() as int) == keys);
    let added = fresh.len();
    if added == 0 {
        return 0;
    }
    let ghost all = existing + entry_views(fresh@);
    let ghost news = entry_views(fresh@);
    let mut sorted: Vec<TargetEntry> = Vec::new();
    assert(all.skip(all.len() as int) == Seq::<TargetEntryView>::empty());
    assert(entry_views(sorted@) == Seq::<TargetEntryView>::empty());
    while fresh.len() > 0
        invariant
            config.targets@ == old(config).targets@,
            existing == entry_views(config.targets@),
            all == existing + news,
            entry_views(fresh@) == news.take(fresh@.len() as int),
            fresh@.len() <= news.len(),
            entry_views(sorted@) == stably_sorted(
                all.skip(existing.len() as int + fresh@.len() as int),
            ),
        decreases fresh.len(),
    {
        let ghost held = entry_views(fresh@);
        let ghost count = fresh@.len() as int;
        let entry = fresh.pop().unwrap();
        proof {
            assert(entry@ == held[count - 1]);
            assert(held[count - 1] == news[count - 1]);
            assert(all[existing.len() + count - 1] == news[count - 1]);
            let rest = all.skip(existing.len() + count - 1);
            assert(rest[0] == entry@);
            assert(rest.drop_first() == all.skip(existing.len() + count));
            assert(entry_views(fresh@) == news.take(count - 1));
        }
        place(&mut sorted, entry);
    }
    while config.targets.len() > 0
        invariant
            entry_views(config.targets@) == existing.take(config.targets@.len() as int),
            config.targets@.len() <= existing.len(),
            all == existing + news,
            entry_views(sorted@) == stably_sorted(all.skip(config.targets@.len() as int)),
        decreases config.targets.len(),
    {
        let ghost held = entry_views(config.targets@);
        let ghost count = config.targets@.len() as int;
        let entry = config.targets.pop().unwrap();
        proof {
            assert(entry@ == held[count - 1]);
            assert(held[count - 1] == existing[count - 1]);
            assert(all[count - 1] == existing[count - 1]);
            let rest = all.skip(count - 1);
            assert(rest[0] == entry@);
            assert(rest.drop_first() == all.skip(count));
            assert(entry_views(config.targets@) == existing.take(count - 1));
        }
        place(&mut sorted, entry);
    }
    proof {
        assert(all.skip(0) == all);
        stably_sorted_is_in_order(all);
    }
    config.targets = sorted;
    added
}

/// The line that reports a synchronization.
pub open spec fn sync_report(added: usize, config_path: Seq<char>) -> Seq<char> {
    "Synced "@ + decimal(added as nat) + " new repositories to "@ + config_path
}

/// Builds the line that reports a synchronization.
pub fn sync_summary(added: usize, config_path: &str) -> (r: String)
    ensures
        r@ == sync_report(added, config_path@),
{
    String::from_str("Synced ").concat(decimal_text(added as u64).as_str()).concat(
        " new repositories to ",
    ).concat(config_path)
}

} // verus!
