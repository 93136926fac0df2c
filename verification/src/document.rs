//! The document-level pass: entries are normalized in order and the first
//! identifier that two of them share stops the whole operation.

use vstd::prelude::*;
use vstd::string::StringExecFns;
use crate::config::{TargetConfig, TargetEntry, TargetEntryView};
use crate::error::Error;
use crate::identifiers::IdentifierSet;
use crate::normalizer::{
    collision, duplicate_message, entry_outcome, entry_views, identifiers_unique, normalize_entry,
    normalized_entry, normalized_targets, target_views, IdentifierField, RenderTarget,
    RenderTargetView, TargetsDocument,
};

verus! {

/// A failure on a prefix of the entries is the failure of the whole
/// sequence.
pub proof fn failure_of_prefix(entries: Seq<TargetEntryView>, upto: int)
    requires
        0 <= upto <= entries.len(),
        normalized_targets(entries.take(upto)) is Err,
    ensures
        normalized_targets(entries) == normalized_targets(entries.take(upto)),
    decreases entries.len() - upto,
{
    if upto == entries.len() {
        assert(entries.take(upto) == entries);
    } else {
        assert(entries.drop_last().take(upto) == entries.take(upto));
        failure_of_prefix(entries.drop_last(), upto);
    }
}

/// A document that is produced holds one target for each entry, in the order
/// of the entries, each the render target of its entry, and no two of them
/// share an identifier.
pub proof fn document_shape(entries: Seq<TargetEntryView>)
    ensures
        normalized_targets(entries) matches Ok(targets) ==> {
            &&& targets.len() == entries.len()
            &&& forall|k: int|
                0 <= k < entries.len() ==> normalized_entry(#[trigger] entries[k]) == Ok::<
                    RenderTargetView,
                    Seq<char>,
                >(targets[k])
            &&& identifiers_unique(targets)
        },
    decreases entries.len(),
{
    if entries.len() > 0 {
        document_shape(entries.drop_last());
        if let Ok(targets) = normalized_targets(entries) {
            let prior = normalized_targets(entries.drop_last())->Ok_0;
            let target = normalized_entry(entries.last())->Ok_0;
            assert(targets == prior.push(target));
            assert forall|k: int| 0 <= k < entries.len() implies normalized_entry(
                #[trigger] entries[k],
            ) == Ok::<RenderTargetView, Seq<char>>(targets[k]) by {
                if k < entries.len() - 1 {
                    assert(entries[k] == entries.drop_last()[k]);
                }
            }
            unique_after_push(prior, target, IdentifierField::Slug);
            unique_after_push(prior, target, IdentifierField::TargetPath);
            unique_after_push(prior, target, IdentifierField::TempArtifact);
            unique_after_push(prior, target, IdentifierField::BranchName);
        }
    }
}

proof fn unique_after_push(
    prior: Seq<RenderTargetView>,
    target: RenderTargetView,
    field: IdentifierField,
)
    requires
        field.values(prior).no_duplicates(),
        !field.values(prior).contains(field.of(target)),
    ensures
        field.values(prior.push(target)) == field.values(prior).push(field.of(target)),
        field.values(prior.push(target)).no_duplicates(),
{
    assert(field.values(prior.push(target)) =~= field.values(prior).push(field.of(target)));
}

proof fn unique_before_push(targets: Seq<RenderTargetView>, field: IdentifierField)
    requires
        targets.len() > 0,
        field.values(targets).no_duplicates(),
    ensures
        field.values(targets.drop_last()).no_duplicates(),
        !field.values(targets.drop_last()).contains(field.of(targets.last())),
{
    let all = field.values(targets);
    let head = field.values(targets.drop_last());
    assert forall|a: int, b: int| 0 <= a < head.len() && 0 <= b < head.len() && a != b implies head[a]
        != head[b] by {
        assert(head[a] == all[a]);
        assert(head[b] == all[b]);
    }
    if head.contains(field.of(targets.last())) {
        let a = choose|a: int| 0 <= a < head.len() && head[a] == field.of(targets.last());
        assert(all[a] == head[a]);
        assert(all[targets.len() - 1] == field.of(targets.last()));
    }
}

/// Where every entry has a render target and no two of these share a slug,
/// a target path, a temporary artifact or a branch name, the document is
/// produced, and it holds these targets.
pub proof fn distinct_identifiers_succeed(
    entries: Seq<TargetEntryView>,
    targets: Seq<RenderTargetView>,
)
    requires
        targets.len() == entries.len(),
        forall|k: int|
            0 <= k < entries.len() ==> normalized_entry(#[trigger] entries[k]) == Ok::<
                RenderTargetView,
                Seq<char>,
            >(targets[k]),
        identifiers_unique(targets),
    ensures
        normalized_targets(entries) == Ok::<Seq<RenderTargetView>, Seq<char>>(targets),
    decreases entries.len(),
{
    if entries.len() == 0 {
        assert(targets =~= Seq::empty());
    } else {
        let head = entries.drop_last();
        let prior = targets.drop_last();
        assert forall|k: int| 0 <= k < head.len() implies normalized_entry(#[trigger] head[k])
            == Ok::<RenderTargetView, Seq<char>>(prior[k]) by {
            assert(head[k] == entries[k]);
        }
        unique_before_push(targets, IdentifierField::Slug);
        unique_before_push(targets, IdentifierField::TargetPath);
        unique_before_push(targets, IdentifierField::TempArtifact);
        unique_before_push(targets, IdentifierField::BranchName);
        distinct_identifiers_succeed(head, prior);
        assert(normalized_entry(entries[entries.len() - 1]) == Ok::<RenderTargetView, Seq<char>>(
            targets.last(),
        ));
        assert(prior.push(targets.last()) =~= targets);
    }
}

/// A document in which two entries have render targets that share an
/// identifier is rejected.
pub proof fn shared_identifier_fails(
    entries: Seq<TargetEntryView>,
    first: int,
    second: int,
    field: IdentifierField,
)
    requires
        0 <= first < second < entries.len(),
        normalized_entry(entries[first]) is Ok,
        normalized_entry(entries[second]) is Ok,
        field.of(normalized_entry(entries[first])->Ok_0) == field.of(
            normalized_entry(entries[second])->Ok_0,
        ),
    ensures
        normalized_targets(entries) is Err,
{
    document_shape(entries);
    if let Ok(targets) = normalized_targets(entries) {
        let values = field.values(targets);
        assert(values[first] == field.of(targets[first]));
        assert(values[second] == field.of(targets[second]));
        assert(normalized_entry(entries[first]) == Ok::<RenderTargetView, Seq<char>>(
            targets[first],
        ));
        assert(normalized_entry(entries[second]) == Ok::<RenderTargetView, Seq<char>>(
            targets[second],
        ));
    }
}

/// The first collision of a document is the one that its error names. Where
/// the entries up to `at` have the render targets `targets`, no two targets
/// before `at` share an identifier, and `field` is the first identifier, in
/// the order of checks, that the target at `at` shares with a target before
/// it, the document is rejected with `duplicate <field> '<value>'`.
pub proof fn first_collision_is_named(
    entries: Seq<TargetEntryView>,
    targets: Seq<RenderTargetView>,
    at: int,
    field: IdentifierField,
)
    requires
        0 <= at < entries.len(),
        targets.len() == at + 1,
        forall|k: int|
            0 <= k <= at ==> normalized_entry(#[trigger] entries[k]) == Ok::<
                RenderTargetView,
                Seq<char>,
            >(targets[k]),
        identifiers_unique(targets.take(at)),
        field.values(targets.take(at)).contains(field.of(targets[at])),
        forall|earlier: IdentifierField|
            earlier.rank() < field.rank() ==> !(#[trigger] earlier.values(targets.take(at))).contains(
                earlier.of(targets[at]),
            ),
    ensures
        normalized_targets(entries) == Err::<Seq<RenderTargetView>, Seq<char>>(
            duplicate_message(field, field.of(targets[at])),
        ),
{
    let upto = entries.take(at + 1);
    let head = entries.take(at);
    let prior = targets.take(at);
    assert(upto.drop_last() == head);
    assert(upto.last() == entries[at]);
    assert forall|k: int| 0 <= k < head.len() implies normalized_entry(#[trigger] head[k]) == Ok::<
        RenderTargetView,
        Seq<char>,
    >(prior[k]) by {
        assert(head[k] == entries[k]);
    }
    distinct_identifiers_succeed(head, prior);
    assert(IdentifierField::Slug.rank() == 0);
    assert(IdentifierField::TargetPath.rank() == 1);
    assert(IdentifierField::TempArtifact.rank() == 2);
    assert(IdentifierField::BranchName.rank() == 3);
    assert(collision(prior, targets[at]) == Some(field));
    failure_of_prefix(entries, at + 1);
}

/// The slugs of a document are, in order, the slugs of its entries.
pub proof fn order_is_preserved(entries: Seq<TargetEntryView>)
    ensures
        normalized_targets(entries) matches Ok(targets) ==> {
            &&& targets.len() == entries.len()
            &&& forall|k: int|
                0 <= k < entries.len() ==> (#[trigger] entries[k]).resolved_slug() == Some(
                    targets[k].slug,
                )
        },
{
    document_shape(entries);
}

/// Normalizing an entry twice gives the same outcome: two targets that are
/// equal value by value, or two errors with the same message.
pub proof fn normalization_is_deterministic(
    entry: TargetEntryView,
    first: Result<RenderTarget, Error>,
    second: Result<RenderTarget, Error>,
)
    requires
        entry_outcome(first, entry),
        entry_outcome(second, entry),
    ensures
        match (first, second) {
            (Ok(a), Ok(b)) => a@ == b@,
            (Err(a), Err(b)) => exists|message: Seq<char>|
                a.is_validation(message) && b.is_validation(message),
            _ => false,
        },
{
    if let Err(a) = first {
        let message = normalized_entry(entry)->Err_0;
        assert(a.is_validation(message));
    }
}

/// The error for an identifier that two targets share.
fn duplicate_error(field: IdentifierField, value: &str) -> (r: Error)
    ensures
        r.is_validation(duplicate_message(field, value@)),
{
    Error::Validation {
        message: String::from_str("duplicate ").concat(field.label()).concat(" '").concat(
            value,
        ).concat("'"),
    }
}

/// Whether a document result is what [`normalized_targets`] gives.
pub open spec fn document_outcome(
    r: Result<TargetsDocument, Error>,
    entries: Seq<TargetEntryView>,
) -> bool {
    match r {
        Ok(document) => normalized_targets(entries) == Ok::<Seq<RenderTargetView>, Seq<char>>(
            document@,
        ),
        Err(error) => normalized_targets(entries) matches Err(message) && error.is_validation(
            message,
        ),
    }
}

/// Normalizes raw configuration entries into a document. Entries are taken
/// in order; the first entry that violates a rule, or that shares a slug, a
/// target path, a temporary artifact or a branch name with an entry before
/// it, stops the operation with its error. A document that is returned holds
/// the render target of each entry, in the order of the entries.
pub fn normalize_targets(entries: &[TargetEntry]) -> (r: Result<TargetsDocument, Error>)
    ensures
        document_outcome(r, entry_views(entries@)),
        r matches Ok(document) ==> {
            &&& document@.len() == entries@.len()
            &&& identifiers_unique(document@)
            &&& forall|k: int|
                0 <= k < entries@.len() ==> normalized_entry(#[trigger] entries@[k]@) == Ok::<
                    RenderTargetView,
                    Seq<char>,
                >(document@[k])
        },
{
    let ghost views = entry_views(entries@);
    let mut normalized: Vec<RenderTarget> = Vec::new();
    let mut seen_slugs = IdentifierSet::new();
    let mut seen_paths = IdentifierSet::new();
    let mut seen_temp = IdentifierSet::new();
    let mut seen_branches = IdentifierSet::new();
    let mut at: usize = 0;
    assert(views.take(0) =~= Seq::empty());
    assert(target_views(normalized@) =~= Seq::empty());
    while at < entries.len()
        invariant
            at <= entries.len(),
            views == entry_views(entries@),
            normalized_targets(views.take(at as int)) == Ok::<Seq<RenderTargetView>, Seq<char>>(
                target_views(normalized@),
            ),
            seen_slugs.wf(),
            seen_paths.wf(),
            seen_temp.wf(),
            seen_branches.wf(),
            seen_slugs@ == IdentifierField::Slug.values(target_views(normalized@)),
            seen_paths@ == IdentifierField::TargetPath.values(target_views(normalized@)),
            seen_temp@ == IdentifierField::TempArtifact.values(target_views(normalized@)),
            seen_branches@ == IdentifierField::BranchName.values(target_views(normalized@)),
        decreases entries.len() - at,
    {
        let ghost prior = target_views(normalized@);
        proof {
            let upto = views.take(at + 1);
            assert(upto.drop_last() == views.take(at as int));
            assert(upto.last() == entries@[at as int]@);
        }
        let target = match normalize_entry(&entries[at]) {
            Ok(target) => target,
            Err(error) => {
                proof {
                    failure_of_prefix(views, at + 1);
                }
                return Err(error);
            },
        };
        if !seen_slugs.insert(target.slug.clone()) {
            proof {
                failure_of_prefix(views, at + 1);
            }
            return Err(duplicate_error(IdentifierField::Slug, target.slug.as_str()));
        }
        if !seen_paths.insert(target.target_path.clone()) {
            proof {
                failure_of_prefix(views, at + 1);
            }
            return Err(duplicate_error(IdentifierField::TargetPath, target.target_path.as_str()));
        }
        if !seen_temp.insert(target.temp_artifact.clone()) {
            proof {
                failure_of_prefix(views, at + 1);
            }
            return Err(
                duplicate_error(IdentifierField::TempArtifact, target.temp_artifact.as_str()),
            );
        }
        if !seen_branches.insert(target.branch_name.clone()) {
            proof {
                failure_of_prefix(views, at + 1);
            }
            return Err(duplicate_error(IdentifierField::BranchName, target.branch_name.as_str()));
        }
        proof {
            unique_after_push(prior, target@, IdentifierField::Slug);
            unique_after_push(prior, target@, IdentifierField::TargetPath);
            unique_after_push(prior, target@, IdentifierField::TempArtifact);
            unique_after_push(prior, target@, IdentifierField::BranchName);
            assert(target_views(normalized@.push(target)) =~= prior.push(target@));
        }
        normalized.push(target);
        at += 1;
    }
    proof {
        assert(views.take(at as int) == views);
        document_shape(views);
        assert forall|k: int| 0 <= k < entries@.len() implies normalized_entry(
            #[trigger] entries@[k]@,
        ) == Ok::<RenderTargetView, Seq<char>>(target_views(normalized@)[k]) by {
            assert(views[k] == entries@[k]@);
        }
    }
    Ok(TargetsDocument { targets: normalized })
}

/// Normalizes the entries of a decoded configuration. A configuration
/// without targets is rejected.
pub fn normalize_config(config: &TargetConfig) -> (r: Result<TargetsDocument, Error>)
    ensures
        config.targets@.len() == 0 ==> (r matches Err(error) && error.is_validation(
            "configuration must include at least one target"@,
        )),
        config.targets@.len() > 0 ==> document_outcome(r, entry_views(config.targets@)),
{
    if config.targets.len() == 0 {
        return Err(Error::validation("configuration must include at least one target"));
    }
    normalize_targets(config.targets.as_slice())
}

} // verus!
