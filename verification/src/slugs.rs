//! Detection of the slugs whose badges a change touches: the slugs named by
//! the `metrics/<slug>.svg` paths of a diff, each once, in the order of
//! texts.

use vstd::prelude::*;
use vstd::string::StringExecFns;
use crate::error::Error;
use crate::text::{
    borrowed_view, text_before, text_eq, text_lt, text_lt_irreflexive, text_lt_total,
    text_lt_transitive, text_views,
};

verus! {

/// Result of slug detection containing the list of impacted slugs.
#[derive(Debug, Clone)]
pub struct SlugDetectionResult {
    /// List of slugs that need regeneration.
    pub slugs: Vec<String>,
    /// Whether any slugs were detected.
    pub has_any: bool,
}

/// The views of a sequence of optional texts.
pub open spec fn capture_views(all: Seq<Option<String>>) -> Seq<Option<Seq<char>>> {
    Seq::new(
        all.len(),
        |k: int|
            match all[k] {
                Some(text) => Some(text@),
                None => None,
            },
    )
}

/// The pattern of the path of a published badge, with the slug as its first
/// group.
pub open spec fn badge_path_pattern() -> Seq<char> {
    "metrics/([A-Za-z0-9_.-]+)\\.svg"@
}

/// What the first group of `pattern` holds in each successive match of the
/// pattern in `text`, or the message of the error where the pattern does not
/// compile.
pub uninterp spec fn first_group_captures(pattern: Seq<char>, text: Seq<char>) -> Result<
    Seq<Option<Seq<char>>>,
    Seq<char>,
>;

/// `regex::Regex::new` followed by `Regex::captures_iter`: for each
/// successive non-overlapping match of the pattern in the text, the text of
/// its first capture group, none where the group took no part in the match.
/// Where the pattern does not compile, the `Display` text of the error.
#[verifier::external_body]
fn first_groups(pattern: &str, text: &str) -> (r: Result<Vec<Option<String>>, String>)
    ensures
        match r {
            Ok(groups) => first_group_captures(pattern@, text@) == Ok::<
                Seq<Option<Seq<char>>>,
                Seq<char>,
            >(capture_views(groups@)),
            Err(message) => first_group_captures(pattern@, text@) == Err::<
                Seq<Option<Seq<char>>>,
                Seq<char>,
            >(message@),
        },
{
    match regex::Regex::new(pattern) {
        Ok(compiled) => Ok(
            compiled.captures_iter(text).map(
                |found| found.get(1).map(|group| group.as_str().to_string()),
            ).collect(),
        ),
        Err(error) => Err(error.to_string()),
    }
}

/// Each text comes before the texts after it.
pub open spec fn strictly_ascending(all: Seq<Seq<char>>) -> bool {
    forall|i: int, j: int| 0 <= i < j < all.len() ==> text_lt(all[i], all[j])
}

/// Whether `slugs` holds exactly the texts captured, each once, in the order
/// of texts.
pub open spec fn is_slug_index(slugs: Seq<Seq<char>>, captures: Seq<Option<Seq<char>>>) -> bool {
    &&& strictly_ascending(slugs)
    &&& forall|k: int| 0 <= k < slugs.len() ==> captures.contains(Some(#[trigger] slugs[k]))
    &&& forall|k: int|
        0 <= k < captures.len() && (#[trigger] captures[k]) is Some ==> slugs.contains(
            captures[k]->0,
        )
}

/// Two sequences in strictly ascending order that hold the same texts are
/// equal: the slugs of a set of captures are determined.
pub proof fn slug_index_is_unique(
    first: Seq<Seq<char>>,
    second: Seq<Seq<char>>,
    captures: Seq<Option<Seq<char>>>,
)
    requires
        is_slug_index(first, captures),
        is_slug_index(second, captures),
    ensures
        first == second,
    decreases first.len(),
{
    if first.len() == 0 {
        if second.len() > 0 {
            let at = choose|k: int| 0 <= k < captures.len() && captures[k] == Some(second[0]);
            assert(first.contains(captures[at]->0));
        }
        assert(first =~= second);
    } else {
        if second.len() == 0 {
            let at = choose|k: int| 0 <= k < captures.len() && captures[k] == Some(first[0]);
            assert(second.contains(captures[at]->0));
        }
        let a = first.last();
        let b = second.last();
        // the greatest text of each is in the other, so they are the same
        let ka = choose|k: int| 0 <= k < captures.len() && captures[k] == Some(a);
        assert(second.contains(captures[ka]->0));
        let ia = choose|i: int| 0 <= i < second.len() && second[i] == a;
        let kb = choose|k: int| 0 <= k < captures.len() && captures[k] == Some(b);
        assert(first.contains(captures[kb]->0));
        let ib = choose|i: int| 0 <= i < first.len() && first[i] == b;
        text_lt_irreflexive(a);
        text_lt_irreflexive(b);
        if ia < second.len() - 1 {
            assert(text_lt(second[ia], second[second.len() - 1]));
            if ib < first.len() - 1 {
                assert(text_lt(first[ib], first[first.len() - 1]));
                text_lt_transitive(a, b, a);
            }
        }
        assert(a == b);
        let rest: Seq<Option<Seq<char>>> = Seq::new(
            captures.len(),
            |k: int|
                if captures[k] == Some(a) {
                    None
                } else {
                    captures[k]
                },
        );
        let head_first = first.drop_last();
        let head_second = second.drop_last();
        assert(is_slug_index(head_first, rest)) by {
            without_greatest(first, captures, rest);
        }
        assert(is_slug_index(head_second, rest)) by {
            without_greatest(second, captures, rest);
        }
        slug_index_is_unique(head_first, head_second, rest);
        assert(first =~= head_first.push(a));
        assert(second =~= head_second.push(b));
    }
}

proof fn without_greatest(
    slugs: Seq<Seq<char>>,
    captures: Seq<Option<Seq<char>>>,
    rest: Seq<Option<Seq<char>>>,
)
    requires
        slugs.len() > 0,
        is_slug_index(slugs, captures),
        rest.len() == captures.len(),
        forall|k: int|
            0 <= k < captures.len() ==> #[trigger] rest[k] == if captures[k] == Some(slugs.last()) {
                None
            } else {
                captures[k]
            },
    ensures
        is_slug_index(slugs.drop_last(), rest),
{
    let head = slugs.drop_last();
    let top = slugs.last();
    text_lt_irreflexive(top);
    assert forall|i: int, j: int| 0 <= i < j < head.len() implies text_lt(head[i], head[j]) by {
        assert(head[i] == slugs[i]);
        assert(head[j] == slugs[j]);
    }
    assert forall|k: int| 0 <= k < head.len() implies rest.contains(Some(#[trigger] head[k])) by {
        assert(head[k] == slugs[k]);
        assert(text_lt(slugs[k], slugs[slugs.len() - 1]));
        let at = choose|at: int| 0 <= at < captures.len() && captures[at] == Some(slugs[k]);
        assert(rest[at] == Some(head[k]));
    }
    assert forall|k: int| 0 <= k < rest.len() && (#[trigger] rest[k]) is Some implies head.contains(
        rest[k]->0,
    ) by {
        assert(captures[k] == rest[k]);
        assert(slugs.contains(captures[k]->0));
        let i = choose|i: int| 0 <= i < slugs.len() && slugs[i] == captures[k]->0;
        assert(i < slugs.len() - 1);
        assert(head[i] == slugs[i]);
    }
}

/// Adds a slug to a list in strictly ascending order, unless the list holds
/// it already.
fn insert_slug(slugs: &mut Vec<String>, slug: String)
    requires
        strictly_ascending(text_views(old(slugs)@)),
    ensures
        strictly_ascending(text_views(final(slugs)@)),
        text_views(final(slugs)@).contains(slug@),
        forall|text: Seq<char>|
            text_views(final(slugs)@).contains(text) <==> (text == slug@ || text_views(
                old(slugs)@,
            ).contains(text)),
{
    let ghost before = text_views(slugs@);
    let mut at: usize = 0;
    while at < slugs.len() && text_before(slugs[at].as_str(), slug.as_str())
        invariant
            at <= slugs.len(),
            slugs@ == old(slugs)@,
            before == text_views(slugs@),
            forall|k: int| 0 <= k < at ==> text_lt(#[trigger] before[k], slug@),
        decreases slugs.len() - at,
    {
        assert(before[at as int] == slugs@[at as int]@);
        at += 1;
    }
    if at < slugs.len() {
        assert(before[at as int] == slugs@[at as int]@);
        if text_eq(slugs[at].as_str(), slug.as_str()) {
            assert(before.contains(slug@));
            return ;
        }
    }
    proof {
        if at < slugs.len() {
            text_lt_total(before[at as int], slug@);
            assert forall|j: int| at <= j < before.len() implies text_lt(slug@, #[trigger] before[j]) by {
                if j > at {
                    assert(text_lt(before[at as int], before[j]));
                    text_lt_transitive(slug@, before[at as int], before[j]);
                }
            }
        }
    }
    slugs.insert(at, slug);
    proof {
        let after = text_views(slugs@);
        assert(after == before.insert(at as int, slug@));
        assert(after[at as int] == slug@);
        assert forall|i: int, j: int| 0 <= i < j < after.len() implies text_lt(after[i], after[j]) by {
            if j < at {
                assert(text_lt(before[i], before[j]));
            } else if j == at {
            } else if i < at {
                text_lt_transitive(before[i], slug@, before[j - 1]);
            } else if i == at {
            } else {
                assert(text_lt(before[i - 1], before[j - 1]));
            }
        }
        assert forall|text: Seq<char>| after.contains(text) <==> (text == slug@ || before.contains(
            text,
        )) by {
            if after.contains(text) {
                let k = choose|k: int| 0 <= k < after.len() && after[k] == text;
                if k < at {
                    assert(before[k] == text);
                } else if k > at {
                    assert(before[k - 1] == text);
                }
            }
            if before.contains(text) {
                let k = choose|k: int| 0 <= k < before.len() && before[k] == text;
                if k < at {
                    assert(after[k] == text);
                } else {
                    assert(after[k + 1] == text);
                }
            }
        }
    }
}

/// Collects the slugs of the captures of a diff: each slug once, in the
/// order of texts.
pub fn index_slugs(captures: Vec<Option<String>>) -> (r: SlugDetectionResult)
    ensures
        is_slug_index(text_views(r.slugs@), capture_views(captures@)),
        r.has_any == (r.slugs@.len() > 0),
{
    let ghost all = capture_views(captures@);
    let mut slugs: Vec<String> = Vec::new();
    let mut at: usize = 0;
    while at < captures.len()
        invariant
            at <= captures.len(),
            all == capture_views(captures@),
            strictly_ascending(text_views(slugs@)),
            forall|k: int|
                0 <= k < slugs@.len() ==> all.take(at as int).contains(
                    Some(#[trigger] text_views(slugs@)[k]),
                ),
            forall|k: int|
                0 <= k < at && (#[trigger] all[k]) is Some ==> text_views(slugs@).contains(
                    all[k]->0,
                ),
        decreases captures.len() - at,
    {
        let ghost held = text_views(slugs@);
        let ghost upto = all.take(at as int);
        let ghost next = all.take(at as int + 1);
        assert forall|k: int| 0 <= k < held.len() implies next.contains(Some(#[trigger] held[k])) by {
            let j = choose|j: int| 0 <= j < upto.len() && upto[j] == Some(held[k]);
            assert(next[j] == Some(held[k]));
        }
        if let Some(slug) = &captures[at] {
            insert_slug(&mut slugs, slug.clone());
            proof {
                let grown = text_views(slugs@);
                assert(all[at as int] == Some(slug@));
                assert(next[at as int] == Some(slug@));
                assert forall|k: int| 0 <= k < grown.len() implies next.contains(
                    Some(#[trigger] grown[k]),
                ) by {
                    assert(grown.contains(grown[k]));
                    if grown[k] != slug@ {
                        assert(held.contains(grown[k]));
                        let i = choose|i: int| 0 <= i < held.len() && held[i] == grown[k];
                        assert(next.contains(Some(held[i])));
                    }
                }
                assert forall|k: int| 0 <= k < at + 1 && (#[trigger] all[k]) is Some implies grown.contains(
                    all[k]->0,
                ) by {
                    if k < at {
                        assert(held.contains(all[k]->0));
                    }
                }
            }
        }
        at += 1;
    }
    assert(all.take(captures.len() as int) == all);
    let has_any = slugs.len() > 0;
    SlugDetectionResult { slugs, has_any }
}

/// Whether a result is what the captures of a text give: the slugs of the
/// captures, or a validation error where the pattern did not compile.
pub open spec fn detection_outcome(r: Result<SlugDetectionResult, Error>, text: Seq<char>) -> bool {
    match r {
        Ok(found) => first_group_captures(badge_path_pattern(), text) matches Ok(captures)
            && is_slug_index(text_views(found.slugs@), captures) && found.has_any == (
        found.slugs@.len() > 0),
        Err(error) => first_group_captures(badge_path_pattern(), text) matches Err(message)
            && error.is_validation("invalid regex: "@ + message),
    }
}

/// Finds the slugs that the text of a diff names: the slug of every
/// `metrics/<slug>.svg` path in it, each once, in the order of texts.
pub fn impacted_slugs(diff_text: &str) -> (r: Result<SlugDetectionResult, Error>)
    ensures
        detection_outcome(r, diff_text@),
{
    match first_groups("metrics/([A-Za-z0-9_.-]+)\\.svg", diff_text) {
        Ok(captures) => Ok(index_slugs(captures)),
        Err(message) => Err(
            Error::Validation {
                message: String::from_str("invalid regex: ").concat(message.as_str()),
            },
        ),
    }
}

/// The result that names every slug.
pub fn every_slug(all_slugs: &[String]) -> (r: SlugDetectionResult)
    ensures
        text_views(r.slugs@) == text_views(all_slugs@),
        r.has_any == (all_slugs@.len() > 0),
{
    let mut slugs: Vec<String> = Vec::new();
    let mut at: usize = 0;
    while at < all_slugs.len()
        invariant
            at <= all_slugs.len(),
            slugs@.len() == at,
            forall|k: int| 0 <= k < at ==> (#[trigger] slugs@[k])@ == all_slugs@[k]@,
        decreases all_slugs.len() - at,
    {
        slugs.push(all_slugs[at].clone());
        at += 1;
    }
    assert(text_views(slugs@) =~= text_views(all_slugs@));
    let has_any = all_slugs.len() > 0;
    SlugDetectionResult { slugs, has_any }
}

/// The result that names no slug.
pub fn no_slug() -> (r: SlugDetectionResult)
    ensures
        r.slugs@.len() == 0,
        !r.has_any,
{
    SlugDetectionResult { slugs: Vec::new(), has_any: false }
}

/// What happened to the last action of a detection.
#[derive(Debug, Clone, PartialEq, Eq)]
pub enum DetectionEvent {
    /// Nothing yet: the detection starts.
    Started,
    /// The base reference was looked up, and is or is not known locally.
    BaseVerified(bool),
    /// The base reference was fetched, with or without success.
    BaseFetched(bool),
    /// The diff ran and ended, with or without success, and printed this.
    DiffFinished {
        /// Whether the diff ended with success.
        success: bool,
        /// What the diff printed.
        output: String,
    },
    /// The diff could not be run, for this reason.
    DiffNotRun(String),
}

/// What to do next for a detection.
#[derive(Debug, Clone)]
pub enum DetectionStep {
    /// Look up the base reference.
    VerifyBase,
    /// Fetch the base reference.
    FetchBase,
    /// Run the diff between the base and the head.
    RunDiff,
    /// Stop with this result.
    Finished(SlugDetectionResult),
}

/// The base reference of a detection: none for a scheduled run, which
/// regenerates everything, else the one given.
pub open spec fn effective_base(event: Option<Seq<char>>, base_ref: Seq<char>) -> Seq<char> {
    if event == Some("schedule"@) {
        Seq::empty()
    } else {
        base_ref
    }
}

/// Chooses the base reference of a detection.
pub fn effective_base_ref(event: Option<&str>, base_ref: &str) -> (r: String)
    ensures
        r@ == effective_base(
            borrowed_view(event),
            base_ref@,
        ),
{
    match event {
        Some(name) => if text_eq(name, "schedule") {
            String::new()
        } else {
            String::from_str(base_ref)
        },
        None => String::from_str(base_ref),
    }
}

/// Whether `step` is what follows `event`. Without a base reference every
/// slug is impacted. A base that is not known locally is fetched, and every
/// slug is impacted where that fails. A diff that fails impacts no slug; a
/// diff that succeeds impacts the slugs that its output names.
pub open spec fn is_detection_step(
    r: Result<DetectionStep, Error>,
    base_ref: Seq<char>,
    all_slugs: Seq<Seq<char>>,
    event: DetectionEvent,
) -> bool {
    match event {
        DetectionEvent::Started => if base_ref.len() == 0 {
            r matches Ok(DetectionStep::Finished(found)) && names_every(found, all_slugs)
        } else {
            r matches Ok(DetectionStep::VerifyBase)
        },
        DetectionEvent::BaseVerified(known) => if known {
            r matches Ok(DetectionStep::RunDiff)
        } else {
            r matches Ok(DetectionStep::FetchBase)
        },
        DetectionEvent::BaseFetched(fetched) => if fetched {
            r matches Ok(DetectionStep::RunDiff)
        } else {
            r matches Ok(DetectionStep::Finished(found)) && names_every(found, all_slugs)
        },
        DetectionEvent::DiffFinished { success, output } => if success {
            match r {
                Ok(DetectionStep::Finished(found)) => detection_outcome(Ok(found), output@),
                Ok(_) => false,
                Err(error) => detection_outcome(Err(error), output@),
            }
        } else {
            r matches Ok(DetectionStep::Finished(found)) && found.slugs@.len() == 0
                && !found.has_any
        },
        DetectionEvent::DiffNotRun(reason) => r matches Err(error) && error.is_service(
            "git diff failed: "@ + reason@,
        ),
    }
}

/// Whether a result names every slug.
pub open spec fn names_every(found: SlugDetectionResult, all_slugs: Seq<Seq<char>>) -> bool {
    text_views(found.slugs@) == all_slugs && found.has_any == (all_slugs.len() > 0)
}

/// Decides what follows an event of a detection.
pub fn next_detection_step(base_ref: &str, all_slugs: &[String], event: &DetectionEvent) -> (r:
    Result<DetectionStep, Error>)
    ensures
        is_detection_step(r, base_ref@, text_views(all_slugs@), *event),
{
    match event {
        DetectionEvent::Started => if base_ref.is_empty() {
            Ok(DetectionStep::Finished(every_slug(all_slugs)))
        } else {
            Ok(DetectionStep::VerifyBase)
        },
        DetectionEvent::BaseVerified(known) => if *known {
            Ok(DetectionStep::RunDiff)
        } else {
            Ok(DetectionStep::FetchBase)
        },
        DetectionEvent::BaseFetched(fetched) => if *fetched {
            Ok(DetectionStep::RunDiff)
        } else {
            Ok(DetectionStep::Finished(every_slug(all_slugs)))
        },
        DetectionEvent::DiffFinished { success, output } => if *success {
            match impacted_slugs(output.as_str()) {
                Ok(found) => Ok(DetectionStep::Finished(found)),
                Err(error) => Err(error),
            }
        } else {
            Ok(DetectionStep::Finished(no_slug()))
        },
        DetectionEvent::DiffNotRun(reason) => Err(
            Error::Service {
                message: String::from_str("git diff failed: ").concat(reason.as_str()),
            },
        ),
    }
}

} // verus!
