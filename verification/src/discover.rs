//! Recognition of repositories that publish a metrics badge, from the text
//! of their README, and the bookkeeping of a discovery run.

use vstd::prelude::*;
use vstd::string::StringExecFns;
use crate::error::Error;
use crate::text::{
    chars_contain, contains, copy_chars, find, find_first, key_before, key_lt, key_lt_total,
    key_lt_transitive, lines, occurs_at, split_lines, text_eq, to_chars, to_text,
};

verus! {

/// A repository found to publish a metrics badge.
#[derive(Debug, Clone)]
pub struct DiscoveredRepository {
    /// Account that owns the repository.
    pub owner: String,
    /// Name of the repository.
    pub repository: String,
}

impl DiscoveredRepository {
    /// The text `owner/repository`.
    pub open spec fn full_name(&self) -> Seq<char> {
        self.owner@ + "/"@ + self.repository@
    }

    /// A copy of the repository.
    pub fn copy(&self) -> (r: DiscoveredRepository)
        ensures
            r.owner@ == self.owner@,
            r.repository@ == self.repository@,
    {
        DiscoveredRepository { owner: self.owner.clone(), repository: self.repository.clone() }
    }

    /// Formats the repository as `owner/repository`.
    pub fn to_string(&self) -> (r: String)
        ensures
            r@ == self.full_name(),
    {
        self.owner.clone().concat("/").concat(self.repository.as_str())
    }
}

/// The file name of the badge that marks a README.
pub open spec fn badge_file_name() -> Seq<char> {
    "badge.svg"@
}

/// The repository name that `pattern` leads to in `line`: the text between
/// the first occurrence of the pattern and the first `.svg` after it, where
/// that text is not empty and holds no `/`.
pub open spec fn pattern_candidate(line: Seq<char>, pattern: Seq<char>) -> Option<Seq<char>> {
    match find(line, pattern) {
        None => None,
        Some(at) => {
            let after = line.skip(at + pattern.len());
            match find(after, ".svg"@) {
                None => None,
                Some(end) => {
                    let name = after.take(end);
                    if name.len() > 0 && !name.contains('/') {
                        Some(name)
                    } else {
                        None
                    }
                },
            }
        },
    }
}

/// The repository name found in one line: the first candidate among the
/// patterns `./metrics/`, `metrics/` and `/metrics/`, in this order. A line
/// without `.svg` has none.
pub open spec fn line_candidate(line: Seq<char>) -> Option<Seq<char>> {
    if !contains(line, ".svg"@) {
        None
    } else if pattern_candidate(line, "./metrics/"@) is Some {
        pattern_candidate(line, "./metrics/"@)
    } else if pattern_candidate(line, "metrics/"@) is Some {
        pattern_candidate(line, "metrics/"@)
    } else {
        pattern_candidate(line, "/metrics/"@)
    }
}

/// The candidate of the first line that has one.
pub open spec fn first_candidate(all: Seq<Seq<char>>) -> Option<Seq<char>>
    decreases all.len(),
{
    if all.len() == 0 {
        None
    } else if line_candidate(all[0]) is Some {
        line_candidate(all[0])
    } else {
        first_candidate(all.drop_first())
    }
}

/// The repository that a README names: none where the README does not
/// mention the badge file, else the candidate of its first line that has
/// one.
pub open spec fn extracted_repo(readme: Seq<char>) -> Option<Seq<char>> {
    if !contains(readme, badge_file_name()) {
        None
    } else {
        first_candidate(lines(readme))
    }
}

/// The repository name that `pattern` leads to in `line`.
fn candidate_by(line: &Vec<char>, pattern: &Vec<char>, svg: &Vec<char>) -> (r: Option<Vec<char>>)
    requires
        svg@ == ".svg"@,
    ensures
        match r {
            Some(name) => pattern_candidate(line@, pattern@) == Some(name@),
            None => pattern_candidate(line@, pattern@) is None,
        },
{
    let at = match find_first(line, pattern) {
        Some(at) => at,
        None => {
            return None;
        },
    };
    let length = line.len();
    assert(occurs_at(line@, pattern@, at as int));
    let after = copy_chars(line, at + pattern.len(), length);
    let end = match find_first(&after, svg) {
        Some(end) => end,
        None => {
            return None;
        },
    };
    if end == 0 || chars_contain(&after, '/', 0, end) {
        return None;
    }
    Some(copy_chars(&after, 0, end))
}

/// The repository name found in one line.
fn candidate_in(
    line: &Vec<char>,
    dot_slash: &Vec<char>,
    plain: &Vec<char>,
    slash: &Vec<char>,
    svg: &Vec<char>,
) -> (r: Option<Vec<char>>)
    requires
        dot_slash@ == "./metrics/"@,
        plain@ == "metrics/"@,
        slash@ == "/metrics/"@,
        svg@ == ".svg"@,
    ensures
        match r {
            Some(name) => line_candidate(line@) == Some(name@),
            None => line_candidate(line@) is None,
        },
{
    if find_first(line, svg).is_none() {
        return None;
    }
    if let Some(name) = candidate_by(line, dot_slash, svg) {
        return Some(name);
    }
    if let Some(name) = candidate_by(line, plain, svg) {
        return Some(name);
    }
    candidate_by(line, slash, svg)
}

/// Extracts the repository name from the text of a README: the README must
/// mention the badge file, and the name is read from the first line that
/// links a metrics SVG.
pub fn extract_repo_from_readme(readme_content: &str) -> (r: Option<String>)
    ensures
        match r {
            Some(name) => extracted_repo(readme_content@) == Some(name@),
            None => extracted_repo(readme_content@) is None,
        },
{
    let content = to_chars(readme_content);
    let badge = to_chars("badge.svg");
    if find_first(&content, &badge).is_none() {
        return None;
    }
    let svg = to_chars(".svg");
    let dot_slash = to_chars("./metrics/");
    let plain = to_chars("metrics/");
    let slash = to_chars("/metrics/");
    let all = split_lines(&content);
    let ghost wanted = lines(content@);
    let mut at: usize = 0;
    assert(wanted.skip(0) == wanted);
    while at < all.len()
        invariant
            at <= all.len(),
            all@.len() == wanted.len(),
            forall|k: int| 0 <= k < all@.len() ==> (#[trigger] all@[k])@ == wanted[k],
            first_candidate(wanted) == first_candidate(wanted.skip(at as int)),
            wanted == lines(readme_content@),
            contains(readme_content@, badge_file_name()),
            dot_slash@ == "./metrics/"@,
            plain@ == "metrics/"@,
            slash@ == "/metrics/"@,
            svg@ == ".svg"@,
        decreases all.len() - at,
    {
        assert(wanted.skip(at as int)[0] == all@[at as int]@);
        assert(wanted.skip(at as int).drop_first() == wanted.skip(at as int + 1));
        if let Some(name) = candidate_in(&all[at], &dot_slash, &plain, &slash, &svg) {
            assert(name@.subrange(0, name@.len() as int) == name@);
            return Some(to_text(&name, 0, name.len()));
        }
        at += 1;
    }
    None
}

/// Where repositories are looked for.
#[derive(Debug, Clone, Copy, PartialEq, Eq, Structural)]
pub enum DiscoverySource {
    /// Repositories that show the badge.
    Badge,
    /// Repositories of the accounts that starred the renderer.
    Stargazers,
    /// Both, merged.
    All,
}

/// The source that a name stands for.
pub open spec fn named_source(name: Seq<char>) -> Option<DiscoverySource> {
    if name == "badge"@ {
        Some(DiscoverySource::Badge)
    } else if name == "stargazers"@ {
        Some(DiscoverySource::Stargazers)
    } else if name == "all"@ {
        Some(DiscoverySource::All)
    } else {
        None
    }
}

/// Reads the name of a discovery source.
pub fn parse_source(name: &str) -> (r: Result<DiscoverySource, Error>)
    ensures
        match r {
            Ok(source) => named_source(name@) == Some(source),
            Err(error) => named_source(name@) is None && error.is_validation(
                "unsupported source: "@ + name@ + ". Use: badge, stargazers, or all"@,
            ),
        },
{
    if text_eq(name, "badge") {
        Ok(DiscoverySource::Badge)
    } else if text_eq(name, "stargazers") {
        Ok(DiscoverySource::Stargazers)
    } else if text_eq(name, "all") {
        Ok(DiscoverySource::All)
    } else {
        Err(
            Error::Validation {
                message: String::from_str("unsupported source: ").concat(name).concat(
                    ". Use: badge, stargazers, or all",
                ),
            },
        )
    }
}

/// The page to fetch after `page`, if any: the listing ends with an empty
/// page and at the limit of pages.
pub fn next_page(page: u32, items_count: usize, max_pages: u32) -> (r: Option<u32>)
    ensures
        r == if items_count == 0 || page >= max_pages {
            None
        } else {
            Some((page + 1) as u32)
        },
{
    if items_count == 0 || page >= max_pages {
        None
    } else {
        Some(page + 1)
    }
}

/// The owner and the name of a repository.
pub open spec fn repository_key(repository: DiscoveredRepository) -> (Seq<char>, Option<Seq<char>>) {
    (repository.owner@, Some(repository.repository@))
}

/// The keys of a sequence of repositories.
pub open spec fn repository_keys(all: Seq<DiscoveredRepository>) -> Seq<
    (Seq<char>, Option<Seq<char>>),
> {
    Seq::new(all.len(), |k: int| repository_key(all[k]))
}

/// The repositories found so far in a discovery run, each once, in the order
/// in which they were found.
pub struct DiscoveryLog {
    discovered: Vec<DiscoveredRepository>,
}

impl DiscoveryLog {
    /// The keys of the repositories found so far, in the order in which they
    /// were found.
    pub closed spec fn view(&self) -> Seq<(Seq<char>, Option<Seq<char>>)> {
        repository_keys(self.discovered@)
    }

    /// No repository is held twice.
    pub open spec fn wf(&self) -> bool {
        self@.no_duplicates()
    }

    /// The log of a run that has found nothing yet.
    pub fn new() -> (r: DiscoveryLog)
        ensures
            r@ == Seq::<(Seq<char>, Option<Seq<char>>)>::empty(),
            r.wf(),
    {
        let r = DiscoveryLog { discovered: Vec::new() };
        assert(r@ =~= Seq::<(Seq<char>, Option<Seq<char>>)>::empty());
        r
    }

    /// The number of repositories found so far.
    pub fn len(&self) -> (r: usize)
        ensures
            r == self@.len(),
    {
        self.discovered.len()
    }

    /// Whether the repository was found already.
    pub fn contains(&self, owner: &str, name: &str) -> (r: bool)
        ensures
            r == self@.contains((owner@, Some(name@))),
    {
        let mut at: usize = 0;
        while at < self.discovered.len()
            invariant
                at <= self.discovered.len(),
                forall|k: int| 0 <= k < at ==> self@[k] != (owner@, Some(name@)),
            decreases self.discovered.len() - at,
        {
            if text_eq(self.discovered[at].owner.as_str(), owner) && text_eq(
                self.discovered[at].repository.as_str(),
                name,
            ) {
                assert(self@[at as int] == (owner@, Some(name@)));
                return true;
            }
            at += 1;
        }
        false
    }

    /// Whether the README of a repository is worth fetching: not for a fork,
    /// and not for a repository that was found already.
    pub fn needs_check(&self, owner: &str, name: &str, fork: Option<bool>) -> (r: bool)
        ensures
            r == (fork != Some(true) && !self@.contains((owner@, Some(name@)))),
    {
        match fork {
            Some(true) => false,
            _ => !self.contains(owner, name),
        }
    }

    /// Notes a repository whose README shows the badge. A repository that
    /// was found already is not noted again.
    pub fn record(&mut self, owner: &str, name: &str) -> (r: bool)
        requires
            old(self).wf(),
        ensures
            final(self).wf(),
            r == !old(self)@.contains((owner@, Some(name@))),
            final(self)@ == if r {
                old(self)@.push((owner@, Some(name@)))
            } else {
                old(self)@
            },
    {
        if self.contains(owner, name) {
            return false;
        }
        let ghost before = self@;
        self.discovered.push(
            DiscoveredRepository {
                owner: String::from_str(owner),
                repository: String::from_str(name),
            },
        );
        assert(self@ =~= before.push((owner@, Some(name@))));
        true
    }

    /// The repositories found, in the order in which they were found.
    pub fn into_repositories(self) -> (r: Vec<DiscoveredRepository>)
        ensures
            repository_keys(r@) == self@,
    {
        self.discovered
    }
}

/// Each key comes before the keys after it.
pub open spec fn keys_ascending(all: Seq<(Seq<char>, Option<Seq<char>>)>) -> bool {
    forall|i: int, j: int| 0 <= i < j < all.len() ==> key_lt(all[i], all[j])
}

/// Adds a repository to a list in strictly ascending order of keys, unless
/// the list holds it already.
fn insert_repository(all: &mut Vec<DiscoveredRepository>, repository: DiscoveredRepository)
    requires
        keys_ascending(repository_keys(old(all)@)),
    ensures
        keys_ascending(repository_keys(final(all)@)),
        forall|key: (Seq<char>, Option<Seq<char>>)|
            repository_keys(final(all)@).contains(key) <==> (key == repository_key(repository)
                || repository_keys(old(all)@).contains(key)),
{
    let ghost before = repository_keys(all@);
    let ghost wanted = repository_key(repository);
    let mut at: usize = 0;
    while at < all.len() && key_before(
        all[at].owner.as_str(),
        Some(all[at].repository.as_str()),
        repository.owner.as_str(),
        Some(repository.repository.as_str()),
    )
        invariant
            at <= all.len(),
            all@ == old(all)@,
            before == repository_keys(all@),
            wanted == repository_key(repository),
            forall|k: int| 0 <= k < at ==> key_lt(#[trigger] before[k], wanted),
        decreases all.len() - at,
    {
        assert(before[at as int] == repository_key(all@[at as int]));
        at += 1;
    }
    if at < all.len() {
        assert(before[at as int] == repository_key(all@[at as int]));
        if text_eq(all[at].owner.as_str(), repository.owner.as_str()) && text_eq(
            all[at].repository.as_str(),
            repository.repository.as_str(),
        ) {
            assert(before.contains(wanted));
            return ;
        }
    }
    proof {
        if at < all.len() {
            key_lt_total(before[at as int], wanted);
            assert forall|j: int| at <= j < before.len() implies key_lt(wanted, #[trigger] before[j]) by {
                if j > at {
                    assert(key_lt(before[at as int], before[j]));
                    key_lt_transitive(wanted, before[at as int], before[j]);
                }
            }
        }
    }
    all.insert(at, repository);
    proof {
        let after = repository_keys(all@);
        assert(after == before.insert(at as int, wanted));
        assert(after[at as int] == wanted);
        assert forall|i: int, j: int| 0 <= i < j < after.len() implies key_lt(after[i], after[j]) by {
            if j < at {
                assert(key_lt(before[i], before[j]));
            } else if j == at {
            } else if i < at {
                key_lt_transitive(before[i], wanted, before[j - 1]);
            } else if i == at {
            } else {
                assert(key_lt(before[i - 1], before[j - 1]));
            }
        }
        assert forall|key: (Seq<char>, Option<Seq<char>>)| after.contains(key) <==> (key == wanted
            || before.contains(key)) by {
            if after.contains(key) {
                let k = choose|k: int| 0 <= k < after.len() && after[k] == key;
                if k < at {
                    assert(before[k] == key);
                } else if k > at {
                    assert(before[k - 1] == key);
                }
            }
            if before.contains(key) {
                let k = choose|k: int| 0 <= k < before.len() && before[k] == key;
                if k < at {
                    assert(after[k] == key);
                } else {
                    assert(after[k + 1] == key);
                }
            }
        }
    }
}

/// Merges the repositories of two discoveries: each repository once, by
/// owner and then by name.
pub fn merge_discovered(first: Vec<DiscoveredRepository>, second: Vec<DiscoveredRepository>) -> (r:
    Vec<DiscoveredRepository>)
    ensures
        keys_ascending(repository_keys(r@)),
        forall|key: (Seq<char>, Option<Seq<char>>)|
            repository_keys(r@).contains(key) <==> (repository_keys(first@).contains(key)
                || repository_keys(second@).contains(key)),
{
    let mut merged: Vec<DiscoveredRepository> = Vec::new();
    let mut at: usize = 0;
    while at < first.len()
        invariant
            at <= first.len(),
            keys_ascending(repository_keys(merged@)),
            forall|key: (Seq<char>, Option<Seq<char>>)|
                repository_keys(merged@).contains(key) <==> repository_keys(first@).take(
                    at as int,
                ).contains(key),
        decreases first.len() - at,
    {
        let ghost held = repository_keys(merged@);
        let ghost upto = repository_keys(first@).take(at as int);
        let ghost next = repository_keys(first@).take(at as int + 1);
        insert_repository(&mut merged, first[at].copy());
        proof {
            let added = repository_key(first@[at as int]);
            assert(next.drop_last() == upto);
            assert(next.last() == added);
            assert forall|key: (Seq<char>, Option<Seq<char>>)| repository_keys(merged@).contains(
                key,
            ) <==> next.contains(key) by {
                if upto.contains(key) {
                    let k = choose|k: int| 0 <= k < upto.len() && upto[k] == key;
                    assert(next[k] == key);
                }
                if next.contains(key) {
                    let k = choose|k: int| 0 <= k < next.len() && next[k] == key;
                    if k < at {
                        assert(upto[k] == key);
                    }
                }
                assert(next[at as int] == added);
            }
        }
        at += 1;
    }
    assert(repository_keys(first@).take(first.len() as int) == repository_keys(first@));
    let mut from: usize = 0;
    while from < second.len()
        invariant
            from <= second.len(),
            keys_ascending(repository_keys(merged@)),
            forall|key: (Seq<char>, Option<Seq<char>>)|
                repository_keys(merged@).contains(key) <==> (repository_keys(first@).contains(key)
                    || repository_keys(second@).take(from as int).contains(key)),
        decreases second.len() - from,
    {
        let ghost upto = repository_keys(second@).take(from as int);
        let ghost next = repository_keys(second@).take(from as int + 1);
        insert_repository(&mut merged, second[from].copy());
        proof {
            let added = repository_key(second@[from as int]);
            assert(next.drop_last() == upto);
            assert(next.last() == added);
            assert forall|key: (Seq<char>, Option<Seq<char>>)| repository_keys(merged@).contains(
                key,
            ) <==> (repository_keys(first@).contains(key) || next.contains(key)) by {
                if upto.contains(key) {
                    let k = choose|k: int| 0 <= k < upto.len() && upto[k] == key;
                    assert(next[k] == key);
                }
                if next.contains(key) {
                    let k = choose|k: int| 0 <= k < next.len() && next[k] == key;
                    if k < from {
                        assert(upto[k] == key);
                    }
                }
                assert(next[from as int] == added);
            }
        }
        from += 1;
    }
    assert(repository_keys(second@).take(second.len() as int) == repository_keys(second@));
    merged
}

} // verus!
