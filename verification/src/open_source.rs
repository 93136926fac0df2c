//! Resolution of the repositories named by the open-source workflow input.
//!
//! The input is a JSON array whose elements are repository names or
//! descriptors with a `repository` and an optional `contributors_branch`.
//! Each entry is trimmed and checked; without input the default
//! repositories are used.

use vstd::prelude::*;
use vstd::string::StringExecFns;
use crate::error::Error;
use crate::text::{
    borrowed_view, chars_have_whitespace, has_whitespace, is_blank, text_eq, text_views, to_chars,
    to_text, trim, trim_bounds, trimmed,
};

verus! {

/// A JSON document as a tree of plain values.
#[derive(Debug, PartialEq, Eq)]
pub enum JsonValue {
    /// The value `null`.
    Null,
    /// A boolean.
    Bool(bool),
    /// A number, as the text that prints it.
    Number(String),
    /// A string.
    Text(String),
    /// An array, with its elements in order.
    Array(Vec<JsonValue>),
    /// An object, with its members in the order of the parser's map; no key
    /// occurs twice.
    Object(Vec<(String, JsonValue)>),
}

/// The type `serde_json::Value`, carried through as it is.
#[verifier::external_type_specification]
#[verifier::external_body]
pub struct ExJsonTree(serde_json::Value);

/// What `serde_json` reads from a text: the document, or the message of its
/// error.
pub uninterp spec fn json_document(text: Seq<char>) -> Result<JsonValue, Seq<char>>;

/// The tree of plain values that a `serde_json::Value` holds.
pub uninterp spec fn json_tree_of(value: serde_json::Value) -> JsonValue;

/// `serde_json::from_str` for a `serde_json::Value`: the value that the text
/// holds, or the `Display` text of the error. The outcome depends on the
/// text alone.
#[verifier::external_body]
fn json_from_str(text: &str) -> (r: Result<serde_json::Value, String>)
    ensures
        match r {
            Ok(value) => json_document(text@) == Ok::<JsonValue, Seq<char>>(json_tree_of(value)),
            Err(message) => json_document(text@) == Err::<JsonValue, Seq<char>>(message@),
        },
{
    serde_json::from_str::<serde_json::Value>(text).map_err(|error| error.to_string())
}

/// The tree of a `serde_json::Value`: one variant of [`JsonValue`] for each
/// variant of the value, a number by its `Display` text, the elements of an
/// array and the members of an object in the order in which the value
/// yields them.
#[verifier::external_body]
fn json_tree(value: serde_json::Value) -> (r: JsonValue)
    ensures
        r == json_tree_of(value),
{
    match value {
        serde_json::Value::Null => JsonValue::Null,
        serde_json::Value::Bool(flag) => JsonValue::Bool(flag),
        serde_json::Value::Number(number) => JsonValue::Number(number.to_string()),
        serde_json::Value::String(text) => JsonValue::Text(text),
        serde_json::Value::Array(items) => JsonValue::Array(
            items.into_iter().map(json_tree).collect(),
        ),
        serde_json::Value::Object(members) => JsonValue::Object(
            members.into_iter().map(|(key, member)| (key, json_tree(member))).collect(),
        ),
    }
}

/// Reads a JSON document from a text.
pub fn parse_json(text: &str) -> (r: Result<JsonValue, String>)
    ensures
        match r {
            Ok(document) => json_document(text@) == Ok::<JsonValue, Seq<char>>(document),
            Err(message) => json_document(text@) == Err::<JsonValue, Seq<char>>(message@),
        },
{
    match json_from_str(text) {
        Ok(value) => Ok(json_tree(value)),
        Err(message) => Err(message),
    }
}

/// Normalized descriptor for an open-source repository entry.
#[derive(Debug, Clone, PartialEq, Eq)]
pub struct OpenSourceRepository {
    /// Repository name resolved from workflow input.
    pub repository: String,
    /// Branch analyzed by the contributors plugin.
    pub contributors_branch: String,
}

/// What an [`OpenSourceRepository`] holds, as plain text.
pub struct OpenSourceRepositoryView {
    pub repository: Seq<char>,
    pub contributors_branch: Seq<char>,
}

impl View for OpenSourceRepository {
    type V = OpenSourceRepositoryView;

    open spec fn view(&self) -> OpenSourceRepositoryView {
        OpenSourceRepositoryView {
            repository: self.repository@,
            contributors_branch: self.contributors_branch@,
        }
    }
}

/// The views of a sequence of repositories.
pub open spec fn repository_views(all: Seq<OpenSourceRepository>) -> Seq<OpenSourceRepositoryView> {
    Seq::new(all.len(), |k: int| all[k]@)
}

/// One element of the input: a bare name, or a descriptor.
#[derive(Debug, Clone, PartialEq, Eq)]
pub enum RepositoryInput {
    /// A repository name.
    Name(String),
    /// A repository with an optional contributors branch.
    Descriptor {
        /// The repository name.
        repository: String,
        /// The branch analyzed for contributors, if given.
        contributors_branch: Option<String>,
    },
}

/// The branch analyzed for contributors where the input names none.
pub open spec fn default_branch() -> Seq<char> {
    "main"@
}

/// The rule for repository names: the trimmed input, which must not be
/// empty.
pub open spec fn repository_name_rule(input: Seq<char>) -> Result<Seq<char>, Seq<char>> {
    if is_blank(input) {
        Err("repository names cannot be empty strings"@)
    } else {
        Ok(trim(input))
    }
}

/// The rule for contributors branches: the trimmed input, which must be
/// neither empty nor hold whitespace.
pub open spec fn branch_name_rule(input: Seq<char>) -> Result<Seq<char>, Seq<char>> {
    if is_blank(input) {
        Err("contributors_branch cannot be empty"@)
    } else if has_whitespace(trim(input)) {
        Err("contributors_branch cannot contain whitespace"@)
    } else {
        Ok(trim(input))
    }
}

/// The repository of one element of the input, or the message of the first
/// rule that the element violates.
pub open spec fn normalized_input(input: RepositoryInput) -> Result<
    OpenSourceRepositoryView,
    Seq<char>,
> {
    match input {
        RepositoryInput::Name(name) => match repository_name_rule(name@) {
            Err(message) => Err(message),
            Ok(repository) => Ok(
                OpenSourceRepositoryView { repository, contributors_branch: default_branch() },
            ),
        },
        RepositoryInput::Descriptor { repository, contributors_branch } => match repository_name_rule(
            repository@,
        ) {
            Err(message) => Err(message),
            Ok(repository) => match contributors_branch {
                None => Ok(
                    OpenSourceRepositoryView {
                        repository,
                        contributors_branch: default_branch(),
                    },
                ),
                Some(branch) => match branch_name_rule(branch@) {
                    Err(message) => Err(message),
                    Ok(contributors_branch) => Ok(
                        OpenSourceRepositoryView { repository, contributors_branch },
                    ),
                },
            },
        },
    }
}

/// The repositories of the elements of the input, in order, or the message
/// of the first element that violates a rule.
pub open spec fn normalized_inputs(inputs: Seq<RepositoryInput>) -> Result<
    Seq<OpenSourceRepositoryView>,
    Seq<char>,
>
    decreases inputs.len(),
{
    if inputs.len() == 0 {
        Ok(Seq::empty())
    } else {
        match normalized_inputs(inputs.drop_last()) {
            Err(message) => Err(message),
            Ok(before) => match normalized_input(inputs.last()) {
                Err(message) => Err(message),
                Ok(repository) => Ok(before.push(repository)),
            },
        }
    }
}

/// The member of an object with the given key.
pub open spec fn member(members: Seq<(String, JsonValue)>, key: Seq<char>) -> Option<JsonValue>
    decreases members.len(),
{
    if members.len() == 0 {
        None
    } else if members[0].0@ == key {
        Some(members[0].1)
    } else {
        member(members.drop_first(), key)
    }
}

/// An optional text of a document: absent or `null` is none, a string is
/// itself, anything else does not decode.
pub open spec fn decoded_optional_text(value: Option<JsonValue>) -> Option<Option<String>> {
    match value {
        None => Some(None),
        Some(JsonValue::Null) => Some(None),
        Some(JsonValue::Text(text)) => Some(Some(text)),
        Some(_) => None,
    }
}

/// One element of the input, decoded from a document: a string is a name;
/// an object is a descriptor whose `repository` is a string and whose
/// `contributors_branch` is an optional text, other members being ignored;
/// an array of one or two elements is a descriptor given by position.
/// Nothing else decodes.
pub open spec fn decoded_input(value: JsonValue) -> Option<RepositoryInput> {
    match value {
        JsonValue::Text(name) => Some(RepositoryInput::Name(name)),
        JsonValue::Object(members) => match (
            member(members@, "repository"@),
            decoded_optional_text(member(members@, "contributors_branch"@)),
        ) {
            (Some(JsonValue::Text(repository)), Some(contributors_branch)) => Some(
                RepositoryInput::Descriptor { repository, contributors_branch },
            ),
            _ => None,
        },
        JsonValue::Array(items) => if items@.len() == 1 {
            match items@[0] {
                JsonValue::Text(repository) => Some(
                    RepositoryInput::Descriptor { repository, contributors_branch: None },
                ),
                _ => None,
            }
        } else if items@.len() == 2 {
            match (items@[0], decoded_optional_text(Some(items@[1]))) {
                (JsonValue::Text(repository), Some(contributors_branch)) => Some(
                    RepositoryInput::Descriptor { repository, contributors_branch },
                ),
                _ => None,
            }
        } else {
            None
        },
        _ => None,
    }
}

/// The elements of the input decoded from the elements of an array, or none
/// where one of them does not decode.
pub open spec fn decoded_inputs(items: Seq<JsonValue>) -> Option<Seq<RepositoryInput>>
    decreases items.len(),
{
    if items.len() == 0 {
        Some(Seq::empty())
    } else {
        match (decoded_inputs(items.drop_last()), decoded_input(items.last())) {
            (Some(before), Some(input)) => Some(before.push(input)),
            _ => None,
        }
    }
}

/// The message for a document that is not an array.
pub open spec fn not_an_array_message() -> Seq<char> {
    "invalid repositories JSON: expected a JSON array"@
}

/// The message for an element that is neither a name nor a descriptor.
pub open spec fn unknown_element_message() -> Seq<char> {
    "invalid repositories JSON: data did not match any variant of untagged enum RepositoryInput"@
}

/// The message for an empty array.
pub open spec fn empty_array_message() -> Seq<char> {
    "repositories input must be a non-empty JSON array of repository names"@
}

/// The repositories that a document names, or the message of the first
/// failure: the document must be an array, each of its elements must decode,
/// the array must not be empty, and each element must meet its rules.
pub open spec fn document_repositories(document: JsonValue) -> Result<
    Seq<OpenSourceRepositoryView>,
    Seq<char>,
> {
    match document {
        JsonValue::Array(items) => match decoded_inputs(items@) {
            None => Err(unknown_element_message()),
            Some(inputs) => if inputs.len() == 0 {
                Err(empty_array_message())
            } else {
                normalized_inputs(inputs)
            },
        },
        _ => Err(not_an_array_message()),
    }
}

/// The repositories that a text names, given what the parser read from it.
pub open spec fn parsed_repositories(parsed: Result<JsonValue, Seq<char>>) -> Result<
    Seq<OpenSourceRepositoryView>,
    Seq<char>,
> {
    match parsed {
        Err(message) => Err("invalid repositories JSON: "@ + message),
        Ok(document) => document_repositories(document),
    }
}

/// The repositories used where the input names none.
pub open spec fn default_repository_views() -> Seq<OpenSourceRepositoryView> {
    seq![
        OpenSourceRepositoryView {
            repository: "masterror"@,
            contributors_branch: default_branch(),
        },
        OpenSourceRepositoryView {
            repository: "telegram-webapp-sdk"@,
            contributors_branch: default_branch(),
        },
    ]
}

/// The repositories of a workflow input: the defaults where the input is
/// missing or blank, else what its trimmed text names.
pub open spec fn resolved_repositories(raw_input: Option<Seq<char>>) -> Result<
    Seq<OpenSourceRepositoryView>,
    Seq<char>,
> {
    match raw_input {
        None => Ok(default_repository_views()),
        Some(text) => if is_blank(text) {
            Ok(default_repository_views())
        } else {
            parsed_repositories(json_document(trim(text)))
        },
    }
}

/// Whether a result is what a rule gives: the repositories on success, a
/// validation error with the rule's message on failure.
pub open spec fn repositories_outcome(
    r: Result<Vec<OpenSourceRepository>, Error>,
    rule: Result<Seq<OpenSourceRepositoryView>, Seq<char>>,
) -> bool {
    match r {
        Ok(all) => rule == Ok::<Seq<OpenSourceRepositoryView>, Seq<char>>(repository_views(all@)),
        Err(error) => rule matches Err(message) && error.is_validation(message),
    }
}

/// Whether a text result is what a rule gives.
pub open spec fn name_outcome(r: Result<String, Error>, rule: Result<Seq<char>, Seq<char>>) -> bool {
    match r {
        Ok(value) => rule == Ok::<Seq<char>, Seq<char>>(value@),
        Err(error) => rule matches Err(message) && error.is_validation(message),
    }
}

/// Trims a repository name and rejects an empty one.
pub fn normalize_repository(input: &str) -> (r: Result<String, Error>)
    ensures
        name_outcome(r, repository_name_rule(input@)),
{
    let chars = to_chars(input);
    let (start, end) = trim_bounds(&chars);
    if start == end {
        return Err(Error::validation("repository names cannot be empty strings"));
    }
    Ok(to_text(&chars, start, end))
}

/// Trims a contributors branch and rejects one that is empty or holds
/// whitespace.
pub fn normalize_contributors_branch(input: &str) -> (r: Result<String, Error>)
    ensures
        name_outcome(r, branch_name_rule(input@)),
{
    let chars = to_chars(input);
    let (start, end) = trim_bounds(&chars);
    if start == end {
        return Err(Error::validation("contributors_branch cannot be empty"));
    }
    let value = to_text(&chars, start, end);
    let kept = to_chars(value.as_str());
    if chars_have_whitespace(&kept) {
        return Err(Error::validation("contributors_branch cannot contain whitespace"));
    }
    Ok(value)
}

/// Returns the default repository descriptors.
pub fn default_repositories() -> (r: Vec<OpenSourceRepository>)
    ensures
        repository_views(r@) == default_repository_views(),
{
    let mut defaults: Vec<OpenSourceRepository> = Vec::new();
    defaults.push(
        OpenSourceRepository {
            repository: String::from_str("masterror"),
            contributors_branch: String::from_str("main"),
        },
    );
    defaults.push(
        OpenSourceRepository {
            repository: String::from_str("telegram-webapp-sdk"),
            contributors_branch: String::from_str("main"),
        },
    );
    assert(repository_views(defaults@) =~= default_repository_views());
    defaults
}

/// The member of an object with the given key.
fn find_member<'a>(members: &'a Vec<(String, JsonValue)>, key: &str) -> (r: Option<&'a JsonValue>)
    ensures
        match r {
            Some(value) => member(members@, key@) == Some(*value),
            None => member(members@, key@) is None,
        },
{
    let mut at: usize = 0;
    assert(members@.skip(0) == members@);
    while at < members.len()
        invariant
            at <= members.len(),
            member(members@, key@) == member(members@.skip(at as int), key@),
        decreases members.len() - at,
    {
        assert(members@.skip(at as int)[0] == members@[at as int]);
        assert(members@.skip(at as int).drop_first() == members@.skip(at as int + 1));
        if text_eq(members[at].0.as_str(), key) {
            return Some(&members[at].1);
        }
        at += 1;
    }
    None
}

/// The optional text behind an optional value of a document.
fn decode_optional_text(value: Option<&JsonValue>) -> (r: Option<Option<String>>)
    ensures
        r == decoded_optional_text(
            match value {
                Some(inner) => Some(*inner),
                None => None,
            },
        ),
{
    match value {
        None => Some(None),
        Some(JsonValue::Null) => Some(None),
        Some(JsonValue::Text(text)) => Some(Some(text.clone())),
        Some(_) => None,
    }
}

/// Decodes one element of the input.
pub fn decode_input(value: &JsonValue) -> (r: Option<RepositoryInput>)
    ensures
        r == decoded_input(*value),
{
    match value {
        JsonValue::Text(name) => Some(RepositoryInput::Name(name.clone())),
        JsonValue::Object(members) => {
            let repository = match find_member(members, "repository") {
                Some(JsonValue::Text(repository)) => repository.clone(),
                _ => {
                    return None;
                },
            };
            match decode_optional_text(find_member(members, "contributors_branch")) {
                Some(contributors_branch) => Some(
                    RepositoryInput::Descriptor { repository, contributors_branch },
                ),
                None => None,
            }
        },
        JsonValue::Array(items) => {
            if items.len() == 0 || items.len() > 2 {
                return None;
            }
            let repository = match &items[0] {
                JsonValue::Text(repository) => repository.clone(),
                _ => {
                    return None;
                },
            };
            if items.len() == 1 {
                return Some(RepositoryInput::Descriptor { repository, contributors_branch: None });
            }
            match decode_optional_text(Some(&items[1])) {
                Some(contributors_branch) => Some(
                    RepositoryInput::Descriptor { repository, contributors_branch },
                ),
                None => None,
            }
        },
        _ => None,
    }
}

/// Normalizes one element of the input.
pub fn normalize_input(input: &RepositoryInput) -> (r: Result<OpenSourceRepository, Error>)
    ensures
        match r {
            Ok(repository) => normalized_input(*input) == Ok::<OpenSourceRepositoryView, Seq<char>>(
                repository@,
            ),
            Err(error) => normalized_input(*input) matches Err(message) && error.is_validation(
                message,
            ),
        },
{
    match input {
        RepositoryInput::Name(name) => {
            let repository = match normalize_repository(name.as_str()) {
                Ok(repository) => repository,
                Err(error) => {
                    return Err(error);
                },
            };
            Ok(OpenSourceRepository { repository, contributors_branch: String::from_str("main") })
        },
        RepositoryInput::Descriptor { repository, contributors_branch } => {
            let repository = match normalize_repository(repository.as_str()) {
                Ok(repository) => repository,
                Err(error) => {
                    return Err(error);
                },
            };
            let contributors_branch = match contributors_branch {
                None => String::from_str("main"),
                Some(branch) => match normalize_contributors_branch(branch.as_str()) {
                    Ok(branch) => branch,
                    Err(error) => {
                        return Err(error);
                    },
                },
            };
            Ok(OpenSourceRepository { repository, contributors_branch })
        },
    }
}

proof fn failure_of_input_prefix(inputs: Seq<RepositoryInput>, upto: int)
    requires
        0 <= upto <= inputs.len(),
        normalized_inputs(inputs.take(upto)) is Err,
    ensures
        normalized_inputs(inputs) == normalized_inputs(inputs.take(upto)),
    decreases inputs.len() - upto,
{
    if upto == inputs.len() {
        assert(inputs.take(upto) == inputs);
    } else {
        assert(inputs.drop_last().take(upto) == inputs.take(upto));
        failure_of_input_prefix(inputs.drop_last(), upto);
    }
}

proof fn undecodable_prefix(items: Seq<JsonValue>, upto: int)
    requires
        0 <= upto <= items.len(),
        decoded_inputs(items.take(upto)) is None,
    ensures
        decoded_inputs(items) is None,
    decreases items.len() - upto,
{
    if upto == items.len() {
        assert(items.take(upto) == items);
    } else {
        assert(items.drop_last().take(upto) == items.take(upto));
        undecodable_prefix(items.drop_last(), upto);
    }
}

/// Resolves the repositories that a parsed document names. The document
/// must be a non-empty array of names and descriptors; every element is
/// decoded before the first is checked against its rules.
pub fn repositories_from_document(document: &JsonValue) -> (r: Result<
    Vec<OpenSourceRepository>,
    Error,
>)
    ensures
        repositories_outcome(r, document_repositories(*document)),
{
    let items = match document {
        JsonValue::Array(items) => items,
        _ => {
            return Err(Error::validation("invalid repositories JSON: expected a JSON array"));
        },
    };
    let mut inputs: Vec<RepositoryInput> = Vec::new();
    let mut at: usize = 0;
    assert(items@.take(0) == Seq::<JsonValue>::empty());
    while at < items.len()
        invariant
            at <= items.len(),
            *document == JsonValue::Array(*items),
            decoded_inputs(items@.take(at as int)) == Some(inputs@),
        decreases items.len() - at,
    {
        proof {
            let upto = items@.take(at as int + 1);
            assert(upto.drop_last() == items@.take(at as int));
            assert(upto.last() == items@[at as int]);
        }
        match decode_input(&items[at]) {
            Some(input) => {
                inputs.push(input);
            },
            None => {
                proof {
                    undecodable_prefix(items@, at as int + 1);
                }
                return Err(
                    Error::validation(
                        "invalid repositories JSON: data did not match any variant of untagged enum RepositoryInput",
                    ),
                );
            },
        }
        at += 1;
    }
    assert(items@.take(items.len() as int) == items@);
    if inputs.len() == 0 {
        return Err(
            Error::validation(
                "repositories input must be a non-empty JSON array of repository names",
            ),
        );
    }
    let mut normalized: Vec<OpenSourceRepository> = Vec::new();
    let mut next: usize = 0;
    assert(inputs@.take(0) == Seq::<RepositoryInput>::empty());
    assert(repository_views(normalized@) == Seq::<OpenSourceRepositoryView>::empty());
    while next < inputs.len()
        invariant
            next <= inputs.len(),
            inputs.len() > 0,
            *document == JsonValue::Array(*items),
            decoded_inputs(items@) == Some(inputs@),
            normalized_inputs(inputs@.take(next as int)) == Ok::<
                Seq<OpenSourceRepositoryView>,
                Seq<char>,
            >(repository_views(normalized@)),
        decreases inputs.len() - next,
    {
        proof {
            let upto = inputs@.take(next as int + 1);
            assert(upto.drop_last() == inputs@.take(next as int));
            assert(upto.last() == inputs@[next as int]);
        }
        match normalize_input(&inputs[next]) {
            Ok(repository) => {
                let ghost before = repository_views(normalized@);
                normalized.push(repository);
                assert(repository_views(normalized@) == before.push(repository@));
            },
            Err(error) => {
                proof {
                    failure_of_input_prefix(inputs@, next as int + 1);
                }
                return Err(error);
            },
        }
        next += 1;
    }
    assert(inputs@.take(inputs.len() as int) == inputs@);
    Ok(normalized)
}

/// Parses and validates repository descriptors supplied as a JSON array.
pub fn parse_user_supplied_repositories(input: &str) -> (r: Result<
    Vec<OpenSourceRepository>,
    Error,
>)
    ensures
        repositories_outcome(r, parsed_repositories(json_document(input@))),
{
    match parse_json(input) {
        Ok(document) => repositories_from_document(&document),
        Err(message) => Err(
            Error::Validation {
                message: String::from_str("invalid repositories JSON: ").concat(message.as_str()),
            },
        ),
    }
}

/// Resolves repository descriptors for the open-source workflow input.
/// Without input, or with blank input, the default repositories are
/// returned; else the trimmed input is read as a JSON array of names and
/// descriptors.
pub fn resolve_open_source_targets(raw_input: Option<&str>) -> (r: Result<
    Vec<OpenSourceRepository>,
    Error,
>)
    ensures
        repositories_outcome(
            r,
            resolved_repositories(
                borrowed_view(raw_input),
            ),
        ),
{
    match raw_input {
        None => Ok(default_repositories()),
        Some(value) => {
            let text = trimmed(value);
            if text.as_str().unicode_len() == 0 {
                Ok(default_repositories())
            } else {
                parse_user_supplied_repositories(text.as_str())
            }
        },
    }
}

/// The names of a sequence of repositories.
pub open spec fn repository_names(all: Seq<OpenSourceRepositoryView>) -> Seq<Seq<char>> {
    Seq::new(all.len(), |k: int| all[k].repository)
}

/// Resolves the repository names of the open-source workflow input, without
/// the contributors branches.
pub fn resolve_open_source_repositories(raw_input: Option<&str>) -> (r: Result<Vec<String>, Error>)
    ensures
        match r {
            Ok(names) => resolved_repositories(
                borrowed_view(raw_input),
            ) matches Ok(all) && text_views(names@) == repository_names(all),
            Err(error) => resolved_repositories(
                borrowed_view(raw_input),
            ) matches Err(message) && error.is_validation(message),
        },
{
    let targets = match resolve_open_source_targets(raw_input) {
        Ok(targets) => targets,
        Err(error) => {
            return Err(error);
        },
    };
    let mut names: Vec<String> = Vec::new();
    let mut at: usize = 0;
    while at < targets.len()
        invariant
            at <= targets.len(),
            names@.len() == at,
            forall|k: int| 0 <= k < at ==> (#[trigger] names@[k])@ == targets@[k].repository@,
        decreases targets.len() - at,
    {
        names.push(targets[at].repository.clone());
        at += 1;
    }
    assert(text_views(names@) =~= repository_names(repository_views(targets@)));
    Ok(names)
}

} // verus!
