//! Normalization of the inputs of the render actions: every optional input
//! that is missing or empty takes its default, and the flags are checked.

use vstd::prelude::*;
use vstd::string::StringExecFns;
use crate::error::Error;
use crate::text::{
    borrowed_view, chars_have_whitespace, has_whitespace, is_whitespace, position_from, position_of,
    text_eq, to_chars, to_text, trim, trim_bounds, trim_of_tight,
};

verus! {

/// The lowercase form of a text, as `str::to_lowercase` gives it.
pub uninterp spec fn lowercase_form(text: Seq<char>) -> Seq<char>;

/// `str::to_lowercase`: the lowercase equivalent of the text, by the Unicode
/// rules for lowercase.
#[verifier::external_body]
fn lowercased(text: &str) -> (r: String)
    ensures
        r@ == lowercase_form(text@),
{
    text.to_lowercase()
}

/// Normalized profile render inputs.
#[derive(Debug, Clone)]
pub struct ProfileInputs {
    pub target_user: String,
    pub branch_name: String,
    pub target_path: String,
    pub temp_artifact: String,
    pub time_zone: String,
    pub display_name: String,
    pub include_private: String,
    pub repositories_affiliations: String,
    pub plugin_repositories_affiliations: String,
    pub plugin_activity_visibility: String,
    pub plugin_code_visibility: String,
    pub plugin_achievements_secrets: String,
}

/// What a [`ProfileInputs`] holds, as plain text.
pub struct ProfileInputsView {
    pub target_user: Seq<char>,
    pub branch_name: Seq<char>,
    pub target_path: Seq<char>,
    pub temp_artifact: Seq<char>,
    pub time_zone: Seq<char>,
    pub display_name: Seq<char>,
    pub include_private: Seq<char>,
    pub repositories_affiliations: Seq<char>,
    pub plugin_repositories_affiliations: Seq<char>,
    pub plugin_activity_visibility: Seq<char>,
    pub plugin_code_visibility: Seq<char>,
    pub plugin_achievements_secrets: Seq<char>,
}

impl View for ProfileInputs {
    type V = ProfileInputsView;

    open spec fn view(&self) -> ProfileInputsView {
        ProfileInputsView {
            target_user: self.target_user@,
            branch_name: self.branch_name@,
            target_path: self.target_path@,
            temp_artifact: self.temp_artifact@,
            time_zone: self.time_zone@,
            display_name: self.display_name@,
            include_private: self.include_private@,
            repositories_affiliations: self.repositories_affiliations@,
            plugin_repositories_affiliations: self.plugin_repositories_affiliations@,
            plugin_activity_visibility: self.plugin_activity_visibility@,
            plugin_code_visibility: self.plugin_code_visibility@,
            plugin_achievements_secrets: self.plugin_achievements_secrets@,
        }
    }
}

/// Normalized repository render inputs.
#[derive(Debug, Clone)]
pub struct RepositoryInputs {
    pub target_owner: String,
    pub target_repo: String,
    pub target_path: String,
    pub temp_artifact: String,
    pub branch_name: String,
    pub contributors_branch: String,
    pub time_zone: String,
}

/// What a [`RepositoryInputs`] holds, as plain text.
pub struct RepositoryInputsView {
    pub target_owner: Seq<char>,
    pub target_repo: Seq<char>,
    pub target_path: Seq<char>,
    pub temp_artifact: Seq<char>,
    pub branch_name: Seq<char>,
    pub contributors_branch: Seq<char>,
    pub time_zone: Seq<char>,
}

impl View for RepositoryInputs {
    type V = RepositoryInputsView;

    open spec fn view(&self) -> RepositoryInputsView {
        RepositoryInputsView {
            target_owner: self.target_owner@,
            target_repo: self.target_repo@,
            target_path: self.target_path@,
            temp_artifact: self.temp_artifact@,
            branch_name: self.branch_name@,
            contributors_branch: self.contributors_branch@,
            time_zone: self.time_zone@,
        }
    }
}

/// The input where it is present and not empty, else the default.
pub open spec fn input_or(value: Option<Seq<char>>, default: Seq<char>) -> Seq<char> {
    match value {
        Some(text) => if text.len() > 0 {
            text
        } else {
            default
        },
        None => default,
    }
}

/// The flag that a lowercase text names: `false`, `0`, `no` and the empty
/// text are false; `true`, `1` and `yes` are true; no other text is a flag.
pub open spec fn named_flag(lowered: Seq<char>) -> Option<bool> {
    if lowered == ""@ || lowered == "false"@ || lowered == "0"@ || lowered == "no"@ {
        Some(false)
    } else if lowered == "true"@ || lowered == "1"@ || lowered == "yes"@ {
        Some(true)
    } else {
        None
    }
}

/// The profile inputs for a user and a flag, with the given overrides.
pub open spec fn profile_inputs_with(
    target_user: Seq<char>,
    branch_name: Option<Seq<char>>,
    target_path: Option<Seq<char>>,
    temp_artifact: Option<Seq<char>>,
    time_zone: Option<Seq<char>>,
    display_name: Option<Seq<char>>,
    include_private: bool,
) -> ProfileInputsView {
    ProfileInputsView {
        target_user,
        branch_name: input_or(branch_name, "ci/metrics-refresh-profile"@),
        target_path: input_or(target_path, "metrics/profile.svg"@),
        temp_artifact: input_or(temp_artifact, ".metrics-tmp/profile.svg"@),
        time_zone: input_or(time_zone, "Asia/Ho_Chi_Minh"@),
        display_name: input_or(display_name, "profile"@),
        include_private: if include_private {
            "true"@
        } else {
            "false"@
        },
        repositories_affiliations: if include_private {
            "owner, collaborator, organization_member"@
        } else {
            "owner, organization_member"@
        },
        plugin_repositories_affiliations: if include_private {
            "owner, collaborator, organization_member"@
        } else {
            "owner, organization_member"@
        },
        plugin_activity_visibility: if include_private {
            "all"@
        } else {
            "public"@
        },
        plugin_code_visibility: if include_private {
            "all"@
        } else {
            "public"@
        },
        plugin_achievements_secrets: if include_private {
            "yes"@
        } else {
            "no"@
        },
    }
}

/// The normalized profile inputs, or the message of the first rule that the
/// inputs violate: the user must be given, and the flag, read without
/// regard to case, must name a boolean.
pub open spec fn normalized_profile_inputs(
    target_user: Seq<char>,
    branch_name: Option<Seq<char>>,
    target_path: Option<Seq<char>>,
    temp_artifact: Option<Seq<char>>,
    time_zone: Option<Seq<char>>,
    display_name: Option<Seq<char>>,
    include_private: Option<Seq<char>>,
) -> Result<ProfileInputsView, Seq<char>> {
    if target_user.len() == 0 {
        Err("target_user must be provided"@)
    } else {
        match named_flag(
            lowercase_form(
                match include_private {
                    Some(text) => text,
                    None => ""@,
                },
            ),
        ) {
            None => Err("include_private must be a boolean value"@),
            Some(flag) => Ok(
                profile_inputs_with(
                    target_user,
                    branch_name,
                    target_path,
                    temp_artifact,
                    time_zone,
                    display_name,
                    flag,
                ),
            ),
        }
    }
}

/// The input where it is present and not empty, else the default.
fn input_or_default(value: Option<&str>, default: &str) -> (r: String)
    ensures
        r@ == input_or(borrowed_view(value), default@),
{
    match value {
        Some(text) => if text.is_empty() {
            String::from_str(default)
        } else {
            String::from_str(text)
        },
        None => String::from_str(default),
    }
}

/// Reads a flag from a text that is already in lowercase.
pub fn flag_of(lowered: &str) -> (r: Option<bool>)
    ensures
        r == named_flag(lowered@),
{
    if text_eq(lowered, "") || text_eq(lowered, "false") || text_eq(lowered, "0") || text_eq(
        lowered,
        "no",
    ) {
        Some(false)
    } else if text_eq(lowered, "true") || text_eq(lowered, "1") || text_eq(lowered, "yes") {
        Some(true)
    } else {
        None
    }
}

/// Builds the profile inputs for a user and a flag that are already
/// checked.
pub fn profile_inputs_for(
    target_user: &str,
    branch_name: Option<&str>,
    target_path: Option<&str>,
    temp_artifact: Option<&str>,
    time_zone: Option<&str>,
    display_name: Option<&str>,
    include_private: bool,
) -> (r: ProfileInputs)
    ensures
        r@ == profile_inputs_with(
            target_user@,
            borrowed_view(branch_name),
            borrowed_view(target_path),
            borrowed_view(temp_artifact),
            borrowed_view(time_zone),
            borrowed_view(display_name),
            include_private,
        ),
{
    let affiliations = if include_private {
        "owner, collaborator, organization_member"
    } else {
        "owner, organization_member"
    };
    let visibility = if include_private {
        "all"
    } else {
        "public"
    };
    ProfileInputs {
        target_user: String::from_str(target_user),
        branch_name: input_or_default(branch_name, "ci/metrics-refresh-profile"),
        target_path: input_or_default(target_path, "metrics/profile.svg"),
        temp_artifact: input_or_default(temp_artifact, ".metrics-tmp/profile.svg"),
        time_zone: input_or_default(time_zone, "Asia/Ho_Chi_Minh"),
        display_name: input_or_default(display_name, "profile"),
        include_private: String::from_str(
            if include_private {
                "true"
            } else {
                "false"
            },
        ),
        repositories_affiliations: String::from_str(affiliations),
        plugin_repositories_affiliations: String::from_str(affiliations),
        plugin_activity_visibility: String::from_str(visibility),
        plugin_code_visibility: String::from_str(visibility),
        plugin_achievements_secrets: String::from_str(
            if include_private {
                "yes"
            } else {
                "no"
            },
        ),
    }
}

/// Normalizes profile render inputs with defaults and validation.
pub fn normalize_profile_inputs(
    target_user: &str,
    branch_name: Option<&str>,
    target_path: Option<&str>,
    temp_artifact: Option<&str>,
    time_zone: Option<&str>,
    display_name: Option<&str>,
    include_private: Option<&str>,
) -> (r: Result<ProfileInputs, Error>)
    ensures
        match r {
            Ok(inputs) => normalized_profile_inputs(
                target_user@,
                borrowed_view(branch_name),
                borrowed_view(target_path),
                borrowed_view(temp_artifact),
                borrowed_view(time_zone),
                borrowed_view(display_name),
                borrowed_view(include_private),
            ) == Ok::<ProfileInputsView, Seq<char>>(inputs@),
            Err(error) => normalized_profile_inputs(
                target_user@,
                borrowed_view(branch_name),
                borrowed_view(target_path),
                borrowed_view(temp_artifact),
                borrowed_view(time_zone),
                borrowed_view(display_name),
                borrowed_view(include_private),
            ) matches Err(message) && error.is_validation(message),
        },
{
    if target_user.is_empty() {
        return Err(Error::validation("target_user must be provided"));
    }
    let lowered = lowercased(
        match include_private {
            Some(text) => text,
            None => "",
        },
    );
    let flag = match flag_of(lowered.as_str()) {
        Some(flag) => flag,
        None => {
            return Err(Error::validation("include_private must be a boolean value"));
        },
    };
    Ok(
        profile_inputs_for(
            target_user,
            branch_name,
            target_path,
            temp_artifact,
            time_zone,
            display_name,
            flag,
        ),
    )
}

/// The part of `text` before its first `/`, the whole text where it has
/// none.
pub open spec fn before_slash(text: Seq<char>) -> Seq<char> {
    text.take(position_of(text, '/') as int)
}

/// The owner of the repository: the input where it is present and not
/// empty, else the owner of the enclosing repository.
pub open spec fn resolved_owner(target_owner: Option<Seq<char>>, github_repo: Seq<char>) -> Seq<
    char,
> {
    input_or(target_owner, before_slash(github_repo))
}

/// The contributors branch of the inputs: `main` where the input is missing
/// or empty, else the trimmed input, which must be neither empty nor hold
/// whitespace.
pub open spec fn resolved_contributors_branch(input: Option<Seq<char>>) -> Result<
    Seq<char>,
    Seq<char>,
> {
    let value = match input {
        Some(text) => if text.len() > 0 {
            trim(text)
        } else {
            "main"@
        },
        None => "main"@,
    };
    if value.len() == 0 {
        Err("contributors_branch cannot be empty"@)
    } else if has_whitespace(value) {
        Err("contributors_branch cannot contain whitespace"@)
    } else {
        Ok(value)
    }
}

/// The normalized repository inputs, or the message of the first rule that
/// the inputs violate: the repository must be given, and the contributors
/// branch must be a name.
pub open spec fn normalized_repository_inputs(
    target_repo: Seq<char>,
    target_owner: Option<Seq<char>>,
    github_repo: Seq<char>,
    target_path: Option<Seq<char>>,
    temp_artifact: Option<Seq<char>>,
    branch_name: Option<Seq<char>>,
    contributors_branch: Option<Seq<char>>,
    time_zone: Option<Seq<char>>,
) -> Result<RepositoryInputsView, Seq<char>> {
    if target_repo.len() == 0 {
        Err("target_repo must be provided"@)
    } else {
        match resolved_contributors_branch(contributors_branch) {
            Err(message) => Err(message),
            Ok(branch) => Ok(
                RepositoryInputsView {
                    target_owner: resolved_owner(target_owner, github_repo),
                    target_repo,
                    target_path: input_or(target_path, "metrics/"@ + target_repo + ".svg"@),
                    temp_artifact: input_or(
                        temp_artifact,
                        ".metrics-tmp/"@ + target_repo + ".svg"@,
                    ),
                    branch_name: input_or(branch_name, "ci/metrics-refresh-"@ + target_repo),
                    contributors_branch: branch,
                    time_zone: input_or(time_zone, "Asia/Ho_Chi_Minh"@),
                },
            ),
        }
    }
}

/// The contributors branch of the inputs.
fn resolve_contributors_branch(input: Option<&str>) -> (r: Result<String, Error>)
    ensures
        match r {
            Ok(value) => resolved_contributors_branch(borrowed_view(input)) == Ok::<
                Seq<char>,
                Seq<char>,
            >(value@),
            Err(error) => resolved_contributors_branch(borrowed_view(input)) matches Err(message)
                && error.is_validation(message),
        },
{
    proof {
        reveal_strlit("main");
        trim_of_tight("main"@);
        assert(!has_whitespace("main"@)) by {
            assert forall|k: int| 0 <= k < "main"@.len() implies !is_whitespace(
                #[trigger] "main"@[k],
            ) by {}
        }
    }
    let raw: &str = match input {
        Some(text) => if text.is_empty() {
            "main"
        } else {
            text
        },
        None => "main",
    };
    let chars = to_chars(raw);
    let (start, end) = trim_bounds(&chars);
    if start == end {
        return Err(Error::validation("contributors_branch cannot be empty"));
    }
    let value = to_text(&chars, start, end);
    let kept = to_chars(value.as_str());
    if chars_have_whitespace(&kept) {
        return Err(Error::validation("contributors_branch cannot contain whitespace"));
    }
    Ok(value)
}

/// Normalizes repository render inputs with defaults and validation.
pub fn normalize_repository_inputs(
    target_repo: &str,
    target_owner: Option<&str>,
    github_repo: &str,
    target_path: Option<&str>,
    temp_artifact: Option<&str>,
    branch_name: Option<&str>,
    contributors_branch: Option<&str>,
    time_zone: Option<&str>,
) -> (r: Result<RepositoryInputs, Error>)
    ensures
        match r {
            Ok(inputs) => normalized_repository_inputs(
                target_repo@,
                borrowed_view(target_owner),
                github_repo@,
                borrowed_view(target_path),
                borrowed_view(temp_artifact),
                borrowed_view(branch_name),
                borrowed_view(contributors_branch),
                borrowed_view(time_zone),
            ) == Ok::<RepositoryInputsView, Seq<char>>(inputs@),
            Err(error) => normalized_repository_inputs(
                target_repo@,
                borrowed_view(target_owner),
                github_repo@,
                borrowed_view(target_path),
                borrowed_view(temp_artifact),
                borrowed_view(branch_name),
                borrowed_view(contributors_branch),
                borrowed_view(time_zone),
            ) matches Err(message) && error.is_validation(message),
        },
{
    if target_repo.is_empty() {
        return Err(Error::validation("target_repo must be provided"));
    }
    let enclosing = to_chars(github_repo);
    let slash = position_from(&enclosing, '/', 0);
    assert(enclosing@.skip(0) == enclosing@);
    assert(enclosing@.subrange(0, slash as int) == enclosing@.take(slash as int));
    let enclosing_owner = to_text(&enclosing, 0, slash);
    let owner = input_or_default(target_owner, enclosing_owner.as_str());
    let path = input_or_default(
        target_path,
        String::from_str("metrics/").concat(target_repo).concat(".svg").as_str(),
    );
    let artifact = input_or_default(
        temp_artifact,
        String::from_str(".metrics-tmp/").concat(target_repo).concat(".svg").as_str(),
    );
    let branch = input_or_default(
        branch_name,
        String::from_str("ci/metrics-refresh-").concat(target_repo).as_str(),
    );
    let contrib_branch = match resolve_contributors_branch(contributors_branch) {
        Ok(value) => value,
        Err(error) => {
            return Err(error);
        },
    };
    let tz = input_or_default(time_zone, "Asia/Ho_Chi_Minh");
    Ok(
        RepositoryInputs {
            target_owner: owner,
            target_repo: String::from_str(target_repo),
            target_path: path,
            temp_artifact: artifact,
            branch_name: branch,
            contributors_branch: contrib_branch,
            time_zone: tz,
        },
    )
}

} // verus!
