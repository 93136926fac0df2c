//! The decisions of the idempotent creation of a pull request: how the
//! output of the hosting tool is read, which arguments it is given, and
//! what the operation reports. The tool itself is run by the caller.

use vstd::prelude::*;
use vstd::string::StringExecFns;
use crate::error::Error;
use crate::text::{decimal, decimal_text, text_eq, text_views, trim, trimmed};

verus! {

/// Result of the creation of a pull request.
#[derive(Debug, Clone)]
pub struct PrCreateResult {
    /// Whether a new pull request was created.
    pub created: bool,
    /// Number of the pull request that was already open.
    pub pr_number: Option<u64>,
    /// Address of the pull request that was created.
    pub pr_url: Option<String>,
    /// Message describing the result.
    pub message: String,
}

/// The value of a sequence of decimal digits.
pub open spec fn digits_value(digits: Seq<char>) -> nat
    decreases digits.len(),
{
    if digits.len() == 0 {
        0
    } else {
        digits_value(digits.drop_last()) * 10 + (digits.last() as nat - '0' as nat) as nat
    }
}

/// Whether every character is a decimal digit.
pub open spec fn all_digits(digits: Seq<char>) -> bool {
    forall|k: int| 0 <= k < digits.len() ==> '0' <= #[trigger] digits[k] <= '9'
}

/// The number that a text writes in base ten: an optional `+` followed by
/// one or more digits, and nothing else.
pub open spec fn written_number(text: Seq<char>) -> Option<nat> {
    let digits = if text.len() > 0 && text[0] == '+' {
        text.drop_first()
    } else {
        text
    };
    if digits.len() > 0 && all_digits(digits) {
        Some(digits_value(digits))
    } else {
        None
    }
}

/// Whether a text writes a number that fits sixty-four bits.
pub open spec fn writes_u64(text: Seq<char>) -> bool {
    written_number(text) matches Some(value) && value <= u64::MAX
}

/// What `str::parse::<u64>` gives for a text: the number, or the message of
/// its error.
pub uninterp spec fn parsed_u64(text: Seq<char>) -> Result<u64, Seq<char>>;

/// `str::parse::<u64>`: the number that the text writes in base ten, or the
/// `Display` text of the error. The text is read as a number exactly where
/// it is an optional `+` followed by digits alone and the number fits.
#[verifier::external_body]
fn parse_u64(text: &str) -> (r: Result<u64, String>)
    ensures
        match r {
            Ok(number) => parsed_u64(text@) == Ok::<u64, Seq<char>>(number) && written_number(
                text@,
            ) == Some(number as nat),
            Err(message) => parsed_u64(text@) == Err::<u64, Seq<char>>(message@) && !writes_u64(
                text@,
            ),
        },
{
    text.parse::<u64>().map_err(|error| error.to_string())
}

/// The number of the open pull request that a listing names, given what the
/// parser made of its trimmed output: none where the listing failed or
/// printed nothing or `null`.
pub open spec fn listed_pr(success: bool, output: Seq<char>, parsed: Result<u64, Seq<char>>) -> Result<
    Option<u64>,
    Seq<char>,
> {
    if !success || trim(output).len() == 0 || trim(output) == "null"@ {
        Ok(None)
    } else {
        match parsed {
            Ok(number) => Ok(Some(number)),
            Err(message) => Err("invalid PR number: "@ + message),
        }
    }
}

/// Reads the number of the open pull request from a listing, given what the
/// parser made of its trimmed output.
pub fn pr_from_listing(success: bool, output: &str, parsed: Result<u64, String>) -> (r: Result<
    Option<u64>,
    Error,
>)
    ensures
        match r {
            Ok(number) => listed_pr(
                success,
                output@,
                match parsed {
                    Ok(number) => Ok(number),
                    Err(message) => Err(message@),
                },
            ) == Ok::<Option<u64>, Seq<char>>(number),
            Err(error) => listed_pr(
                success,
                output@,
                match parsed {
                    Ok(number) => Ok(number),
                    Err(message) => Err(message@),
                },
            ) matches Err(message) && error.is_validation(message),
        },
{
    if !success {
        return Ok(None);
    }
    let printed = trimmed(output);
    if printed.as_str().unicode_len() == 0 || text_eq(printed.as_str(), "null") {
        return Ok(None);
    }
    match parsed {
        Ok(number) => Ok(Some(number)),
        Err(message) => Err(
            Error::Validation {
                message: String::from_str("invalid PR number: ").concat(message.as_str()),
            },
        ),
    }
}

/// Reads the number of the open pull request from the output of
/// `gh pr list --json number --jq .[0].number`.
pub fn read_existing_pr(success: bool, output: &str) -> (r: Result<Option<u64>, Error>)
    ensures
        r matches Ok(Some(number)) ==> written_number(trim(output@)) == Some(number as nat),
        success && writes_u64(trim(output@)) ==> r matches Ok(Some(_)),
        match r {
            Ok(number) => listed_pr(success, output@, parsed_u64(trim(output@))) == Ok::<
                Option<u64>,
                Seq<char>,
            >(number),
            Err(error) => listed_pr(success, output@, parsed_u64(trim(output@))) matches Err(
                message,
            ) && error.is_validation(message),
        },
{
    let printed = trimmed(output);
    let parsed = parse_u64(printed.as_str());
    proof {
        reveal_strlit("null");
        if printed@ == "null"@ {
            assert(printed@.len() == 4);
            assert(printed@[0] == 'n');
            assert(!('0' <= printed@[0] <= '9'));
            assert(!all_digits(printed@));
        }
    }
    pr_from_listing(success, output, parsed)
}

/// The message for a pull request that is already open.
pub open spec fn already_open_message(
    pr_number: u64,
    repo: Seq<char>,
    head: Seq<char>,
    base: Seq<char>,
) -> Seq<char> {
    "PR #"@ + decimal(pr_number as nat) + " already open for "@ + repo + ":"@ + head + " -> "@
        + base
}

/// The result for a pull request that is already open.
pub fn already_open(pr_number: u64, repo: &str, head: &str, base: &str) -> (r: PrCreateResult)
    ensures
        !r.created,
        r.pr_number == Some(pr_number),
        r.pr_url is None,
        r.message@ == already_open_message(pr_number, repo@, head@, base@),
{
    PrCreateResult {
        created: false,
        pr_number: Some(pr_number),
        pr_url: None,
        message: String::from_str("PR #").concat(decimal_text(pr_number).as_str()).concat(
            " already open for ",
        ).concat(repo).concat(":").concat(head).concat(" -> ").concat(base),
    }
}

/// The result for a pull request that was created.
pub fn created(pr_url: &str) -> (r: PrCreateResult)
    ensures
        r.created,
        r.pr_number is None,
        r.pr_url matches Some(url) && url@ == pr_url@,
        r.message@ == "Created PR: "@ + pr_url@,
{
    PrCreateResult {
        created: true,
        pr_number: None,
        pr_url: Some(String::from_str(pr_url)),
        message: String::from_str("Created PR: ").concat(pr_url),
    }
}

/// The address that the creation of a pull request printed, or the error of
/// a creation that failed.
pub fn read_created_pr(success: bool, output: &str, errors: &str) -> (r: Result<String, Error>)
    ensures
        match r {
            Ok(url) => success && url@ == trim(output@),
            Err(error) => !success && error.is_service("gh pr create failed: "@ + errors@),
        },
{
    if !success {
        return Err(
            Error::Service { message: String::from_str("gh pr create failed: ").concat(errors) },
        );
    }
    Ok(trimmed(output))
}

/// The arguments that name the labels: `--label` before each.
pub open spec fn label_arguments(labels: Seq<Seq<char>>) -> Seq<Seq<char>>
    decreases labels.len(),
{
    if labels.len() == 0 {
        Seq::empty()
    } else {
        label_arguments(labels.drop_last()).push("--label"@).push(labels.last())
    }
}

/// The arguments of the creation of a pull request.
pub open spec fn create_arguments(
    repo: Seq<char>,
    head: Seq<char>,
    base: Seq<char>,
    title: Seq<char>,
    body: Seq<char>,
    labels: Seq<Seq<char>>,
) -> Seq<Seq<char>> {
    seq![
        "pr"@,
        "create"@,
        "-R"@,
        repo,
        "--head"@,
        head,
        "--base"@,
        base,
        "--title"@,
        title,
        "--body"@,
        body,
    ] + label_arguments(labels)
}

/// The views of a sequence of borrowed texts.
pub open spec fn label_views(all: Seq<&str>) -> Seq<Seq<char>> {
    Seq::new(all.len(), |k: int| all[k]@)
}

/// Builds the arguments of the creation of a pull request.
pub fn create_pr_arguments(
    repo: &str,
    head: &str,
    base: &str,
    title: &str,
    body: &str,
    labels: &[&str],
) -> (r: Vec<String>)
    ensures
        text_views(r@) == create_arguments(
            repo@,
            head@,
            base@,
            title@,
            body@,
            label_views(labels@),
        ),
{
    let mut args: Vec<String> = Vec::new();
    args.push(String::from_str("pr"));
    args.push(String::from_str("create"));
    args.push(String::from_str("-R"));
    args.push(String::from_str(repo));
    args.push(String::from_str("--head"));
    args.push(String::from_str(head));
    args.push(String::from_str("--base"));
    args.push(String::from_str(base));
    args.push(String::from_str("--title"));
    args.push(String::from_str(title));
    args.push(String::from_str("--body"));
    args.push(String::from_str(body));
    let ghost fixed = text_views(args@);
    let ghost names = label_views(labels@);
    assert(fixed =~= seq![
        "pr"@,
        "create"@,
        "-R"@,
        repo@,
        "--head"@,
        head@,
        "--base"@,
        base@,
        "--title"@,
        title@,
        "--body"@,
        body@,
    ]);
    let mut at: usize = 0;
    assert(names.take(0) == Seq::<Seq<char>>::empty());
    assert(fixed + Seq::<Seq<char>>::empty() == fixed);
    while at < labels.len()
        invariant
            at <= labels.len(),
            names == label_views(labels@),
            text_views(args@) == fixed + label_arguments(names.take(at as int)),
        decreases labels.len() - at,
    {
        proof {
            let upto = names.take(at as int + 1);
            assert(upto.drop_last() == names.take(at as int));
            assert(upto.last() == labels@[at as int]@);
        }
        let ghost before = text_views(args@);
        args.push(String::from_str("--label"));
        args.push(String::from_str(labels[at]));
        assert(text_views(args@) == before.push("--label"@).push(labels@[at as int]@));
        assert(before.push("--label"@).push(labels@[at as int]@) == fixed + label_arguments(
            names.take(at as int),
        ).push("--label"@).push(labels@[at as int]@));
        at += 1;
    }
    assert(names.take(labels.len() as int) == names);
    args
}

} // verus!
