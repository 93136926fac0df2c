//! The badge tables of a README: one section for each kind of target,
//! rewritten between the section's update marker and the end of its
//! `<details>` block.

use vstd::prelude::*;
use vstd::string::StringExecFns;
use crate::config::TargetKind;
use crate::error::Error;
use crate::normalizer::{target_views, RenderTarget, RenderTargetView, TargetsDocument};
use crate::text::{
    chars_eq, copy_chars, find, find_first, occurs_at, push_char, push_chars, to_chars, to_text,
};

verus! {

/// The summary line that opens the section of open-source repositories.
pub open spec fn open_source_marker() -> Seq<char> {
    "<summary>Open-source repositories</summary>"@
}

/// The summary line that opens the section of private repositories.
pub open spec fn private_marker() -> Seq<char> {
    "<summary>Private repositories</summary>"@
}

/// The summary line that opens the section of profile badges.
pub open spec fn profile_marker() -> Seq<char> {
    "<summary>Profile badges</summary>"@
}

/// The comment after which a section is rewritten.
pub open spec fn update_marker() -> Seq<char> {
    "<!-- IMIR will update this table automatically -->"@
}

/// The tag before which the rewritten part of a section ends.
pub open spec fn details_end_marker() -> Seq<char> {
    "</details>"@
}

/// What stands for `c` in HTML text.
pub open spec fn html_entity(c: char) -> Seq<char> {
    if c == '&' {
        "&amp;"@
    } else if c == '<' {
        "&lt;"@
    } else if c == '>' {
        "&gt;"@
    } else if c == '"' {
        "&quot;"@
    } else if c == '\'' {
        "&#x27;"@
    } else {
        seq![c]
    }
}

/// `s` with each character replaced by what stands for it in HTML text.
pub open spec fn html_escaped(s: Seq<char>) -> Seq<char>
    decreases s.len(),
{
    if s.len() == 0 {
        Seq::empty()
    } else {
        html_escaped(s.drop_last()) + html_entity(s.last())
    }
}

/// Escapes the characters `&`, `<`, `>`, `"` and `'` for HTML text.
pub fn escape_html(text: &str) -> (r: String)
    ensures
        r@ == html_escaped(text@),
{
    let value = to_chars(text);
    let mut escaped = String::new();
    let mut at: usize = 0;
    assert(value@.take(0) == Seq::<char>::empty());
    while at < value.len()
        invariant
            at <= value.len(),
            escaped@ == html_escaped(value@.take(at as int)),
        decreases value.len() - at,
    {
        let character = value[at];
        proof {
            let upto = value@.take(at as int + 1);
            assert(upto.drop_last() == value@.take(at as int));
            assert(upto.last() == character);
            assert(escaped@ + seq![character] == escaped@.push(character));
        }
        if character == '&' {
            escaped.append("&amp;");
        } else if character == '<' {
            escaped.append("&lt;");
        } else if character == '>' {
            escaped.append("&gt;");
        } else if character == '"' {
            escaped.append("&quot;");
        } else if character == '\'' {
            escaped.append("&#x27;");
        } else {
            push_char(&mut escaped, character);
        }
        at += 1;
    }
    assert(value@.take(value.len() as int) == value@);
    escaped
}

/// The address of the published metrics of a slug.
pub open spec fn metrics_url(slug: Seq<char>) -> Seq<char> {
    "https://raw.githubusercontent.com/RAprogramm/infra-metrics-insight-renderer/main/metrics/"@
        + slug + ".svg"@
}

/// The repository name of a target, empty where it has none.
pub open spec fn repository_or_empty(target: RenderTargetView) -> Seq<char> {
    match target.repository {
        Some(name) => name,
        None => Seq::empty(),
    }
}

/// The table row of a repository target.
pub open spec fn repository_row(target: RenderTargetView) -> Seq<char> {
    "\n    <tr>\n      <td><code>"@ + html_escaped(
        target.owner + "/"@ + repository_or_empty(target),
    ) + "</code></td>\n      <td><img alt=\""@ + html_escaped(repository_or_empty(target))
        + " metrics\" src=\""@ + html_escaped(metrics_url(target.slug))
        + "\" /></td>\n    </tr>"@
}

/// The table row of a profile target.
pub open spec fn profile_row(target: RenderTargetView) -> Seq<char> {
    "\n    <tr>\n      <td><code>"@ + html_escaped(target.owner)
        + "</code></td>\n      <td><img alt=\""@ + html_escaped(target.owner)
        + " profile metrics\" src=\""@ + html_escaped(metrics_url(target.slug))
        + "\" /></td>\n    </tr>"@
}

/// The rows of repository targets, in order.
pub open spec fn repository_rows(targets: Seq<RenderTargetView>) -> Seq<char>
    decreases targets.len(),
{
    if targets.len() == 0 {
        Seq::empty()
    } else {
        repository_rows(targets.drop_last()) + repository_row(targets.last())
    }
}

/// The rows of profile targets, in order.
pub open spec fn profile_rows(targets: Seq<RenderTargetView>) -> Seq<char>
    decreases targets.len(),
{
    if targets.len() == 0 {
        Seq::empty()
    } else {
        profile_rows(targets.drop_last()) + profile_row(targets.last())
    }
}

/// The head of a table whose first column is titled `title`.
pub open spec fn table_head(title: Seq<char>) -> Seq<char> {
    "<table>\n  <thead>\n    <tr><th>"@ + title + "</th><th>Badge</th></tr>\n  </thead>\n  <tbody>"@
}

/// The end of a table.
pub open spec fn table_tail() -> Seq<char> {
    "\n  </tbody>\n</table>"@
}

/// The section of open-source repositories: a note where there are none,
/// else a table with one row for each.
pub open spec fn repository_table(targets: Seq<RenderTargetView>) -> Seq<char> {
    if targets.len() == 0 {
        "<p>\n  No open-source repositories registered yet.\n</p>"@
    } else {
        table_head("Repository"@) + repository_rows(targets) + table_tail()
    }
}

/// The section of private repositories: a note where there are none, else a
/// table with one row for each.
pub open spec fn private_section(targets: Seq<RenderTargetView>) -> Seq<char> {
    if targets.len() == 0 {
        "<p>\n  Private dashboards follow the same embedding rules. Publish badges from this section once private projects are registered.\n</p>"@
    } else {
        table_head("Repository"@) + repository_rows(targets) + table_tail()
    }
}

/// The section of profile badges: a note where there are none, else a table
/// with one row for each.
pub open spec fn profile_table(targets: Seq<RenderTargetView>) -> Seq<char> {
    if targets.len() == 0 {
        "<p>\n  No profile badges registered yet.\n</p>"@
    } else {
        table_head("Account"@) + profile_rows(targets) + table_tail()
    }
}

/// The views of a sequence of borrowed targets.
pub open spec fn borrowed_views(targets: Seq<&RenderTarget>) -> Seq<RenderTargetView> {
    Seq::new(targets.len(), |k: int| targets[k]@)
}

/// The address of the published metrics of a slug.
fn metrics_address(slug: &str) -> (r: String)
    ensures
        r@ == metrics_url(slug@),
{
    String::from_str(
        "https://raw.githubusercontent.com/RAprogramm/infra-metrics-insight-renderer/main/metrics/",
    ).concat(slug).concat(".svg")
}

/// The table row of a repository target.
fn repository_row_text(target: &RenderTarget) -> (r: String)
    ensures
        r@ == repository_row(target@),
{
    let repo_name: &str = match &target.repository {
        Some(name) => name.as_str(),
        None => "",
    };
    proof {
        reveal_strlit("");
        assert(""@ =~= Seq::<char>::empty());
    }
    let full_name = target.owner.clone().concat("/").concat(repo_name);
    let address = metrics_address(target.slug.as_str());
    String::from_str("\n    <tr>\n      <td><code>").concat(
        escape_html(full_name.as_str()).as_str(),
    ).concat("</code></td>\n      <td><img alt=\"").concat(escape_html(repo_name).as_str()).concat(
        " metrics\" src=\"",
    ).concat(escape_html(address.as_str()).as_str()).concat("\" /></td>\n    </tr>")
}

/// The table row of a profile target.
fn profile_row_text(target: &RenderTarget) -> (r: String)
    ensures
        r@ == profile_row(target@),
{
    let address = metrics_address(target.slug.as_str());
    String::from_str("\n    <tr>\n      <td><code>").concat(
        escape_html(target.owner.as_str()).as_str(),
    ).concat("</code></td>\n      <td><img alt=\"").concat(
        escape_html(target.owner.as_str()).as_str(),
    ).concat(" profile metrics\" src=\"").concat(escape_html(address.as_str()).as_str()).concat(
        "\" /></td>\n    </tr>",
    )
}

/// The rows of repository targets, in order.
fn repository_rows_text(targets: &[&RenderTarget]) -> (r: String)
    ensures
        r@ == repository_rows(borrowed_views(targets@)),
{
    let ghost views = borrowed_views(targets@);
    let mut rows = String::new();
    let mut at: usize = 0;
    assert(views.take(0) == Seq::<RenderTargetView>::empty());
    while at < targets.len()
        invariant
            at <= targets.len(),
            views == borrowed_views(targets@),
            rows@ == repository_rows(views.take(at as int)),
        decreases targets.len() - at,
    {
        proof {
            let upto = views.take(at as int + 1);
            assert(upto.drop_last() == views.take(at as int));
            assert(upto.last() == targets@[at as int]@);
        }
        let row = repository_row_text(targets[at]);
        rows.append(row.as_str());
        at += 1;
    }
    assert(views.take(targets.len() as int) == views);
    rows
}

/// The rows of profile targets, in order.
fn profile_rows_text(targets: &[&RenderTarget]) -> (r: String)
    ensures
        r@ == profile_rows(borrowed_views(targets@)),
{
    let ghost views = borrowed_views(targets@);
    let mut rows = String::new();
    let mut at: usize = 0;
    assert(views.take(0) == Seq::<RenderTargetView>::empty());
    while at < targets.len()
        invariant
            at <= targets.len(),
            views == borrowed_views(targets@),
            rows@ == profile_rows(views.take(at as int)),
        decreases targets.len() - at,
    {
        proof {
            let upto = views.take(at as int + 1);
            assert(upto.drop_last() == views.take(at as int));
            assert(upto.last() == targets@[at as int]@);
        }
        let row = profile_row_text(targets[at]);
        rows.append(row.as_str());
        at += 1;
    }
    assert(views.take(targets.len() as int) == views);
    rows
}

/// A table with the given title of its first column and the given rows.
fn table_of(title: &str, rows: &str) -> (r: String)
    ensures
        r@ == table_head(title@) + rows@ + table_tail(),
{
    let head = String::from_str("<table>\n  <thead>\n    <tr><th>").concat(title).concat(
        "</th><th>Badge</th></tr>\n  </thead>\n  <tbody>",
    );
    head.concat(rows).concat("\n  </tbody>\n</table>")
}

/// Generates the section of open-source repositories.
pub fn generate_repository_table(targets: &[&RenderTarget]) -> (r: String)
    ensures
        r@ == repository_table(borrowed_views(targets@)),
{
    if targets.len() == 0 {
        return String::from_str("<p>\n  No open-source repositories registered yet.\n</p>");
    }
    let rows = repository_rows_text(targets);
    table_of("Repository", rows.as_str())
}

/// Generates the section of private repositories.
pub fn generate_private_section(targets: &[&RenderTarget]) -> (r: String)
    ensures
        r@ == private_section(borrowed_views(targets@)),
{
    if targets.len() == 0 {
        return String::from_str(
            "<p>\n  Private dashboards follow the same embedding rules. Publish badges from this section once private projects are registered.\n</p>",
        );
    }
    let rows = repository_rows_text(targets);
    table_of("Repository", rows.as_str())
}

/// Generates the section of profile badges.
pub fn generate_profile_table(targets: &[&RenderTarget]) -> (r: String)
    ensures
        r@ == profile_table(borrowed_views(targets@)),
{
    if targets.len() == 0 {
        return String::from_str("<p>\n  No profile badges registered yet.\n</p>");
    }
    let rows = profile_rows_text(targets);
    table_of("Account", rows.as_str())
}

/// The text in which the part of a section that follows its update marker,
/// up to the end of its `<details>` block, is replaced by `new_content`
/// between two blank lines. The section is the one opened by `start_marker`;
/// the update marker is sought after it, and the end of the block after the
/// update marker. The error is the message for the first marker not found.
pub open spec fn replaced_section(
    content: Seq<char>,
    start_marker: Seq<char>,
    new_content: Seq<char>,
) -> Result<Seq<char>, Seq<char>> {
    match find(content, start_marker) {
        None => Err("summary marker not found: "@ + start_marker),
        Some(summary) => {
            let search_from = summary + start_marker.len();
            match find(content.skip(search_from), update_marker()) {
                None => Err("update marker not found"@),
                Some(update) => {
                    let kept = search_from + update + update_marker().len();
                    match find(content.skip(kept), details_end_marker()) {
                        None => Err("details end marker not found"@),
                        Some(end) => Ok(
                            content.take(kept) + "\n\n"@ + new_content + "\n\n"@ + content.skip(
                                kept + end,
                            ),
                        ),
                    }
                },
            }
        },
    }
}

/// Replaces the generated part of the section opened by `start_marker`.
pub fn replace_section(content: &str, start_marker: &str, new_content: &str) -> (r: Result<
    String,
    Error,
>)
    ensures
        match r {
            Ok(text) => replaced_section(content@, start_marker@, new_content@) == Ok::<
                Seq<char>,
                Seq<char>,
            >(text@),
            Err(error) => replaced_section(content@, start_marker@, new_content@) matches Err(
                message,
            ) && error.is_validation(message),
        },
{
    let text = to_chars(content);
    let start = to_chars(start_marker);
    let update = to_chars("<!-- IMIR will update this table automatically -->");
    let details_end = to_chars("</details>");
    let length = text.len();
    let summary = match find_first(&text, &start) {
        Some(at) => at,
        None => {
            return Err(
                Error::Validation {
                    message: String::from_str("summary marker not found: ").concat(start_marker),
                },
            );
        },
    };
    assert(occurs_at(text@, start@, summary as int));
    let search_from = summary + start.len();
    let after_summary = copy_chars(&text, search_from, length);
    let found = match find_first(&after_summary, &update) {
        Some(at) => at,
        None => {
            return Err(Error::validation("update marker not found"));
        },
    };
    assert(occurs_at(after_summary@, update@, found as int));
    let kept = search_from + found + update.len();
    let after_update = copy_chars(&text, kept, length);
    let end = match find_first(&after_update, &details_end) {
        Some(at) => at,
        None => {
            return Err(Error::validation("details end marker not found"));
        },
    };
    assert(occurs_at(after_update@, details_end@, end as int));
    let mut result = to_text(&text, 0, kept);
    result.append("\n\n");
    result.append(new_content);
    result.append("\n\n");
    push_chars(&mut result, &text, kept + end, length);
    Ok(result)
}

/// The targets of one kind, in their order.
pub open spec fn of_kind(targets: Seq<RenderTargetView>, kind: TargetKind) -> Seq<
    RenderTargetView,
>
    decreases targets.len(),
{
    if targets.len() == 0 {
        Seq::empty()
    } else if targets.last().kind == kind {
        of_kind(targets.drop_last(), kind).push(targets.last())
    } else {
        of_kind(targets.drop_last(), kind)
    }
}

/// The targets of one kind, in their order.
fn select_kind(targets: &Vec<RenderTarget>, kind: TargetKind) -> (r: Vec<&RenderTarget>)
    ensures
        borrowed_views(r@) == of_kind(target_views(targets@), kind),
{
    let ghost views = target_views(targets@);
    let mut selected: Vec<&RenderTarget> = Vec::new();
    let mut at: usize = 0;
    assert(views.take(0) == Seq::<RenderTargetView>::empty());
    assert(borrowed_views(selected@) == Seq::<RenderTargetView>::empty());
    while at < targets.len()
        invariant
            at <= targets.len(),
            views == target_views(targets@),
            borrowed_views(selected@) == of_kind(views.take(at as int), kind),
        decreases targets.len() - at,
    {
        proof {
            let upto = views.take(at as int + 1);
            assert(upto.drop_last() == views.take(at as int));
            assert(upto.last() == targets@[at as int]@);
        }
        if targets[at].kind == kind {
            let ghost before = borrowed_views(selected@);
            selected.push(&targets[at]);
            assert(borrowed_views(selected@) == before.push(targets@[at as int]@));
        }
        at += 1;
    }
    assert(views.take(targets.len() as int) == views);
    selected
}

/// A README after an update, and whether the update changed it.
#[derive(Debug, Clone)]
pub struct ReadmeUpdate {
    /// The text of the README after the update.
    pub content: String,
    /// Whether the text differs from the text before the update.
    pub changed: bool,
}

/// The README in which the three sections are rewritten in turn: open-source
/// repositories, private repositories, profile badges. The error is the
/// message for the first marker not found.
pub open spec fn updated_readme(content: Seq<char>, targets: Seq<RenderTargetView>) -> Result<
    Seq<char>,
    Seq<char>,
> {
    match replaced_section(
        content,
        open_source_marker(),
        repository_table(of_kind(targets, TargetKind::OpenSource)),
    ) {
        Err(message) => Err(message),
        Ok(first) => match replaced_section(
            first,
            private_marker(),
            private_section(of_kind(targets, TargetKind::PrivateProject)),
        ) {
            Err(message) => Err(message),
            Ok(second) => replaced_section(
                second,
                profile_marker(),
                profile_table(of_kind(targets, TargetKind::Profile)),
            ),
        },
    }
}

/// Rewrites the badge tables of a README from the targets of a document, and
/// tells whether anything changed.
pub fn render_readme(content: &str, document: &TargetsDocument) -> (r: Result<ReadmeUpdate, Error>)
    ensures
        match r {
            Ok(update) => updated_readme(content@, document@) == Ok::<Seq<char>, Seq<char>>(
                update.content@,
            ) && update.changed == (update.content@ != content@),
            Err(error) => updated_readme(content@, document@) matches Err(message)
                && error.is_validation(message),
        },
{
    let open_source = select_kind(&document.targets, TargetKind::OpenSource);
    let private = select_kind(&document.targets, TargetKind::PrivateProject);
    let profiles = select_kind(&document.targets, TargetKind::Profile);
    let first = match replace_section(
        content,
        "<summary>Open-source repositories</summary>",
        generate_repository_table(open_source.as_slice()).as_str(),
    ) {
        Ok(text) => text,
        Err(error) => {
            return Err(error);
        },
    };
    let second = match replace_section(
        first.as_str(),
        "<summary>Private repositories</summary>",
        generate_private_section(private.as_slice()).as_str(),
    ) {
        Ok(text) => text,
        Err(error) => {
            return Err(error);
        },
    };
    let third = match replace_section(
        second.as_str(),
        "<summary>Profile badges</summary>",
        generate_profile_table(profiles.as_slice()).as_str(),
    ) {
        Ok(text) => text,
        Err(error) => {
            return Err(error);
        },
    };
    let before = to_chars(content);
    let after = to_chars(third.as_str());
    let changed = !chars_eq(&before, &after);
    Ok(ReadmeUpdate { content: third, changed })
}

} // verus!
