use imir::normalizer::{normalize_identifier, normalize_path_like};
use imir::readme::replace_section;
use imir::{extract_repo_from_readme, SlugStrategy};

/// A small generator of repeatable pseudo-random numbers.
struct Numbers(u64);

impl Numbers {
    fn next(&mut self) -> u64 {
        self.0 = self.0.wrapping_mul(6364136223846793005).wrapping_add(1442695040888963407);
        self.0 >> 33
    }

    fn text(&mut self, alphabet: &[&str], longest: u64) -> String {
        let length = self.next() % (longest + 1);
        (0..length).map(|_| alphabet[(self.next() % alphabet.len() as u64) as usize]).collect()
    }
}

fn slug_by_std(source: &str) -> Option<String> {
    let mut words: Vec<String> = Vec::new();
    for word in source.split(|c: char| !c.is_ascii_alphanumeric()) {
        if !word.is_empty() {
            words.push(word.to_ascii_lowercase());
        }
    }
    if words.is_empty() {
        None
    } else {
        Some(words.join("-"))
    }
}

#[test]
fn slugs_are_the_words_joined_by_hyphens() {
    let alphabet = ["a", "B", "z", "0", "9", "-", "_", " ", ".", "/", "é", "世", "\t", "\u{3000}", "!"];
    let mut numbers = Numbers(7);
    for _ in 0..4000 {
        let source = numbers.text(&alphabet, 12);
        assert_eq!(SlugStrategy::builder(&source).build(), slug_by_std(&source), "{source:?}");
    }
}

fn repo_by_std(readme: &str) -> Option<String> {
    if !readme.contains("badge.svg") {
        return None;
    }
    for line in readme.lines() {
        if !line.contains(".svg") {
            continue;
        }
        for pattern in ["./metrics/", "metrics/", "/metrics/"] {
            if let Some(at) = line.find(pattern) {
                let after = &line[at + pattern.len()..];
                if let Some(end) = after.find(".svg") {
                    let name = &after[..end];
                    if !name.is_empty() && !name.contains('/') {
                        return Some(name.to_string());
                    }
                }
            }
        }
    }
    None
}

#[test]
fn repositories_are_read_like_std_reads_them() {
    let alphabet = [
        "badge.svg", "metrics/", "./metrics/", "/metrics/", ".svg", "/", "a", "é", "\n", "\r\n",
        "\r", " ", "x-y", ".",
    ];
    let mut numbers = Numbers(11);
    for _ in 0..4000 {
        let readme = numbers.text(&alphabet, 10);
        assert_eq!(extract_repo_from_readme(&readme), repo_by_std(&readme), "{readme:?}");
    }
}

const UPDATE_MARKER: &str = "<!-- IMIR will update this table automatically -->";
const DETAILS_END_MARKER: &str = "</details>";

fn section_by_std(content: &str, start_marker: &str, new_content: &str) -> Result<String, String> {
    let summary = content
        .find(start_marker)
        .ok_or_else(|| format!("summary marker not found: {start_marker}"))?;
    let from = summary + start_marker.len();
    let update = content[from..].find(UPDATE_MARKER).ok_or("update marker not found")? + from;
    let kept = update + UPDATE_MARKER.len();
    let end = content[kept..].find(DETAILS_END_MARKER).ok_or("details end marker not found")? + kept;
    Ok(format!("{}\n\n{}\n\n{}", &content[..kept], new_content, &content[end..]))
}

#[test]
fn sections_are_replaced_like_std_replaces_them() {
    let alphabet = ["<s>", UPDATE_MARKER, DETAILS_END_MARKER, "é", "text ", "\n", "<"];
    let mut numbers = Numbers(13);
    for _ in 0..3000 {
        let content = numbers.text(&alphabet, 8);
        let marker = if numbers.next() % 4 == 0 { "" } else { "<s>" };
        let ours = replace_section(&content, marker, "NEW").map_err(|error| match error {
            imir::Error::Validation { message } => message,
            other => panic!("expected a validation error, got {other:?}"),
        });
        assert_eq!(ours, section_by_std(&content, marker, "NEW"), "{content:?}");
    }
}

#[test]
fn identifiers_are_trimmed_like_std_trims_them() {
    let alphabet = ["a", " ", "\t", "\u{00A0}", "\u{2009}", "b", "/", "\u{FEFF}", "\n"];
    let mut numbers = Numbers(17);
    for _ in 0..3000 {
        let input = numbers.text(&alphabet, 6);
        let trimmed = input.trim();
        let identifier = normalize_identifier(&input, "f").ok();
        let expected = (!trimmed.is_empty() && !trimmed.chars().any(char::is_whitespace))
            .then(|| trimmed.to_string());
        assert_eq!(identifier, expected, "{input:?}");
        let path = normalize_path_like(&input, "f").ok();
        assert_eq!(path, (!trimmed.is_empty()).then(|| trimmed.to_string()), "{input:?}");
    }
}
