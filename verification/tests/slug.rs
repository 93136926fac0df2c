use imir::SlugStrategy;

#[test]
fn slug_builder_discards_invalid_and_duplicate_separators() {
    let slug = SlugStrategy::builder("  Multi--Separator__Value  ")
        .build()
        .expect("expected slug to be derived");
    assert_eq!(slug, "multi-separator-value");
}

#[test]
fn slug_builder_returns_none_for_empty_input() {
    assert!(SlugStrategy::builder("   ").build().is_none());
    assert!(SlugStrategy::builder("***").build().is_none());
}

#[test]
fn slug_builder_lowercases_uppercase_characters() {
    let slug = SlugStrategy::builder("HelloWorld").build();
    assert_eq!(slug.as_deref(), Some("helloworld"));
}

#[test]
fn builder_handles_slashes_and_dots() {
    let slug = SlugStrategy::builder("path/to/file.txt").build();
    assert_eq!(slug.as_deref(), Some("path-to-file-txt"));
}

#[test]
fn builder_removes_trailing_hyphens() {
    let slug = SlugStrategy::builder("test---").build();
    assert_eq!(slug.as_deref(), Some("test"));
}

#[test]
fn builder_handles_leading_separators() {
    let slug = SlugStrategy::builder("---test").build();
    assert_eq!(slug.as_deref(), Some("test"));
}

#[test]
fn builder_handles_numbers() {
    let slug = SlugStrategy::builder("test123").build();
    assert_eq!(slug.as_deref(), Some("test123"));
}

#[test]
fn builder_handles_unicode_characters() {
    let slug = SlugStrategy::builder("hello-世界-test").build();
    assert_eq!(slug.as_deref(), Some("hello-test"));
}

#[test]
fn builder_handles_underscores() {
    let slug = SlugStrategy::builder("snake_case_name").build();
    assert_eq!(slug.as_deref(), Some("snake-case-name"));
}

#[test]
fn builder_handles_spaces() {
    let slug = SlugStrategy::builder("word with spaces").build();
    assert_eq!(slug.as_deref(), Some("word-with-spaces"));
}

#[test]
fn builder_handles_special_characters() {
    let slug = SlugStrategy::builder("test!@#$%^&*()").build();
    assert_eq!(slug.as_deref(), Some("test"));
}

#[test]
fn builder_handles_mixed_case_with_separators() {
    let slug = SlugStrategy::builder("My Project/Version 2.0").build();
    assert_eq!(slug.as_deref(), Some("my-project-version-2-0"));
}

#[test]
fn slug_strategy_copy_trait() {
    let builder1 = SlugStrategy::builder("test");
    let builder2 = builder1;
    assert_eq!(builder1.build(), builder2.build());
}

#[test]
fn slug_strategy_clone_trait() {
    let builder = SlugStrategy::builder("clone-test");
    let cloned = builder;
    assert_eq!(builder.build(), cloned.build());
}

#[test]
fn slug_strategy_debug_format() {
    let builder = SlugStrategy::builder("debug");
    let debug_str = format!("{:?}", builder);
    assert!(debug_str.contains("SlugStrategy"));
    assert!(debug_str.contains("source"));
}

#[test]
fn builder_handles_only_separators() {
    let slug = SlugStrategy::builder("---___...///").build();
    assert!(slug.is_none());
}

#[test]
fn builder_preserves_capacity_optimization() {
    let input = "a".repeat(100);
    let slug = SlugStrategy::builder(&input).build();
    assert_eq!(slug.as_deref(), Some(input.as_str()));
}

fn is_slug(text: &str) -> bool {
    !text.is_empty()
        && !text.starts_with('-')
        && !text.ends_with('-')
        && !text.contains("--")
        && text.chars().all(|c| matches!(c, 'a'..='z' | '0'..='9' | '-'))
}

#[test]
fn derived_slugs_have_the_slug_shape() {
    let inputs = [
        " Docs/Overview  ",
        "A",
        "a--b",
        "_x_",
        "Ünïcödé text",
        "9 lives",
        "tab\tseparated\nlines",
        "\u{3000}wide\u{2003}spaces\u{00A0}",
        "UPPER.lower/MiXed",
    ];
    for input in inputs {
        let slug = SlugStrategy::builder(input).build().expect("expected a slug");
        assert!(is_slug(&slug), "{input:?} gave {slug:?}");
    }
    assert_eq!(SlugStrategy::builder(" Docs/Overview  ").build().as_deref(), Some("docs-overview"));
    assert_eq!(SlugStrategy::builder("Ünïcödé text").build().as_deref(), Some("n-c-d-text"));
    assert_eq!(
        SlugStrategy::builder("\u{3000}wide\u{2003}spaces\u{00A0}").build().as_deref(),
        Some("wide-spaces")
    );
}

#[test]
fn inputs_without_letters_or_digits_have_no_slug() {
    for input in ["", " ", "-", "_./ -", "世界", "é", "\u{0085}\u{2028}", "!?"] {
        assert_eq!(SlugStrategy::builder(input).build(), None, "{input:?}");
    }
}

#[test]
fn deriving_from_a_slug_returns_it_unchanged() {
    for slug in ["a", "hello-world", "my-project-version-2-0", "0", "a-1-b-2"] {
        assert_eq!(SlugStrategy::builder(slug).build().as_deref(), Some(slug));
    }
    let once = SlugStrategy::builder("  Some -- Mixed__Input ").build().expect("slug");
    let twice = SlugStrategy::builder(&once).build().expect("slug");
    assert_eq!(once, twice);
}
