use jellyfin_desktop::config::device_name::{default_device_name, normalize_device_name, DEVICE_NAME_MAX};

const PLATFORM: &str = "platform-host";

#[test]
fn trims_leading_and_trailing_whitespace() {
    assert_eq!(normalize_device_name("  foo  ", PLATFORM), "foo");
    assert_eq!(normalize_device_name("\t\nfoo\r\n", PLATFORM), "foo");
}

#[test]
fn collapses_internal_whitespace_runs() {
    assert_eq!(normalize_device_name("foo  bar", PLATFORM), "foo bar");
    assert_eq!(normalize_device_name("foo\t\tbar", PLATFORM), "foo bar");
    assert_eq!(
        normalize_device_name("foo \t\nbar   baz", PLATFORM),
        "foo bar baz"
    );
}

#[test]
fn whitespace_only_is_empty() {
    assert_eq!(normalize_device_name("   \t\n  ", PLATFORM), "");
}

#[test]
fn preserves_single_internal_spaces() {
    assert_eq!(
        normalize_device_name("Andrew's MacBook Pro", PLATFORM),
        "Andrew's MacBook Pro"
    );
}

#[test]
fn clamps_to_64_chars() {
    let long_name = "x".repeat(100);
    assert_eq!(normalize_device_name(&long_name, PLATFORM), "x".repeat(64));
}

#[test]
fn clamps_after_whitespace_normalization() {
    let padded = format!("  {}  ", "x".repeat(70));
    assert_eq!(normalize_device_name(&padded, PLATFORM).len(), 64);
}

#[test]
fn clears_override_when_value_equals_platform_default() {
    assert_eq!(normalize_device_name(PLATFORM, PLATFORM), "");
}

#[test]
fn clears_override_when_whitespace_padded_default() {
    let padded = format!("  {}  ", PLATFORM);
    assert_eq!(normalize_device_name(&padded, PLATFORM), "");
}

#[test]
fn vertical_tab_and_form_feed_are_blank() {
    assert_eq!(normalize_device_name("\u{0b}a\u{0c}b", PLATFORM), "a b");
}

#[test]
fn other_unicode_blanks_are_kept() {
    assert_eq!(normalize_device_name("a\u{a0}b", PLATFORM), "a\u{a0}b");
}

#[test]
fn names_are_cut_by_characters() {
    let name = "\u{e9}".repeat(100);
    let cleaned = normalize_device_name(&name, PLATFORM);
    assert_eq!(cleaned.chars().count(), DEVICE_NAME_MAX);
    assert_eq!(cleaned, "\u{e9}".repeat(64));
}

#[test]
fn cleaning_a_clean_name_changes_nothing() {
    let once = normalize_device_name("  living   room\ttv ", PLATFORM);
    assert_eq!(once, "living room tv");
    assert_eq!(normalize_device_name(&once, PLATFORM), once);
}

#[test]
fn a_name_cut_after_a_space_is_cleaned_once_more() {
    let name = format!("{} y", "x".repeat(63));
    let once = normalize_device_name(&name, PLATFORM);
    assert_eq!(once, format!("{} ", "x".repeat(63)));
    assert_eq!(normalize_device_name(&once, PLATFORM), "x".repeat(63));
}

#[test]
fn only_the_words_of_a_name_matter() {
    assert_eq!(
        normalize_device_name("a b", PLATFORM),
        normalize_device_name("\n a \t b\r", PLATFORM)
    );
}

#[test]
fn the_host_name_ends_at_its_first_zero() {
    assert_eq!(default_device_name(0, b"studio\0rest"), "studio");
    assert_eq!(default_device_name(0, b"studio"), "studio");
    assert_eq!(default_device_name(0, b"\0studio"), "");
}

#[test]
fn a_failed_lookup_gives_no_host_name() {
    assert_eq!(default_device_name(-1, b"studio\0"), "");
}

#[test]
fn the_host_name_is_decoded_and_cut() {
    assert_eq!(default_device_name(0, "k\u{fc}che\0".as_bytes()), "k\u{fc}che");
    assert_eq!(default_device_name(0, b"a\xffb\0"), "a\u{fffd}b");
    let long = vec![b'h'; 80];
    assert_eq!(default_device_name(0, &long), "h".repeat(64));
}
