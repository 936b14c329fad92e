use houston::format::{clip, format_date, format_time, short_sha, shorten_repo, truncate};
use houston::chrome::{footer_line, MainView};
use houston::status::env_priority;
use houston::text::{contains_str, decimal_string, first_piece, less_text, second_piece_of};

#[test]
fn truncate_cuts_long_names_with_dots() {
    assert_eq!(truncate("my-long-workflow-name-here-and-more", 25), "my-long-workflow-name-...");
    assert_eq!(truncate("short", 25), "short");
    assert_eq!(truncate("exactly-fifteen", 15), "exactly-fifteen");
    assert_eq!(truncate("sixteen-letters!", 15), "sixteen-lett...");
}

#[test]
fn clip_cuts_with_an_ellipsis() {
    assert_eq!(clip("a very long pull request title that exceeds the limit", 20), "a very long pull re\u{2026}");
    assert_eq!(clip("fits", 20), "fits");
}

#[test]
fn format_time_keeps_hours_and_minutes() {
    assert_eq!(format_time(&Some("2024-01-15T10:30:45Z".to_string())), "10:30");
    assert_eq!(format_time(&Some("2024-01-15T08:05:00.123Z".to_string())), "08:05");
    assert_eq!(format_time(&Some("2024-01-15".to_string())), "-");
    assert_eq!(format_time(&None), "-");
}

#[test]
fn format_date_keeps_the_day() {
    assert_eq!(format_date("2024-01-15T10:30:45Z"), "2024-01-15");
    assert_eq!(format_date("no time here"), "no time here");
}

#[test]
fn short_sha_keeps_seven_bytes() {
    assert_eq!(short_sha("abcdef1234567"), "abcdef1");
    assert_eq!(short_sha("abc"), "abc");
}

#[test]
fn shorten_repo_keeps_the_end() {
    assert_eq!(shorten_repo("owner/repo"), "owner/repo");
    assert_eq!(shorten_repo("organization-name/very-long-repository-name"), "...e/very-long-repository-name");
}

#[test]
fn case_folding_uses_the_standard_library() {
    // Lowercasing: "PROD" only matches once folded.
    assert_eq!(env_priority("PRODUCTION"), 0);
    assert_eq!(env_priority("Staging-EU"), 1);
    // A failure notice is recognized whatever its case.
    let notice = footer_line(MainView::Repos, Some("DEPLOY ERROR"), false);
    assert_eq!(notice.spans[0].style.bg, Some(houston::panel::Color::Red));
}

#[test]
fn text_order_is_the_order_of_strings() {
    assert!(less_text("2024-01-01", "2024-02-01"));
    assert!(!less_text("2024-02-01", "2024-01-01"));
    assert!(!less_text("same", "same"));
    assert!(less_text("ab", "abc"));
    assert!(!less_text("abc", "ab"));
    assert_eq!(less_text("apple", "banana"), "apple" < "banana");
}

#[test]
fn pieces_of_a_split() {
    assert_eq!(first_piece("a.b.c", '.'), "a");
    assert_eq!(first_piece("abc", '.'), "abc");
    assert_eq!(second_piece_of("aTbTc", 'T'), Some("b".to_string()));
    assert_eq!(second_piece_of("aT", 'T'), Some(String::new()));
    assert_eq!(second_piece_of("abc", 'T'), None);
}

#[test]
fn substring_search_and_decimals() {
    assert!(contains_str("production-eu", "prod"));
    assert!(!contains_str("staging", "prod"));
    assert!(contains_str("anything", ""));
    assert_eq!(decimal_string(0), "0");
    assert_eq!(decimal_string(4096), "4096");
}
