use spdx_lookup::errors::AppError;
use spdx_lookup::model::{LicenseDetail, LicenseSummary};
use spdx_lookup::render::{render_detail, take_chars};
use spdx_lookup::select::{label_of, labels_of, select_by_id};

fn summary(id: Option<&str>, name: Option<&str>, url: Option<&str>) -> LicenseSummary {
    LicenseSummary {
        license_id: id.map(|s| s.to_string()),
        name: name.map(|s| s.to_string()),
        details_url: url.map(|s| s.to_string()),
        is_osi_approved: None,
        is_deprecated: None,
    }
}

fn detail(text: Option<&str>) -> LicenseDetail {
    LicenseDetail {
        name: Some("MIT License".to_string()),
        license_id: Some("MIT".to_string()),
        is_osi_approved: Some(true),
        is_deprecated: Some(false),
        see_also: Some(vec!["https://example.org/mit".to_string()]),
        license_text: text.map(|s| s.to_string()),
    }
}

#[test]
fn exact_identifier_returns_the_matching_summary() {
    let sums = vec![
        summary(Some("Apache-2.0"), Some("Apache License 2.0"), Some("a")),
        summary(Some("MIT"), Some("MIT License"), Some("m")),
    ];
    let i = select_by_id(&sums, "MIT").unwrap();
    assert_eq!(i, 1);
}

#[test]
fn first_match_wins() {
    let sums = vec![
        summary(Some("MIT"), Some("first"), Some("u1")),
        summary(Some("MIT"), Some("second"), Some("u2")),
    ];
    assert_eq!(select_by_id(&sums, "MIT").unwrap(), 0);
}

#[test]
fn matching_is_case_sensitive() {
    let sums = vec![summary(Some("MIT"), Some("MIT License"), Some("m"))];
    assert!(matches!(
        select_by_id(&sums, "mit"),
        Err(AppError::LicenseNotFound(_))
    ));
}

#[test]
fn absent_identifier_is_not_found() {
    let sums = vec![summary(Some("MIT"), Some("MIT License"), Some("m"))];
    let e = select_by_id(&sums, "ISC").unwrap_err();
    match e {
        AppError::LicenseNotFound(id) => assert_eq!(id, "ISC"),
        _ => panic!("expected a not-found error"),
    }
}

#[test]
fn summary_without_identifier_never_matches() {
    let sums = vec![summary(None, Some("nameless"), Some("u"))];
    assert!(select_by_id(&sums, "MIT").is_err());
}

#[test]
fn labels_carry_identifier_and_name() {
    let s = summary(Some("MIT"), Some("MIT License"), None);
    assert_eq!(label_of(&s), "MIT - MIT License");
    let broken = summary(None, None, None);
    assert_eq!(label_of(&broken), "Malformed license - Malformed license");
    let all = labels_of(&vec![s, broken]);
    assert_eq!(all.len(), 2);
    assert_eq!(all[0], "MIT - MIT License");
}

#[test]
fn take_chars_keeps_short_text_whole() {
    assert_eq!(take_chars("short", 200), "short");
    assert_eq!(take_chars("", 200), "");
    assert_eq!(take_chars("abcdef", 3), "abc");
}

#[test]
fn take_chars_counts_characters_not_bytes() {
    assert_eq!(take_chars("ééé", 2), "éé");
}

#[test]
fn full_text_mode_prints_the_entire_text() {
    let text = "x".repeat(5000);
    let d = detail(Some(&text));
    let out = render_detail(&d, true);
    let expected = format!(
        "License Preview:\n----------------\nName: MIT License\nSPDX ID: MIT\nIs OSI Approved: Yes\nDeprecated: No\nSee Also:\n  - https://example.org/mit\n\nFull License Text\n{}\n",
        text
    );
    assert_eq!(out, expected);
}

#[test]
fn preview_mode_truncates_to_200_chars_with_marker() {
    let text = "y".repeat(450);
    let d = detail(Some(&text));
    let out = render_detail(&d, false);
    let expected = format!(
        "License Preview:\n----------------\nName: MIT License\nSPDX ID: MIT\nIs OSI Approved: Yes\nDeprecated: No\nSee Also:\n  - https://example.org/mit\n\nLicense Text Preview (first 200 chars)\n{}\n...\n",
        "y".repeat(200)
    );
    assert_eq!(out, expected);
}

#[test]
fn preview_mode_keeps_short_text_whole() {
    let d = detail(Some("tiny text"));
    let out = render_detail(&d, false);
    assert!(out.contains("License Text Preview (first 200 chars)\ntiny text\n...\n"));
}

#[test]
fn missing_text_renders_a_notice() {
    let d = detail(None);
    let out = render_detail(&d, false);
    assert!(out.ends_with("License text not available\n"));
    assert!(!out.contains("License Text Preview"));
}

#[test]
fn missing_fields_render_placeholders() {
    let d = LicenseDetail {
        name: None,
        license_id: None,
        is_osi_approved: None,
        is_deprecated: None,
        see_also: None,
        license_text: None,
    };
    let out = render_detail(&d, false);
    assert_eq!(
        out,
        "License Preview:\n----------------\nName: N/A\nSPDX ID: N/A\nIs OSI Approved: No\nLicense text not available\n"
    );
}
