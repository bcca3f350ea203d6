use spdx_lookup::errors::AppError;
use spdx_lookup::session::{Command, Config, Event, Session};

const REGISTRY: &str = r#"{"licenses": [
    {"licenseId": "MIT", "name": "MIT License",
     "detailsUrl": "https://spdx.org/licenses/MIT.json"},
    {"licenseId": "ISC", "name": "ISC License",
     "detailsUrl": "https://spdx.org/licenses/ISC.json"}
]}"#;

const DETAIL: &str = r#"{
    "name": "MIT License", "licenseId": "MIT", "isOsiApproved": true,
    "licenseText": "Permission is hereby granted"
}"#;

fn config(id: Option<&str>, output: Option<&str>, full_text: bool) -> Config {
    Config {
        spdx_identifier: id.map(|s| s.to_string()),
        output: output.map(|s| s.to_string()),
        full_text,
    }
}

#[test]
fn a_run_starts_with_the_registry_fetch() {
    let (_s, r) = Session::new(config(Some("MIT"), None, false));
    assert!(r.prints.is_empty());
    match r.command {
        Command::FetchRegistry { url } => {
            assert_eq!(url, "https://spdx.org/licenses/licenses.json")
        }
        _ => panic!("expected the registry fetch"),
    }
}

#[test]
fn exact_identifier_run_fetches_the_matching_detail_url() {
    let (mut s, _) = Session::new(config(Some("ISC"), None, false));
    let r = s.on_event(Event::Registry(Ok(REGISTRY.to_string())));
    assert_eq!(r.prints, vec!["Fetching license details...".to_string()]);
    match r.command {
        Command::FetchDetail { url } => {
            assert_eq!(url, "https://spdx.org/licenses/ISC.json")
        }
        _ => panic!("expected the detail fetch"),
    }
}

#[test]
fn absent_identifier_fails_without_a_detail_fetch() {
    let (mut s, _) = Session::new(config(Some("WTFPL"), None, false));
    let r = s.on_event(Event::Registry(Ok(REGISTRY.to_string())));
    match r.command {
        Command::Fail { error: AppError::LicenseNotFound(id) } => assert_eq!(id, "WTFPL"),
        _ => panic!("expected a not-found failure, not another fetch"),
    }
}

#[test]
fn malformed_registry_fails_before_any_detail_fetch() {
    let (mut s, _) = Session::new(config(Some("MIT"), None, false));
    let r = s.on_event(Event::Registry(Ok(r#"{"nothing": true}"#.to_string())));
    assert!(matches!(
        r.command,
        Command::Fail { error: AppError::MalformedLicenseData }
    ));
}

#[test]
fn unparseable_registry_fails_as_a_failed_request() {
    let (mut s, _) = Session::new(config(Some("MIT"), None, false));
    let r = s.on_event(Event::Registry(Ok("%%%".to_string())));
    assert!(matches!(r.command, Command::Fail { error: AppError::RequestFailed(_) }));
}

#[test]
fn transport_failure_fails_the_run() {
    let (mut s, _) = Session::new(config(Some("MIT"), None, false));
    let r = s.on_event(Event::Registry(Err("connection refused".to_string())));
    match r.command {
        Command::Fail { error: AppError::RequestFailed(m) } => {
            assert_eq!(m, "connection refused")
        }
        _ => panic!("expected a failed-request failure"),
    }
}

#[test]
fn without_identifier_the_entries_are_offered_for_selection() {
    let (mut s, _) = Session::new(config(None, None, false));
    let r = s.on_event(Event::Registry(Ok(REGISTRY.to_string())));
    match r.command {
        Command::PromptSelection { labels } => {
            assert_eq!(
                labels,
                vec!["MIT - MIT License".to_string(), "ISC - ISC License".to_string()]
            );
        }
        _ => panic!("expected the selection prompt"),
    }
    let r2 = s.on_event(Event::Selection(Some(1)));
    match r2.command {
        Command::FetchDetail { url } => {
            assert_eq!(url, "https://spdx.org/licenses/ISC.json")
        }
        _ => panic!("expected the detail fetch"),
    }
}

#[test]
fn cancelled_selection_is_its_own_outcome() {
    let (mut s, _) = Session::new(config(None, None, false));
    let _ = s.on_event(Event::Registry(Ok(REGISTRY.to_string())));
    let r = s.on_event(Event::Selection(None));
    assert!(matches!(r.command, Command::Fail { error: AppError::SelectionCancelled }));
}

#[test]
fn out_of_range_selection_counts_as_cancelled() {
    let (mut s, _) = Session::new(config(None, None, false));
    let _ = s.on_event(Event::Registry(Ok(REGISTRY.to_string())));
    let r = s.on_event(Event::Selection(Some(99)));
    assert!(matches!(r.command, Command::Fail { error: AppError::SelectionCancelled }));
}

#[test]
fn a_detail_document_is_rendered_and_the_run_finishes() {
    let (mut s, _) = Session::new(config(Some("MIT"), None, false));
    let _ = s.on_event(Event::Registry(Ok(REGISTRY.to_string())));
    let r = s.on_event(Event::Detail(Ok(DETAIL.to_string())));
    assert!(matches!(r.command, Command::Finish));
    assert_eq!(r.prints.len(), 1);
    assert!(r.prints[0].starts_with("License Preview:\n----------------\nName: MIT License"));
    assert!(r.prints[0].contains("License Text Preview (first 200 chars)\nPermission is hereby granted\n...\n"));
}

#[test]
fn with_an_output_file_the_text_is_written_verbatim() {
    let (mut s, _) = Session::new(config(Some("MIT"), Some("mit.txt"), true));
    let _ = s.on_event(Event::Registry(Ok(REGISTRY.to_string())));
    let r = s.on_event(Event::Detail(Ok(DETAIL.to_string())));
    match r.command {
        Command::WriteFile { path, contents } => {
            assert_eq!(path, "mit.txt");
            assert_eq!(contents, "Permission is hereby granted");
        }
        _ => panic!("expected the file write"),
    }
    let r2 = s.on_event(Event::Written(Ok(())));
    assert!(matches!(r2.command, Command::Finish));
    assert_eq!(r2.prints, vec!["License text written to: mit.txt".to_string()]);
}

#[test]
fn missing_text_skips_the_write_with_a_notice() {
    let (mut s, _) = Session::new(config(Some("MIT"), Some("mit.txt"), false));
    let _ = s.on_event(Event::Registry(Ok(REGISTRY.to_string())));
    let r = s.on_event(Event::Detail(Ok(
        r#"{"name": "MIT License", "licenseId": "MIT"}"#.to_string(),
    )));
    assert!(matches!(r.command, Command::Finish));
    assert_eq!(r.prints.len(), 2);
    assert_eq!(r.prints[1], "License text not available for writing to file");
}

#[test]
fn a_failed_write_fails_the_run() {
    let (mut s, _) = Session::new(config(Some("MIT"), Some("mit.txt"), false));
    let _ = s.on_event(Event::Registry(Ok(REGISTRY.to_string())));
    let _ = s.on_event(Event::Detail(Ok(DETAIL.to_string())));
    let r = s.on_event(Event::Written(Err("read-only file system".to_string())));
    match r.command {
        Command::Fail { error: AppError::FileWriteError(m) } => {
            assert_eq!(m, "read-only file system")
        }
        _ => panic!("expected a file-write failure"),
    }
}

#[test]
fn a_failed_detail_fetch_fails_the_run() {
    let (mut s, _) = Session::new(config(Some("MIT"), None, false));
    let _ = s.on_event(Event::Registry(Ok(REGISTRY.to_string())));
    let r = s.on_event(Event::Detail(Err("timeout".to_string())));
    match r.command {
        Command::Fail { error: AppError::RequestFailed(m) } => assert_eq!(m, "timeout"),
        _ => panic!("expected a failed-request failure"),
    }
}

#[test]
fn a_summary_without_detail_url_is_malformed() {
    let (mut s, _) = Session::new(config(Some("MIT"), None, false));
    let r = s.on_event(Event::Registry(Ok(
        r#"{"licenses": [{"licenseId": "MIT", "name": "MIT License"}]}"#.to_string(),
    )));
    assert!(matches!(
        r.command,
        Command::Fail { error: AppError::MalformedLicenseData }
    ));
}
