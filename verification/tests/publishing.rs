use klistra::config::{check_fields, ConfigField, ConfigFields, StorageConfig};
use klistra::outcome::{ErrorKind, Outcome};
use klistra::pipeline::{compose_page, step, step_with, Action, Event, Invocation, State};
use klistra::storage::{endpoint_url, object_key, public_url, upload_request};
use klistra::target::{resolve, resolve_with, PublishTarget};

fn sample_config() -> StorageConfig {
    StorageConfig {
        domain: String::from("https://example.com"),
        bucket: String::from("b"),
        region: String::from("r"),
        prefix: String::from("docs/"),
        access_key_id: String::from("id"),
        secret_access_key: String::from("secret"),
    }
}

fn sample_fields() -> ConfigFields {
    ConfigFields {
        domain: Some(String::from("https://example.com")),
        bucket: Some(String::from("b")),
        region: Some(String::from("r")),
        prefix: Some(String::from("docs/")),
        access_key_id: Some(String::from("id")),
        secret_access_key: Some(String::from("secret")),
    }
}

fn invocation(local_output: bool) -> Invocation {
    Invocation {
        source_path: String::from("notes/report.md"),
        local_output,
        config_path: Some(String::from("conf.toml")),
    }
}

fn is_identifier(id: &str) -> bool {
    let chars: Vec<char> = id.chars().collect();
    chars.len() == 36
        && chars.iter().enumerate().all(|(i, c)| {
            if i == 8 || i == 13 || i == 18 || i == 23 {
                *c == '-'
            } else {
                c.is_ascii_digit() || ('a'..='f').contains(c)
            }
        })
        && chars[14] == '4'
}

#[test]
fn key_and_url_for_a_given_identifier() {
    assert_eq!(object_key("docs/", "U"), "docs/p/U/index.html");
    assert_eq!(public_url("https://example.com", "U"), "https://example.com/p/U");
    let config = sample_config();
    let request = upload_request(&config, "U", String::from("<html>"));
    assert_eq!(request.key, "docs/p/U/index.html");
    assert_eq!(request.bucket, "b");
    assert_eq!(request.region, "r");
    assert_eq!(request.endpoint, "https://s3.r.backblazeb2.com");
    assert_eq!(request.content_type, "text/html");
    assert_eq!(request.access_key_id, "id");
    assert_eq!(request.secret_access_key, "secret");
    assert_eq!(request.body, "<html>");
}

#[test]
fn key_prefix_edge_cases() {
    assert_eq!(object_key("docs", "U"), "docs/p/U/index.html");
    assert_eq!(object_key("docs//", "U"), "docs/p/U/index.html");
    assert_eq!(object_key("", "U"), "/p/U/index.html");
    assert_eq!(object_key("/", "U"), "/p/U/index.html");
    assert_eq!(object_key("a/b/", "U"), "a/b/p/U/index.html");
}

#[test]
fn url_keeps_the_domain_as_given() {
    assert_eq!(public_url("https://example.com/", "U"), "https://example.com//p/U");
    assert_eq!(public_url("", "U"), "/p/U");
}

#[test]
fn endpoint_follows_the_region() {
    assert_eq!(endpoint_url("us-west-004"), "https://s3.us-west-004.backblazeb2.com");
    assert_eq!(endpoint_url(""), "https://s3..backblazeb2.com");
}

#[test]
fn different_identifiers_give_different_keys_and_urls() {
    assert_ne!(object_key("docs/", "a"), object_key("docs/", "b"));
    assert_ne!(public_url("https://e.com", "a"), public_url("https://e.com", "b"));
}

#[test]
fn local_target_is_beside_the_source() {
    let config = sample_config();
    assert_eq!(
        resolve(true, "notes/report.md", &config),
        PublishTarget::Local { path: String::from("notes/report.html") }
    );
    assert_eq!(
        resolve_with(true, "notes/report.md", &config, "ignored"),
        PublishTarget::Local { path: String::from("notes/report.html") }
    );
}

#[test]
fn remote_target_for_a_given_identifier() {
    let config = sample_config();
    assert_eq!(
        resolve_with(false, "notes/report.md", &config, "U"),
        PublishTarget::Remote {
            bucket: String::from("b"),
            key: String::from("docs/p/U/index.html"),
            domain: String::from("https://example.com"),
            id: String::from("U"),
        }
    );
}

#[test]
fn remote_targets_get_fresh_identifiers() {
    let config = sample_config();
    let first = resolve(false, "notes/report.md", &config);
    let second = resolve(false, "notes/report.md", &config);
    match (first, second) {
        (
            PublishTarget::Remote { bucket, key, domain, id },
            PublishTarget::Remote { key: other_key, id: other_id, .. },
        ) => {
            assert!(is_identifier(&id));
            assert!(is_identifier(&other_id));
            assert_eq!(bucket, "b");
            assert_eq!(domain, "https://example.com");
            assert_eq!(key, format!("docs/p/{}/index.html", id));
            assert_ne!(id, other_id);
            assert_ne!(key, other_key);
            assert_ne!(public_url(&domain, &id), public_url(&domain, &other_id));
        }
        _ => panic!("expected two remote targets"),
    }
}

#[test]
fn complete_fields_are_accepted() {
    assert_eq!(check_fields(sample_fields()), Ok(sample_config()));
}

#[test]
fn first_missing_field_is_named() {
    let mut fields = sample_fields();
    fields.bucket = None;
    assert_eq!(check_fields(fields), Err(ConfigField::Bucket));
    let mut fields = sample_fields();
    fields.domain = None;
    fields.bucket = None;
    assert_eq!(check_fields(fields), Err(ConfigField::Domain));
    let mut fields = sample_fields();
    fields.region = None;
    assert_eq!(check_fields(fields), Err(ConfigField::Region));
    let mut fields = sample_fields();
    fields.prefix = None;
    assert_eq!(check_fields(fields), Err(ConfigField::Prefix));
    let mut fields = sample_fields();
    fields.access_key_id = None;
    assert_eq!(check_fields(fields), Err(ConfigField::AccessKeyId));
    let mut fields = sample_fields();
    fields.secret_access_key = None;
    assert_eq!(check_fields(fields), Err(ConfigField::SecretAccessKey));
}

#[test]
fn field_names_are_the_file_keys() {
    assert_eq!(ConfigField::Domain.name(), "domain");
    assert_eq!(ConfigField::Bucket.name(), "bucket");
    assert_eq!(ConfigField::Region.name(), "region");
    assert_eq!(ConfigField::Prefix.name(), "prefix");
    assert_eq!(ConfigField::AccessKeyId.name(), "access_key_id");
    assert_eq!(ConfigField::SecretAccessKey.name(), "secret_access_key");
}

#[test]
fn reports_read_as_the_operator_expects() {
    let created = Outcome::Created { path: String::from("a.html") };
    assert_eq!(created.report(), "Local HTML file created: a.html");
    assert!(created.succeeded());
    let kept = Outcome::AlreadyExists { path: String::from("a.html") };
    assert_eq!(kept.report(), "Local file 'a.html' already exists. Not overwriting.");
    assert!(kept.succeeded());
    let uploaded = Outcome::Uploaded { url: String::from("https://e.com/p/U") };
    assert_eq!(uploaded.report(), "File uploaded successfully: https://e.com/p/U");
    assert!(uploaded.succeeded());
    let failed = Outcome::Failed {
        kind: ErrorKind::RemoteUploadFailed,
        detail: String::from("timeout"),
    };
    assert_eq!(failed.report(), "timeout");
    assert!(!failed.succeeded());
}

fn failed(kind: ErrorKind, detail: &str) -> (State, Action) {
    (
        State::Finished,
        Action::Finish { outcome: Outcome::Failed { kind, detail: String::from(detail) } },
    )
}

#[test]
fn run_starts_by_probing_the_settings_file() {
    let inv = invocation(true);
    assert_eq!(
        step_with(&inv, State::Start, Event::Started, "", ""),
        (
            State::ConfigProbe { path: String::from("conf.toml") },
            Action::ProbeConfig { path: String::from("conf.toml") }
        )
    );
    assert_eq!(
        step(&inv, State::Start, Event::Started),
        (
            State::ConfigProbe { path: String::from("conf.toml") },
            Action::ProbeConfig { path: String::from("conf.toml") }
        )
    );
}

#[test]
fn run_without_settings_path_fails() {
    let mut inv = invocation(true);
    inv.config_path = None;
    assert_eq!(
        step_with(&inv, State::Start, Event::Started, "", ""),
        failed(ErrorKind::ConfigurationNotFound, "Could not determine config file path")
    );
}

#[test]
fn absent_settings_file_fails() {
    let inv = invocation(false);
    let state = State::ConfigProbe { path: String::from("conf.toml") };
    assert_eq!(
        step_with(&inv, state.clone(), Event::Probed { exists: false }, "", ""),
        failed(ErrorKind::ConfigurationNotFound, "Config file not found at conf.toml")
    );
    assert_eq!(
        step_with(&inv, state, Event::Probed { exists: true }, "", ""),
        (State::ConfigLoad, Action::LoadConfig { path: String::from("conf.toml") })
    );
}

#[test]
fn missing_bucket_is_invalid_configuration() {
    let inv = invocation(false);
    let mut fields = sample_fields();
    fields.bucket = None;
    assert_eq!(
        step_with(&inv, State::ConfigLoad, Event::ConfigLoaded { fields }, "", ""),
        failed(ErrorKind::ConfigurationInvalid, "missing field `bucket`")
    );
}

#[test]
fn missing_bucket_run_stores_nothing() {
    let inv = invocation(false);
    let mut fields = sample_fields();
    fields.bucket = None;
    let events = vec![
        Event::Started,
        Event::Probed { exists: true },
        Event::ConfigLoaded { fields },
        Event::SourceLoaded { markup: String::from("x") },
        Event::Probed { exists: false },
        Event::Stored,
    ];
    let mut state = State::Start;
    let mut finishes = 0;
    for event in events {
        let (next, action) = step(&inv, state, event);
        assert!(!matches!(action, Action::WriteFile { .. } | Action::Upload { .. }));
        if matches!(action, Action::Finish { .. }) {
            finishes += 1;
            assert_eq!(next, State::Finished);
        }
        state = next;
    }
    assert_eq!(state, State::Finished);
    assert_eq!(finishes, 4);
}

#[test]
fn unreadable_settings_are_invalid_configuration() {
    let inv = invocation(false);
    assert_eq!(
        step_with(
            &inv,
            State::ConfigLoad,
            Event::ConfigUnreadable { detail: String::from("expected a table") },
            "",
            ""
        ),
        failed(ErrorKind::ConfigurationInvalid, "expected a table")
    );
}

#[test]
fn complete_settings_lead_to_reading_the_source() {
    let inv = invocation(false);
    assert_eq!(
        step_with(&inv, State::ConfigLoad, Event::ConfigLoaded { fields: sample_fields() }, "", ""),
        (
            State::SourceRead { config: sample_config() },
            Action::ReadSource { path: String::from("notes/report.md") }
        )
    );
}

#[test]
fn unreadable_source_fails() {
    let inv = invocation(false);
    assert_eq!(
        step_with(
            &inv,
            State::SourceRead { config: sample_config() },
            Event::SourceUnreadable { detail: String::from("No such file") },
            "",
            ""
        ),
        failed(ErrorKind::SourceUnreadable, "No such file")
    );
}

#[test]
fn local_run_probes_then_writes() {
    let inv = invocation(true);
    let page = compose_page("notes/report.md", "hello", "March 04, 2025");
    let (state, action) = step_with(
        &inv,
        State::SourceRead { config: sample_config() },
        Event::SourceLoaded { markup: String::from("hello") },
        "March 04, 2025",
        "",
    );
    assert_eq!(action, Action::ProbeOutput { path: String::from("notes/report.html") });
    assert_eq!(
        state,
        State::OutputProbe { path: String::from("notes/report.html"), page: page.clone() }
    );
    assert!(page.contains("<title>report</title>"));
    assert!(page.contains("<p>hello</p>"));
    let (state, action) = step_with(&inv, state, Event::Probed { exists: false }, "", "");
    assert_eq!(
        action,
        Action::WriteFile { path: String::from("notes/report.html"), content: page }
    );
    assert_eq!(state, State::LocalWrite { path: String::from("notes/report.html") });
    assert_eq!(
        step_with(&inv, state.clone(), Event::Stored, "", ""),
        (
            State::Finished,
            Action::Finish {
                outcome: Outcome::Created { path: String::from("notes/report.html") }
            }
        )
    );
    assert_eq!(
        step_with(&inv, state, Event::StoreFailed { detail: String::from("disk full") }, "", ""),
        failed(ErrorKind::LocalWriteFailed, "disk full")
    );
}

#[test]
fn second_local_run_leaves_the_file_alone() {
    let inv = invocation(true);
    let state = State::OutputProbe {
        path: String::from("notes/report.html"),
        page: String::from("second page"),
    };
    assert_eq!(
        step(&inv, state, Event::Probed { exists: true }),
        (
            State::Finished,
            Action::Finish {
                outcome: Outcome::AlreadyExists { path: String::from("notes/report.html") }
            }
        )
    );
}

#[test]
fn remote_run_uploads_once_and_reports_the_url() {
    let inv = invocation(false);
    let config = sample_config();
    let page = compose_page("notes/report.md", "hello", "March 04, 2025");
    let (state, action) = step_with(
        &inv,
        State::SourceRead { config: config.clone() },
        Event::SourceLoaded { markup: String::from("hello") },
        "March 04, 2025",
        "U",
    );
    assert_eq!(action, Action::Upload { request: upload_request(&config, "U", page) });
    assert_eq!(state, State::Upload { url: String::from("https://example.com/p/U") });
    assert_eq!(
        step_with(&inv, state.clone(), Event::Stored, "", ""),
        (
            State::Finished,
            Action::Finish {
                outcome: Outcome::Uploaded { url: String::from("https://example.com/p/U") }
            }
        )
    );
    assert_eq!(
        step_with(&inv, state, Event::StoreFailed { detail: String::from("403") }, "", ""),
        failed(ErrorKind::RemoteUploadFailed, "403")
    );
}

#[test]
fn remote_step_draws_date_and_identifier() {
    let inv = invocation(false);
    let first = step(
        &inv,
        State::SourceRead { config: sample_config() },
        Event::SourceLoaded { markup: String::from("hello") },
    );
    let second = step(
        &inv,
        State::SourceRead { config: sample_config() },
        Event::SourceLoaded { markup: String::from("hello") },
    );
    match (first, second) {
        (
            (State::Upload { url }, Action::Upload { request }),
            (State::Upload { url: other_url }, Action::Upload { request: other }),
        ) => {
            let id = url.strip_prefix("https://example.com/p/").expect("url under the domain");
            assert!(is_identifier(id));
            assert_eq!(request.key, format!("docs/p/{}/index.html", id));
            assert!(request.body.contains("<title>report</title>"));
            assert!(request.body.contains("<p>hello</p>"));
            assert!(!request.body.contains("<div class=\"date\"></div>"));
            assert_ne!(url, other_url);
            assert_ne!(request.key, other.key);
        }
        _ => panic!("expected two uploads"),
    }
}

#[test]
fn local_step_reads_the_date() {
    let inv = invocation(true);
    let (state, action) = step(
        &inv,
        State::SourceRead { config: sample_config() },
        Event::SourceLoaded { markup: String::from("hello") },
    );
    assert_eq!(action, Action::ProbeOutput { path: String::from("notes/report.html") });
    match state {
        State::OutputProbe { page, .. } => {
            assert!(!page.contains("<div class=\"date\"></div>"));
            assert!(page.contains("<p>hello</p>"));
        }
        _ => panic!("expected the output probe"),
    }
}

#[test]
fn events_out_of_order_end_the_run() {
    let inv = invocation(true);
    assert_eq!(
        step_with(&inv, State::Start, Event::Stored, "", ""),
        failed(ErrorKind::UnexpectedEvent, "Unexpected event")
    );
    assert_eq!(
        step_with(&inv, State::Finished, Event::Started, "", ""),
        failed(ErrorKind::UnexpectedEvent, "Unexpected event")
    );
    assert_eq!(
        step_with(&inv, State::ConfigLoad, Event::Probed { exists: true }, "", ""),
        failed(ErrorKind::UnexpectedEvent, "Unexpected event")
    );
}

/// Drives one run against a disk held in memory; returns the outcome.
fn run_on_disk(
    inv: &Invocation,
    markup: &str,
    date_label: &str,
    disk: &mut std::collections::HashMap<String, String>,
) -> Outcome {
    let mut state = State::Start;
    let mut event = Event::Started;
    for _ in 0..10 {
        let (next, action) = step_with(inv, state, event, date_label, "U");
        state = next;
        event = match action {
            Action::ProbeConfig { .. } => Event::Probed { exists: true },
            Action::LoadConfig { .. } => Event::ConfigLoaded { fields: sample_fields() },
            Action::ReadSource { .. } => Event::SourceLoaded { markup: String::from(markup) },
            Action::ProbeOutput { path } => Event::Probed { exists: disk.contains_key(&path) },
            Action::WriteFile { path, content } => {
                disk.insert(path, content);
                Event::Stored
            }
            Action::Upload { .. } => Event::Stored,
            Action::Finish { outcome } => return outcome,
        };
    }
    panic!("the run did not end");
}

#[test]
fn two_local_runs_keep_the_first_page() {
    let inv = invocation(true);
    let mut disk = std::collections::HashMap::new();
    let first = run_on_disk(&inv, "first text", "March 04, 2025", &mut disk);
    assert_eq!(first, Outcome::Created { path: String::from("notes/report.html") });
    let written = disk.get("notes/report.html").cloned().expect("page written");
    assert_eq!(written, compose_page("notes/report.md", "first text", "March 04, 2025"));
    let second = run_on_disk(&inv, "changed text", "March 05, 2025", &mut disk);
    assert_eq!(second, Outcome::AlreadyExists { path: String::from("notes/report.html") });
    assert_eq!(disk.len(), 1);
    assert_eq!(disk.get("notes/report.html"), Some(&written));
    assert_eq!(
        second.report(),
        "Local file 'notes/report.html' already exists. Not overwriting."
    );
}

#[test]
fn remote_run_ends_with_the_public_url() {
    let inv = invocation(false);
    let mut disk = std::collections::HashMap::new();
    let outcome = run_on_disk(&inv, "text", "March 04, 2025", &mut disk);
    assert_eq!(outcome, Outcome::Uploaded { url: String::from("https://example.com/p/U") });
    assert!(disk.is_empty());
}
