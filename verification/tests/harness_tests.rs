use scriptworker_script::Context;
use scriptworker_script::Error;
use scriptworker_script::harness::load_task;
use scriptworker_script::harness::run_outcome;
use scriptworker_script::paths::ArtifactPath;
use scriptworker_script::task::parse_task;

const TASK_JSON: &str = r#"{
  "created": "2020-01-01T00:00:00Z",
  "dependencies": ["dep-a", "dep-b"],
  "scopes": ["project:releng:flathub:firefox:beta"],
  "payload": {
    "upstreamArtifacts": [
      {
        "taskType": "build",
        "taskId": "abc123",
        "paths": ["public/build/target.apk", "public/build/target.test.apk"],
        "project": "firefox"
      }
    ],
    "action": "upload"
  }
}"#;

#[test]
fn exit_codes_match_the_table() {
    assert_eq!(Error::Failure.exit_code(), 1);
    assert_eq!(Error::WorkerShutdown.exit_code(), 2);
    assert_eq!(Error::MalformedPayload(String::from("m")).exit_code(), 3);
    assert_eq!(Error::ResourceUnavailable.exit_code(), 4);
    assert_eq!(Error::InternalError(String::from("m")).exit_code(), 5);
    assert_eq!(Error::Superseded.exit_code(), 6);
    assert_eq!(Error::IntermittentTask.exit_code(), 7);
}

#[test]
fn descriptions_name_each_kind() {
    assert_eq!(Error::Failure.description(), "failure");
    assert_eq!(Error::WorkerShutdown.description(), "worker-shutdown");
    assert_eq!(
        Error::MalformedPayload(String::from("m")).description(),
        "malformed-payload"
    );
    assert_eq!(Error::ResourceUnavailable.description(), "resource-unavailable");
    assert_eq!(Error::InternalError(String::from("m")).description(), "internal-error");
    assert_eq!(Error::Superseded.description(), "superseded");
    assert_eq!(Error::IntermittentTask.description(), "intermittent-task");
}

#[test]
fn outcome_carries_codes_and_messages() {
    let ok = run_outcome(Ok(()));
    assert_eq!(ok.code, 0);
    assert!(ok.message.is_none());

    let bad = run_outcome(Err(Error::MalformedPayload(String::from("bad payload"))));
    assert_eq!(bad.code, 3);
    assert_eq!(bad.message, Some(String::from("bad payload")));

    let env = run_outcome(Err(Error::InternalError(String::from("io fault"))));
    assert_eq!(env.code, 5);
    assert_eq!(env.message, Some(String::from("io fault")));

    let silent = run_outcome(Err(Error::Superseded));
    assert_eq!(silent.code, 6);
    assert!(silent.message.is_none());
}

#[test]
fn parses_a_full_task_document() {
    let task = parse_task(TASK_JSON).expect("task must parse");
    assert_eq!(task.dependencies, vec![String::from("dep-a"), String::from("dep-b")]);
    assert_eq!(task.scopes, vec![String::from("project:releng:flathub:firefox:beta")]);
    assert_eq!(task.payload.upstream_artifacts.len(), 1);
    let upstream = &task.payload.upstream_artifacts[0];
    assert_eq!(upstream.task_type, "build");
    assert_eq!(upstream.task_id, "abc123");
    assert_eq!(upstream.paths.len(), 2);
    assert_eq!(upstream.paths[0].task_path(), "public/build/target.apk");
    // the script-declared leftovers are carried through unread
    assert_eq!(upstream.attributes.0.len(), 1);
    assert_eq!(upstream.attributes.0[0].0, "project");
    assert_eq!(task.payload.extra.0.len(), 1);
    assert_eq!(task.payload.extra.0[0].0, "action");
}

#[test]
fn parsing_twice_yields_equal_tasks() {
    let first = parse_task(TASK_JSON).expect("task must parse");
    let second = parse_task(TASK_JSON).expect("task must parse");
    assert_eq!(first, second);
}

#[test]
fn absolute_path_is_rejected_with_exit_code_3() {
    let text = r#"{
      "dependencies": [],
      "scopes": [],
      "payload": {
        "upstreamArtifacts": [
          {"taskType": "build", "taskId": "abc123", "paths": ["/etc/passwd"]}
        ]
      }
    }"#;
    let err = parse_task(text).expect_err("absolute path must be rejected");
    assert!(matches!(err, Error::MalformedPayload(_)));
    let outcome = run_outcome(Err(err));
    assert_eq!(outcome.code, 3);
    assert!(outcome.message.is_some());
}

#[test]
fn traversal_path_is_rejected() {
    let text = r#"{
      "dependencies": [],
      "scopes": [],
      "payload": {
        "upstreamArtifacts": [
          {"taskType": "build", "taskId": "abc123", "paths": ["public/../../secret"]}
        ]
      }
    }"#;
    let err = parse_task(text).expect_err("traversal path must be rejected");
    assert!(matches!(err, Error::MalformedPayload(_)));
}

#[test]
fn dotted_names_are_not_traversals() {
    let text = r#"{
      "dependencies": [],
      "scopes": [],
      "payload": {
        "upstreamArtifacts": [
          {"taskType": "build", "taskId": "abc123",
           "paths": ["..hidden/a", "b..", "a/..b/c", "a.b/c..d"]}
        ]
      }
    }"#;
    let task = parse_task(text).expect("dotted names are clean");
    assert_eq!(task.payload.upstream_artifacts[0].paths.len(), 4);
}

#[test]
fn unparsable_task_text_is_malformed_payload() {
    let err = parse_task("{ not json").expect_err("must fail");
    match err {
        Error::MalformedPayload(m) => {
            assert!(m.starts_with("Could not parse task payload: "))
        }
        _ => panic!("wrong error kind"),
    }
}

#[test]
fn unreadable_task_file_is_internal_error() {
    let err = load_task(None).expect_err("must fail");
    match err {
        Error::InternalError(m) => assert_eq!(m, "Could not open task definition."),
        _ => panic!("wrong error kind"),
    }
    let loaded = load_task(Some(TASK_JSON)).expect("contents parse");
    assert_eq!(loaded.payload.upstream_artifacts.len(), 1);
}

#[test]
fn missing_payload_or_fields_fail() {
    assert!(parse_task(r#"{"dependencies": [], "scopes": []}"#).is_err());
    assert!(parse_task(r#"{"scopes": [], "payload": {"upstreamArtifacts": []}}"#).is_err());
    assert!(parse_task(r#"{"dependencies": [], "scopes": [1], "payload": {"upstreamArtifacts": []}}"#).is_err());
    assert!(parse_task(r#"[1, 2]"#).is_err());
}

#[test]
fn zero_upstream_artifacts_is_syntactically_valid() {
    let task =
        parse_task(r#"{"dependencies": [], "scopes": [], "payload": {"upstreamArtifacts": []}}"#)
            .expect("empty artifact list is valid");
    assert_eq!(task.payload.upstream_artifacts.len(), 0);
}

#[test]
fn resolution_stays_under_the_artifact_root() {
    let context = Context::new(String::from("/work"));
    let task = parse_task(TASK_JSON).expect("task must parse");
    let upstream = &task.payload.upstream_artifacts[0];
    let resolved = upstream.paths[0].file_path(&context);
    assert_eq!(resolved, "/work/cot/abc123/public/build/target.apk");
    assert!(resolved.starts_with("/work/cot/abc123/"));
}

#[test]
fn require_scope_checks_membership_exactly() {
    let task = parse_task(TASK_JSON).expect("task must parse");
    assert!(task.require_scope("project:releng:flathub:firefox:beta").is_ok());
    let err = task.require_scope("project:releng:flathub:firefox:stable").expect_err("missing");
    match err {
        Error::MalformedPayload(m) => {
            assert_eq!(m, "missing scope project:releng:flathub:firefox:stable")
        }
        _ => panic!("wrong error kind"),
    }
}

#[test]
fn require_scopes_reports_every_missing_scope() {
    let task = parse_task(TASK_JSON).expect("task must parse");
    let err = task
        .require_scopes(vec![
            String::from("scope:a"),
            String::from("project:releng:flathub:firefox:beta"),
            String::from("scope:b"),
        ])
        .expect_err("two scopes are missing");
    match err {
        Error::MalformedPayload(m) => assert_eq!(m, "missing scopes: scope:a, scope:b"),
        _ => panic!("wrong error kind"),
    }
    assert!(task
        .require_scopes(vec![String::from("project:releng:flathub:firefox:beta")])
        .is_ok());
    assert!(task.require_scopes(Vec::new()).is_ok());
}

#[test]
fn artifact_path_construction_validates() {
    let ok = ArtifactPath::new(String::from("tid"), String::from("a/b.txt"));
    assert!(ok.is_ok());
    let absolute = ArtifactPath::new(String::from("tid"), String::from("/a/b.txt"));
    assert!(matches!(absolute, Err(Error::MalformedPayload(_))));
    let traversal = ArtifactPath::new(String::from("tid"), String::from("a/../b.txt"));
    assert!(matches!(traversal, Err(Error::MalformedPayload(_))));
    let leading = ArtifactPath::new(String::from("tid"), String::from("../b.txt"));
    assert!(matches!(leading, Err(Error::MalformedPayload(_))));
    let trailing = ArtifactPath::new(String::from("tid"), String::from("a/.."));
    assert!(matches!(trailing, Err(Error::MalformedPayload(_))));
}
