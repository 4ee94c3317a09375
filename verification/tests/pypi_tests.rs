use scriptworker_script::Context;
use scriptworker_script::Error;
use scriptworker_script::harness::run_outcome;
use scriptworker_script::pypi::PypiConfig;
use scriptworker_script::pypi::parse_pypi_config;
use scriptworker_script::pypi::parse_pypi_projects;
use scriptworker_script::pypi::plan_check_command;
use scriptworker_script::pypi::plan_upload_command;
use scriptworker_script::pypi::pypi_task;
use scriptworker_script::pypi::verify_payload;
use scriptworker_script::task::parse_task;

const PYPI_TASK: &str = r#"{
  "dependencies": ["dep-a"],
  "scopes": ["project:releng:pypi:project:mozphab"],
  "payload": {
    "upstreamArtifacts": [
      {
        "taskType": "build",
        "taskId": "tid42",
        "paths": ["public/build/mozphab-1.0.tar.gz"],
        "project": "mozphab"
      }
    ],
    "action": "upload"
  }
}"#;

fn config() -> PypiConfig {
    let (projects_file, scope_prefix) = parse_pypi_config(Some(
        "project_config_file: /etc/pypi.yml\ntaskcluster_scope_prefix: project:releng",
    ))
    .expect("config parses");
    assert_eq!(projects_file, "/etc/pypi.yml");
    let projects = parse_pypi_projects(Some(
        "mozphab:\n  api_token: SECRET-REDACTED\n  repository_url: https://upload.example/legacy/",
    ))
    .expect("projects parse");
    PypiConfig { projects, scope_prefix }
}

#[test]
fn config_accepts_only_the_declared_fields() {
    assert!(parse_pypi_config(Some(
        "projects: /etc/pypi.yml\nscope_prefix: project:releng"
    ))
    .is_ok());
    // one field not in the declared schema: fail closed
    let unknown = parse_pypi_config(Some(
        "projects: /etc/pypi.yml\nscope_prefix: project:releng\nextra_field: 1",
    ));
    assert!(matches!(unknown, Err(Error::InternalError(_))));
    let misspelled = parse_pypi_config(Some(
        "projects: /etc/pypi.yml\nscope_prefixx: project:releng",
    ));
    assert!(matches!(misspelled, Err(Error::InternalError(_))));
    let missing = parse_pypi_config(Some("projects: /etc/pypi.yml"));
    assert!(matches!(missing, Err(Error::InternalError(_))));
    let unreadable = parse_pypi_config(None);
    assert!(matches!(unreadable, Err(Error::InternalError(_))));
    let unparsable = parse_pypi_config(Some(": : :"));
    assert!(matches!(unparsable, Err(Error::InternalError(_))));
}

#[test]
fn projects_document_is_fail_closed_too() {
    let projects = parse_pypi_projects(Some(
        "alpha:\n  api_token: SECRET-REDACTED\n  repository_url: https://a/\nbeta:\n  repository_url: https://b/\n  api_token: SECRET-REDACTED",
    ))
    .expect("both orders parse");
    assert_eq!(projects.len(), 2);
    assert_eq!(projects[0].name, "alpha");
    assert_eq!(projects[1].name, "beta");
    assert_eq!(projects[1].repository_url, "https://b/");

    let unknown = parse_pypi_projects(Some(
        "alpha:\n  api_token: SECRET-REDACTED\n  repository_url: https://a/\n  color: red",
    ));
    assert!(matches!(unknown, Err(Error::InternalError(_))));
}

#[test]
fn get_project_finds_known_projects_only() {
    let config = config();
    let project = config.get_project(&String::from("mozphab")).expect("known");
    assert_eq!(project.repository_url, "https://upload.example/legacy/");
    let err = config.get_project(&String::from("nosuch")).expect_err("unknown");
    match err {
        Error::MalformedPayload(m) => assert_eq!(m, "Unknown pypi project nosuch"),
        _ => panic!("wrong error kind"),
    }
}

#[test]
fn upload_task_is_authorized_and_planned() {
    let config = config();
    let context = Context::new(String::from("/work"));
    let generic = parse_task(PYPI_TASK).expect("task parses");
    let task = pypi_task(generic).expect("schema matches");
    assert_eq!(task.payload.extra.action, "upload");
    assert_eq!(task.payload.upstream_artifacts[0].attributes.project, "mozphab");
    verify_payload(&config, &context, &task).expect("scope is granted");

    let upstream = &task.payload.upstream_artifacts[0];
    let check = plan_check_command(upstream, &context);
    assert_eq!(
        check.args,
        vec![
            String::from("check"),
            String::from("/work/cot/tid42/public/build/mozphab-1.0.tar.gz"),
        ]
    );
    assert!(check.token.is_none());

    let project = config.get_project(&upstream.attributes.project).expect("known");
    let upload = plan_upload_command(upstream, project, &context);
    assert_eq!(
        upload.args,
        vec![
            String::from("upload"),
            String::from("--user"),
            String::from("__token__"),
            String::from("--repository-url"),
            String::from("https://upload.example/legacy/"),
            String::from("/work/cot/tid42/public/build/mozphab-1.0.tar.gz"),
        ]
    );
    assert_eq!(upload.token, Some(String::from("SECRET-REDACTED")));
}

#[test]
fn download_action_exits_with_code_3() {
    let config = config();
    let context = Context::new(String::from("/work"));
    let text = PYPI_TASK.replace("\"upload\"", "\"download\"");
    let task = pypi_task(parse_task(&text).expect("task parses")).expect("schema matches");
    let err = verify_payload(&config, &context, &task).expect_err("action is not upload");
    match &err {
        Error::MalformedPayload(m) => assert_eq!(m, "Unsupported action: download"),
        _ => panic!("wrong error kind"),
    }
    let outcome = run_outcome(Err(err));
    assert_eq!(outcome.code, 3);
    assert_eq!(outcome.message, Some(String::from("Unsupported action: download")));
}

#[test]
fn missing_upload_scope_is_reported() {
    let config = config();
    let context = Context::new(String::from("/work"));
    let text = PYPI_TASK.replace("project:releng:pypi:project:mozphab", "some:other:scope");
    let task = pypi_task(parse_task(&text).expect("task parses")).expect("schema matches");
    let err = verify_payload(&config, &context, &task).expect_err("scope missing");
    match err {
        Error::MalformedPayload(m) => {
            assert_eq!(m, "missing scopes: project:releng:pypi:project:mozphab")
        }
        _ => panic!("wrong error kind"),
    }
}

#[test]
fn unknown_attribute_fields_reject_the_task() {
    let text = PYPI_TASK.replace(
        "\"project\": \"mozphab\"",
        "\"project\": \"mozphab\", \"shards\": 3",
    );
    let err = pypi_task(parse_task(&text).expect("task parses")).expect_err("unknown field");
    assert!(matches!(err, Error::MalformedPayload(_)));

    let missing_action = PYPI_TASK.replace("\"action\": \"upload\"", "\"mode\": \"upload\"");
    let err = pypi_task(parse_task(&missing_action).expect("task parses"))
        .expect_err("unknown extra field");
    assert!(matches!(err, Error::MalformedPayload(_)));
}

#[test]
fn command_outcomes_map_to_the_taxonomy() {
    assert!(scriptworker_script::pypi::command_result(true).is_ok());
    let err = scriptworker_script::pypi::command_result(false).expect_err("failure");
    assert!(matches!(err, Error::Failure));
    assert_eq!(run_outcome(Err(err)).code, 1);
}
