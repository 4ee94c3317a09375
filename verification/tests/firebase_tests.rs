use scriptworker_script::Context;
use scriptworker_script::Error;
use scriptworker_script::firebase::parse_firebase_config;
use scriptworker_script::firebase::plan_flank_commands;
use scriptworker_script::task::parse_task;

const FIREBASE_CONFIG: &str =
    "googleProject: p\nflankJar: /x.jar\nflankConfig: /c.yml";

fn task_with_paths(paths: &str) -> String {
    format!(
        r#"{{
  "dependencies": [],
  "scopes": [],
  "payload": {{
    "upstreamArtifacts": [
      {{"taskType": "signing", "taskId": "tid7", "paths": [{}]}}
    ]
  }}
}}"#,
        paths
    )
}

#[test]
fn config_accepts_exactly_the_declared_fields() {
    let config = parse_firebase_config(Some(FIREBASE_CONFIG)).expect("config parses");
    assert_eq!(config.google_project, "p");
    assert_eq!(config.flank_jar, "/x.jar");
    assert_eq!(config.flank_config, "/c.yml");

    // any order is fine
    assert!(parse_firebase_config(Some(
        "flankConfig: /c.yml\ngoogleProject: p\nflankJar: /x.jar"
    ))
    .is_ok());
    // one field not in the declared schema: fail closed
    let unknown = parse_firebase_config(Some(
        "googleProject: p\nflankJar: /x.jar\nflankConfig: /c.yml\nregion: us",
    ));
    assert!(matches!(unknown, Err(Error::InternalError(_))));
    let missing = parse_firebase_config(Some("googleProject: p\nflankJar: /x.jar"));
    assert!(matches!(missing, Err(Error::InternalError(_))));
    let ill_typed = parse_firebase_config(Some(
        "googleProject: 7\nflankJar: /x.jar\nflankConfig: /c.yml",
    ));
    assert!(matches!(ill_typed, Err(Error::InternalError(_))));
    assert!(matches!(parse_firebase_config(None), Err(Error::InternalError(_))));
}

#[test]
fn two_apks_dispatch_under_the_artifact_root() {
    let config = parse_firebase_config(Some(FIREBASE_CONFIG)).expect("config parses");
    let context = Context::new(String::from("/work"));
    let text = task_with_paths(r#""public/app.apk", "public/app.test.apk""#);
    let task = parse_task(&text).expect("task parses");
    let commands = plan_flank_commands(&config, &context, &task).expect("dispatch succeeds");
    assert_eq!(commands.len(), 1);
    let args = &commands[0];
    assert_eq!(
        args[..10],
        [
            String::from("java"),
            String::from("-jar"),
            String::from("/x.jar"),
            String::from("--config"),
            String::from("/c.yml"),
            String::from("--project"),
            String::from("p"),
            String::from("--max-test-shards"),
            String::from("-1"),
            String::from("--apk"),
        ]
    );
    assert_eq!(args[10], "/work/cot/tid7/public/app.apk");
    assert_eq!(args[11], "--test");
    assert_eq!(args[12], "/work/cot/tid7/public/app.test.apk");
    assert!(args[10].starts_with("/work/cot/tid7/"));
    assert!(args[12].starts_with("/work/cot/tid7/"));
}

#[test]
fn wrong_apk_count_is_a_typed_error() {
    let config = parse_firebase_config(Some(FIREBASE_CONFIG)).expect("config parses");
    let context = Context::new(String::from("/work"));

    let one = task_with_paths(r#""public/app.apk""#);
    let task = parse_task(&one).expect("task parses");
    let err = plan_flank_commands(&config, &context, &task).expect_err("one path is too few");
    assert!(matches!(err, Error::MalformedPayload(_)));

    let three = task_with_paths(r#""a.apk", "b.apk", "c.apk""#);
    let task = parse_task(&three).expect("task parses");
    let err = plan_flank_commands(&config, &context, &task).expect_err("three paths are too many");
    assert!(matches!(err, Error::MalformedPayload(_)));
}
