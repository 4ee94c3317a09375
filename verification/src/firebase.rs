//! Decision logic of the device-farm test worker script.
//!
//! The script runs an Android test tool (a jar) against pairs of APKs
//! produced by upstream tasks. The harness-relevant decisions — which
//! configuration documents are acceptable, that every upstream artifact
//! declares exactly an application APK and a test APK, and the exact argument
//! list of each planned tool invocation — are computed and proved here; the
//! surrounding binary spawns the planned commands. A malformed artifact count
//! is a typed `MalformedPayload` error, never a process abort, so the
//! exit-code contract stays intact.

use vstd::prelude::*;

use crate::Context;
use crate::error::Error;
use crate::json::Json;
use crate::json::get_field;
use crate::json::parse_yaml_text;
use crate::json::spec_get_field;
use crate::json::yaml_of;
use crate::paths::resolved_path;
use crate::task::Fields;
use crate::task::FieldsV;
use crate::task::Task;
use crate::task::TaskArtifactsV;

verus! {

/// The script's configuration: the cloud project to run against, and the
/// test tool's jar and configuration file.
#[derive(Debug, PartialEq, Eq)]
pub struct FirebaseConfig {
    pub google_project: String,
    pub flank_jar: String,
    pub flank_config: String,
}

/// The mathematical value of a [`FirebaseConfig`].
pub struct FirebaseConfigV {
    pub google_project: Seq<char>,
    pub flank_jar: Seq<char>,
    pub flank_config: Seq<char>,
}

impl DeepView for FirebaseConfig {
    type V = FirebaseConfigV;

    open spec fn deep_view(&self) -> FirebaseConfigV {
        FirebaseConfigV {
            google_project: self.google_project@,
            flank_jar: self.flank_jar@,
            flank_config: self.flank_config@,
        }
    }
}

/// The script's configuration document, fail-closed: exactly the three
/// declared fields, all strings, in any order, and nothing else.
pub open spec fn spec_parse_firebase_config(doc: Json) -> Option<FirebaseConfigV> {
    match doc {
        Json::Obj(fields) => {
            if fields@.len() == 3 {
                match (
                    spec_get_field(fields@, "googleProject"@),
                    spec_get_field(fields@, "flankJar"@),
                    spec_get_field(fields@, "flankConfig"@),
                ) {
                    (Some(Json::Str(gp)), Some(Json::Str(jar)), Some(Json::Str(cfg))) => Some(
                        FirebaseConfigV {
                            google_project: gp@,
                            flank_jar: jar@,
                            flank_config: cfg@,
                        },
                    ),
                    _ => None,
                }
            } else {
                None
            }
        },
        _ => None,
    }
}

fn internal(msg: &str) -> (e: Error)
    ensures
        e matches Error::InternalError(m) && m@ == msg@,
{
    Error::InternalError(String::from_str(msg))
}

/// Parses the script's configuration file. Any failure is an environment
/// fault (`InternalError`): an unreadable file, unparsable YAML, or a
/// document with a missing, ill-typed or unknown field.
pub fn parse_firebase_config(contents: Option<&str>) -> (parsed: Result<FirebaseConfig, Error>)
    ensures
        match contents {
            None => parsed matches Err(e) && e is InternalError,
            Some(text) => match parsed {
                Ok(cfg) => yaml_of(text@) matches Some(doc) && spec_parse_firebase_config(doc)
                    == Some(cfg.deep_view()),
                Err(e) => e is InternalError && match yaml_of(text@) {
                    Some(doc) => spec_parse_firebase_config(doc) is None,
                    None => true,
                },
            },
        },
{
    let text = match contents {
        Some(text) => text,
        None => {
            return Err(internal("Could not open config file."));
        }
    };
    let doc = match parse_yaml_text(text) {
        Ok(Some(doc)) => doc,
        Ok(None) => {
            return Err(internal("Unsupported value in config file."));
        }
        Err(msg) => {
            return Err(
                Error::InternalError(
                    String::from_str("Could not parse config file: ").concat(msg.as_str()),
                ),
            );
        }
    };
    let entries = match &doc {
        Json::Obj(entries) => entries,
        _ => {
            return Err(internal("config must be a mapping"));
        }
    };
    if entries.len() != 3 {
        return Err(internal("config requires exactly googleProject, flankJar and flankConfig"));
    }
    let google_project = match get_field(entries, "googleProject") {
        Some(Json::Str(s)) => s.clone(),
        _ => {
            return Err(internal("config requires a googleProject string"));
        }
    };
    let flank_jar = match get_field(entries, "flankJar") {
        Some(Json::Str(s)) => s.clone(),
        _ => {
            return Err(internal("config requires a flankJar string"));
        }
    };
    let flank_config = match get_field(entries, "flankConfig") {
        Some(Json::Str(s)) => s.clone(),
        _ => {
            return Err(internal("config requires a flankConfig string"));
        }
    };
    Ok(FirebaseConfig { google_project, flank_jar, flank_config })
}

/// The full argument list of one planned test-tool invocation over one
/// upstream artifact pair: the application APK and the test APK, both
/// resolved under the upstream task's artifact root.
pub open spec fn spec_flank_args(
    config: FirebaseConfigV,
    work_dir: Seq<char>,
    artifact: TaskArtifactsV<FieldsV>,
) -> Seq<Seq<char>> {
    seq![
        "java"@,
        "-jar"@,
        config.flank_jar,
        "--config"@,
        config.flank_config,
        "--project"@,
        config.google_project,
        "--max-test-shards"@,
        "-1"@,
        "--apk"@,
        resolved_path(work_dir, artifact.paths[0]),
        "--test"@,
        resolved_path(work_dir, artifact.paths[1]),
    ]
}

/// One planned invocation per upstream artifact, in declaration order.
pub open spec fn spec_flank_commands(
    config: FirebaseConfigV,
    work_dir: Seq<char>,
    artifacts: Seq<TaskArtifactsV<FieldsV>>,
) -> Seq<Seq<Seq<char>>> {
    Seq::new(artifacts.len(), |i: int| spec_flank_args(config, work_dir, artifacts[i]))
}

/// Plans the test-tool invocations for a task: one per upstream artifact,
/// each of which must declare exactly two paths — the application APK and the
/// test APK. Any other count is a payload fault, reported as
/// `MalformedPayload` rather than aborting the process.
#[verifier::loop_isolation(false)]
pub fn plan_flank_commands(
    config: &FirebaseConfig,
    context: &Context,
    task: &Task<Fields, Fields>,
) -> (planned: Result<Vec<Vec<String>>, Error>)
    ensures
        ({
            let artifacts = task.payload.upstream_artifacts.deep_view();
            match planned {
                Ok(cmds) => (forall|i: int|
                    0 <= i < artifacts.len() ==> (#[trigger] artifacts[i]).paths.len() == 2)
                    && cmds.deep_view() == spec_flank_commands(
                    config.deep_view(),
                    context.spec_work_dir(),
                    artifacts,
                ),
                Err(e) => (exists|i: int|
                    0 <= i < artifacts.len() && (#[trigger] artifacts[i]).paths.len() != 2) && e
                    is MalformedPayload,
            }
        }),
{
    let ghost artifacts = task.payload.upstream_artifacts.deep_view();
    let mut commands: Vec<Vec<String>> = Vec::new();
    let mut i: usize = 0;
    while i < task.payload.upstream_artifacts.len()
        invariant
            0 <= i <= artifacts.len(),
            commands.deep_view().len() == i,
            forall|j: int| 0 <= j < i ==> (#[trigger] artifacts[j]).paths.len() == 2
                && commands.deep_view()[j] == spec_flank_args(
                config.deep_view(),
                context.spec_work_dir(),
                artifacts[j],
            ),
        decreases artifacts.len() - i,
    {
        let upstream = &task.payload.upstream_artifacts[i];
        if upstream.paths.len() != 2 {
            proof {
                assert(artifacts[i as int].paths.len() != 2);
            }
            return Err(
                Error::MalformedPayload(
                    String::from_str(
                        "upstreamArtifacts must declare exactly an apk and a test apk",
                    ),
                ),
            );
        }
        let args: Vec<String> = vec![
            String::from_str("java"),
            String::from_str("-jar"),
            config.flank_jar.clone(),
            String::from_str("--config"),
            config.flank_config.clone(),
            String::from_str("--project"),
            config.google_project.clone(),
            String::from_str("--max-test-shards"),
            String::from_str("-1"),
            String::from_str("--apk"),
            upstream.paths[0].file_path(context),
            String::from_str("--test"),
            upstream.paths[1].file_path(context),
        ];
        let ghost pre = commands.deep_view();
        commands.push(args);
        proof {
            assert(args.deep_view() =~= spec_flank_args(
                config.deep_view(),
                context.spec_work_dir(),
                artifacts[i as int],
            ));
            assert(commands.deep_view() =~= pre.push(args.deep_view()));
        }
        i += 1;
    }
    proof {
        assert(commands.deep_view() =~= spec_flank_commands(
            config.deep_view(),
            context.spec_work_dir(),
            artifacts,
        ));
    }
    Ok(commands)
}

} // verus!
