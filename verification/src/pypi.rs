//! Decision logic of the package-upload worker script.
//!
//! The script uploads Python packages produced by upstream tasks to a package
//! index by invoking an external upload tool. Everything the script decides —
//! which configuration documents are acceptable, which payloads are
//! authorized, which commands to run — is computed here from plain values;
//! the surrounding binary only reads files and spawns the planned commands.

use vstd::prelude::*;

use crate::error::Error;
use crate::json::Json;
use crate::json::parse_yaml_text;
use crate::json::yaml_of;
use crate::task::Fields;
use crate::task::FieldsV;
use crate::task::Task;
use crate::task::TaskArtifacts;
use crate::task::TaskArtifactsV;
use crate::task::TaskPayload;
use crate::task::TaskPayloadV;
use crate::task::TaskV;
use crate::task::spec_missing_scopes;
use crate::task::spec_missing_scopes_message;
use crate::Context;

verus! {

/// One project the script may upload to, with its index credentials.
#[derive(Debug, PartialEq, Eq)]
pub struct PypiProject {
    pub name: String,
    pub api_token: String,
    pub repository_url: String,
}

/// The mathematical value of a [`PypiProject`].
pub struct PypiProjectV {
    pub name: Seq<char>,
    pub api_token: Seq<char>,
    pub repository_url: Seq<char>,
}

impl DeepView for PypiProject {
    type V = PypiProjectV;

    open spec fn deep_view(&self) -> PypiProjectV {
        PypiProjectV {
            name: self.name@,
            api_token: self.api_token@,
            repository_url: self.repository_url@,
        }
    }
}

/// The script's configuration: the known projects (loaded from the secrets
/// document the configuration file points at) and the scope prefix that
/// authorizes uploads.
#[derive(Debug, PartialEq, Eq)]
pub struct PypiConfig {
    pub projects: Vec<PypiProject>,
    pub scope_prefix: String,
}

/// Per-artifact metadata declared by this script: the project the artifact
/// belongs to.
#[derive(Debug, PartialEq, Eq)]
pub struct PypiAttributes {
    pub project: String,
}

/// The mathematical value of a [`PypiAttributes`].
pub struct PypiAttributesV {
    pub project: Seq<char>,
}

impl DeepView for PypiAttributes {
    type V = PypiAttributesV;

    open spec fn deep_view(&self) -> PypiAttributesV {
        PypiAttributesV { project: self.project@ }
    }
}

/// Top-level payload fields declared by this script: the requested action.
#[derive(Debug, PartialEq, Eq)]
pub struct PypiExtra {
    pub action: String,
}

/// The mathematical value of a [`PypiExtra`].
pub struct PypiExtraV {
    pub action: Seq<char>,
}

impl DeepView for PypiExtra {
    type V = PypiExtraV;

    open spec fn deep_view(&self) -> PypiExtraV {
        PypiExtraV { action: self.action@ }
    }
}

/// The configuration key naming the secrets document: either spelling.
pub open spec fn pypi_projects_key(k: Seq<char>) -> bool {
    k == "projects"@ || k == "project_config_file"@
}

/// The configuration key naming the scope prefix: either spelling.
pub open spec fn pypi_prefix_key(k: Seq<char>) -> bool {
    k == "scope_prefix"@ || k == "taskcluster_scope_prefix"@
}

/// The script's configuration document, fail-closed: exactly one
/// projects-file field and one scope-prefix field, both strings, in either
/// order, and nothing else. The result is (projects file path, scope prefix).
pub open spec fn spec_parse_pypi_config(doc: Json) -> Option<(Seq<char>, Seq<char>)> {
    match doc {
        Json::Obj(fields) => {
            if fields@.len() == 2 {
                let first = fields@[0];
                let second = fields@[1];
                if pypi_projects_key(first.0@) && first.1 is Str && pypi_prefix_key(second.0@)
                    && second.1 is Str {
                    Some((first.1->Str_0@, second.1->Str_0@))
                } else if pypi_prefix_key(first.0@) && first.1 is Str && pypi_projects_key(
                    second.0@,
                ) && second.1 is Str {
                    Some((second.1->Str_0@, first.1->Str_0@))
                } else {
                    None
                }
            } else {
                None
            }
        },
        _ => None,
    }
}

fn malformed(msg: &str) -> (e: Error)
    ensures
        e matches Error::MalformedPayload(m) && m@ == msg@,
{
    Error::MalformedPayload(String::from_str(msg))
}

fn internal(msg: &str) -> (e: Error)
    ensures
        e matches Error::InternalError(m) && m@ == msg@,
{
    Error::InternalError(String::from_str(msg))
}

/// Parses the script's configuration file: the path of the secrets document
/// and the scope prefix. Any failure here is an environment fault, not a
/// payload fault: an unreadable file, unparsable YAML, or a document with a
/// missing, ill-typed or unknown field all abort the run with
/// `InternalError`.
pub fn parse_pypi_config(contents: Option<&str>) -> (parsed: Result<(String, String), Error>)
    ensures
        match contents {
            None => parsed matches Err(e) && e is InternalError,
            Some(text) => match parsed {
                Ok(cfg) => yaml_of(text@) matches Some(doc) && spec_parse_pypi_config(doc)
                    == Some((cfg.0@, cfg.1@)),
                Err(e) => e is InternalError && match yaml_of(text@) {
                    Some(doc) => spec_parse_pypi_config(doc) is None,
                    None => true,
                },
            },
        },
{
    let text = match contents {
        Some(text) => text,
        None => {
            return Err(internal("Could not open config file."));
        }
    };
    let doc = match parse_yaml_text(text) {
        Ok(Some(doc)) => doc,
        Ok(None) => {
            return Err(internal("Unsupported value in config file."));
        }
        Err(msg) => {
            return Err(
                Error::InternalError(
                    String::from_str("Could not parse config file: ").concat(msg.as_str()),
                ),
            );
        }
    };
    let entries = match doc {
        Json::Obj(entries) => entries,
        _ => {
            return Err(internal("config must be a mapping"));
        }
    };
    if entries.len() != 2 {
        return Err(internal("config requires exactly projects and scope_prefix"));
    }
    let first_value = match &entries[0].1 {
        Json::Str(s) => s,
        _ => {
            return Err(internal("config fields must be strings"));
        }
    };
    let second_value = match &entries[1].1 {
        Json::Str(s) => s,
        _ => {
            return Err(internal("config fields must be strings"));
        }
    };
    let first_is_projects = crate::json::string_eq_str(&entries[0].0, "projects")
        || crate::json::string_eq_str(&entries[0].0, "project_config_file");
    let first_is_prefix = crate::json::string_eq_str(&entries[0].0, "scope_prefix")
        || crate::json::string_eq_str(&entries[0].0, "taskcluster_scope_prefix");
    let second_is_projects = crate::json::string_eq_str(&entries[1].0, "projects")
        || crate::json::string_eq_str(&entries[1].0, "project_config_file");
    let second_is_prefix = crate::json::string_eq_str(&entries[1].0, "scope_prefix")
        || crate::json::string_eq_str(&entries[1].0, "taskcluster_scope_prefix");
    if first_is_projects && second_is_prefix {
        Ok((first_value.clone(), second_value.clone()))
    } else if first_is_prefix && second_is_projects {
        Ok((second_value.clone(), first_value.clone()))
    } else {
        Err(internal("config holds an unknown field"))
    }
}

/// One project entry of the secrets document, fail-closed: exactly
/// `api_token` and `repository_url`, both strings, in either order. The
/// result is (api token, repository url).
pub open spec fn spec_parse_project(v: Json) -> Option<(Seq<char>, Seq<char>)> {
    match v {
        Json::Obj(fields) => {
            if fields@.len() == 2 {
                let first = fields@[0];
                let second = fields@[1];
                if first.0@ == "api_token"@ && first.1 is Str && second.0@ == "repository_url"@
                    && second.1 is Str {
                    Some((first.1->Str_0@, second.1->Str_0@))
                } else if first.0@ == "repository_url"@ && first.1 is Str && second.0@
                    == "api_token"@ && second.1 is Str {
                    Some((second.1->Str_0@, first.1->Str_0@))
                } else {
                    None
                }
            } else {
                None
            }
        },
        _ => None,
    }
}

/// The secrets document: a mapping from project name to project entry.
pub open spec fn spec_parse_projects(doc: Json) -> Option<Seq<PypiProjectV>> {
    match doc {
        Json::Obj(fields) => {
            if forall|i: int|
                0 <= i < fields@.len() ==> spec_parse_project((#[trigger] fields@[i]).1) is Some {
                Some(
                    Seq::new(
                        fields@.len(),
                        |i: int|
                            PypiProjectV {
                                name: fields@[i].0@,
                                api_token: spec_parse_project(fields@[i].1)->Some_0.0,
                                repository_url: spec_parse_project(fields@[i].1)->Some_0.1,
                            },
                    ),
                )
            } else {
                None
            }
        },
        _ => None,
    }
}

fn parse_project(node: &Json) -> (parsed: Option<(String, String)>)
    ensures
        match parsed {
            Some(p) => spec_parse_project(*node) == Some((p.0@, p.1@)),
            None => spec_parse_project(*node) is None,
        },
{
    match node {
        Json::Obj(fields) => {
            if fields.len() != 2 {
                return None;
            }
            let first = match &fields[0].1 {
                Json::Str(s) => s,
                _ => {
                    return None;
                }
            };
            let second = match &fields[1].1 {
                Json::Str(s) => s,
                _ => {
                    return None;
                }
            };
            if crate::json::string_eq_str(&fields[0].0, "api_token")
                && crate::json::string_eq_str(&fields[1].0, "repository_url") {
                Some((first.clone(), second.clone()))
            } else if crate::json::string_eq_str(&fields[0].0, "repository_url")
                && crate::json::string_eq_str(&fields[1].0, "api_token") {
                Some((second.clone(), first.clone()))
            } else {
                None
            }
        }
        _ => None,
    }
}

/// Parses the secrets document the configuration points at, fail-closed, into
/// the list of known projects. Failures are environment faults.
#[verifier::loop_isolation(false)]
pub fn parse_pypi_projects(contents: Option<&str>) -> (parsed: Result<Vec<PypiProject>, Error>)
    ensures
        match contents {
            None => parsed matches Err(e) && e is InternalError,
            Some(text) => match parsed {
                Ok(projects) => yaml_of(text@) matches Some(doc) && spec_parse_projects(doc)
                    == Some(projects.deep_view()),
                Err(e) => e is InternalError && match yaml_of(text@) {
                    Some(doc) => spec_parse_projects(doc) is None,
                    None => true,
                },
            },
        },
{
    let text = match contents {
        Some(text) => text,
        None => {
            return Err(internal("Could not open secret file."));
        }
    };
    let doc = match parse_yaml_text(text) {
        Ok(Some(doc)) => doc,
        Ok(None) => {
            return Err(internal("Unsupported value in secrets file."));
        }
        Err(msg) => {
            return Err(
                Error::InternalError(
                    String::from_str("Could not parse secrets file: ").concat(msg.as_str()),
                ),
            );
        }
    };
    match &doc {
        Json::Obj(fields) => {
            let mut projects: Vec<PypiProject> = Vec::new();
            let mut i: usize = 0;
            while i < fields.len()
                invariant
                    0 <= i <= fields.len(),
                    projects.deep_view().len() == i,
                    forall|j: int| 0 <= j < i ==> spec_parse_project(
                        (#[trigger] fields@[j]).1,
                    ) is Some && projects.deep_view()[j] == (PypiProjectV {
                        name: fields@[j].0@,
                        api_token: spec_parse_project(fields@[j].1)->Some_0.0,
                        repository_url: spec_parse_project(fields@[j].1)->Some_0.1,
                    }),
                decreases fields.len() - i,
            {
                match parse_project(&fields[i].1) {
                    Some(entry) => {
                        let ghost pre = projects.deep_view();
                        projects.push(
                            PypiProject {
                                name: fields[i].0.clone(),
                                api_token: entry.0,
                                repository_url: entry.1,
                            },
                        );
                        proof {
                            assert(projects.deep_view() =~= pre.push(
                                PypiProjectV {
                                    name: fields@[i as int].0@,
                                    api_token: spec_parse_project(fields@[i as int].1)->Some_0.0,
                                    repository_url: spec_parse_project(
                                        fields@[i as int].1,
                                    )->Some_0.1,
                                },
                            ));
                        }
                    }
                    None => {
                        return Err(internal("Could not parse secrets file."));
                    }
                }
                i += 1;
            }
            proof {
                assert(spec_parse_projects(doc) matches Some(expected) && projects.deep_view()
                    =~= expected);
            }
            Ok(projects)
        }
        _ => Err(internal("secrets file must be a mapping")),
    }
}

/// The first known project under `name`, if one exists.
pub open spec fn spec_find_project(projects: Seq<PypiProjectV>, name: Seq<char>) -> Option<
    PypiProjectV,
>
    decreases projects.len(),
{
    if projects.len() == 0 {
        None
    } else if projects[0].name == name {
        Some(projects[0])
    } else {
        spec_find_project(projects.skip(1), name)
    }
}

impl PypiConfig {
    /// Looks the named project up; an unknown project is a payload fault,
    /// since the task asked for something the worker does not serve.
    pub fn get_project(&self, project_name: &String) -> (found: Result<&PypiProject, Error>)
        ensures
            match found {
                Ok(p) => spec_find_project(self.projects.deep_view(), project_name@) == Some(
                    p.deep_view(),
                ),
                Err(e) => {
                    &&& spec_find_project(self.projects.deep_view(), project_name@) is None
                    &&& e matches Error::MalformedPayload(m) && m@ == "Unknown pypi project "@
                        + project_name@
                },
            },
    {
        let ghost all = self.projects.deep_view();
        let mut i: usize = 0;
        while i < self.projects.len()
            invariant
                0 <= i <= self.projects.len(),
                all == self.projects.deep_view(),
                all.len() == self.projects.len(),
                forall|j: int| 0 <= j < i ==> (#[trigger] all[j]).name != project_name@,
            decreases self.projects.len() - i,
        {
            if crate::json::string_eq_str(&self.projects[i].name, project_name.as_str()) {
                proof {
                    lemma_find_project_skip(all, project_name@, i as int);
                    assert(all.skip(i as int)[0] == all[i as int]);
                }
                return Ok(&self.projects[i]);
            }
            i += 1;
        }
        proof {
            lemma_find_project_skip(all, project_name@, self.projects.len() as int);
        }
        Err(
            Error::MalformedPayload(
                String::from_str("Unknown pypi project ").concat(project_name.as_str()),
            ),
        )
    }
}

proof fn lemma_find_project_skip(projects: Seq<PypiProjectV>, name: Seq<char>, n: int)
    requires
        0 <= n <= projects.len(),
        forall|j: int| 0 <= j < n ==> (#[trigger] projects[j]).name != name,
    ensures
        spec_find_project(projects, name) == spec_find_project(projects.skip(n), name),
    decreases n,
{
    if n > 0 {
        assert forall|j: int| 0 <= j < n - 1 implies (#[trigger] projects.skip(1)[j]).name
            != name by {
            assert(projects.skip(1)[j] == projects[j + 1]);
        }
        lemma_find_project_skip(projects.skip(1), name, n - 1);
        assert(projects.skip(1).skip(n - 1) =~= projects.skip(n));
    } else {
        assert(projects.skip(0) =~= projects);
    }
}

/// The script-declared per-artifact metadata, fail-closed: exactly one
/// field, `project`, a string.
pub open spec fn spec_pypi_attributes(fields: FieldsV) -> Option<Seq<char>> {
    if fields.len() == 1 && fields[0].0@ == "project"@ && fields[0].1 is Str {
        Some(fields[0].1->Str_0@)
    } else {
        None
    }
}

/// The script-declared top-level payload fields, fail-closed: exactly one
/// field, `action`, a string.
pub open spec fn spec_pypi_extra(fields: FieldsV) -> Option<Seq<char>> {
    if fields.len() == 1 && fields[0].0@ == "action"@ && fields[0].1 is Str {
        Some(fields[0].1->Str_0@)
    } else {
        None
    }
}

/// The typed task this script works on, from the generic parsed task: every
/// artifact's metadata and the payload extra must match the script's declared
/// schema exactly — an unknown or missing field rejects the task.
pub open spec fn spec_pypi_task(t: TaskV<FieldsV, FieldsV>) -> Option<
    TaskV<PypiAttributesV, PypiExtraV>,
> {
    if (forall|i: int|
        0 <= i < t.payload.upstream_artifacts.len() ==> spec_pypi_attributes(
            (#[trigger] t.payload.upstream_artifacts[i]).attributes,
        ) is Some) && spec_pypi_extra(t.payload.extra) is Some {
        Some(
            TaskV {
                dependencies: t.dependencies,
                scopes: t.scopes,
                payload: TaskPayloadV {
                    upstream_artifacts: Seq::new(
                        t.payload.upstream_artifacts.len(),
                        |i: int|
                            TaskArtifactsV {
                                task_type: t.payload.upstream_artifacts[i].task_type,
                                task_id: t.payload.upstream_artifacts[i].task_id,
                                paths: t.payload.upstream_artifacts[i].paths,
                                attributes: PypiAttributesV {
                                    project: spec_pypi_attributes(
                                        t.payload.upstream_artifacts[i].attributes,
                                    )->Some_0,
                                },
                            },
                    ),
                    extra: PypiExtraV { action: spec_pypi_extra(t.payload.extra)->Some_0 },
                },
            },
        )
    } else {
        None
    }
}

fn take_pypi_attributes(fields: Fields) -> (parsed: Result<PypiAttributes, Error>)
    ensures
        match parsed {
            Ok(a) => spec_pypi_attributes(fields.deep_view()) == Some(a.project@),
            Err(e) => spec_pypi_attributes(fields.deep_view()) is None && e is MalformedPayload,
        },
{
    let mut entries = fields.0;
    if entries.len() != 1 {
        return Err(malformed("artifact attributes must declare exactly project"));
    }
    let entry = entries.remove(0);
    if !crate::json::string_eq_str(&entry.0, "project") {
        return Err(malformed("artifact attributes must declare exactly project"));
    }
    match entry.1 {
        Json::Str(project) => Ok(PypiAttributes { project }),
        _ => Err(malformed("artifact project must be a string")),
    }
}

fn take_pypi_extra(fields: Fields) -> (parsed: Result<PypiExtra, Error>)
    ensures
        match parsed {
            Ok(a) => spec_pypi_extra(fields.deep_view()) == Some(a.action@),
            Err(e) => spec_pypi_extra(fields.deep_view()) is None && e is MalformedPayload,
        },
{
    let mut entries = fields.0;
    if entries.len() != 1 {
        return Err(malformed("payload must declare exactly action"));
    }
    let entry = entries.remove(0);
    if !crate::json::string_eq_str(&entry.0, "action") {
        return Err(malformed("payload must declare exactly action"));
    }
    match entry.1 {
        Json::Str(action) => Ok(PypiExtra { action }),
        _ => Err(malformed("payload action must be a string")),
    }
}

/// Converts the generic parsed task into this script's typed task,
/// fail-closed on the script-declared fields.
#[verifier::loop_isolation(false)]
pub fn pypi_task(task: Task<Fields, Fields>) -> (converted: Result<
    Task<PypiAttributes, PypiExtra>,
    Error,
>)
    ensures
        match converted {
            Ok(t) => spec_pypi_task(task.deep_view()) == Some(t.deep_view()),
            Err(e) => spec_pypi_task(task.deep_view()) is None && e is MalformedPayload,
        },
{
    let ghost tv = task.deep_view();
    let Task { dependencies, scopes, payload } = task;
    let TaskPayload { upstream_artifacts, extra } = payload;
    let ghost all = upstream_artifacts.deep_view();
    let ghost all_sh = upstream_artifacts@;
    let extra = match take_pypi_extra(extra) {
        Ok(extra) => extra,
        Err(e) => {
            return Err(e);
        }
    };
    let mut remaining = upstream_artifacts;
    let mut converted_artifacts: Vec<TaskArtifacts<PypiAttributes>> = Vec::new();
    let ghost mut k: int = 0;
    while remaining.len() > 0
        invariant
            0 <= k <= all.len(),
            all_sh.len() == all.len(),
            forall|j: int| 0 <= j < all.len() ==> (#[trigger] all_sh[j]).deep_view() == all[j],
            remaining@ == all_sh.skip(k),
            all.len() - k == remaining.len(),
            converted_artifacts.deep_view().len() == k,
            forall|j: int| 0 <= j < k ==> spec_pypi_attributes(
                (#[trigger] all[j]).attributes,
            ) is Some && converted_artifacts.deep_view()[j] == (TaskArtifactsV {
                task_type: all[j].task_type,
                task_id: all[j].task_id,
                paths: all[j].paths,
                attributes: PypiAttributesV {
                    project: spec_pypi_attributes(all[j].attributes)->Some_0,
                },
            }),
        decreases remaining.len(),
    {
        let artifact = remaining.remove(0);
        proof {
            assert(artifact == all_sh.skip(k)[0]);
            assert(all_sh.skip(k)[0] == all_sh[k]);
            assert(artifact.deep_view() == all[k]);
            assert(remaining@ =~= all_sh.skip(k + 1));
        }
        let TaskArtifacts { task_type, task_id, paths, attributes } = artifact;
        let attributes = match take_pypi_attributes(attributes) {
            Ok(attributes) => attributes,
            Err(e) => {
                return Err(e);
            }
        };
        let ghost pre = converted_artifacts.deep_view();
        converted_artifacts.push(TaskArtifacts { task_type, task_id, paths, attributes });
        proof {
            assert(converted_artifacts.deep_view() =~= pre.push(
                TaskArtifactsV {
                    task_type: all[k].task_type,
                    task_id: all[k].task_id,
                    paths: all[k].paths,
                    attributes: PypiAttributesV {
                        project: spec_pypi_attributes(all[k].attributes)->Some_0,
                    },
                },
            ));
        }
        proof {
            k = k + 1;
        }
    }
    let result = Task {
        dependencies,
        scopes,
        payload: TaskPayload { upstream_artifacts: converted_artifacts, extra },
    };
    proof {
        assert(spec_pypi_task(tv) matches Some(expected) && result.deep_view().payload.upstream_artifacts =~= expected.payload.upstream_artifacts);
    }
    Ok(result)
}

/// The scope that authorizes uploading one project's artifacts.
pub open spec fn spec_required_scope(prefix: Seq<char>, project: Seq<char>) -> Seq<char> {
    prefix + ":pypi:project:"@ + project
}

/// The scopes required by a payload: one per upstream artifact, derived from
/// its project name.
pub open spec fn spec_required_scopes(
    prefix: Seq<char>,
    artifacts: Seq<TaskArtifactsV<PypiAttributesV>>,
) -> Seq<Seq<char>> {
    Seq::new(artifacts.len(), |i: int| spec_required_scope(prefix, artifacts[i].attributes.project))
}

/// Checks the payload before any work: the requested action must be `upload`,
/// and every upstream artifact's project scope must have been granted — all
/// missing scopes are reported together.
pub fn verify_payload(
    config: &PypiConfig,
    _context: &Context,
    task: &Task<PypiAttributes, PypiExtra>,
) -> (checked: Result<(), Error>)
    ensures
        ({
            let required = spec_required_scopes(
                config.scope_prefix@,
                task.payload.upstream_artifacts.deep_view(),
            );
            let missing = spec_missing_scopes(required, task.scopes.deep_view());
            match checked {
                Ok(()) => task.payload.extra.action@ == "upload"@ && missing.len() == 0,
                Err(e) => {
                    &&& e is MalformedPayload
                    &&& task.payload.extra.action@ != "upload"@ ==> (e matches
                        Error::MalformedPayload(m) && m@ == "Unsupported action: "@
                        + task.payload.extra.action@)
                    &&& task.payload.extra.action@ == "upload"@ ==> (missing.len() > 0 && (e
                        matches Error::MalformedPayload(m) && m@ == spec_missing_scopes_message(
                        missing,
                    )))
                },
            }
        }),
{
    if !crate::json::string_eq_str(&task.payload.extra.action, "upload") {
        return Err(
            Error::MalformedPayload(
                String::from_str("Unsupported action: ").concat(task.payload.extra.action.as_str()),
            ),
        );
    }
    let ghost artifacts = task.payload.upstream_artifacts.deep_view();
    let mut required: Vec<String> = Vec::new();
    let mut i: usize = 0;
    while i < task.payload.upstream_artifacts.len()
        invariant
            0 <= i <= task.payload.upstream_artifacts.len(),
            artifacts == task.payload.upstream_artifacts.deep_view(),
            artifacts.len() == task.payload.upstream_artifacts.len(),
            required.deep_view().len() == i,
            forall|j: int| 0 <= j < i ==> required.deep_view()[j] == spec_required_scope(
                config.scope_prefix@,
                (#[trigger] artifacts[j]).attributes.project,
            ),
        decreases task.payload.upstream_artifacts.len() - i,
    {
        let scope = config.scope_prefix.clone().concat(":pypi:project:").concat(
            task.payload.upstream_artifacts[i].attributes.project.as_str(),
        );
        let ghost pre = required.deep_view();
        required.push(scope);
        proof {
            assert(required.deep_view() =~= pre.push(
                spec_required_scope(config.scope_prefix@, artifacts[i as int].attributes.project),
            ));
        }
        i += 1;
    }
    proof {
        assert(required.deep_view() =~= spec_required_scopes(config.scope_prefix@, artifacts));
    }
    task.require_scopes(required)
}

/// One planned invocation of the external upload tool: the arguments after
/// the program name, and the secret to hand it through its environment.
#[derive(Debug, PartialEq, Eq)]
pub struct PlannedCommand {
    pub args: Vec<String>,
    pub token: Option<String>,
}

/// The check pass: `twine check <resolved artifact paths...>` for one
/// upstream artifact set.
pub fn plan_check_command(upstream: &TaskArtifacts<PypiAttributes>, context: &Context) -> (planned:
    PlannedCommand)
    ensures
        planned.args@.len() == 1 + upstream.paths@.len(),
        planned.args.deep_view()[0] == "check"@,
        forall|j: int| 0 <= j < upstream.paths@.len() ==> planned.args.deep_view()[j + 1]
            == crate::paths::resolved_path(
            context.spec_work_dir(),
            (#[trigger] upstream.paths.deep_view()[j]),
        ),
        planned.token is None,
{
    let mut args: Vec<String> = Vec::new();
    args.push(String::from_str("check"));
    let mut i: usize = 0;
    while i < upstream.paths.len()
        invariant
            0 <= i <= upstream.paths@.len(),
            args.deep_view().len() == 1 + i,
            args.deep_view()[0] == "check"@,
            forall|j: int| 0 <= j < i ==> args.deep_view()[j + 1] == crate::paths::resolved_path(
                context.spec_work_dir(),
                (#[trigger] upstream.paths.deep_view()[j]),
            ),
        decreases upstream.paths@.len() - i,
    {
        let ghost pre = args.deep_view();
        args.push(upstream.paths[i].file_path(context));
        proof {
            assert(args.deep_view() =~= pre.push(
                crate::paths::resolved_path(
                    context.spec_work_dir(),
                    upstream.paths.deep_view()[i as int],
                ),
            ));
        }
        i += 1;
    }
    PlannedCommand { args, token: None }
}

/// The upload pass: `twine upload --user __token__ --repository-url <url>
/// <resolved artifact paths...>`, with the project's token passed through the
/// environment, never on the command line.
pub fn plan_upload_command(
    upstream: &TaskArtifacts<PypiAttributes>,
    project: &PypiProject,
    context: &Context,
) -> (planned: PlannedCommand)
    ensures
        planned.args@.len() == 5 + upstream.paths@.len(),
        planned.args.deep_view()[0] == "upload"@,
        planned.args.deep_view()[1] == "--user"@,
        planned.args.deep_view()[2] == "__token__"@,
        planned.args.deep_view()[3] == "--repository-url"@,
        planned.args.deep_view()[4] == project.repository_url@,
        forall|j: int| 0 <= j < upstream.paths@.len() ==> planned.args.deep_view()[j + 5]
            == crate::paths::resolved_path(
            context.spec_work_dir(),
            (#[trigger] upstream.paths.deep_view()[j]),
        ),
        planned.token matches Some(t) && t@ == project.api_token@,
{
    let mut args: Vec<String> = Vec::new();
    args.push(String::from_str("upload"));
    args.push(String::from_str("--user"));
    args.push(String::from_str("__token__"));
    args.push(String::from_str("--repository-url"));
    args.push(project.repository_url.clone());
    let mut i: usize = 0;
    while i < upstream.paths.len()
        invariant
            0 <= i <= upstream.paths@.len(),
            args.deep_view().len() == 5 + i,
            args.deep_view()[0] == "upload"@,
            args.deep_view()[1] == "--user"@,
            args.deep_view()[2] == "__token__"@,
            args.deep_view()[3] == "--repository-url"@,
            args.deep_view()[4] == project.repository_url@,
            forall|j: int| 0 <= j < i ==> args.deep_view()[j + 5] == crate::paths::resolved_path(
                context.spec_work_dir(),
                (#[trigger] upstream.paths.deep_view()[j]),
            ),
        decreases upstream.paths@.len() - i,
    {
        let ghost pre = args.deep_view();
        args.push(upstream.paths[i].file_path(context));
        proof {
            assert(args.deep_view() =~= pre.push(
                crate::paths::resolved_path(
                    context.spec_work_dir(),
                    upstream.paths.deep_view()[i as int],
                ),
            ));
        }
        i += 1;
    }
    PlannedCommand { args, token: Some(project.api_token.clone()) }
}

/// A command that did not run, or did not succeed, is a plain task failure:
/// the harness never interprets child exit statuses itself.
pub fn command_result(success: bool) -> (mapped: Result<(), Error>)
    ensures
        success ==> mapped is Ok,
        !success ==> (mapped matches Err(e) && e is Failure),
{
    if success {
        Ok(())
    } else {
        Err(Error::Failure)
    }
}

} // verus!
