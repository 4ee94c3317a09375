//! The generic task model, its fail-closed parser, and the scope authorizer.
//!
//! A task description is a signed JSON document: upstream task identifiers the
//! task depends on, the authorization scopes granted to it, and a payload made
//! of upstream-artifact declarations plus script-specific fields. The script's
//! own per-artifact metadata (`A`) and top-level payload fields (`E`) live in
//! the same JSON objects as the fixed harness fields; parsing splits them out
//! and hands them over unread.

use vstd::prelude::*;

use crate::error::Error;
use crate::json::Json;
use crate::json::get_field;
use crate::json::json_of;
use crate::json::lemma_get_field_skip;
use crate::json::parse_json_text;
use crate::json::spec_get_field;
use crate::json::string_eq_str;
use crate::paths::ArtifactPath;
use crate::paths::ArtifactPathV;

verus! {

/// A script-declared schema with no fields of its own.
#[derive(Debug, PartialEq, Eq)]
pub struct Empty {}

impl DeepView for Empty {
    type V = ();

    open spec fn deep_view(&self) -> () {
        ()
    }
}

/// The script-declared portion of a payload or artifact object: the fields
/// left over once the fixed harness fields are taken out, in declaration
/// order, carried unread for the script to interpret.
#[derive(Debug, PartialEq, Eq)]
pub struct Fields(pub Vec<(String, Json)>);

/// The script-declared fields of a payload or artifact object, as a sequence.
pub type FieldsV = Seq<(String, Json)>;

impl DeepView for Fields {
    type V = FieldsV;

    open spec fn deep_view(&self) -> FieldsV {
        self.0@
    }
}

/// The mathematical value of a [`TaskArtifacts`].
pub struct TaskArtifactsV<AV> {
    pub task_type: Seq<char>,
    pub task_id: Seq<char>,
    pub paths: Seq<ArtifactPathV>,
    pub attributes: AV,
}

/// One upstream dependency's contribution: the upstream task that produced
/// the artifacts, the declared (validated) paths, and the script-declared
/// per-artifact metadata.
#[derive(Debug, PartialEq, Eq)]
pub struct TaskArtifacts<A> {
    pub task_type: String,
    pub task_id: String,
    pub paths: Vec<ArtifactPath>,
    pub attributes: A,
}

impl<A: DeepView> DeepView for TaskArtifacts<A> {
    type V = TaskArtifactsV<A::V>;

    open spec fn deep_view(&self) -> TaskArtifactsV<A::V> {
        TaskArtifactsV {
            task_type: self.task_type@,
            task_id: self.task_id@,
            paths: self.paths.deep_view(),
            attributes: self.attributes.deep_view(),
        }
    }
}

/// The mathematical value of a [`TaskPayload`].
pub struct TaskPayloadV<AV, EV> {
    pub upstream_artifacts: Seq<TaskArtifactsV<AV>>,
    pub extra: EV,
}

/// A task's payload: the upstream-artifact declarations plus the
/// script-declared top-level fields.
#[derive(Debug, PartialEq, Eq)]
pub struct TaskPayload<A, E> {
    pub upstream_artifacts: Vec<TaskArtifacts<A>>,
    pub extra: E,
}

impl<A: DeepView, E: DeepView> DeepView for TaskPayload<A, E> {
    type V = TaskPayloadV<A::V, E::V>;

    open spec fn deep_view(&self) -> TaskPayloadV<A::V, E::V> {
        TaskPayloadV {
            upstream_artifacts: self.upstream_artifacts.deep_view(),
            extra: self.extra.deep_view(),
        }
    }
}

/// The mathematical value of a [`Task`].
pub struct TaskV<AV, EV> {
    pub dependencies: Seq<Seq<char>>,
    pub scopes: Seq<Seq<char>>,
    pub payload: TaskPayloadV<AV, EV>,
}

/// The signed description of the work to perform. `scopes` is authoritative:
/// it is only ever read and checked, never widened.
#[derive(Debug, PartialEq, Eq)]
pub struct Task<A = Empty, E = Empty> {
    pub dependencies: Vec<String>,
    pub scopes: Vec<String>,
    pub payload: TaskPayload<A, E>,
}

impl<A: DeepView, E: DeepView> DeepView for Task<A, E> {
    type V = TaskV<A::V, E::V>;

    open spec fn deep_view(&self) -> TaskV<A::V, E::V> {
        TaskV {
            dependencies: self.dependencies.deep_view(),
            scopes: self.scopes.deep_view(),
            payload: self.payload.deep_view(),
        }
    }
}

/// The diagnostic of a single missing scope.
pub open spec fn spec_missing_scope_message(scope: Seq<char>) -> Seq<char> {
    "missing scope "@ + scope
}

/// `items` joined with the separator `sep`.
pub open spec fn spec_join(items: Seq<Seq<char>>, sep: Seq<char>) -> Seq<char>
    decreases items.len(),
{
    if items.len() == 0 {
        Seq::empty()
    } else if items.len() == 1 {
        items[0]
    } else {
        items[0] + sep + spec_join(items.skip(1), sep)
    }
}

/// The required scopes that the granted set does not hold, in declaration
/// order.
pub open spec fn spec_missing_scopes(required: Seq<Seq<char>>, granted: Seq<Seq<char>>) -> Seq<
    Seq<char>,
> {
    required.filter(|s: Seq<char>| !granted.contains(s))
}

/// The diagnostic that names every missing scope.
pub open spec fn spec_missing_scopes_message(missing: Seq<Seq<char>>) -> Seq<char> {
    "missing scopes: "@ + spec_join(missing, ", "@)
}

/// Content membership of a `String` in a granted or required set.
fn contains_string(haystack: &Vec<String>, needle: &String) -> (found: bool)
    ensures
        found == haystack.deep_view().contains(needle@),
{
    let mut i: usize = 0;
    while i < haystack.len()
        invariant
            0 <= i <= haystack.len(),
            forall|j: int| 0 <= j < i ==> haystack.deep_view()[j] != needle@,
        decreases haystack.len() - i,
    {
        if haystack[i] == *needle {
            proof {
                assert(haystack.deep_view()[i as int] == needle@);
            }
            return true;
        }
        i += 1;
    }
    false
}

proof fn lemma_join_push(items: Seq<Seq<char>>, x: Seq<char>, sep: Seq<char>)
    ensures
        spec_join(items.push(x), sep) == if items.len() == 0 {
            x
        } else {
            spec_join(items, sep) + sep + x
        },
    decreases items.len(),
{
    if items.len() == 0 {
        assert(items.push(x)[0] == x);
    } else {
        lemma_join_push(items.skip(1), x, sep);
        assert(items.push(x).skip(1) =~= items.skip(1).push(x));
        assert(items.push(x)[0] == items[0]);
        if items.len() > 1 {
            assert((items[0] + sep + (spec_join(items.skip(1), sep) + sep + x)) =~= ((items[0]
                + sep + spec_join(items.skip(1), sep)) + sep + x));
        }
    }
}

/// Joins strings with a separator: the executable form of [`spec_join`].
fn join_strings(items: &Vec<String>, sep: &str) -> (joined: String)
    ensures
        joined@ == spec_join(items.deep_view(), sep@),
{
    let ghost dv = items.deep_view();
    let mut joined = String::new();
    let mut i: usize = 0;
    while i < items.len()
        invariant
            0 <= i <= items.len(),
            dv == items.deep_view(),
            dv.len() == items.len(),
            joined@ == spec_join(dv.take(i as int), sep@),
        decreases items.len() - i,
    {
        if i > 0 {
            joined = joined.concat(sep);
        }
        joined = joined.concat(items[i].as_str());
        proof {
            lemma_join_push(dv.take(i as int), dv[i as int], sep@);
            assert(dv.take(i as int).push(dv[i as int]) =~= dv.take(i + 1 as int));
            if i == 0 {
                assert(joined@ =~= dv[0]);
            }
        }
        i += 1;
    }
    proof {
        assert(dv.take(items.len() as int) =~= dv);
    }
    joined
}

/// Collects the required scopes that are not granted, in declaration order:
/// the executable form of [`spec_missing_scopes`].
fn collect_missing(required: &Vec<String>, granted: &Vec<String>) -> (missing: Vec<String>)
    ensures
        missing.deep_view() == spec_missing_scopes(required.deep_view(), granted.deep_view()),
{
    let ghost rdv = required.deep_view();
    let ghost pred = |s: Seq<char>| !granted.deep_view().contains(s);
    let mut missing: Vec<String> = Vec::new();
    let mut i: usize = 0;
    while i < required.len()
        invariant
            0 <= i <= required.len(),
            rdv == required.deep_view(),
            rdv.len() == required.len(),
            pred == (|s: Seq<char>| !granted.deep_view().contains(s)),
            missing.deep_view() == rdv.take(i as int).filter(pred),
        decreases required.len() - i,
    {
        let ghost pre = missing.deep_view();
        if !contains_string(granted, &required[i]) {
            missing.push(required[i].clone());
            proof {
                assert(missing.deep_view() =~= pre.push(rdv[i as int]));
            }
        }
        proof {
            assert(rdv.take(i + 1 as int).drop_last() =~= rdv.take(i as int));
            assert(rdv.take(i + 1 as int).last() == rdv[i as int]);
            reveal_with_fuel(Seq::filter, 2);
        }
        i += 1;
    }
    proof {
        assert(rdv.take(required.len() as int) =~= rdv);
    }
    missing
}

impl<A, E> Task<A, E> {
    /// Demands one scope of the granted set, by exact string match: no
    /// wildcard or hierarchy semantics. Its absence is a `MalformedPayload`
    /// whose diagnostic names the scope.
    pub fn require_scope(&self, scope: &str) -> (result: Result<(), Error>)
        ensures
            match result {
                Ok(()) => self.scopes.deep_view().contains(scope@),
                Err(e) => {
                    &&& !self.scopes.deep_view().contains(scope@)
                    &&& e matches Error::MalformedPayload(m) && m@ == spec_missing_scope_message(
                        scope@,
                    )
                },
            },
    {
        let needle = String::from_str(scope);
        if contains_string(&self.scopes, &needle) {
            Ok(())
        } else {
            Err(Error::MalformedPayload(String::from_str("missing scope ").concat(scope)))
        }
    }

    /// Requires every scope of the given list: never stops at the earliest
    /// miss, so the `MalformedPayload` diagnostic names every missing scope
    /// together, giving a complete authorization report in one pass.
    pub fn require_scopes(&self, scopes: Vec<String>) -> (result: Result<(), Error>)
        ensures
            ({
                let missing = spec_missing_scopes(scopes.deep_view(), self.scopes.deep_view());
                match result {
                    Ok(()) => missing.len() == 0,
                    Err(e) => {
                        &&& missing.len() > 0
                        &&& e matches Error::MalformedPayload(m) && m@
                            == spec_missing_scopes_message(missing)
                    },
                }
            }),
    {
        let missing = collect_missing(&scopes, &self.scopes);
        if missing.is_empty() {
            Ok(())
        } else {
            let joined = join_strings(&missing, ", ");
            Err(
                Error::MalformedPayload(
                    String::from_str("missing scopes: ").concat(joined.as_str()),
                ),
            )
        }
    }
}

/// The content of a string node; empty for any other node.
pub open spec fn spec_str_content(v: Json) -> Seq<char> {
    match v {
        Json::Str(s) => s@,
        _ => Seq::empty(),
    }
}

/// True when every item of the array is a string node.
pub open spec fn spec_all_strings(items: Seq<Json>) -> bool {
    forall|i: int| 0 <= i < items.len() ==> (#[trigger] items[i]) is Str
}

/// The contents of a sequence of string nodes.
pub open spec fn spec_string_views(items: Seq<Json>) -> Seq<Seq<char>> {
    Seq::new(items.len(), |i: int| spec_str_content(items[i]))
}

/// An array-of-strings field: any other shape is rejected.
pub open spec fn spec_parse_string_array(v: Json) -> Option<Seq<Seq<char>>> {
    match v {
        Json::Arr(items) => if spec_all_strings(items@) {
            Some(spec_string_views(items@))
        } else {
            None
        },
        _ => None,
    }
}

/// True when every declared path is syntactically relative and free of `..`
/// segments.
pub open spec fn spec_clean_paths(paths: Seq<Seq<char>>) -> bool {
    forall|i: int| 0 <= i < paths.len() ==> crate::paths::is_clean_relative(#[trigger] paths[i])
}

/// The declared paths of one upstream task, each bound to its task id.
pub open spec fn spec_artifact_paths(task_id: Seq<char>, paths: Seq<Seq<char>>) -> Seq<
    ArtifactPathV,
> {
    Seq::new(paths.len(), |i: int| ArtifactPathV { task_id: task_id, path: paths[i] })
}

/// The fixed harness fields of an upstream-artifact object.
pub open spec fn artifact_fixed_keys() -> Seq<Seq<char>> {
    seq!["taskType"@, "taskId"@, "paths"@]
}

/// The fixed harness fields of a payload object.
pub open spec fn payload_fixed_keys() -> Seq<Seq<char>> {
    seq!["upstreamArtifacts"@]
}

/// The fields left over once the fixed harness fields are taken out.
pub open spec fn spec_leftover(fields: FieldsV, fixed: Seq<Seq<char>>) -> FieldsV {
    fields.filter(|kv: (String, Json)| !fixed.contains(kv.0@))
}

/// One upstream-artifact object: `taskType` and `taskId` must be strings,
/// `paths` an array of clean relative strings; everything else is the
/// script-declared metadata.
pub open spec fn spec_parse_artifact(v: Json) -> Option<TaskArtifactsV<FieldsV>> {
    match v {
        Json::Obj(fields) => match (
            spec_get_field(fields@, "taskType"@),
            spec_get_field(fields@, "taskId"@),
            spec_get_field(fields@, "paths"@),
        ) {
            (Some(Json::Str(task_type)), Some(Json::Str(task_id)), Some(paths_node)) => match
                spec_parse_string_array(paths_node) {
                Some(path_strings) => if spec_clean_paths(path_strings) {
                    Some(
                        TaskArtifactsV {
                            task_type: task_type@,
                            task_id: task_id@,
                            paths: spec_artifact_paths(task_id@, path_strings),
                            attributes: spec_leftover(fields@, artifact_fixed_keys()),
                        },
                    )
                } else {
                    None
                },
                None => None,
            },
            _ => None,
        },
        _ => None,
    }
}

/// True when every item of `upstreamArtifacts` parses.
pub open spec fn spec_artifacts_all(items: Seq<Json>) -> bool {
    forall|i: int| 0 <= i < items.len() ==> spec_parse_artifact(#[trigger] items[i]) is Some
}

/// The parsed upstream-artifact declarations, in order.
pub open spec fn spec_parsed_artifacts(items: Seq<Json>) -> Seq<TaskArtifactsV<FieldsV>> {
    Seq::new(items.len(), |i: int| spec_parse_artifact(items[i])->Some_0)
}

/// A payload object: `upstreamArtifacts` must be an array of artifact
/// objects; everything else is the script-declared extra.
pub open spec fn spec_parse_payload(v: Json) -> Option<TaskPayloadV<FieldsV, FieldsV>> {
    match v {
        Json::Obj(fields) => match spec_get_field(fields@, "upstreamArtifacts"@) {
            Some(Json::Arr(items)) => if spec_artifacts_all(items@) {
                Some(
                    TaskPayloadV {
                        upstream_artifacts: spec_parsed_artifacts(items@),
                        extra: spec_leftover(fields@, payload_fixed_keys()),
                    },
                )
            } else {
                None
            },
            _ => None,
        },
        _ => None,
    }
}

/// A task document: `dependencies` and `scopes` are arrays of strings,
/// `payload` a payload object. Fields beyond these are the signing
/// authority's own and are ignored.
pub open spec fn spec_parse_task(v: Json) -> Option<TaskV<FieldsV, FieldsV>> {
    match v {
        Json::Obj(fields) => match (
            spec_get_field(fields@, "dependencies"@),
            spec_get_field(fields@, "scopes"@),
            spec_get_field(fields@, "payload"@),
        ) {
            (Some(deps_node), Some(scopes_node), Some(payload_node)) => match (
                spec_parse_string_array(deps_node),
                spec_parse_string_array(scopes_node),
                spec_parse_payload(payload_node),
            ) {
                (Some(dependencies), Some(scopes), Some(payload)) => Some(
                    TaskV { dependencies, scopes, payload },
                ),
                _ => None,
            },
            _ => None,
        },
        _ => None,
    }
}

/// The task value that task text denotes, if it parses on every level.
pub open spec fn spec_task_of_text(text: Seq<char>) -> Option<TaskV<FieldsV, FieldsV>> {
    match json_of(text) {
        Some(doc) => spec_parse_task(doc),
        None => None,
    }
}

/// `needle` occurs contiguously inside `hay`.
pub open spec fn appears_in(needle: Seq<char>, hay: Seq<char>) -> bool {
    exists|k: int|
        0 <= k && k + needle.len() <= hay.len() && #[trigger] hay.subrange(k, k + needle.len())
            == needle
}

proof fn lemma_filter_keeps_members(s: Seq<Seq<char>>, pred: spec_fn(Seq<char>) -> bool, x: Seq<char>)
    requires
        s.filter(pred).contains(x),
    ensures
        s.contains(x),
    decreases s.len(),
{
    reveal_with_fuel(Seq::filter, 2);
    if s.len() > 0 {
        if pred(s.last()) && x == s.last() {
            assert(s[s.len() - 1] == x);
        } else {
            if pred(s.last()) {
                let fd = s.drop_last().filter(pred);
                let i = choose|i: int| 0 <= i < fd.push(s.last()).len() && fd.push(s.last())[i] == x;
                assert(fd[i] == x);
            }
            lemma_filter_keeps_members(s.drop_last(), pred, x);
            let i = choose|i: int| 0 <= i < s.drop_last().len() && s.drop_last()[i] == x;
            assert(s[i] == x);
        }
    }
}

/// Law: the scope check fails exactly when some required scope was not
/// granted — the missing set is empty iff every required scope is granted,
/// and everything it holds is a required scope the granted set lacks.
pub proof fn lemma_scope_check_exact(required: Seq<Seq<char>>, granted: Seq<Seq<char>>)
    ensures
        (spec_missing_scopes(required, granted).len() == 0) <==> (forall|i: int|
            0 <= i < required.len() ==> granted.contains(#[trigger] required[i])),
        forall|i: int| 0 <= i < spec_missing_scopes(required, granted).len() ==> {
            &&& required.contains(#[trigger] spec_missing_scopes(required, granted)[i])
            &&& !granted.contains(spec_missing_scopes(required, granted)[i])
        },
{
    let pred = |s: Seq<char>| !granted.contains(s);
    let missing = required.filter(pred);
    required.filter_lemma(pred);
    assert forall|i: int| 0 <= i < missing.len() implies required.contains(
        #[trigger] missing[i],
    ) && !granted.contains(missing[i]) by {
        lemma_filter_keeps_members(required, pred, missing[i]);
    }
    if missing.len() == 0 {
        assert forall|i: int| 0 <= i < required.len() implies granted.contains(
            #[trigger] required[i],
        ) by {
            if !granted.contains(required[i]) {
                assert(missing.contains(required[i]));
            }
        }
    } else {
        assert(required.contains(missing[0]) && !granted.contains(missing[0]));
    }
}

proof fn lemma_appears_at(needle: Seq<char>, hay: Seq<char>, k: int)
    requires
        0 <= k,
        k + needle.len() <= hay.len(),
        hay.subrange(k, k + needle.len()) == needle,
    ensures
        appears_in(needle, hay),
{
}

proof fn lemma_join_names_item(items: Seq<Seq<char>>, sep: Seq<char>, i: int)
    requires
        0 <= i < items.len(),
    ensures
        appears_in(items[i], spec_join(items, sep)),
    decreases i,
{
    let joined = spec_join(items, sep);
    if items.len() == 1 || i == 0 {
        assert(joined.subrange(0, 0 + items[i].len() as int) =~= items[i]);
        lemma_appears_at(items[i], joined, 0);
    } else {
        lemma_join_names_item(items.skip(1), sep, i - 1);
        let rest = spec_join(items.skip(1), sep);
        let needle = items.skip(1)[i - 1];
        assert(needle == items[i]);
        let k = choose|k: int|
            0 <= k && k + needle.len() <= rest.len() && #[trigger] rest.subrange(
                k,
                k + needle.len(),
            ) == needle;
        let off: int = items[0].len() + sep.len() as int;
        assert(joined.subrange(off + k, (off + k) + needle.len()) =~= rest.subrange(
            k,
            k + needle.len(),
        ));
        lemma_appears_at(items[i], joined, off + k);
    }
}

/// Law: when scope checking fails, the diagnostic names every missing scope,
/// not only the first one found.
pub proof fn lemma_scopes_message_complete(required: Seq<Seq<char>>, granted: Seq<Seq<char>>, i: int)
    requires
        0 <= i < spec_missing_scopes(required, granted).len(),
    ensures
        appears_in(
            spec_missing_scopes(required, granted)[i],
            spec_missing_scopes_message(spec_missing_scopes(required, granted)),
        ),
{
    let missing = spec_missing_scopes(required, granted);
    let needle = missing[i];
    lemma_join_names_item(missing, ", "@, i);
    let joined = spec_join(missing, ", "@);
    let message = spec_missing_scopes_message(missing);
    let k = choose|k: int|
        0 <= k && k + needle.len() <= joined.len() && #[trigger] joined.subrange(
            k,
            k + needle.len(),
        ) == needle;
    let off: int = "missing scopes: "@.len() as int;
    assert(message.subrange(off + k, (off + k) + needle.len()) =~= joined.subrange(
        k,
        k + needle.len(),
    ));
    lemma_appears_at(needle, message, off + k);
}

/// Law: a task text denotes at most one task value, so parsing the same
/// `task.json` contents twice yields structurally equal tasks — no hidden
/// state affects parsing.
pub proof fn lemma_parse_idempotent(
    text: Seq<char>,
    first: TaskV<FieldsV, FieldsV>,
    second: TaskV<FieldsV, FieldsV>,
)
    requires
        spec_task_of_text(text) == Some(first),
        spec_task_of_text(text) == Some(second),
    ensures
        first == second,
{
}

/// Law: every artifact path of a task that parses is clean — syntactically
/// relative, free of `..` segments — and therefore resolves, against any
/// working directory, to a path lexically under its upstream task's artifact
/// root. A task that declares an absolute or traversing path never parses.
pub proof fn lemma_parsed_paths_contained(
    doc: Json,
    t: TaskV<FieldsV, FieldsV>,
    work_dir: Seq<char>,
    i: int,
    j: int,
)
    requires
        spec_parse_task(doc) == Some(t),
        0 <= i < t.payload.upstream_artifacts.len(),
        0 <= j < t.payload.upstream_artifacts[i].paths.len(),
    ensures
        crate::paths::is_clean_relative(t.payload.upstream_artifacts[i].paths[j].path),
        crate::paths::path_under_root(
            crate::paths::resolved_path(work_dir, t.payload.upstream_artifacts[i].paths[j]),
            crate::paths::artifact_root(
                work_dir,
                t.payload.upstream_artifacts[i].paths[j].task_id,
            ),
        ),
{
    let ap = t.payload.upstream_artifacts[i].paths[j];
    crate::paths::lemma_path_containment(work_dir, ap.task_id, ap.path);
}

fn malformed(msg: &str) -> (e: Error)
    ensures
        e matches Error::MalformedPayload(m) && m@ == msg@,
{
    Error::MalformedPayload(String::from_str(msg))
}

/// Splits one field out of an object by move: the first value declared under
/// `key`, and the fields declared under other names, in order.
#[verifier::loop_isolation(false)]
fn split_field(entries: Vec<(String, Json)>, key: &str) -> (split: (
    Option<Json>,
    Vec<(String, Json)>,
))
    ensures
        match split.0 {
            Some(value) => spec_get_field(entries@, key@) == Some(value),
            None => spec_get_field(entries@, key@) is None,
        },
        split.1@ == spec_leftover(entries@, seq![key@]),
{
    let ghost all = entries@;
    let ghost pred = |kv: (String, Json)| !seq![key@].contains(kv.0@);
    let mut remaining = entries;
    let mut found: Option<Json> = None;
    let mut rest: Vec<(String, Json)> = Vec::new();
    let ghost mut k: int = 0;
    while remaining.len() > 0
        invariant
            0 <= k <= all.len(),
            remaining@ == all.skip(k),
            all.len() - k == remaining.len(),
            pred == (|kv: (String, Json)| !seq![key@].contains(kv.0@)),
            rest@ == all.take(k).filter(pred),
            match found {
                None => forall|j: int| 0 <= j < k ==> (#[trigger] all[j]).0@ != key@,
                Some(value) => spec_get_field(all, key@) == Some(value),
            },
        decreases remaining.len(),
    {
        let ghost pre_rest = rest@;
        let kv = remaining.remove(0);
        proof {
            assert(kv == all.skip(k)[0]);
            assert(all.skip(k)[0] == all[k]);
            assert(remaining@ =~= all.skip(k + 1));
            assert(seq![key@][0] == key@);
            assert(all.take(k + 1).drop_last() =~= all.take(k));
            assert(all.take(k + 1).last() == all[k]);
            reveal_with_fuel(Seq::filter, 2);
        }
        if string_eq_str(&kv.0, key) {
            if found.is_none() {
                proof {
                    lemma_get_field_skip(all, key@, k);
                }
                found = Some(kv.1);
            }
            proof {
                assert(seq![key@].contains(all[k].0@));
                assert(!pred(all[k]));
            }
        } else {
            proof {
                assert forall|j: int| 0 <= j < 1 implies seq![key@][j] != kv.0@ by {}
                assert(!seq![key@].contains(all[k].0@));
                assert(pred(all[k]));
            }
            rest.push(kv);
            proof {
                assert(rest@ =~= pre_rest.push(all[k]));
            }
        }
        proof {
            k = k + 1;
        }
    }
    proof {
        assert(all.take(k) =~= all);
        if found is None {
            lemma_get_field_skip(all, key@, all.len() as int);
        }
    }
    (found, rest)
}

/// Drops every field declared under one of the fixed keys, by move, keeping
/// the script-declared fields in order.
#[verifier::loop_isolation(false)]
fn drop_fields(entries: Vec<(String, Json)>, fixed: &Vec<String>) -> (rest: Vec<(String, Json)>)
    ensures
        rest@ == spec_leftover(entries@, fixed.deep_view()),
{
    let ghost all = entries@;
    let ghost pred = |kv: (String, Json)| !fixed.deep_view().contains(kv.0@);
    let mut remaining = entries;
    let mut rest: Vec<(String, Json)> = Vec::new();
    let ghost mut k: int = 0;
    while remaining.len() > 0
        invariant
            0 <= k <= all.len(),
            remaining@ == all.skip(k),
            all.len() - k == remaining.len(),
            pred == (|kv: (String, Json)| !fixed.deep_view().contains(kv.0@)),
            rest@ == all.take(k).filter(pred),
        decreases remaining.len(),
    {
        let ghost pre_rest = rest@;
        let kv = remaining.remove(0);
        proof {
            assert(kv == all.skip(k)[0]);
            assert(all.skip(k)[0] == all[k]);
            assert(remaining@ =~= all.skip(k + 1));
            assert(all.take(k + 1).drop_last() =~= all.take(k));
            assert(all.take(k + 1).last() == all[k]);
            reveal_with_fuel(Seq::filter, 2);
        }
        if contains_string(fixed, &kv.0) {
            proof {
                assert(!pred(all[k]));
            }
        } else {
            rest.push(kv);
            proof {
                assert(pred(all[k]));
                assert(rest@ =~= pre_rest.push(all[k]));
            }
        }
        proof {
            k = k + 1;
        }
    }
    proof {
        assert(all.take(k) =~= all);
    }
    rest
}

/// Reads an array-of-strings field, cloning the strings out.
#[verifier::loop_isolation(false)]
fn parse_string_items(node: &Json) -> (strings: Option<Vec<String>>)
    ensures
        match strings {
            Some(v) => spec_parse_string_array(*node) == Some(v.deep_view()),
            None => spec_parse_string_array(*node) is None,
        },
{
    match node {
        Json::Arr(items) => {
            let mut out: Vec<String> = Vec::new();
            let mut i: usize = 0;
            while i < items.len()
                invariant
                    0 <= i <= items.len(),
                    out.deep_view().len() == i,
                    forall|j: int| 0 <= j < i ==> (#[trigger] items@[j]) is Str
                        && out.deep_view()[j] == spec_str_content(items@[j]),
                decreases items.len() - i,
            {
                match &items[i] {
                    Json::Str(s) => {
                        let ghost pre = out.deep_view();
                        out.push(s.clone());
                        proof {
                            assert(out.deep_view() =~= pre.push(s@));
                        }
                    }
                    _ => {
                        proof {
                            assert(!(items@[i as int] is Str));
                        }
                        return None;
                    }
                }
                i += 1;
            }
            proof {
                assert(out.deep_view() =~= spec_string_views(items@));
            }
            Some(out)
        }
        _ => None,
    }
}

/// Validates the declared paths of one upstream task, binding each to the
/// task id; the first absolute or traversing path fails the whole task.
#[verifier::loop_isolation(false)]
fn build_artifact_paths(task_id: &String, paths: &Vec<String>) -> (built: Result<
    Vec<ArtifactPath>,
    Error,
>)
    ensures
        match built {
            Ok(aps) => spec_clean_paths(paths.deep_view()) && aps.deep_view()
                == spec_artifact_paths(task_id@, paths.deep_view()),
            Err(e) => !spec_clean_paths(paths.deep_view()) && e is MalformedPayload,
        },
{
    let ghost pdv = paths.deep_view();
    let mut out: Vec<ArtifactPath> = Vec::new();
    let mut i: usize = 0;
    while i < paths.len()
        invariant
            0 <= i <= paths.len(),
            pdv == paths.deep_view(),
            pdv.len() == paths.len(),
            out.deep_view().len() == i,
            forall|j: int| 0 <= j < i ==> crate::paths::is_clean_relative(#[trigger] pdv[j])
                && out.deep_view()[j] == (ArtifactPathV { task_id: task_id@, path: pdv[j] }),
        decreases paths.len() - i,
    {
        match ArtifactPath::new(task_id.clone(), paths[i].clone()) {
            Ok(ap) => {
                let ghost pre = out.deep_view();
                out.push(ap);
                proof {
                    assert(out.deep_view() =~= pre.push(
                        ArtifactPathV { task_id: task_id@, path: pdv[i as int] },
                    ));
                }
            }
            Err(e) => {
                proof {
                    assert(!crate::paths::is_clean_relative(pdv[i as int]));
                }
                return Err(e);
            }
        }
        i += 1;
    }
    proof {
        assert(out.deep_view() =~= spec_artifact_paths(task_id@, pdv));
    }
    Ok(out)
}

/// Parses one upstream-artifact object.
fn parse_artifact(node: Json) -> (parsed: Result<TaskArtifacts<Fields>, Error>)
    ensures
        match parsed {
            Ok(a) => spec_parse_artifact(node) == Some(a.deep_view()),
            Err(e) => spec_parse_artifact(node) is None && e is MalformedPayload,
        },
{
    let entries = match node {
        Json::Obj(entries) => entries,
        _ => {
            return Err(malformed("upstreamArtifacts entries must be objects"));
        }
    };
    let task_type = match get_field(&entries, "taskType") {
        Some(value) => match value {
            Json::Str(s) => s.clone(),
            _ => {
                return Err(malformed("upstreamArtifacts taskType must be a string"));
            }
        },
        None => {
            return Err(malformed("upstreamArtifacts entries require taskType"));
        }
    };
    let task_id = match get_field(&entries, "taskId") {
        Some(value) => match value {
            Json::Str(s) => s.clone(),
            _ => {
                return Err(malformed("upstreamArtifacts taskId must be a string"));
            }
        },
        None => {
            return Err(malformed("upstreamArtifacts entries require taskId"));
        }
    };
    let path_strings = match get_field(&entries, "paths") {
        Some(value) => match parse_string_items(value) {
            Some(strings) => strings,
            None => {
                return Err(malformed("upstreamArtifacts paths must be an array of strings"));
            }
        },
        None => {
            return Err(malformed("upstreamArtifacts entries require paths"));
        }
    };
    let paths = match build_artifact_paths(&task_id, &path_strings) {
        Ok(paths) => paths,
        Err(e) => {
            return Err(e);
        }
    };
    let fixed: Vec<String> = vec![
        String::from_str("taskType"),
        String::from_str("taskId"),
        String::from_str("paths"),
    ];
    proof {
        assert(fixed.deep_view() =~= artifact_fixed_keys());
    }
    let attributes = Fields(drop_fields(entries, &fixed));
    Ok(TaskArtifacts { task_type, task_id, paths, attributes })
}

/// Parses the `upstreamArtifacts` array, in declaration order.
#[verifier::loop_isolation(false)]
fn parse_artifacts(items: Vec<Json>) -> (parsed: Result<Vec<TaskArtifacts<Fields>>, Error>)
    ensures
        match parsed {
            Ok(v) => spec_artifacts_all(items@) && v.deep_view() == spec_parsed_artifacts(items@),
            Err(e) => !spec_artifacts_all(items@) && e is MalformedPayload,
        },
{
    let ghost all = items@;
    let mut remaining = items;
    let mut out: Vec<TaskArtifacts<Fields>> = Vec::new();
    let ghost mut k: int = 0;
    while remaining.len() > 0
        invariant
            0 <= k <= all.len(),
            remaining@ == all.skip(k),
            all.len() - k == remaining.len(),
            out.deep_view().len() == k,
            forall|j: int| 0 <= j < k ==> spec_parse_artifact(#[trigger] all[j]) is Some
                && out.deep_view()[j] == spec_parse_artifact(all[j])->Some_0,
        decreases remaining.len(),
    {
        let node = remaining.remove(0);
        proof {
            assert(node == all.skip(k)[0]);
            assert(all.skip(k)[0] == all[k]);
            assert(remaining@ =~= all.skip(k + 1));
        }
        match parse_artifact(node) {
            Ok(artifact) => {
                let ghost pre = out.deep_view();
                out.push(artifact);
                proof {
                    assert(out.deep_view() =~= pre.push(spec_parse_artifact(all[k])->Some_0));
                }
            }
            Err(e) => {
                proof {
                    assert(spec_parse_artifact(all[k]) is None);
                    assert(!spec_artifacts_all(all));
                }
                return Err(e);
            }
        }
        proof {
            k = k + 1;
        }
    }
    proof {
        assert(out.deep_view() =~= spec_parsed_artifacts(all));
    }
    Ok(out)
}

/// Parses a payload object.
fn parse_payload(node: Json) -> (parsed: Result<TaskPayload<Fields, Fields>, Error>)
    ensures
        match parsed {
            Ok(p) => spec_parse_payload(node) == Some(p.deep_view()),
            Err(e) => spec_parse_payload(node) is None && e is MalformedPayload,
        },
{
    let entries = match node {
        Json::Obj(entries) => entries,
        _ => {
            return Err(malformed("payload must be an object"));
        }
    };
    let (artifacts_node, rest) = split_field(entries, "upstreamArtifacts");
    let artifacts_node = match artifacts_node {
        Some(value) => value,
        None => {
            return Err(malformed("payload requires upstreamArtifacts"));
        }
    };
    let items = match artifacts_node {
        Json::Arr(items) => items,
        _ => {
            return Err(malformed("payload.upstreamArtifacts must be an array"));
        }
    };
    let upstream_artifacts = match parse_artifacts(items) {
        Ok(artifacts) => artifacts,
        Err(e) => {
            return Err(e);
        }
    };
    Ok(TaskPayload { upstream_artifacts, extra: Fields(rest) })
}

/// Parses a whole task document.
fn parse_task_node(node: Json) -> (parsed: Result<Task<Fields, Fields>, Error>)
    ensures
        match parsed {
            Ok(t) => spec_parse_task(node) == Some(t.deep_view()),
            Err(e) => spec_parse_task(node) is None && e is MalformedPayload,
        },
{
    let entries = match node {
        Json::Obj(entries) => entries,
        _ => {
            return Err(malformed("task must be an object"));
        }
    };
    let dependencies = match get_field(&entries, "dependencies") {
        Some(value) => match parse_string_items(value) {
            Some(strings) => strings,
            None => {
                return Err(malformed("dependencies must be an array of strings"));
            }
        },
        None => {
            return Err(malformed("task requires dependencies"));
        }
    };
    let scopes = match get_field(&entries, "scopes") {
        Some(value) => match parse_string_items(value) {
            Some(strings) => strings,
            None => {
                return Err(malformed("scopes must be an array of strings"));
            }
        },
        None => {
            return Err(malformed("task requires scopes"));
        }
    };
    let (payload_node, _ignored) = split_field(entries, "payload");
    let payload_node = match payload_node {
        Some(value) => value,
        None => {
            return Err(malformed("task requires payload"));
        }
    };
    let payload = match parse_payload(payload_node) {
        Ok(payload) => payload,
        Err(e) => {
            return Err(e);
        }
    };
    Ok(Task { dependencies, scopes, payload })
}

/// Parses the text of a `task.json` document into a validated task: the only
/// way a task value comes to exist. Any violation of the schema — including
/// an absolute or traversing artifact path — is a `MalformedPayload` parse
/// error, never a runtime panic.
pub fn parse_task(text: &str) -> (parsed: Result<Task<Fields, Fields>, Error>)
    ensures
        match parsed {
            Ok(t) => spec_task_of_text(text@) == Some(t.deep_view()),
            Err(e) => spec_task_of_text(text@) is None && e is MalformedPayload,
        },
{
    match parse_json_text(text) {
        Ok(doc) => parse_task_node(doc),
        Err(msg) => Err(
            Error::MalformedPayload(
                String::from_str("Could not parse task payload: ").concat(msg.as_str()),
            ),
        ),
    }
}

} // verus!
