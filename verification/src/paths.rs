//! The secure artifact-path resolver.
//!
//! A declared artifact path is accepted only if it is syntactically relative
//! and free of parent-directory traversal segments; both checks happen at
//! parse time, so an [`ArtifactPath`] value can always be resolved against a
//! working directory without escaping that task's artifact root. Resolution
//! itself is pure path arithmetic: no filesystem access.

use vstd::prelude::*;

use crate::error::Error;
use crate::Context;

verus! {

/// True when `s` begins with the path separator, making it absolute.
pub open spec fn starts_absolute(s: Seq<char>) -> bool {
    s.len() > 0 && s[0] == '/'
}

/// True when positions `i .. i + 2` of `s` form a whole `..` segment: the two
/// dots stand at a segment start and reach to a segment end.
pub open spec fn dotdot_segment_at(s: Seq<char>, i: int) -> bool {
    &&& 0 <= i
    &&& i + 2 <= s.len()
    &&& s[i] == '.'
    &&& s[i + 1] == '.'
    &&& (i == 0 || s[i - 1] == '/')
    &&& (i + 2 == s.len() || s[i + 2] == '/')
}

/// True when some segment of `s` is the parent-directory traversal `..`.
pub open spec fn has_dotdot_segment(s: Seq<char>) -> bool {
    exists|i: int| dotdot_segment_at(s, i)
}

/// A declared artifact path is clean when it is syntactically relative and no
/// segment of it is `..`.
pub open spec fn is_clean_relative(s: Seq<char>) -> bool {
    !starts_absolute(s) && !has_dotdot_segment(s)
}

/// Decides [`is_clean_relative`] for a declared path.
pub fn check_clean_relative(path: &str) -> (clean: bool)
    ensures
        clean == is_clean_relative(path@),
{
    let n = path.unicode_len();
    if n > 0 && path.get_char(0) == '/' {
        return false;
    }
    let mut i: usize = 0;
    while i < n
        invariant
            0 <= i <= n,
            n == path@.len(),
            !starts_absolute(path@),
            forall|j: int| 0 <= j < i ==> !dotdot_segment_at(path@, j),
        decreases n - i,
    {
        if n - i >= 2 && path.get_char(i) == '.' && path.get_char(i + 1) == '.' && (i == 0
            || path.get_char(i - 1) == '/') && (n - i == 2 || path.get_char(i + 2) == '/') {
            proof {
                assert(dotdot_segment_at(path@, i as int));
            }
            return false;
        }
        proof {
            assert(!dotdot_segment_at(path@, i as int));
        }
        i += 1;
    }
    proof {
        assert forall|j: int| !dotdot_segment_at(path@, j) by {
            if 0 <= j && j + 2 <= path@.len() {
                assert(j < i);
            }
        }
    }
    true
}

/// The mathematical value of an [`ArtifactPath`].
pub struct ArtifactPathV {
    pub task_id: Seq<char>,
    pub path: Seq<char>,
}

/// An artifact reference bound to the upstream task that produced it.
///
/// Constructible only from a validated relative path: validation happens when
/// the task description is parsed, never at use time, so resolution cannot
/// fail at run time.
#[derive(Debug, PartialEq, Eq)]
pub struct ArtifactPath {
    task_id: String,
    path: String,
}

impl DeepView for ArtifactPath {
    type V = ArtifactPathV;

    closed spec fn deep_view(&self) -> ArtifactPathV {
        ArtifactPathV { task_id: self.task_id@, path: self.path@ }
    }
}

/// The artifact root of one upstream task under a working directory.
pub open spec fn artifact_root(work_dir: Seq<char>, task_id: Seq<char>) -> Seq<char> {
    work_dir + "/cot/"@ + task_id + "/"@
}

/// The resolved on-disk location of an artifact under a working directory.
pub open spec fn resolved_path(work_dir: Seq<char>, ap: ArtifactPathV) -> Seq<char> {
    artifact_root(work_dir, ap.task_id) + ap.path
}

/// `p` is lexically contained in `root`: it extends `root` by a clean
/// relative remainder, so no segment of it climbs back out.
pub open spec fn path_under_root(p: Seq<char>, root: Seq<char>) -> bool {
    &&& p.len() >= root.len()
    &&& p.subrange(0, root.len() as int) == root
    &&& is_clean_relative(p.subrange(root.len() as int, p.len() as int))
}

/// Law: resolving any clean relative path against any working directory and
/// any upstream task id yields a path lexically under that task's artifact
/// root; escape would need a path that parsing has already rejected.
pub proof fn lemma_path_containment(work_dir: Seq<char>, task_id: Seq<char>, path: Seq<char>)
    requires
        is_clean_relative(path),
    ensures
        path_under_root(
            artifact_root(work_dir, task_id) + path,
            artifact_root(work_dir, task_id),
        ),
{
    let root = artifact_root(work_dir, task_id);
    let p = root + path;
    assert(p.subrange(0, root.len() as int) =~= root);
    assert(p.subrange(root.len() as int, p.len() as int) =~= path);
}

impl ArtifactPath {
    #[verifier::type_invariant]
    spec fn clean(self) -> bool {
        is_clean_relative(self.path@)
    }

    /// Validates a declared path and binds it to its upstream task. A path
    /// that is absolute or contains a `..` segment is a parse error, never a
    /// runtime panic.
    pub fn new(task_id: String, path: String) -> (result: Result<ArtifactPath, Error>)
        ensures
            match result {
                Ok(ap) => is_clean_relative(path@) && ap.deep_view() == (ArtifactPathV {
                    task_id: task_id@,
                    path: path@,
                }),
                Err(e) => !is_clean_relative(path@) && e is MalformedPayload,
            },
    {
        if check_clean_relative(path.as_str()) {
            Ok(ArtifactPath { task_id, path })
        } else {
            Err(
                Error::MalformedPayload(
                    String::from_str(
                        "upstreamArtifacts paths must be relative and free of parent-directory segments",
                    ),
                ),
            )
        }
    }

    /// The declared path, relative to the upstream task's artifact root.
    pub fn task_path(&self) -> (p: &String)
        ensures
            p@ == self.deep_view().path,
            is_clean_relative(p@),
    {
        proof {
            use_type_invariant(self);
        }
        &self.path
    }

    /// Resolves this artifact against the context's working directory:
    /// `work_dir / "cot" / task_id / path`, guaranteed to stay under the
    /// upstream task's artifact root. Pure path arithmetic, no I/O.
    pub fn file_path(&self, context: &Context) -> (resolved: String)
        ensures
            resolved@ == resolved_path(context.spec_work_dir(), self.deep_view()),
            path_under_root(
                resolved@,
                artifact_root(context.spec_work_dir(), self.deep_view().task_id),
            ),
    {
        proof {
            use_type_invariant(self);
        }
        let resolved = context.work_dir().clone().concat("/cot/").concat(
            self.task_id.as_str(),
        ).concat("/").concat(self.path.as_str());
        proof {
            lemma_path_containment(context.spec_work_dir(), self.task_id@, self.path@);
            assert(resolved@ =~= resolved_path(context.spec_work_dir(), self.deep_view()));
        }
        resolved
    }
}

} // verus!
