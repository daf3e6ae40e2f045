//! Per-run scratch workspaces: a fresh token names the submission's source
//! file and compiled artifact, so that concurrent runs never share a path.

use vstd::prelude::*;

verus! {

/// The isolated scratch area of one grading run: a token `id` under a base
/// directory `dir` names the source file and the compiled artifact.
#[derive(Debug, Clone, PartialEq, Eq)]
pub struct Workspace {
    pub id: String,
    pub dir: String,
    pub source_path: String,
    pub artifact_path: String,
}

/// Mathematical image of a [`Workspace`].
pub struct WorkspaceView {
    pub id: Seq<char>,
    pub dir: Seq<char>,
    pub source_path: Seq<char>,
    pub artifact_path: Seq<char>,
}

impl View for Workspace {
    type V = WorkspaceView;

    open spec fn view(&self) -> WorkspaceView {
        WorkspaceView {
            id: self.id@,
            dir: self.dir@,
            source_path: self.source_path@,
            artifact_path: self.artifact_path@,
        }
    }
}

/// Where the compiled artifact of the run with token `id` lives.
pub open spec fn artifact_path_of(dir: Seq<char>, id: Seq<char>) -> Seq<char> {
    dir + "/"@ + id
}

/// Where the submitted source of the run with token `id` is written.
pub open spec fn source_path_of(dir: Seq<char>, id: Seq<char>) -> Seq<char> {
    artifact_path_of(dir, id) + ".c"@
}

/// A well-formed workspace derives both paths from its directory and token,
/// and its token has the fixed width of a hyphenated UUID.
pub open spec fn workspace_wf(w: WorkspaceView) -> bool {
    &&& w.id.len() == 36
    &&& w.source_path == source_path_of(w.dir, w.id)
    &&& w.artifact_path == artifact_path_of(w.dir, w.id)
}

/// Relies on `uuid::Uuid::new_v4` and `Uuid`'s `Display`: a random version-4
/// UUID rendered in the hyphenated form, which is exactly 36 characters.
/// The token is random, so nothing relates two calls' results.
#[verifier::external_body]
fn fresh_token() -> (s: String)
    ensures
        s@.len() == 36,
{
    uuid::Uuid::new_v4().to_string()
}

impl Workspace {
    /// Allocates the scratch paths of one grading run under `dir`, keyed by a
    /// freshly generated token.
    pub fn create(dir: &str) -> (w: Workspace)
        ensures
            workspace_wf(w@),
            w@.dir == dir@,
    {
        let id = fresh_token();
        let artifact_path = String::from_str(dir).concat("/").concat(id.as_str());
        let source_path = artifact_path.clone().concat(".c");
        Workspace { id, dir: String::from_str(dir), source_path, artifact_path }
    }
}

/// In a well-formed workspace the source file and the artifact are two
/// different paths.
pub proof fn lemma_source_artifact_distinct(w: WorkspaceView)
    requires
        workspace_wf(w),
    ensures
        w.source_path != w.artifact_path,
{
    reveal_strlit("/");
    reveal_strlit(".c");
    assert(w.source_path.len() == w.dir.len() + 39);
    assert(w.artifact_path.len() == w.dir.len() + 37);
}

/// Equal source paths under one directory come from equal tokens.
proof fn lemma_source_path_injective(w1: WorkspaceView, w2: WorkspaceView)
    requires
        workspace_wf(w1),
        workspace_wf(w2),
        w1.dir == w2.dir,
        w1.source_path == w2.source_path,
    ensures
        w1.id == w2.id,
{
    reveal_strlit("/");
    reveal_strlit(".c");
    let l = w1.dir.len() as int;
    assert(forall|i: int|
        0 <= i < 36 ==> w1.source_path[l + 1 + i] == w1.id[i] && w2.source_path[l + 1 + i]
            == w2.id[i]);
    assert(w1.id =~= w2.id);
}

/// Equal artifact paths under one directory come from equal tokens.
proof fn lemma_artifact_path_injective(w1: WorkspaceView, w2: WorkspaceView)
    requires
        workspace_wf(w1),
        workspace_wf(w2),
        w1.dir == w2.dir,
        w1.artifact_path == w2.artifact_path,
    ensures
        w1.id == w2.id,
{
    reveal_strlit("/");
    let l = w1.dir.len() as int;
    assert(forall|i: int|
        0 <= i < 36 ==> w1.artifact_path[l + 1 + i] == w1.id[i] && w2.artifact_path[l + 1 + i]
            == w2.id[i]);
    assert(w1.id =~= w2.id);
}

/// Two well-formed workspaces under the same base directory with different
/// tokens share no path at all: concurrent runs cannot collide.
pub proof fn lemma_workspaces_disjoint(w1: WorkspaceView, w2: WorkspaceView)
    requires
        workspace_wf(w1),
        workspace_wf(w2),
        w1.dir == w2.dir,
        w1.id != w2.id,
    ensures
        w1.source_path != w2.source_path,
        w1.artifact_path != w2.artifact_path,
        w1.source_path != w2.artifact_path,
        w1.artifact_path != w2.source_path,
{
    reveal_strlit("/");
    reveal_strlit(".c");
    assert(w1.source_path != w2.source_path) by {
        if w1.source_path == w2.source_path {
            lemma_source_path_injective(w1, w2);
        }
    }
    assert(w1.artifact_path != w2.artifact_path) by {
        if w1.artifact_path == w2.artifact_path {
            lemma_artifact_path_injective(w1, w2);
        }
    }
    assert(w1.source_path.len() == w1.dir.len() + 39);
    assert(w2.artifact_path.len() == w2.dir.len() + 37);
    assert(w2.source_path.len() == w2.dir.len() + 39);
    assert(w1.artifact_path.len() == w1.dir.len() + 37);
}

} // verus!
