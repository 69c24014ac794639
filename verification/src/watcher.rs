//! The engine on a repository: each request of a cycle carried out by the
//! version-control engine, and the cycle driven to its end.

use crate::cycle::{
    answered_in_turn, is_consistent, replay, Cycle, Outcome, Request, Response,
};
use crate::error::EngineError;
use crate::git;
use crate::oid::{CommitId, ObjectId, TreeId};
use vstd::prelude::*;
use vstd::string::{StrSliceExecFns, StringExecFns};

verus! {

/// The name of the shadow pointer.
pub const SHADOW_REF: &'static str = "EIS_HEAD";

/// The file, in the repository's own directory, that backs the staging
/// structure of a snapshot.
pub const STAGING_FILE: &'static str = "eis-index";

/// The pattern that selects what a snapshot stages: every file.
pub const TRACK_PATTERN: &'static str = "*";

/// The name of the identity that authors and commits every checkpoint.
pub const IDENTITY_NAME: &'static str = "eis";

/// The address of that identity.
pub const IDENTITY_EMAIL: &'static str = "eis@localhost";

/// The message of every checkpoint.
pub const MARKER_MESSAGE: &'static str = "eis commit";

/// The log message of a reset of the shadow pointer.
pub const RESET_MESSAGE: &'static str = "eis head";

/// The path of a file in a directory: the file's name after the directory's
/// path, with a separator between them where the directory's path is not
/// empty and does not end in one.
pub open spec fn spec_file_in(dir: Seq<char>, file: Seq<char>) -> Seq<char> {
    if dir.len() == 0 || dir.last() == '/' {
        dir + file
    } else {
        dir + seq!['/'] + file
    }
}

/// The path of a file in a directory.
pub fn file_in(dir: &str, file: &str) -> (path: String)
    ensures
        path@ == spec_file_in(dir@, file@),
{
    proof {
        reveal_strlit("/");
    }
    let length = dir.unicode_len();
    let mut path = String::from_str(dir);
    if length > 0 && dir.get_char(length - 1) != '/' {
        path.append("/");
    }
    path.append(file);
    assert(path@ =~= spec_file_in(dir@, file@));
    path
}

/// The target that an answer of the engine for the shadow pointer stands
/// for: the identity that its twenty bytes spell; none where there is no
/// answer, and where the answer is no identity.
pub open spec fn spec_shadow_target(answer: Option<Seq<u8>>) -> Option<CommitId> {
    if answer is Some && answer->0.len() == 20 {
        Some(CommitId(ObjectId::of_bytes(answer->0)))
    } else {
        None
    }
}

/// Reads the shadow pointer's target from what the engine answered.
pub fn shadow_target(answer: Option<&[u8]>) -> (target: Option<CommitId>)
    ensures
        target == spec_shadow_target(
            match answer {
                Some(bytes) => Some(bytes@),
                None => None,
            },
        ),
{
    match answer {
        Some(bytes) => CommitId::from_slice(bytes),
        None => None,
    }
}

/// A project under watch.
pub struct Watcher {
    pub(crate) repo: git2::Repository,
}

impl Watcher {
    /// Opens the project at `path`. Fails with `NotAProjectRoot` where the
    /// engine finds no repository there.
    pub fn new(path: &str) -> (opened: Result<Watcher, EngineError>)
        ensures
            opened is Err ==> opened->Err_0 == EngineError::NotAProjectRoot,
    {
        match git::open_repository(path) {
            Ok(repo) => Ok(Watcher { repo }),
            Err(_) => Err(EngineError::NotAProjectRoot),
        }
    }

    /// Opens the project at `path` for watching: a project whose checked-out
    /// position cannot be resolved is not watched. Fails with
    /// `NotAProjectRoot` where the engine finds no repository, and with
    /// `RefResolutionFailure` where the position cannot be resolved.
    pub fn open_for_watch(path: &str) -> (opened: Result<Watcher, EngineError>)
        ensures
            opened matches Err(kind) ==> kind == EngineError::NotAProjectRoot || kind
                == EngineError::RefResolutionFailure,
    {
        let watcher = Watcher::new(path)?;
        match watcher.head() {
            Ok(_) => Ok(watcher),
            Err(kind) => Err(kind),
        }
    }

    /// The shadow pointer's target, if the pointer exists: what the engine
    /// answered for the pointer, read as an identity. Changes nothing.
    pub fn get_eis_head(&self) -> (target: Option<CommitId>)
        ensures
            exists|answer: Option<Seq<u8>>| target == #[trigger] spec_shadow_target(answer),
    {
        let answer = match git::find_reference(&self.repo, SHADOW_REF) {
            Ok(reference) => git::reference_target(&reference),
            Err(_) => None,
        };
        let target = match &answer {
            Some(bytes) => shadow_target(Some(bytes.as_slice())),
            None => shadow_target(None),
        };
        assert(target == spec_shadow_target(
            match answer {
                Some(bytes) => Some(bytes@),
                None => None,
            },
        ));
        target
    }

    /// The checked-out position. Fails with `RefResolutionFailure` where it
    /// cannot be resolved, as on an unborn branch.
    pub fn head(&self) -> (position: Result<CommitId, EngineError>)
        ensures
            position is Err ==> position->Err_0 == EngineError::RefResolutionFailure,
    {
        let reference = match git::head(&self.repo) {
            Ok(reference) => reference,
            Err(_) => return Err(EngineError::RefResolutionFailure),
        };
        match git::reference_target(&reference) {
            Some(bytes) => Ok(CommitId::from_slice(bytes.as_slice()).unwrap()),
            None => Err(EngineError::RefResolutionFailure),
        }
    }

    /// The checked-out position and its common ancestor with `shadow`, if
    /// they have one. Fails with `RefResolutionFailure`.
    pub fn ancestry(&self, shadow: CommitId) -> (found: Result<
        (CommitId, Option<CommitId>),
        EngineError,
    >)
        ensures
            found is Err ==> found->Err_0 == EngineError::RefResolutionFailure,
    {
        let head = self.head()?;
        match git::merge_base(&self.repo, &shadow.0.to_bytes(), &head.0.to_bytes()) {
            Ok(Some(bytes)) => Ok((head, Some(CommitId::from_slice(bytes.as_slice()).unwrap()))),
            Ok(None) => Ok((head, None)),
            Err(_) => Err(EngineError::RefResolutionFailure),
        }
    }

    /// Whether the checked-out position is reachable from `eis_head`: whether
    /// it is its own common ancestor with it. Fails with
    /// `RefResolutionFailure` where the checked-out position cannot be
    /// resolved.
    pub fn check_if_eis_head_is_up_to_date(&self, eis_head: CommitId) -> (ok: Result<
        bool,
        EngineError,
    >)
        ensures
            ok is Err ==> ok->Err_0 == EngineError::RefResolutionFailure,
    {
        let (head, merge_base) = self.ancestry(eis_head)?;
        Ok(is_consistent(head, merge_base))
    }

    /// Repoints the shadow pointer, creating it if it is absent, at
    /// `position`, and returns what it then references: `position`, or the
    /// reset has failed. Fails with `RefResolutionFailure`.
    pub fn reset_to(&self, position: CommitId) -> (target: Result<CommitId, EngineError>)
        ensures
            target matches Ok(now) ==> now == position,
            target is Err ==> target->Err_0 == EngineError::RefResolutionFailure,
    {
        let made = git::set_reference(
            &self.repo,
            SHADOW_REF,
            &position.0.to_bytes(),
            RESET_MESSAGE,
        );
        let reference = match made {
            Ok(reference) => reference,
            Err(_) => return Err(EngineError::RefResolutionFailure),
        };
        match git::reference_target(&reference) {
            Some(bytes) => {
                let now = CommitId::from_slice(bytes.as_slice()).unwrap();
                if now == position {
                    Ok(now)
                } else {
                    Err(EngineError::RefResolutionFailure)
                }
            },
            None => Err(EngineError::RefResolutionFailure),
        }
    }

    /// Repoints the shadow pointer, creating it if it is absent, at the
    /// checked-out position, and returns what it then references. The
    /// checkpoints that only the old pointer reached are abandoned. Fails
    /// with `RefResolutionFailure`.
    pub fn create_eis_head(&self) -> (target: Result<CommitId, EngineError>)
        ensures
            target is Err ==> target->Err_0 == EngineError::RefResolutionFailure,
    {
        let head = self.head()?;
        self.reset_to(head)
    }

    /// Writes out what is staged: none where nothing is staged, and then
    /// nothing is written and the staging structure stays as it is; else the
    /// tree of what is staged, after which the staging structure is emptied
    /// and written back to its file. Fails with `ObjectStoreFailure`, and
    /// only where something is staged.
    pub fn write_out(&self, staging: &mut git2::Index) -> (tree: Result<
        Option<TreeId>,
        EngineError,
    >)
        ensures
            git::staged(*old(staging)).len() == 0 ==> tree == Ok::<Option<TreeId>, EngineError>(
                None,
            ) && *final(staging) == *old(staging),
            tree matches Ok(found) ==> (found is None <==> git::staged(*old(staging)).len() == 0),
            tree is Ok ==> git::staged(*final(staging)).len() == 0,
            tree is Err ==> tree->Err_0 == EngineError::ObjectStoreFailure,
    {
        if git::index_is_empty(staging) {
            return Ok(None);
        }
        let written = match git::write_tree(staging) {
            Ok(bytes) => TreeId::from_slice(bytes.as_slice()).unwrap(),
            Err(_) => return Err(EngineError::ObjectStoreFailure),
        };
        if git::clear_index(staging).is_err() {
            return Err(EngineError::ObjectStoreFailure);
        }
        if git::write_index(staging).is_err() {
            return Err(EngineError::ObjectStoreFailure);
        }
        Ok(Some(written))
    }

    /// Stages the whole working directory in the given staging structure,
    /// which is attached to the project and emptied first, and writes out
    /// what was staged: a tree, or none where nothing was staged.
    ///
    /// Where a tree or none is returned, the staging structure holds nothing
    /// any more: the next snapshot starts clean. Fails with
    /// `ObjectStoreFailure`.
    pub fn snapshot_in(&self, staging: &mut git2::Index) -> (tree: Result<
        Option<TreeId>,
        EngineError,
    >)
        ensures
            tree is Ok ==> git::staged(*final(staging)).len() == 0,
            tree is Err ==> tree->Err_0 == EngineError::ObjectStoreFailure,
    {
        if git::clear_index(staging).is_err() {
            return Err(EngineError::ObjectStoreFailure);
        }
        if git::stage_all(staging, TRACK_PATTERN).is_err() {
            return Err(EngineError::ObjectStoreFailure);
        }
        self.write_out(staging)
    }

    /// Snapshots the working directory: stages all of it in a staging
    /// structure of its own, whose file lies in the repository's own
    /// directory, apart from the project's staging area, and writes it out as
    /// a tree; none where nothing is trackable. Fails with
    /// `ObjectStoreFailure`.
    pub fn create_tree(&self) -> (tree: Result<Option<TreeId>, EngineError>)
        ensures
            tree is Err ==> tree->Err_0 == EngineError::ObjectStoreFailure,
    {
        let dir = match git::repository_dir(&self.repo) {
            Some(dir) => dir,
            None => return Err(EngineError::ObjectStoreFailure),
        };
        let path = file_in(dir.as_str(), STAGING_FILE);
        let mut staging = match git::open_index(path.as_str()) {
            Ok(index) => index,
            Err(_) => return Err(EngineError::ObjectStoreFailure),
        };
        if git::attach_index(&self.repo, &mut staging).is_err() {
            return Err(EngineError::ObjectStoreFailure);
        }
        self.snapshot_in(&mut staging)
    }

    /// The tree of a commit. Fails with `ObjectStoreFailure`.
    pub fn tree_of(&self, commit: CommitId) -> (tree: Result<TreeId, EngineError>)
        ensures
            tree is Err ==> tree->Err_0 == EngineError::ObjectStoreFailure,
    {
        let found = match git::find_commit(&self.repo, &commit.0.to_bytes()) {
            Ok(found) => found,
            Err(_) => return Err(EngineError::ObjectStoreFailure),
        };
        Ok(TreeId::from_slice(git::commit_tree_id(&found).as_slice()).unwrap())
    }

    /// Creates a checkpoint with the given tree on top of `parent`, under the
    /// fixed identity and message, and advances the shadow pointer to it. The
    /// engine moves the pointer only once the commit is written, and only
    /// from `parent`. Fails with `ObjectStoreFailure`.
    pub fn commit_tree(&self, tree: TreeId, parent: CommitId) -> (commit: Result<
        CommitId,
        EngineError,
    >)
        ensures
            commit is Err ==> commit->Err_0 == EngineError::ObjectStoreFailure,
    {
        let tree = match git::find_tree(&self.repo, &tree.0.to_bytes()) {
            Ok(tree) => tree,
            Err(_) => return Err(EngineError::ObjectStoreFailure),
        };
        let parent = match git::find_commit(&self.repo, &parent.0.to_bytes()) {
            Ok(parent) => parent,
            Err(_) => return Err(EngineError::ObjectStoreFailure),
        };
        let who = match git::signature_now(IDENTITY_NAME, IDENTITY_EMAIL) {
            Ok(who) => who,
            Err(_) => return Err(EngineError::ObjectStoreFailure),
        };
        match git::create_commit(&self.repo, SHADOW_REF, &who, MARKER_MESSAGE, &tree, &parent) {
            Ok(bytes) => Ok(CommitId::from_slice(bytes.as_slice()).unwrap()),
            Err(_) => Err(EngineError::ObjectStoreFailure),
        }
    }

    /// Carries out one request of a cycle and reports the engine's answer:
    /// the answer of the request's kind, or a failure.
    pub fn perform(&self, request: Request) -> (response: Response)
        ensures
            request.admits(response),
            request is ReadShadow ==> response is Shadow,
    {
        match request {
            Request::ReadShadow => Response::Shadow(self.get_eis_head()),
            Request::CheckAncestry { shadow } => match self.ancestry(shadow) {
                Ok((head, merge_base)) => Response::Ancestry { head, merge_base },
                Err(_) => Response::Failure,
            },
            Request::ResetShadow => match self.create_eis_head() {
                Ok(head) => Response::ShadowReset(head),
                Err(_) => Response::Failure,
            },
            Request::BuildSnapshot => match self.create_tree() {
                Ok(tree) => Response::Snapshot(tree),
                Err(_) => Response::Failure,
            },
            Request::LoadTree { commit } => match self.tree_of(commit) {
                Ok(tree) => Response::Tree(tree),
                Err(_) => Response::Failure,
            },
            Request::CreateCheckpoint { parent, tree } => match self.commit_tree(tree, parent) {
                Ok(commit) => Response::Checkpoint(commit),
                Err(_) => Response::Failure,
            },
        }
    }

    /// Runs one cycle to its end: resolves the shadow pointer, repairs it if
    /// it is absent or stale, snapshots the working directory, and records a
    /// checkpoint if the snapshot differs from the pointer's tree.
    ///
    /// What comes back is what the machine of `cycle` comes to on the answers
    /// that the engine gave, each an answer to the request that was due.
    pub fn watch(&self) -> (result: Result<Outcome, EngineError>)
        ensures
            exists|responses: Seq<Response>| #[trigger]
                replay(Cycle::ResolveShadow, responses).spec_result() == Some(result)
                    && answered_in_turn(responses),
            result matches Err(kind) ==> kind == EngineError::RefResolutionFailure || kind
                == EngineError::ObjectStoreFailure,
    {
        let mut cycle = Cycle::start();
        let ghost mut responses: Seq<Response> = Seq::empty();
        while !cycle.is_finished()
            invariant
                cycle == replay(Cycle::ResolveShadow, responses),
                answered_in_turn(responses),
                cycle matches Cycle::Failed(kind) ==> kind == EngineError::RefResolutionFailure
                    || kind == EngineError::ObjectStoreFailure,
            decreases cycle.spec_rank(),
        {
            let request = cycle.request().unwrap();
            let response = self.perform(request);
            proof {
                assert(responses.push(response).drop_last() =~= responses);
                responses = responses.push(response);
            }
            cycle = cycle.advance(response);
        }
        cycle.result().unwrap()
    }
}

} // verus!
