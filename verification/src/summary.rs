//! The checkpoint history, walked backward and rendered for reading.

use crate::error::EngineError;
use crate::git;
use crate::git::lossy_utf8;
use crate::oid::{hex_of, CommitId, ObjectId};
use crate::watcher::Watcher;
use vstd::prelude::*;
use vstd::slice::slice_to_vec;
use vstd::string::StringExecFns;

verus! {

/// How many checkpoints a summary walks back where no limit is given.
pub const DEFAULT_LIMIT: usize = 10;

/// What happened to the file that a line of a patch belongs to.
#[derive(Clone, Copy, Debug, PartialEq, Eq, Hash, Structural)]
pub enum Change {
    Added,
    Deleted,
    Modified,
    Renamed,
    Copied,
    Ignored,
    Untracked,
    Typechange,
    Unreadable,
    Conflicted,
    Unmodified,
}

impl Change {
    /// The one character that marks a line of this kind.
    pub open spec fn spec_marker(self) -> char {
        match self {
            Change::Added => '+',
            Change::Deleted => '-',
            Change::Modified => 'M',
            Change::Renamed => 'R',
            Change::Copied => 'C',
            Change::Ignored => 'I',
            Change::Untracked => 'U',
            Change::Typechange => 'T',
            Change::Unreadable => 'X',
            Change::Conflicted => '!',
            Change::Unmodified => ' ',
        }
    }

    /// The one character that marks a line of this kind, as text.
    pub fn marker(self) -> (text: &'static str)
        ensures
            text@ == seq![self.spec_marker()],
    {
        proof {
            reveal_strlit("+");
            reveal_strlit("-");
            reveal_strlit("M");
            reveal_strlit("R");
            reveal_strlit("C");
            reveal_strlit("I");
            reveal_strlit("U");
            reveal_strlit("T");
            reveal_strlit("X");
            reveal_strlit("!");
            reveal_strlit(" ");
        }
        let text = match self {
            Change::Added => "+",
            Change::Deleted => "-",
            Change::Modified => "M",
            Change::Renamed => "R",
            Change::Copied => "C",
            Change::Ignored => "I",
            Change::Untracked => "U",
            Change::Typechange => "T",
            Change::Unreadable => "X",
            Change::Conflicted => "!",
            Change::Unmodified => " ",
        };
        assert(text@ =~= seq![self.spec_marker()]);
        text
    }
}

/// A rendered line: the marker, a space, the line itself.
pub open spec fn rendered(change: Change, text: Seq<char>) -> Seq<char> {
    seq![change.spec_marker(), ' '] + text
}

/// Renders one line of a patch.
pub fn render_line(change: Change, text: &str) -> (line: String)
    ensures
        line@ == rendered(change, text@),
{
    proof {
        reveal_strlit(" ");
    }
    let mut line = String::from_str(change.marker());
    line.append(" ");
    line.append(text);
    assert(line@ =~= rendered(change, text@));
    line
}

/// Renders one line of a patch from its bytes, read as text.
pub fn render_patch_line(change: Change, content: &[u8]) -> (line: String)
    ensures
        line@ == rendered(change, lossy_utf8(content@)),
{
    let text = git::lossy_text(content);
    render_line(change, text.as_str())
}

/// The parent that the walk follows from a commit: the second where there
/// are several, which is the lineage after a reset; else the only one; none
/// at a commit without parents.
pub open spec fn chosen(parents: Seq<CommitId>) -> Option<CommitId> {
    if parents.len() > 1 {
        Some(parents[1])
    } else if parents.len() == 1 {
        Some(parents[0])
    } else {
        None
    }
}

/// The parent that the walk follows from a commit.
pub fn chosen_parent(parents: &Vec<CommitId>) -> (parent: Option<CommitId>)
    ensures
        parent == chosen(parents@),
{
    if parents.len() > 1 {
        Some(parents[1])
    } else if parents.len() == 1 {
        Some(parents[0])
    } else {
        None
    }
}

/// Where the walk goes from a commit with the given parents: on to the
/// parent that it follows, or to its end at a commit without parents, which
/// is no failure.
pub open spec fn spec_next_commit(parents: Seq<CommitId>) -> Result<CommitId, WalkEnd> {
    match chosen(parents) {
        Some(parent) => Ok(parent),
        None => Err(WalkEnd::RootReached),
    }
}

/// Where the walk goes from a commit with the given parents.
pub fn next_commit(parents: &Vec<CommitId>) -> (next: Result<CommitId, WalkEnd>)
    ensures
        next == spec_next_commit(parents@),
{
    match chosen_parent(parents) {
        Some(parent) => Ok(parent),
        None => Err(WalkEnd::RootReached),
    }
}

/// One line of a patch: what happened to the file it belongs to, and its
/// content as the engine gave it.
#[derive(Clone, Debug)]
pub struct PatchLine {
    pub change: Change,
    pub content: Vec<u8>,
}

/// One step of the walk: a commit, its parents as the engine gave them, the
/// parent that the walk went on to, and the patch from that parent's tree to
/// the commit's, line by line.
#[derive(Clone, Debug)]
pub struct HistoryEntry {
    pub commit: CommitId,
    pub parents: Vec<CommitId>,
    pub parent: CommitId,
    pub patch: Vec<PatchLine>,
}

impl PatchLine {
    /// The line as it is shown: the marker of its change, a space, and its
    /// content read as text.
    pub open spec fn spec_render(self) -> Seq<char> {
        rendered(self.change, lossy_utf8(self.content@))
    }

    /// Renders the line.
    pub fn render(&self) -> (line: String)
        ensures
            line@ == self.spec_render(),
    {
        render_patch_line(self.change, self.content.as_slice())
    }
}

impl HistoryEntry {
    /// The entry as it is shown: the commit's identity on a line of its own,
    /// then the lines of the patch, each with its marker.
    pub open spec fn spec_render(self) -> Seq<Seq<char>> {
        Seq::new(
            (self.patch@.len() + 1) as nat,
            |j: int|
                if j == 0 {
                    hex_of(self.commit@) + seq!['\n']
                } else {
                    self.patch@[j - 1].spec_render()
                },
        )
    }

    /// Renders the entry, text by text as it is to be printed.
    pub fn render(&self) -> (lines: Vec<String>)
        ensures
            lines@.len() == self.spec_render().len(),
            forall|j: int| 0 <= j < lines@.len() ==> (#[trigger] lines@[j])@ == self.spec_render()[j],
    {
        proof {
            reveal_strlit("\n");
        }
        let mut lines: Vec<String> = Vec::new();
        let mut title = self.commit.to_hex();
        title.append("\n");
        assert(title@ =~= hex_of(self.commit@) + seq!['\n']);
        lines.push(title);
        let mut i: usize = 0;
        while i < self.patch.len()
            invariant
                i <= self.patch@.len(),
                lines@.len() == i + 1,
                forall|j: int| 0 <= j < lines@.len() ==> (#[trigger] lines@[j])@ == self.spec_render()[j],
            decreases self.patch@.len() - i,
        {
            let line = self.patch[i].render();
            lines.push(line);
            i = i + 1;
        }
        lines
    }
}

/// Why a walk ended.
#[derive(Clone, Copy, Debug, PartialEq, Eq, Structural)]
pub enum WalkEnd {
    /// There is no shadow pointer: nothing was ever recorded.
    NoHistory,
    /// The walk took as many steps as it was allowed.
    LimitReached,
    /// The walk came to a commit without a parent.
    RootReached,
    /// The engine failed on the commit that the walk had come to.
    Failed(EngineError),
}

/// What a walk found.
#[derive(Clone, Debug)]
pub struct Summary {
    /// The shadow pointer's target when the walk began, if the pointer
    /// existed.
    pub start: Option<CommitId>,
    /// The steps of the walk, newest first.
    pub entries: Vec<HistoryEntry>,
    pub end: WalkEnd,
}

impl Summary {
    /// The walk began at the shadow pointer, took `limit` steps at most, went
    /// from each commit to the parent that it follows among the commit's
    /// parents, and ended for the reason it gives.
    pub open spec fn walked(self, limit: int) -> bool {
        &&& self.entries@.len() <= limit
        &&& self.end is NoHistory <==> self.start is None
        &&& self.entries@.len() > 0 ==> self.start == Some(self.entries@[0].commit)
        &&& self.end is NoHistory ==> self.entries@.len() == 0
        &&& self.end is LimitReached ==> self.entries@.len() == limit
        &&& self.end is RootReached || self.end is Failed ==> self.entries@.len() < limit
        &&& self.end matches WalkEnd::Failed(kind) ==> kind == EngineError::ObjectStoreFailure
        &&& linked(self.entries@)
        &&& follows_chosen(self.entries@)
    }
}

/// Each entry but the last goes on to the commit of the next.
pub open spec fn linked(entries: Seq<HistoryEntry>) -> bool {
    forall|i: int|
        0 <= i < entries.len() - 1 ==> (#[trigger] entries[i]).parent == entries[i + 1].commit
}

/// Each entry goes on to the parent that the walk follows among the commit's
/// parents: the second of several, else the only one.
pub open spec fn follows_chosen(entries: Seq<HistoryEntry>) -> bool {
    forall|i: int|
        0 <= i < entries.len() ==> chosen((#[trigger] entries[i]).parents@) == Some(
            entries[i].parent,
        )
}

/// The identities that runs of bytes spell, one for one.
pub open spec fn spelled(raw: Seq<Vec<u8>>) -> Seq<CommitId> {
    Seq::new(raw.len(), |i: int| CommitId(ObjectId::of_bytes(raw[i]@)))
}

/// Every run is twenty bytes long.
pub open spec fn all_identities(raw: Seq<Vec<u8>>) -> bool {
    forall|i: int| 0 <= i < raw.len() ==> (#[trigger] raw[i])@.len() == 20
}

/// Reads the commits' identities from runs of bytes, one for one and in
/// order: there are some exactly where every run is twenty bytes long.
pub fn decode_commits(raw: &Vec<Vec<u8>>) -> (commits: Option<Vec<CommitId>>)
    ensures
        all_identities(raw@) ==> commits is Some && commits->0@ == spelled(raw@),
        !all_identities(raw@) ==> commits is None,
{
    let mut commits: Vec<CommitId> = Vec::new();
    let mut i: usize = 0;
    while i < raw.len()
        invariant
            i <= raw.len(),
            commits@ == spelled(raw@.subrange(0, i as int)),
            all_identities(raw@.subrange(0, i as int)),
        decreases raw.len() - i,
    {
        match CommitId::from_slice(raw[i].as_slice()) {
            Some(id) => commits.push(id),
            None => {
                assert(raw@[i as int]@.len() != 20);
                return None;
            },
        }
        assert(raw@.subrange(0, i + 1)[i as int] == raw@[i as int]);
        assert(commits@ =~= spelled(raw@.subrange(0, i + 1)));
        assert(all_identities(raw@.subrange(0, i + 1))) by {
            assert forall|k: int| 0 <= k < i + 1 implies (#[trigger] raw@.subrange(0, i + 1)[k])@.len()
                == 20 by {
                if k < i {
                    assert(raw@.subrange(0, i as int)[k] == raw@[k]);
                }
            }
        }
        i = i + 1;
    }
    assert(raw@.subrange(0, i as int) =~= raw@);
    Some(commits)
}

/// The lines of a patch as the engine gave them, one for one and in order,
/// each with its content and with the change that its status stands for.
pub fn patch_of(raw: &Vec<(git2::Delta, Vec<u8>)>) -> (patch: Vec<PatchLine>)
    ensures
        patch@.len() == raw@.len(),
        forall|i: int| 0 <= i < raw@.len() ==> (#[trigger] patch@[i]).content@ == raw@[i].1@,
{
    let mut patch: Vec<PatchLine> = Vec::new();
    let mut i: usize = 0;
    while i < raw.len()
        invariant
            i <= raw@.len(),
            patch@.len() == i,
            forall|k: int| 0 <= k < i ==> (#[trigger] patch@[k]).content@ == raw@[k].1@,
        decreases raw@.len() - i,
    {
        let change = git::change_of(raw[i].0);
        patch.push(PatchLine { change, content: slice_to_vec(raw[i].1.as_slice()) });
        i = i + 1;
    }
    patch
}

impl Watcher {
    /// The parents of a commit, first parent first.
    pub fn parents_of(&self, commit: CommitId) -> (parents: Result<Vec<CommitId>, EngineError>)
        ensures
            parents is Err ==> parents->Err_0 == EngineError::ObjectStoreFailure,
    {
        let found = match git::find_commit(&self.repo, &commit.0.to_bytes()) {
            Ok(found) => found,
            Err(_) => return Err(EngineError::ObjectStoreFailure),
        };
        let raw = git::commit_parent_ids(&found);
        assert(all_identities(raw@));
        Ok(decode_commits(&raw).unwrap())
    }

    /// The tree object of a commit.
    fn tree_object_of(&self, commit: CommitId) -> (tree: Result<git2::Tree<'_>, EngineError>)
        ensures
            tree is Err ==> tree->Err_0 == EngineError::ObjectStoreFailure,
    {
        let found = match git::find_commit(&self.repo, &commit.0.to_bytes()) {
            Ok(found) => found,
            Err(_) => return Err(EngineError::ObjectStoreFailure),
        };
        match git::commit_tree(&found) {
            Ok(tree) => Ok(tree),
            Err(_) => Err(EngineError::ObjectStoreFailure),
        }
    }

    /// The patch from the tree of `parent` to the tree of `commit`, line by
    /// line. Fails with `ObjectStoreFailure`.
    pub fn changes_between(&self, parent: CommitId, commit: CommitId) -> (patch: Result<
        Vec<PatchLine>,
        EngineError,
    >)
        ensures
            patch is Err ==> patch->Err_0 == EngineError::ObjectStoreFailure,
    {
        let old_tree = self.tree_object_of(parent)?;
        let new_tree = self.tree_object_of(commit)?;
        let diff = match git::diff_trees(&self.repo, &old_tree, &new_tree) {
            Ok(diff) => diff,
            Err(_) => return Err(EngineError::ObjectStoreFailure),
        };
        let raw = match git::patch_lines(&diff) {
            Ok(raw) => raw,
            Err(_) => return Err(EngineError::ObjectStoreFailure),
        };
        Ok(patch_of(&raw))
    }

    /// Walks the checkpoint history backward from the shadow pointer, ten
    /// steps at most. Changes nothing.
    pub fn summarize(&self) -> (summary: Summary)
        ensures
            summary.walked(DEFAULT_LIMIT as int),
    {
        self.summarize_up_to(DEFAULT_LIMIT)
    }

    /// Walks the checkpoint history backward from the shadow pointer, `limit`
    /// steps at most. Each step holds the commit, its parents, the parent
    /// that the walk follows, and the patch from that parent's tree to the
    /// commit's own. Changes nothing.
    ///
    /// The walk never takes more than `limit` steps, however long the history
    /// is. It ends early where there is no history, at a commit without a
    /// parent, and where the engine fails; the steps taken until then stay.
    pub fn summarize_up_to(&self, limit: usize) -> (summary: Summary)
        ensures
            summary.walked(limit as int),
    {
        let mut entries: Vec<HistoryEntry> = Vec::new();
        let start = self.get_eis_head();
        let mut current = match start {
            Some(shadow) => shadow,
            None => return Summary { start, entries, end: WalkEnd::NoHistory },
        };
        while entries.len() < limit
            invariant
                entries@.len() <= limit,
                linked(entries@),
                follows_chosen(entries@),
                start is Some,
                entries@.len() == 0 ==> start == Some(current),
                entries@.len() > 0 ==> start == Some(entries@[0].commit),
                entries@.len() > 0 ==> entries@.last().parent == current,
            decreases limit - entries@.len(),
        {
            let parents = match self.parents_of(current) {
                Ok(parents) => parents,
                Err(kind) => return Summary { start, entries, end: WalkEnd::Failed(kind) },
            };
            let parent = match next_commit(&parents) {
                Ok(parent) => parent,
                Err(end) => return Summary { start, entries, end },
            };
            let patch = match self.changes_between(parent, current) {
                Ok(patch) => patch,
                Err(kind) => return Summary { start, entries, end: WalkEnd::Failed(kind) },
            };
            let ghost before = entries@;
            entries.push(HistoryEntry { commit: current, parents, parent, patch });
            assert(follows_chosen(entries@)) by {
                assert forall|i: int| 0 <= i < entries@.len() implies chosen(
                    (#[trigger] entries@[i]).parents@,
                ) == Some(entries@[i].parent) by {
                    if i < before.len() {
                        assert(entries@[i] == before[i]);
                    }
                }
            }
            assert(linked(entries@)) by {
                assert forall|i: int| 0 <= i < entries@.len() - 1 implies (#[trigger] entries@[i]).parent
                    == entries@[i + 1].commit by {
                    if i < before.len() - 1 {
                        assert(before[i].parent == before[i + 1].commit);
                    }
                }
            }
            assert(entries@[0].commit == if before.len() == 0 {
                current
            } else {
                before[0].commit
            });
            current = parent;
        }
        Summary { start, entries, end: WalkEnd::LimitReached }
    }
}

} // verus!
