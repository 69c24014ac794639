//! The calls into the version-control engine, one function of it each.
//!
//! Everything here is believed, not proved. What most of these calls return
//! depends on what is on disk, so no contract speaks of it: the functions
//! that call them are verified for whatever comes back. Identities cross
//! this border as their twenty bytes: where the engine hands one out, the
//! contract says that it is twenty bytes long, and no more.

use crate::summary::Change;
use vstd::multiset::Multiset;
use vstd::prelude::*;

verus! {

#[verifier::external_type_specification]
#[verifier::external_body]
pub struct ExRepository(git2::Repository);

#[verifier::external_type_specification]
#[verifier::external_body]
pub struct ExIndex(git2::Index);

#[verifier::external_type_specification]
#[verifier::external_body]
pub struct ExError(git2::Error);

#[verifier::external_type_specification]
#[verifier::external_body]
pub struct ExReference<'repo>(git2::Reference<'repo>);

#[verifier::external_type_specification]
#[verifier::external_body]
pub struct ExCommit<'repo>(git2::Commit<'repo>);

#[verifier::external_type_specification]
#[verifier::external_body]
pub struct ExTree<'repo>(git2::Tree<'repo>);

#[verifier::external_type_specification]
#[verifier::external_body]
pub struct ExSignature<'a>(git2::Signature<'a>);

#[verifier::external_type_specification]
#[verifier::external_body]
pub struct ExDiff<'repo>(git2::Diff<'repo>);

#[verifier::external_type_specification]
#[verifier::external_body]
pub struct ExDelta(git2::Delta);

/// The paths of the entries that an index holds in memory.
pub uninterp spec fn staged(index: git2::Index) -> Multiset<Seq<u8>>;

/// The text that `String::from_utf8_lossy` makes of bytes: the text they
/// encode, with a replacement character for each run that encodes none.
pub uninterp spec fn lossy_utf8(bytes: Seq<u8>) -> Seq<char>;

/// `git2::Repository::open`: opens the repository at a path.
#[verifier::external_body]
pub(crate) fn open_repository(path: &str) -> (opened: Result<git2::Repository, git2::Error>) {
    git2::Repository::open(path)
}

/// `git2::Repository::find_reference`: looks a reference up by name.
#[verifier::external_body]
pub(crate) fn find_reference<'repo>(repo: &'repo git2::Repository, name: &str) -> (found: Result<
    git2::Reference<'repo>,
    git2::Error,
>) {
    repo.find_reference(name)
}

/// `git2::Repository::head`: the reference that HEAD resolves to.
#[verifier::external_body]
pub(crate) fn head<'repo>(repo: &'repo git2::Repository) -> (found: Result<
    git2::Reference<'repo>,
    git2::Error,
>) {
    repo.head()
}

/// `git2::Reference::target`: the object that a direct reference points at;
/// none for a symbolic one.
#[verifier::external_body]
pub(crate) fn reference_target(reference: &git2::Reference<'_>) -> (target: Option<Vec<u8>>)
    ensures
        target matches Some(bytes) ==> bytes@.len() == 20,
{
    reference.target().map(|oid| oid.as_bytes().to_vec())
}

/// `git2::Repository::merge_base`: a common ancestor of two commits; none
/// where the engine reports that it found none.
#[verifier::external_body]
pub(crate) fn merge_base(repo: &git2::Repository, one: &[u8; 20], two: &[u8; 20]) -> (base: Result<
    Option<Vec<u8>>,
    git2::Error,
>)
    ensures
        base matches Ok(Some(bytes)) ==> bytes@.len() == 20,
{
    match repo.merge_base(git2::Oid::from_bytes(one)?, git2::Oid::from_bytes(two)?) {
        Ok(oid) => Ok(Some(oid.as_bytes().to_vec())),
        Err(e) if e.code() == git2::ErrorCode::NotFound => Ok(None),
        Err(e) => Err(e),
    }
}

/// `git2::Repository::reference` with `force`: points a named direct
/// reference at an object, creating it if it is absent.
#[verifier::external_body]
pub(crate) fn set_reference<'repo>(
    repo: &'repo git2::Repository,
    name: &str,
    target: &[u8; 20],
    log_message: &str,
) -> (made: Result<git2::Reference<'repo>, git2::Error>) {
    repo.reference(name, git2::Oid::from_bytes(target)?, true, log_message)
}

/// `git2::Repository::path`: the path of the repository's own directory, as
/// text; none where the path is no text.
#[verifier::external_body]
pub(crate) fn repository_dir(repo: &git2::Repository) -> (dir: Option<String>) {
    repo.path().to_str().map(|text| text.to_string())
}

/// `git2::Index::open`: an index of its own on the file at a path, apart
/// from any repository's.
#[verifier::external_body]
pub(crate) fn open_index(path: &str) -> (index: Result<git2::Index, git2::Error>) {
    git2::Index::open(std::path::Path::new(path))
}

/// `git2::Repository::set_index`: makes the repository handle work on the
/// given index.
#[verifier::external_body]
pub(crate) fn attach_index(repo: &git2::Repository, index: &mut git2::Index) -> (done: Result<
    (),
    git2::Error,
>) {
    repo.set_index(index)
}

/// `git2::Index::add_all` with the default options: stages every file of the
/// working directory that matches the pattern and is not ignored.
#[verifier::external_body]
pub(crate) fn stage_all(index: &mut git2::Index, pattern: &str) -> (done: Result<(), git2::Error>) {
    index.add_all([pattern].iter(), git2::IndexAddOption::DEFAULT, None)
}

/// `git2::Index::is_empty`: whether the index holds no entry.
#[verifier::external_body]
pub(crate) fn index_is_empty(index: &git2::Index) -> (empty: bool)
    ensures
        empty == (staged(*index).len() == 0),
{
    index.is_empty()
}

/// `git2::Index::write_tree`: writes the index out as a tree.
#[verifier::external_body]
pub(crate) fn write_tree(index: &mut git2::Index) -> (tree: Result<Vec<u8>, git2::Error>)
    ensures
        tree matches Ok(bytes) ==> bytes@.len() == 20,
{
    index.write_tree().map(|oid| oid.as_bytes().to_vec())
}

/// `git2::Index::clear`: removes every entry of the index in memory. Where
/// it succeeds, none is left.
#[verifier::external_body]
pub(crate) fn clear_index(index: &mut git2::Index) -> (done: Result<(), git2::Error>)
    ensures
        done is Ok ==> staged(*final(index)).len() == 0,
{
    index.clear()
}

/// `git2::Index::write`: writes the index to its file. The entries in memory
/// stay the ones they are.
#[verifier::external_body]
pub(crate) fn write_index(index: &mut git2::Index) -> (done: Result<(), git2::Error>)
    ensures
        staged(*final(index)) == staged(*old(index)),
{
    index.write()
}

/// `git2::Repository::find_commit`: looks a commit up by its identity.
#[verifier::external_body]
pub(crate) fn find_commit<'repo>(repo: &'repo git2::Repository, commit: &[u8; 20]) -> (found: Result<
    git2::Commit<'repo>,
    git2::Error,
>) {
    repo.find_commit(git2::Oid::from_bytes(commit)?)
}

/// `git2::Commit::tree_id`: the identity of a commit's tree.
#[verifier::external_body]
pub(crate) fn commit_tree_id(commit: &git2::Commit<'_>) -> (tree: Vec<u8>)
    ensures
        tree@.len() == 20,
{
    commit.tree_id().as_bytes().to_vec()
}

/// `git2::Commit::parent_ids`: the identities of a commit's parents, first
/// parent first.
#[verifier::external_body]
pub(crate) fn commit_parent_ids(commit: &git2::Commit<'_>) -> (parents: Vec<Vec<u8>>)
    ensures
        forall|i: int| 0 <= i < parents@.len() ==> (#[trigger] parents@[i])@.len() == 20,
{
    commit.parent_ids().map(|oid| oid.as_bytes().to_vec()).collect()
}

/// `git2::Commit::tree`: a commit's tree.
#[verifier::external_body]
pub(crate) fn commit_tree<'repo>(commit: &git2::Commit<'repo>) -> (tree: Result<
    git2::Tree<'repo>,
    git2::Error,
>) {
    commit.tree()
}

/// `git2::Repository::find_tree`: looks a tree up by its identity.
#[verifier::external_body]
pub(crate) fn find_tree<'repo>(repo: &'repo git2::Repository, tree: &[u8; 20]) -> (found: Result<
    git2::Tree<'repo>,
    git2::Error,
>) {
    repo.find_tree(git2::Oid::from_bytes(tree)?)
}

/// `git2::Signature::now`: an identity of the given name and address, at the
/// present time.
#[verifier::external_body]
pub(crate) fn signature_now(name: &str, email: &str) -> (who: Result<
    git2::Signature<'static>,
    git2::Error,
>) {
    git2::Signature::now(name, email)
}

/// `git2::Repository::commit` with one parent: creates a commit and then
/// points the named reference at it. The engine refuses where the reference
/// exists and does not point at the parent.
#[verifier::external_body]
pub(crate) fn create_commit(
    repo: &git2::Repository,
    update_ref: &str,
    who: &git2::Signature<'_>,
    message: &str,
    tree: &git2::Tree<'_>,
    parent: &git2::Commit<'_>,
) -> (commit: Result<Vec<u8>, git2::Error>)
    ensures
        commit matches Ok(bytes) ==> bytes@.len() == 20,
{
    let made = repo.commit(Some(update_ref), who, who, message, tree, &[parent]);
    made.map(|oid| oid.as_bytes().to_vec())
}

/// `git2::Repository::diff_tree_to_tree` with the default options: the
/// changes from one tree to another.
#[verifier::external_body]
pub(crate) fn diff_trees<'repo>(
    repo: &'repo git2::Repository,
    old_tree: &git2::Tree<'_>,
    new_tree: &git2::Tree<'_>,
) -> (diff: Result<git2::Diff<'repo>, git2::Error>) {
    repo.diff_tree_to_tree(Some(old_tree), Some(new_tree), None)
}

/// `git2::Diff::print` in patch format: every line of the patch, each with
/// the status of the file it belongs to and its content.
#[verifier::external_body]
pub(crate) fn patch_lines(diff: &git2::Diff<'_>) -> (lines: Result<
    Vec<(git2::Delta, Vec<u8>)>,
    git2::Error,
>) {
    let mut lines = Vec::new();
    diff.print(
        git2::DiffFormat::Patch,
        |delta, _hunk, line| {
            lines.push((delta.status(), line.content().to_vec()));
            true
        },
    )?;
    Ok(lines)
}

/// Tells the statuses of `git2::Delta` apart, one for one.
#[verifier::external_body]
pub(crate) fn change_of(delta: git2::Delta) -> (change: Change) {
    match delta {
        git2::Delta::Added => Change::Added,
        git2::Delta::Deleted => Change::Deleted,
        git2::Delta::Modified => Change::Modified,
        git2::Delta::Renamed => Change::Renamed,
        git2::Delta::Copied => Change::Copied,
        git2::Delta::Ignored => Change::Ignored,
        git2::Delta::Untracked => Change::Untracked,
        git2::Delta::Typechange => Change::Typechange,
        git2::Delta::Unreadable => Change::Unreadable,
        git2::Delta::Conflicted => Change::Conflicted,
        git2::Delta::Unmodified => Change::Unmodified,
    }
}

/// `String::from_utf8_lossy`: bytes as text.
#[verifier::external_body]
pub(crate) fn lossy_text(bytes: &[u8]) -> (text: String)
    ensures
        text@ == lossy_utf8(bytes@),
{
    String::from_utf8_lossy(bytes).into_owned()
}

} // verus!
