//! The decisions behind version control operations: which path a file is committed under,
//! how a merge proceeds, which files it left in conflict, and what is reported.

use vstd::prelude::*;
use crate::text::{owned, push_str, str_eq};
use crate::paths::{
    parent, path_parent, path_is_absolute, is_absolute_path, strip_prefix, path_strip_prefix,
    clean, cleaned_path,
};
use super::{GitBackendError, MergeResult, UiCommitResult, git_error_text, string_views};

verus! {

/// The path, relative to the working directory, under which a file is added to a commit in
/// the repository whose Git directory is `git_dir`: a relative path is cleaned; an absolute
/// one is taken relative to the working directory (the Git directory's parent) and cleaned,
/// and refused when it lies outside it.
pub fn commit_path(git_dir: &str, file: &str) -> (r: Result<String, GitBackendError>)
    ensures
        path_parent(git_dir@) is None ==> (r matches Err(GitBackendError::RepositoryError(m))
            && m@ == "Repository path has no parent"@),
        path_parent(git_dir@) matches Some(w) ==> {
            if !is_absolute_path(file@) {
                r matches Ok(p) && p@ == cleaned_path(file@)
            } else {
                match path_strip_prefix(file@, w) {
                    Some(rel) => r matches Ok(p) && p@ == cleaned_path(rel),
                    None => r matches Err(GitBackendError::OperationError(m))
                        && m@ == "File "@ + file@ + " is not in the repository"@,
                }
            }
        },
{
    let work_dir = match parent(git_dir) {
        Some(w) => w,
        None => return Err(GitBackendError::RepositoryError(owned("Repository path has no parent"))),
    };
    if path_is_absolute(file) {
        match strip_prefix(file, work_dir.as_str()) {
            Some(rel) => Ok(clean(rel.as_str())),
            None => {
                let mut m = owned("File ");
                push_str(&mut m, file);
                push_str(&mut m, " is not in the repository");
                Err(GitBackendError::OperationError(m))
            },
        }
    } else {
        Ok(clean(file))
    }
}

/// How a merge proceeds, by what the merge analysis found.
#[derive(Debug, Clone, Copy, PartialEq, Eq, Structural)]
pub enum MergeStep {
    /// Nothing to merge: the branch is already contained.
    UpToDate,
    /// The current branch is moved forward to the merged one.
    FastForward,
    /// The branches are merged and a merge commit is made.
    Normal,
    /// None of these applies; the merge is refused.
    Unsupported,
}

/// How a merge proceeds: up to date first, then fast-forward, then a normal merge.
pub fn merge_step(up_to_date: bool, fast_forward: bool, normal: bool) -> (r: MergeStep)
    ensures
        r == (if up_to_date {
            MergeStep::UpToDate
        } else if fast_forward {
            MergeStep::FastForward
        } else if normal {
            MergeStep::Normal
        } else {
            MergeStep::Unsupported
        }),
{
    if up_to_date {
        MergeStep::UpToDate
    } else if fast_forward {
        MergeStep::FastForward
    } else if normal {
        MergeStep::Normal
    } else {
        MergeStep::Unsupported
    }
}

/// The message of a merge commit: `Merge branch '<name>' into <current branch>`, with `HEAD`
/// where the current branch has no short name.
pub fn merge_message(name: &str, head_shorthand: Option<&str>) -> (r: String)
    ensures
        r@ == "Merge branch '"@ + name@ + "' into "@ + match head_shorthand {
            Some(h) => h@,
            None => "HEAD"@,
        },
{
    let mut r = owned("Merge branch '");
    push_str(&mut r, name);
    push_str(&mut r, "' into ");
    match head_shorthand {
        Some(h) => push_str(&mut r, h),
        None => push_str(&mut r, "HEAD"),
    }
    r
}

/// The merge succeeded and left the given commit.
pub fn merge_completed(commit_id: String) -> (r: MergeResult)
    ensures
        r.success,
        !r.has_conflicts,
        r.conflicted_files.len() == 0,
        r.commit_id == Some(commit_id),
{
    MergeResult { success: true, has_conflicts: false, conflicted_files: Vec::new(), commit_id: Some(commit_id) }
}

/// The merge stopped on conflicts in the given files.
pub fn merge_conflicted(conflicted_files: Vec<String>) -> (r: MergeResult)
    ensures
        !r.success,
        r.has_conflicts,
        r.conflicted_files@ == conflicted_files@,
        r.commit_id is None,
{
    MergeResult { success: false, has_conflicts: true, conflicted_files, commit_id: None }
}

/// The error given for a merge of a kind that is not handled.
pub fn unsupported_merge(name: &str) -> (r: GitBackendError)
    ensures
        r matches GitBackendError::OperationError(m) && m@ == "Unsupported merge type for branch "@ + name@,
{
    let mut m = owned("Unsupported merge type for branch ");
    push_str(&mut m, name);
    GitBackendError::OperationError(m)
}

/// The paths among `entries` that some conflict names as our side, in the order of `entries`.
pub open spec fn conflicted_spec(entries: Seq<Seq<char>>, ours: Seq<Seq<char>>) -> Seq<Seq<char>>
    decreases entries.len(),
{
    if entries.len() == 0 {
        Seq::empty()
    } else {
        let rest = conflicted_spec(entries.drop_last(), ours);
        if ours.contains(entries.last()) {
            rest.push(entries.last())
        } else {
            rest
        }
    }
}

/// The files a merge left in conflict: the index entries whose path some conflict names as
/// our side, in index order.
pub fn conflicted_files(entries: &Vec<String>, ours: &Vec<String>) -> (r: Vec<String>)
    ensures
        string_views(r@) == conflicted_spec(string_views(entries@), string_views(ours@)),
{
    let mut r: Vec<String> = Vec::new();
    let ghost es = string_views(entries@);
    let ghost os = string_views(ours@);
    assert(string_views(r@) =~= Seq::empty());
    for i in 0..entries.len()
        invariant
            es == string_views(entries@),
            os == string_views(ours@),
            string_views(r@) == conflicted_spec(es.subrange(0, i as int), os),
    {
        let mut found = false;
        for j in 0..ours.len()
            invariant
                es == string_views(entries@),
                os == string_views(ours@),
                i < entries.len(),
                found <==> exists|k: int| 0 <= k < j && os[k] == es[i as int],
        {
            assert(os[j as int] == ours@[j as int]@);
            assert(es[i as int] == entries@[i as int]@);
            if str_eq(ours[j].as_str(), entries[i].as_str()) {
                found = true;
            }
        }
        let ghost before = string_views(r@);
        if found {
            r.push(owned(entries[i].as_str()));
            assert(string_views(r@) =~= before.push(es[i as int]));
        }
        proof {
            let sub = es.subrange(0, i + 1);
            assert(sub.drop_last() =~= es.subrange(0, i as int));
            assert(sub.last() == es[i as int]);
            if found {
                let k = choose|k: int| 0 <= k < ours.len() && os[k] == es[i as int];
                assert(os.contains(es[i as int]));
            } else {
                assert(!os.contains(es[i as int]));
            }
        }
    }
    assert(es.subrange(0, entries.len() as int) =~= es);
    r
}

/// What the user interface shows for a commit: its identifier where it was made, the
/// error's message where it failed.
pub fn ui_commit_result(outcome: Result<String, GitBackendError>) -> (r: UiCommitResult)
    ensures
        match outcome {
            Ok(id) => r.success && r.commit_id == Some(id) && r.error_message is None,
            Err(e) => !r.success && r.commit_id is None
                && (r.error_message matches Some(m) && m@ == git_error_text(e)),
        },
{
    match outcome {
        Ok(id) => UiCommitResult { success: true, commit_id: Some(id), error_message: None },
        Err(e) => UiCommitResult { success: false, commit_id: None, error_message: Some(e.to_string()) },
    }
}

} // verus!
