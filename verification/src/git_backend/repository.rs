//! Repository layout and state: the directories and files a repository is set up with for
//! part management, its working directory, its current branch, and what its status shows.

use vstd::prelude::*;
use crate::text::{owned, push_str};
use crate::paths::{join, join_path, parent, path_parent};
use super::{GitBackendError, RepositoryInfo, UiStatus, string_views};

verus! {

/// The directories a repository is given for part management, relative to its working
/// directory, in the order they are created.
pub open spec fn plm_directories_spec() -> Seq<Seq<char>> {
    seq![
        "parts"@,
        "parts/libraries"@,
        "templates"@,
        "templates/readme"@,
        "templates/database"@,
        "scripts"@,
        "config"@,
        "config/workflows"@,
        "config/categories"@,
        "config/directory-templates"@,
        "config/directory-templates/custom"@,
        "config/settings"@,
    ]
}

/// The directories a repository is given for part management, within its working directory
/// `work_dir`, in the order they are created.
pub fn plm_directory_paths(work_dir: &str) -> (r: Vec<String>)
    ensures
        r.len() == plm_directories_spec().len(),
        forall|i: int| 0 <= i < r.len() ==> (#[trigger] r@[i])@ == join_path(work_dir@, plm_directories_spec()[i]),
{
    let names = [
        "parts",
        "parts/libraries",
        "templates",
        "templates/readme",
        "templates/database",
        "scripts",
        "config",
        "config/workflows",
        "config/categories",
        "config/directory-templates",
        "config/directory-templates/custom",
        "config/settings",
    ];
    assert(names@.map_values(|s: &str| s@) =~= plm_directories_spec());
    let mut r: Vec<String> = Vec::new();
    for i in 0..names.len()
        invariant
            names@.map_values(|s: &str| s@) == plm_directories_spec(),
            r.len() == i,
            forall|k: int| 0 <= k < i ==> (#[trigger] r@[k])@ == join_path(work_dir@, plm_directories_spec()[k]),
    {
        assert(names@[i as int]@ == plm_directories_spec()[i as int]);
        r.push(join(work_dir, names[i]));
    }
    r
}

/// The `.gitattributes` file a repository is given: line endings, binary files, and the
/// file types kept in large file storage.
pub const GITATTRIBUTES_CONTENT: &'static str = r#"# Set default line ending behavior
* text=auto

# Binary files
*.pdf binary
*.png binary
*.jpg binary
*.step binary
*.stl binary

# LFS tracked files
*.pdf filter=lfs diff=lfs merge=lfs -text
*.png filter=lfs diff=lfs merge=lfs -text
*.jpg filter=lfs diff=lfs merge=lfs -text
*.step filter=lfs diff=lfs merge=lfs -text
*.stl filter=lfs diff=lfs merge=lfs -text
*.zip filter=lfs diff=lfs merge=lfs -text
*.bin filter=lfs diff=lfs merge=lfs -text
"#;

/// The `.gitignore` file a repository is given.
pub const GITIGNORE_CONTENT: &'static str = r#"# Build artifacts
build/
dist/
out/

# Temporary files
*.tmp
*.temp
*.bak
*.swp
*~

# OS-specific files
.DS_Store
Thumbs.db

# IDE files
.idea/
.vscode/
*.sublime-*

# Log files
*.log
logs/

# Dependency directories
node_modules/
vendor/

# Environment files
.env
.env.local
"#;

/// The working directory of the repository whose Git directory is `git_dir`: its parent.
pub fn work_dir_of(git_dir: &str) -> (r: Result<String, GitBackendError>)
    ensures
        match path_parent(git_dir@) {
            Some(w) => r matches Ok(p) && p@ == w,
            None => r matches Err(GitBackendError::RepositoryError(m)) && m@ == "Repository path has no parent"@,
        },
{
    match parent(git_dir) {
        Some(w) => Ok(w),
        None => Err(GitBackendError::RepositoryError(owned("Repository path has no parent"))),
    }
}

/// The name of the current branch: the short name of `HEAD` where it is a branch that has
/// one, else `HEAD`.
pub fn current_branch_name(is_branch: bool, shorthand: Option<&str>) -> (r: String)
    ensures
        r@ == (if is_branch && shorthand is Some { shorthand->0@ } else { "HEAD"@ }),
{
    if is_branch {
        match shorthand {
            Some(s) => owned(s),
            None => owned("HEAD"),
        }
    } else {
        owned("HEAD")
    }
}

/// How a file of the working directory differs from the index.
#[derive(Debug, Clone, Copy, PartialEq, Eq, Structural)]
pub struct WorktreeStatus {
    /// The file is new.
    pub new: bool,
    /// The file was modified.
    pub modified: bool,
    /// The file was deleted.
    pub deleted: bool,
    /// The file's type changed.
    pub typechange: bool,
    /// The file was renamed.
    pub renamed: bool,
}

/// The file differs from the index in any way.
pub open spec fn is_changed(s: WorktreeStatus) -> bool {
    s.new || s.modified || s.deleted || s.typechange || s.renamed
}

/// Whether the working directory has uncommitted changes: whether any file differs from the
/// index.
pub fn has_worktree_changes(statuses: &Vec<WorktreeStatus>) -> (r: bool)
    ensures
        r == exists|i: int| 0 <= i < statuses.len() && is_changed(#[trigger] statuses@[i]),
{
    for i in 0..statuses.len()
        invariant
            forall|k: int| 0 <= k < i ==> !is_changed(#[trigger] statuses@[k]),
    {
        let s = statuses[i];
        if s.new || s.modified || s.deleted || s.typechange || s.renamed {
            return true;
        }
    }
    false
}

/// A file counts as modified when it was modified, deleted or retyped.
pub open spec fn is_modified(s: WorktreeStatus) -> bool {
    s.modified || s.deleted || s.typechange
}

/// The paths of the modified entries (modified, deleted or retyped), in order.
pub open spec fn modified_paths(entries: Seq<(String, WorktreeStatus)>) -> Seq<Seq<char>>
    decreases entries.len(),
{
    if entries.len() == 0 {
        Seq::empty()
    } else {
        let rest = modified_paths(entries.drop_last());
        if is_modified(entries.last().1) {
            rest.push(entries.last().0@)
        } else {
            rest
        }
    }
}

/// The paths of the untracked entries (new and not modified), in order.
pub open spec fn untracked_paths(entries: Seq<(String, WorktreeStatus)>) -> Seq<Seq<char>>
    decreases entries.len(),
{
    if entries.len() == 0 {
        Seq::empty()
    } else {
        let rest = untracked_paths(entries.drop_last());
        if !is_modified(entries.last().1) && entries.last().1.new {
            rest.push(entries.last().0@)
        } else {
            rest
        }
    }
}

/// The status the user interface shows: the current branch, whether there are changes, the
/// modified files (modified, deleted or retyped) and the untracked ones (new and not
/// modified), in the order of `entries`, and the branches and tags.
pub fn ui_status(
    current_branch: String,
    has_changes: bool,
    entries: &Vec<(String, WorktreeStatus)>,
    branches: Vec<String>,
    tags: Vec<String>,
) -> (r: UiStatus)
    ensures
        r.current_branch == current_branch,
        r.has_changes == has_changes,
        string_views(r.modified_files@) == modified_paths(entries@),
        string_views(r.untracked_files@) == untracked_paths(entries@),
        r.branches@ == branches@,
        r.tags@ == tags@,
{
    let mut modified_files: Vec<String> = Vec::new();
    let mut untracked_files: Vec<String> = Vec::new();
    assert(string_views(modified_files@) =~= Seq::empty());
    assert(string_views(untracked_files@) =~= Seq::empty());
    for i in 0..entries.len()
        invariant
            string_views(modified_files@) == modified_paths(entries@.subrange(0, i as int)),
            string_views(untracked_files@) == untracked_paths(entries@.subrange(0, i as int)),
    {
        let (path, s) = (&entries[i].0, entries[i].1);
        let ghost m0 = string_views(modified_files@);
        let ghost u0 = string_views(untracked_files@);
        if s.modified || s.deleted || s.typechange {
            modified_files.push(owned(path.as_str()));
            assert(string_views(modified_files@) =~= m0.push(path@));
        } else if s.new {
            untracked_files.push(owned(path.as_str()));
            assert(string_views(untracked_files@) =~= u0.push(path@));
        }
        proof {
            let sub = entries@.subrange(0, i + 1);
            assert(sub.drop_last() =~= entries@.subrange(0, i as int));
            assert(sub.last() == entries@[i as int]);
        }
    }
    assert(entries@.subrange(0, entries.len() as int) =~= entries@);
    UiStatus { current_branch, has_changes, modified_files, untracked_files, branches, tags }
}

/// Information about a repository from its working directory and its state.
pub fn repository_info(path: String, current_branch: String, has_changes: bool, lfs_enabled: bool) -> (r: RepositoryInfo)
    ensures
        r.path == path,
        r.current_branch == current_branch,
        r.has_changes == has_changes,
        r.lfs_enabled == lfs_enabled,
{
    RepositoryInfo { path, current_branch, has_changes, lfs_enabled }
}

/// The error given when sparse checkout is asked for in a repository with no commits.
pub fn sparse_checkout_on_empty() -> (r: GitBackendError)
    ensures
        r matches GitBackendError::RepositoryError(m) && m@ == "Cannot configure sparse checkout on an empty repository"@,
{
    GitBackendError::RepositoryError(owned("Cannot configure sparse checkout on an empty repository"))
}

/// The arguments that set the sparse checkout patterns: `sparse-checkout set` and the
/// patterns.
pub fn sparse_checkout_set_args(patterns: &Vec<String>) -> (r: Vec<String>)
    ensures
        string_views(r@) == seq!["sparse-checkout"@, "set"@] + string_views(patterns@),
{
    let mut r: Vec<String> = vec![owned("sparse-checkout"), owned("set")];
    assert(string_views(r@) =~= seq!["sparse-checkout"@, "set"@]);
    for i in 0..patterns.len()
        invariant
            string_views(r@) == seq!["sparse-checkout"@, "set"@] + string_views(patterns@.subrange(0, i as int)),
    {
        let ghost before = string_views(r@);
        r.push(owned(patterns[i].as_str()));
        assert(string_views(r@) =~= before.push(patterns@[i as int]@));
        assert(string_views(patterns@.subrange(0, i + 1)) =~= string_views(patterns@.subrange(0, i as int)).push(patterns@[i as int]@));
    }
    assert(patterns@.subrange(0, patterns.len() as int) =~= patterns@);
    r
}

/// The error given when a sparse checkout command fails, with what it wrote to its error
/// output: at its set-up, or when setting the patterns.
pub fn sparse_checkout_failed(at_init: bool, stderr: &str) -> (r: GitBackendError)
    ensures
        r matches GitBackendError::RepositoryError(m) && m@ == (if at_init {
            "Failed to initialize sparse checkout: "@
        } else {
            "Failed to set sparse checkout patterns: "@
        }) + stderr@,
{
    let mut m = if at_init {
        owned("Failed to initialize sparse checkout: ")
    } else {
        owned("Failed to set sparse checkout patterns: ")
    };
    push_str(&mut m, stderr);
    GitBackendError::RepositoryError(m)
}

/// Every file that was modified, deleted or retyped is listed among the modified files, and
/// every new file that was not is listed among the untracked ones; nothing else is listed.
pub proof fn law_changed_files_are_listed(entries: Seq<(String, WorktreeStatus)>, i: int, p: Seq<char>)
    ensures
        0 <= i < entries.len() && (entries[i].1.modified || entries[i].1.deleted || entries[i].1.typechange)
            ==> modified_paths(entries).contains(entries[i].0@),
        0 <= i < entries.len() && entries[i].1.new
            && !(entries[i].1.modified || entries[i].1.deleted || entries[i].1.typechange)
            ==> untracked_paths(entries).contains(entries[i].0@),
        modified_paths(entries).contains(p) ==> exists|j: int| 0 <= j < entries.len() && entries[j].0@ == p
            && (entries[j].1.modified || entries[j].1.deleted || entries[j].1.typechange),
        untracked_paths(entries).contains(p) ==> exists|j: int| 0 <= j < entries.len() && entries[j].0@ == p
            && entries[j].1.new && !(entries[j].1.modified || entries[j].1.deleted || entries[j].1.typechange),
    decreases entries.len(),
{
    if entries.len() > 0 {
        let front = entries.drop_last();
        let last = entries.len() - 1;
        law_changed_files_are_listed(front, i, p);
        let m = modified_paths(front);
        let u = untracked_paths(front);
        let e = entries[last];
        if 0 <= i < last {
            assert(front[i] == entries[i]);
            if m.contains(entries[i].0@) {
                let k = choose|k: int| 0 <= k < m.len() && m[k] == entries[i].0@;
                assert(m.push(e.0@)[k] == entries[i].0@);
            }
            if u.contains(entries[i].0@) {
                let k = choose|k: int| 0 <= k < u.len() && u[k] == entries[i].0@;
                assert(u.push(e.0@)[k] == entries[i].0@);
            }
        }
        if i == last {
            assert(m.push(e.0@)[m.len() as int] == e.0@);
            assert(u.push(e.0@)[u.len() as int] == e.0@);
        }
        if modified_paths(entries).contains(p) {
            let k = choose|k: int| 0 <= k < modified_paths(entries).len() && modified_paths(entries)[k] == p;
            if is_modified(e.1) && k == m.len() {
                assert(entries[last].0@ == p);
            } else {
                assert(m[k] == p);
                let j = choose|j: int| 0 <= j < front.len() && front[j].0@ == p
                    && (front[j].1.modified || front[j].1.deleted || front[j].1.typechange);
                assert(entries[j] == front[j]);
            }
        }
        if untracked_paths(entries).contains(p) {
            let k = choose|k: int| 0 <= k < untracked_paths(entries).len() && untracked_paths(entries)[k] == p;
            if !is_modified(e.1) && e.1.new && k == u.len() {
                assert(entries[last].0@ == p);
            } else {
                assert(u[k] == p);
                let j = choose|j: int| 0 <= j < front.len() && front[j].0@ == p
                    && front[j].1.new && !(front[j].1.modified || front[j].1.deleted || front[j].1.typechange);
                assert(entries[j] == front[j]);
            }
        }
    }
}

} // verus!

