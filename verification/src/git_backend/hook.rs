//! Git hooks: where each hook lives, the scripts installed by default, and the script that
//! runs a workflow of commands.

use vstd::prelude::*;
use crate::text::{owned, push_str, chars_of, starts_with, has_prefix, decimal, u64_to_decimal};
use crate::paths::{join, join_path, parent, path_parent};
use super::{GitBackendError, HookType};

verus! {

/// A workflow of commands that a hook runs, one step after another.
#[derive(Debug, Clone)]
pub struct Workflow {
    /// Name of the workflow.
    pub name: String,
    /// Description of the workflow.
    pub description: Option<String>,
    /// Steps of the workflow, in the order they run.
    pub steps: Vec<WorkflowStep>,
}

/// A step of a workflow.
#[derive(Debug, Clone)]
pub struct WorkflowStep {
    /// Name of the step.
    pub name: String,
    /// Shell command the step runs.
    pub command: String,
}

/// The file name of a hook in the hooks directory.
pub open spec fn hook_name_spec(h: HookType) -> Seq<char> {
    match h {
        HookType::PreCommit => "pre-commit"@,
        HookType::PostCommit => "post-commit"@,
        HookType::PreMerge => "pre-merge-commit"@,
        HookType::PostMerge => "post-merge"@,
        HookType::PrePush => "pre-push"@,
        HookType::PostPush => "post-push"@,
        HookType::PostCheckout => "post-checkout"@,
        HookType::PostClone => "post-clone"@,
        HookType::PostInit => "post-init"@,
        HookType::PostUpdate => "post-update"@,
        HookType::PostReferenceUpdate => "post-reference-update"@,
    }
}

/// The file name of a hook.
pub fn hook_file_name(hook_type: HookType) -> (r: &'static str)
    ensures
        r@ == hook_name_spec(hook_type),
{
    match hook_type {
        HookType::PreCommit => "pre-commit",
        HookType::PostCommit => "post-commit",
        HookType::PreMerge => "pre-merge-commit",
        HookType::PostMerge => "post-merge",
        HookType::PrePush => "pre-push",
        HookType::PostPush => "post-push",
        HookType::PostCheckout => "post-checkout",
        HookType::PostClone => "post-clone",
        HookType::PostInit => "post-init",
        HookType::PostUpdate => "post-update",
        HookType::PostReferenceUpdate => "post-reference-update",
    }
}

/// The path of a hook of the repository whose Git directory is `git_dir`: `hooks/<name>`.
pub fn hook_path(git_dir: &str, hook_type: HookType) -> (r: String)
    ensures
        r@ == join_path(join_path(git_dir@, "hooks"@), hook_name_spec(hook_type)),
{
    let hooks = join(git_dir, "hooks");
    join(hooks.as_str(), hook_file_name(hook_type))
}

/// A hook script as it is written: with `#!/bin/sh` and a line break put before it unless it
/// starts with `#!` already.
pub open spec fn with_shebang_spec(script: Seq<char>) -> Seq<char> {
    if has_prefix(script, "#!"@) {
        script
    } else {
        "#!/bin/sh\n"@ + script
    }
}

/// The script as it is written to a hook file.
pub fn script_with_shebang(script: &str) -> (r: String)
    ensures
        r@ == with_shebang_spec(script@),
{
    let v = chars_of(script);
    let p = chars_of("#!");
    if starts_with(&v, &p) {
        owned(script)
    } else {
        let mut r = owned("#!/bin/sh\n");
        push_str(&mut r, script);
        r
    }
}

/// The lines that run step `i` (counted from zero) of a workflow and stop the script when it
/// fails.
pub open spec fn step_text(i: nat, step: WorkflowStep) -> Seq<char> {
    "# Step "@ + decimal(i + 1) + ": "@ + step.name@ + "\n"@
        + step.command@ + "\n\n"@
        + "if [ $? -ne 0 ]; then\n"@
        + "  echo \"Error in step "@ + decimal(i + 1) + ": "@ + step.name@ + "\"\n"@
        + "  exit 1\n"@
        + "fi\n\n"@
}

/// The lines of the first `n` steps.
pub open spec fn steps_text(steps: Seq<WorkflowStep>, n: nat) -> Seq<char>
    decreases n,
{
    if n == 0 {
        Seq::empty()
    } else {
        steps_text(steps, (n - 1) as nat) + step_text((n - 1) as nat, steps[n - 1])
    }
}

/// The script that runs a workflow: a header that names it, its steps in order, and a
/// closing message.
pub open spec fn workflow_script(w: Workflow) -> Seq<char> {
    "#!/bin/sh\n\n"@
        + "# Workflow: "@ + w.name@ + "\n"@
        + match w.description {
            Some(d) => "# Description: "@ + d@ + "\n\n"@,
            None => "\n"@,
        }
        + steps_text(w.steps@, w.steps.len() as nat)
        + "echo \"Workflow '"@ + w.name@ + "' completed successfully\"\n"@
        + "exit 0\n"@
}

/// The script that runs `workflow`, for the repository whose Git directory is `git_dir`; a
/// Git directory without a parent is refused.
pub fn workflow_to_script(git_dir: &str, workflow: &Workflow) -> (r: Result<String, GitBackendError>)
    ensures
        path_parent(git_dir@) is Some ==> (r matches Ok(s) && s@ == workflow_script(*workflow)),
        path_parent(git_dir@) is None ==> (r matches Err(GitBackendError::RepositoryError(m))
            && m@ == "Repository path has no parent"@),
{
    if parent(git_dir).is_none() {
        return Err(GitBackendError::RepositoryError(owned("Repository path has no parent")));
    }
    let mut script = owned("#!/bin/sh\n\n");
    push_str(&mut script, "# Workflow: ");
    push_str(&mut script, workflow.name.as_str());
    push_str(&mut script, "\n");
    match &workflow.description {
        Some(d) => {
            push_str(&mut script, "# Description: ");
            push_str(&mut script, d.as_str());
            push_str(&mut script, "\n\n");
        },
        None => {
            push_str(&mut script, "\n");
        },
    }
    let ghost head = script@;
    let n = workflow.steps.len();
    for i in 0..n
        invariant
            n == workflow.steps.len(),
            script@ == head + steps_text(workflow.steps@, i as nat),
    {
        let step = &workflow.steps[i];
        let number = u64_to_decimal((i + 1) as u64);
        let ghost before = script@;
        push_str(&mut script, "# Step ");
        push_str(&mut script, number.as_str());
        push_str(&mut script, ": ");
        push_str(&mut script, step.name.as_str());
        push_str(&mut script, "\n");
        push_str(&mut script, step.command.as_str());
        push_str(&mut script, "\n\n");
        push_str(&mut script, "if [ $? -ne 0 ]; then\n");
        push_str(&mut script, "  echo \"Error in step ");
        push_str(&mut script, number.as_str());
        push_str(&mut script, ": ");
        push_str(&mut script, step.name.as_str());
        push_str(&mut script, "\"\n");
        push_str(&mut script, "  exit 1\n");
        push_str(&mut script, "fi\n\n");
        assert(script@ =~= before + step_text(i as nat, workflow.steps@[i as int]));
    }
    push_str(&mut script, "echo \"Workflow '");
    push_str(&mut script, workflow.name.as_str());
    push_str(&mut script, "' completed successfully\"\n");
    push_str(&mut script, "exit 0\n");
    Ok(script)
}

/// Default pre-commit hook
pub const PRE_COMMIT_HOOK: &'static str = r#"#!/bin/sh
#
# Implexa pre-commit hook
#
# This hook is called before a commit is created.
# It checks for PLM metadata and validates the commit.

# Check for PLM metadata
if [ ! -f "metadata.db" ]; then
  echo "Error: PLM metadata not found. Please create metadata before committing."
  exit 1
fi

# Check for binary files without LFS
git diff --cached --name-only | grep -E '\.(pdf|png|jpg|step|stl|zip|bin)$' | while read file; do
  if ! git check-attr filter "$file" | grep -q "lfs"; then
    echo "Error: Binary file $file is not tracked by Git LFS."
    echo "Please run: git lfs track \"$file\""
    exit 1
  fi
done

# Run any custom validation scripts
if [ -f ".implexa/hooks/pre-commit-custom" ]; then
  ./.implexa/hooks/pre-commit-custom
  if [ $? -ne 0 ]; then
    echo "Error: Custom pre-commit validation failed."
    exit 1
  fi
fi

exit 0
"#;

/// Default post-commit hook
pub const POST_COMMIT_HOOK: &'static str = r#"#!/bin/sh
#
# Implexa post-commit hook
#
# This hook is called after a commit is created.
# It updates PLM metadata and performs post-commit actions.

# Get the commit hash
COMMIT_HASH=$(git rev-parse HEAD)

# Update PLM metadata
if [ -f "metadata.db" ]; then
  echo "Updating PLM metadata for commit $COMMIT_HASH"
  # This would be replaced with actual metadata update command
fi

# Run any custom post-commit scripts
if [ -f ".implexa/hooks/post-commit-custom" ]; then
  ./.implexa/hooks/post-commit-custom
fi

exit 0
"#;

/// Default pre-merge hook
pub const PRE_MERGE_HOOK: &'static str = r#"#!/bin/sh
#
# Implexa pre-merge hook
#
# This hook is called before a merge is performed.
# It validates the merge and checks for conflicts.

# Get the branch being merged
BRANCH_NAME=$(git rev-parse --abbrev-ref HEAD)

# Check for PLM metadata conflicts
echo "Checking for PLM metadata conflicts in branch $BRANCH_NAME"
# This would be replaced with actual metadata conflict check

# Run any custom pre-merge scripts
if [ -f ".implexa/hooks/pre-merge-custom" ]; then
  ./.implexa/hooks/pre-merge-custom
  if [ $? -ne 0 ]; then
    echo "Error: Custom pre-merge validation failed."
    exit 1
  fi
fi

exit 0
"#;

/// Default post-merge hook
pub const POST_MERGE_HOOK: &'static str = r#"#!/bin/sh
#
# Implexa post-merge hook
#
# This hook is called after a merge is performed.
# It updates PLM metadata and performs post-merge actions.

# Check if the merge was successful
if [ $? -ne 0 ]; then
  echo "Merge failed, skipping post-merge actions."
  exit 0
fi

# Update PLM metadata
if [ -f "metadata.db" ]; then
  echo "Updating PLM metadata after merge"
  # This would be replaced with actual metadata update command
fi

# Pull LFS objects
git lfs pull

# Run any custom post-merge scripts
if [ -f ".implexa/hooks/post-merge-custom" ]; then
  ./.implexa/hooks/post-merge-custom
fi

exit 0
"#;

/// Default pre-push hook
pub const PRE_PUSH_HOOK: &'static str = r#"#!/bin/sh
#
# Implexa pre-push hook
#
# This hook is called before a push is performed.
# It validates the push and checks for required metadata.

# Check for PLM metadata
if [ ! -f "metadata.db" ]; then
  echo "Error: PLM metadata not found. Please create metadata before pushing."
  exit 1
fi

# Check for binary files without LFS
git diff --name-only | grep -E '\.(pdf|png|jpg|step|stl|zip|bin)$' | while read file; do
  if ! git check-attr filter "$file" | grep -q "lfs"; then
    echo "Error: Binary file $file is not tracked by Git LFS."
    echo "Please run: git lfs track \"$file\""
    exit 1
  fi
done

# Run any custom pre-push scripts
if [ -f ".implexa/hooks/pre-push-custom" ]; then
  ./.implexa/hooks/pre-push-custom
  if [ $? -ne 0 ]; then
    echo "Error: Custom pre-push validation failed."
    exit 1
  fi
fi

exit 0
"#;

/// Default post-checkout hook
pub const POST_CHECKOUT_HOOK: &'static str = r#"#!/bin/sh
#
# Implexa post-checkout hook
#
# This hook is called after a checkout is performed.
# It updates PLM metadata and performs post-checkout actions.

# Get the previous and current branch/commit
PREV_HEAD=$1
NEW_HEAD=$2
BRANCH_CHECKOUT=$3

# Pull LFS objects
git lfs pull

# Update PLM metadata
if [ -f "metadata.db" ]; then
  echo "Updating PLM metadata after checkout"
  # This would be replaced with actual metadata update command
fi

# Run any custom post-checkout scripts
if [ -f ".implexa/hooks/post-checkout-custom" ]; then
  ./.implexa/hooks/post-checkout-custom
fi

exit 0
"#;

/// The hooks installed by default, each with its script, in the order they are installed.
pub open spec fn default_hooks_spec() -> Seq<(HookType, Seq<char>)> {
    seq![
        (HookType::PreCommit, PRE_COMMIT_HOOK@),
        (HookType::PostCommit, POST_COMMIT_HOOK@),
        (HookType::PreMerge, PRE_MERGE_HOOK@),
        (HookType::PostMerge, POST_MERGE_HOOK@),
        (HookType::PrePush, PRE_PUSH_HOOK@),
        (HookType::PostCheckout, POST_CHECKOUT_HOOK@),
    ]
}

/// The hooks installed by default, each with its script, in the order they are installed.
pub fn default_plm_hooks() -> (r: Vec<(HookType, &'static str)>)
    ensures
        r@.map_values(|h: (HookType, &'static str)| (h.0, h.1@)) == default_hooks_spec(),
{
    let r = vec![
        (HookType::PreCommit, PRE_COMMIT_HOOK),
        (HookType::PostCommit, POST_COMMIT_HOOK),
        (HookType::PreMerge, PRE_MERGE_HOOK),
        (HookType::PostMerge, POST_MERGE_HOOK),
        (HookType::PrePush, PRE_PUSH_HOOK),
        (HookType::PostCheckout, POST_CHECKOUT_HOOK),
    ];
    assert(r@.map_values(|h: (HookType, &'static str)| (h.0, h.1@)) =~= default_hooks_spec());
    r
}

} // verus!
