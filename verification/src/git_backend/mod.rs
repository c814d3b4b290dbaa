//! Git backend: configuration, errors and the decisions and text handling behind repository
//! management, version control operations, large files, hooks, conflict resolution and
//! authentication.

pub mod auth;
pub mod conflict;
pub mod directory;
pub mod hook;
pub mod lfs;
pub mod metadata;
pub mod operation;
pub mod repository;

use vstd::prelude::*;
use crate::text::{owned, push_str};
use self::auth::AuthProvider;

verus! {

/// Configuration for the Git backend.
#[derive(Debug, Clone)]
pub struct GitBackendConfig {
    /// Name of the default branch.
    pub default_branch: String,
    /// Whether large file storage is used.
    pub lfs_enabled: bool,
    /// File patterns tracked by large file storage.
    pub lfs_patterns: Vec<String>,
    /// Path of the `git` executable.
    pub git_executable: String,
    /// Path of the `git-lfs` executable.
    pub git_lfs_executable: String,
}

/// The file patterns that large file storage tracks by default.
pub open spec fn default_lfs_patterns() -> Seq<Seq<char>> {
    seq!["*.bin"@, "*.obj"@, "*.step"@, "*.stl"@, "*.pdf"@, "*.png"@, "*.jpg"@, "*.zip"@]
}

/// The texts held by a list of strings.
pub open spec fn string_views(v: Seq<String>) -> Seq<Seq<char>> {
    v.map_values(|s: String| s@)
}

impl Default for GitBackendConfig {
    fn default() -> (r: GitBackendConfig)
        ensures
            r.default_branch@ == "main"@,
            r.lfs_enabled,
            string_views(r.lfs_patterns@) == default_lfs_patterns(),
            r.git_executable@ == "git"@,
            r.git_lfs_executable@ == "git-lfs"@,
    {
        let patterns = vec![
            owned("*.bin"),
            owned("*.obj"),
            owned("*.step"),
            owned("*.stl"),
            owned("*.pdf"),
            owned("*.png"),
            owned("*.jpg"),
            owned("*.zip"),
        ];
        assert(string_views(patterns@) =~= default_lfs_patterns());
        GitBackendConfig {
            default_branch: owned("main"),
            lfs_enabled: true,
            lfs_patterns: patterns,
            git_executable: owned("git"),
            git_lfs_executable: owned("git-lfs"),
        }
    }
}

/// Errors of the Git backend.
#[derive(Debug, Clone)]
pub enum GitBackendError {
    /// An error reported by Git, by its message.
    GitError(String),
    /// A repository could not be opened, created or configured.
    RepositoryError(String),
    /// A version control operation failed.
    OperationError(String),
    /// A large file storage operation failed.
    LfsError(String),
    /// A hook could not be handled.
    HookError(String),
    /// A conflict could not be resolved.
    ConflictError(String),
    /// Authentication failed.
    AuthError(String),
    /// An input or output error, by its message.
    IoError(String),
    /// Any other error.
    Other(String),
}

/// The message of a Git backend error.
pub open spec fn git_error_text(e: GitBackendError) -> Seq<char> {
    match e {
        GitBackendError::GitError(m) => "Git error: "@ + m@,
        GitBackendError::RepositoryError(m) => "Repository error: "@ + m@,
        GitBackendError::OperationError(m) => "Operation error: "@ + m@,
        GitBackendError::LfsError(m) => "LFS error: "@ + m@,
        GitBackendError::HookError(m) => "Hook error: "@ + m@,
        GitBackendError::ConflictError(m) => "Conflict error: "@ + m@,
        GitBackendError::AuthError(m) => "Auth error: "@ + m@,
        GitBackendError::IoError(m) => "IO error: "@ + m@,
        GitBackendError::Other(m) => "Other error: "@ + m@,
    }
}

impl GitBackendError {
    /// The message of this error.
    pub fn to_string(&self) -> (r: String)
        ensures
            r@ == git_error_text(*self),
    {
        let (prefix, m) = match self {
            GitBackendError::GitError(m) => ("Git error: ", m),
            GitBackendError::RepositoryError(m) => ("Repository error: ", m),
            GitBackendError::OperationError(m) => ("Operation error: ", m),
            GitBackendError::LfsError(m) => ("LFS error: ", m),
            GitBackendError::HookError(m) => ("Hook error: ", m),
            GitBackendError::ConflictError(m) => ("Conflict error: ", m),
            GitBackendError::AuthError(m) => ("Auth error: ", m),
            GitBackendError::IoError(m) => ("IO error: ", m),
            GitBackendError::Other(m) => ("Other error: ", m),
        };
        let mut r = owned(prefix);
        push_str(&mut r, m.as_str());
        r
    }
}

/// Information about a repository.
#[derive(Debug, Clone)]
pub struct RepositoryInfo {
    /// Path of the working directory.
    pub path: String,
    /// Name of the current branch.
    pub current_branch: String,
    /// Whether the working directory has uncommitted changes.
    pub has_changes: bool,
    /// Whether large file storage is configured.
    pub lfs_enabled: bool,
}

/// The outcome of a merge.
#[derive(Debug, Clone)]
pub struct MergeResult {
    /// Whether the merge succeeded.
    pub success: bool,
    /// Whether it stopped on conflicts.
    pub has_conflicts: bool,
    /// Files in conflict.
    pub conflicted_files: Vec<String>,
    /// The resulting commit, if any.
    pub commit_id: Option<String>,
}

/// The state of large file storage in a repository.
#[derive(Debug, Clone)]
pub struct LfsStatus {
    /// Whether it is configured.
    pub enabled: bool,
    /// Tracked file patterns.
    pub tracked_patterns: Vec<String>,
    /// Number of stored objects.
    pub object_count: usize,
    /// Their total size in bytes.
    pub total_size: u64,
}

/// The hooks that the backend manages.
#[derive(Debug, Clone, Copy, PartialEq, Eq, Hash, Structural)]
pub enum HookType {
    /// Before a commit.
    PreCommit,
    /// After a commit.
    PostCommit,
    /// Before a merge.
    PreMerge,
    /// After a merge.
    PostMerge,
    /// Before a push.
    PrePush,
    /// After a push.
    PostPush,
    /// After a checkout.
    PostCheckout,
    /// After a clone.
    PostClone,
    /// After an init.
    PostInit,
    /// After an update.
    PostUpdate,
    /// After a reference update.
    PostReferenceUpdate,
}

/// Strategies for resolving a conflict in a file.
#[derive(Debug, Clone, Copy, PartialEq, Eq, Structural)]
pub enum ConflictStrategy {
    /// Keep our version.
    Ours,
    /// Keep their version.
    Theirs,
    /// Keep both.
    Union,
}

/// Credentials for a remote.
#[derive(Debug, Clone)]
pub enum Credentials {
    /// User name and password.
    UserPass {
        /// User name.
        username: String,
        /// Password.
        password: String,
    },
    /// An SSH key pair.
    SshKey {
        /// User name.
        username: String,
        /// Path of the public key; empty when the agent provides the key.
        public_key: String,
        /// Path of the private key; empty when the agent provides the key.
        private_key: String,
        /// Passphrase of the key.
        passphrase: Option<String>,
    },
    /// An access token.
    Token {
        /// User name.
        username: String,
        /// The token.
        token: String,
    },
}

/// A copy of the credentials.
pub fn copy_credentials(c: &Credentials) -> (r: Credentials)
    ensures
        r == *c,
{
    match c {
        Credentials::UserPass { username, password } => Credentials::UserPass {
            username: username.clone(),
            password: password.clone(),
        },
        Credentials::SshKey { username, public_key, private_key, passphrase } => Credentials::SshKey {
            username: username.clone(),
            public_key: public_key.clone(),
            private_key: private_key.clone(),
            passphrase: match passphrase {
                Some(p) => Some(p.clone()),
                None => None,
            },
        },
        Credentials::Token { username, token } => Credentials::Token {
            username: username.clone(),
            token: token.clone(),
        },
    }
}

/// How the backend authenticates.
#[derive(Debug, Clone)]
pub struct AuthConfig {
    /// Whether the system credential helper is asked.
    pub use_credential_helper: bool,
    /// Path of the SSH private key.
    pub ssh_key_path: Option<String>,
    /// Whether the SSH agent is used.
    pub use_ssh_agent: bool,
}

impl Default for AuthConfig {
    fn default() -> (r: AuthConfig)
        ensures
            r.use_credential_helper,
            r.ssh_key_path is None,
            r.use_ssh_agent,
    {
        AuthConfig { use_credential_helper: true, ssh_key_path: None, use_ssh_agent: true }
    }
}

/// Status of a repository as the user interface shows it.
#[derive(Debug, Clone)]
pub struct UiStatus {
    /// Name of the current branch.
    pub current_branch: String,
    /// Whether there are uncommitted changes.
    pub has_changes: bool,
    /// Modified, deleted or retyped files.
    pub modified_files: Vec<String>,
    /// New files.
    pub untracked_files: Vec<String>,
    /// Local branch names.
    pub branches: Vec<String>,
    /// Tag names.
    pub tags: Vec<String>,
}

/// Outcome of a commit as the user interface shows it.
#[derive(Debug, Clone)]
pub struct UiCommitResult {
    /// Whether the commit was made.
    pub success: bool,
    /// The new commit.
    pub commit_id: Option<String>,
    /// Why the commit failed.
    pub error_message: Option<String>,
}

/// Settings applied to a repository.
#[derive(Debug, Clone)]
pub struct RepositorySettings {
    /// Name of the default branch.
    pub default_branch: String,
}

/// The Git backend: its configuration and its credentials.
pub struct GitBackendManager {
    config: GitBackendConfig,
    auth_provider: AuthProvider,
}

impl GitBackendManager {
    /// The configuration the backend was created with.
    pub closed spec fn spec_config(&self) -> GitBackendConfig {
        self.config
    }

    /// The credentials provider of the backend.
    pub closed spec fn spec_auth_provider(&self) -> AuthProvider {
        self.auth_provider
    }

    /// Creates the backend; this always succeeds.
    pub fn new(config: GitBackendConfig, auth_config: AuthConfig) -> (r: Result<GitBackendManager, GitBackendError>)
        ensures
            r matches Ok(m) && m.spec_config() == config && m.spec_auth_provider().spec_config() == auth_config
                && m.spec_auth_provider().stored().len() == 0,
    {
        let auth_provider = match AuthProvider::new(auth_config) {
            Ok(p) => p,
            Err(e) => return Err(e),
        };
        Ok(GitBackendManager { config, auth_provider })
    }

    /// The configuration of the backend.
    pub fn config(&self) -> (r: &GitBackendConfig)
        ensures
            *r == self.spec_config(),
    {
        &self.config
    }

    /// The credentials provider of the backend.
    pub fn auth_provider(&self) -> (r: &AuthProvider)
        ensures
            *r == self.spec_auth_provider(),
    {
        &self.auth_provider
    }
}

} // verus!
