//! Repositories as the user interface sees them, and the Git backend it works through.

use vstd::prelude::*;
use crate::text::owned;
use crate::paths::{file_name, path_file_name};
use crate::git_backend::{GitBackendManager, GitBackendConfig, AuthConfig, RepositoryInfo, string_views, default_lfs_patterns};
use std::sync::Mutex;

verus! {

/// A repository as the user interface shows it.
#[derive(Debug, Clone)]
pub struct RepositoryDto {
    /// Identifier: the MD5 digest of the path, in lower-case hexadecimal.
    pub id: String,
    /// Path of the working directory.
    pub path: String,
    /// Name: the last component of the path.
    pub name: String,
    /// Current branch.
    pub current_branch: String,
    /// Whether there are uncommitted changes.
    pub has_changes: bool,
    /// Whether large file storage is configured.
    pub lfs_enabled: bool,
}

/// What `md5::compute` gives for the UTF-8 bytes of a text: its 16-byte digest.
pub uninterp spec fn md5_digest(text: Seq<char>) -> Seq<u8>;

/// The MD5 digest of the text's UTF-8 bytes (`md5::compute`), which is 16 bytes long.
#[verifier::external_body]
fn md5_of(text: &str) -> (r: Vec<u8>)
    ensures
        r@ == md5_digest(text@),
        r.len() == 16,
{
    md5::compute(text).0.to_vec()
}

/// The lower-case hexadecimal digit of a value below sixteen.
pub open spec fn hex_digit(d: nat) -> char {
    if d < 10 { (d + 48) as char } else { (d + 87) as char }
}

/// Bytes in lower-case hexadecimal, two digits each, as `md5`'s `LowerHex` prints a digest.
pub open spec fn hex_text(bytes: Seq<u8>) -> Seq<char>
    decreases bytes.len(),
{
    if bytes.len() == 0 {
        Seq::empty()
    } else {
        hex_text(bytes.drop_last()) + seq![hex_digit((bytes.last() / 16) as nat), hex_digit((bytes.last() % 16) as nat)]
    }
}

fn hex_digit_of(d: u8) -> (c: char)
    requires
        d < 16,
    ensures
        c == hex_digit(d as nat),
{
    if d < 10 {
        ((48 + d) as u8) as char
    } else {
        ((87 + d) as u8) as char
    }
}

/// The bytes in lower-case hexadecimal.
pub fn hex_of(bytes: &Vec<u8>) -> (r: String)
    ensures
        r@ == hex_text(bytes@),
{
    let mut r = String::new();
    for i in 0..bytes.len()
        invariant
            r@ == hex_text(bytes@.subrange(0, i as int)),
    {
        let b = bytes[i];
        let ghost before = r@;
        crate::text::push_char(&mut r, hex_digit_of(b / 16));
        crate::text::push_char(&mut r, hex_digit_of(b % 16));
        proof {
            let sub = bytes@.subrange(0, i + 1);
            assert(sub.drop_last() =~= bytes@.subrange(0, i as int));
            assert(r@ =~= hex_text(sub));
        }
    }
    assert(bytes@.subrange(0, bytes.len() as int) =~= bytes@);
    r
}

impl RepositoryDto {
    /// The repository as the user interface shows it: identified by the digest of its path,
    /// named by the path's last component (`Unknown` where it has none).
    pub fn from(info: RepositoryInfo) -> (r: RepositoryDto)
        ensures
            r.id@ == hex_text(md5_digest(info.path@)),
            r.path == info.path,
            r.name@ == match path_file_name(info.path@) {
                Some(n) => n,
                None => "Unknown"@,
            },
            r.current_branch == info.current_branch,
            r.has_changes == info.has_changes,
            r.lfs_enabled == info.lfs_enabled,
    {
        let digest = md5_of(info.path.as_str());
        let id = hex_of(&digest);
        let name = match file_name(info.path.as_str()) {
            Some(n) => n,
            None => owned("Unknown"),
        };
        RepositoryDto {
            id,
            path: info.path,
            name,
            current_branch: info.current_branch,
            has_changes: info.has_changes,
            lfs_enabled: info.lfs_enabled,
        }
    }
}

/// The lock of the standard library, carried as an opaque value.
#[verifier::external_type_specification]
#[verifier::external_body]
#[verifier::reject_recursive_types(T)]
pub struct ExMutex<T: ?Sized>(Mutex<T>);

/// The Git backend that the user interface works through, shared behind a lock.
pub struct GitBackendState {
    /// The backend.
    pub manager: Mutex<GitBackendManager>,
}

/// What a lock of the standard library guards: the one backend put into it.
pub uninterp spec fn guarded_managers(lock: Mutex<GitBackendManager>) -> Seq<GitBackendManager>;

/// Puts the backend behind a lock (`Mutex::new`); the new lock guards exactly that backend,
/// which `Mutex::into_inner` would hand back. Whether the lock is held is not stated.
#[verifier::external_body]
fn lock_manager(manager: GitBackendManager) -> (r: Mutex<GitBackendManager>)
    ensures
        guarded_managers(r) == seq![manager],
{
    Mutex::new(manager)
}

/// A backend made with the default configuration and the default authentication, and with
/// no stored credentials.
pub open spec fn is_default_backend(m: GitBackendManager) -> bool {
    let c = m.spec_config();
    let a = m.spec_auth_provider();
    &&& c.default_branch@ == "main"@
    &&& c.lfs_enabled
    &&& string_views(c.lfs_patterns@) == default_lfs_patterns()
    &&& c.git_executable@ == "git"@
    &&& c.git_lfs_executable@ == "git-lfs"@
    &&& a.spec_config().use_credential_helper
    &&& a.spec_config().ssh_key_path is None
    &&& a.spec_config().use_ssh_agent
    &&& a.stored().len() == 0
}

/// The Git backend with the default configuration and authentication, behind a lock.
pub fn init_git_backend() -> (r: GitBackendState)
    ensures
        guarded_managers(r.manager).len() == 1,
        is_default_backend(guarded_managers(r.manager)[0]),
{
    let config = GitBackendConfig::default();
    let auth_config = AuthConfig::default();
    let manager = GitBackendManager::new(config, auth_config).unwrap();
    GitBackendState { manager: lock_manager(manager) }
}

} // verus!
