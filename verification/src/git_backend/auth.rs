//! Authentication: which credentials are used for a remote.

use vstd::prelude::*;
use vstd::string::StrSliceExecFns;
use crate::text::{has_prefix, chars_of, starts_with, owned, push_str};
use crate::paths::{with_extension, path_with_extension};
use super::{AuthConfig, Credentials, GitBackendError, copy_credentials};

verus! {

/// How a remote is to be authenticated, once credentials are chosen.
#[derive(Debug, Clone)]
pub enum CredentialPlan {
    /// An SSH key pair read from files.
    SshKey {
        /// User name.
        username: String,
        /// Path of the public key, when one is given.
        public_key: Option<String>,
        /// Path of the private key.
        private_key: String,
        /// Passphrase of the key.
        passphrase: Option<String>,
    },
    /// A key held by the SSH agent.
    SshAgent {
        /// User name.
        username: String,
    },
    /// The default credentials of the platform.
    Default,
    /// A user name and a password (or token) in plain text.
    UserPass {
        /// User name.
        username: String,
        /// Password or token.
        password: String,
    },
}

/// The plan describes an SSH key for `username` with public key `public` (none when empty),
/// private key `private` and passphrase `pass`.
pub open spec fn is_key_plan(
    p: CredentialPlan,
    username: Seq<char>,
    public: Seq<char>,
    private: Seq<char>,
    pass: Option<Seq<char>>,
) -> bool {
    p matches CredentialPlan::SshKey { username: u, public_key: pk, private_key: k, passphrase: pp }
        && u@ == username && (pk is None <==> public.len() == 0) && (pk matches Some(x) ==> x@ == public)
        && k@ == private && (pp is None <==> pass is None) && (pp matches Some(x) ==> pass == Some(x@))
}

/// The plan is the configured SSH key pair for user `username`, with the public key at
/// `public` always given, and no passphrase.
pub open spec fn is_configured_key_plan(p: CredentialPlan, username: Seq<char>, public: Seq<char>, private: Seq<char>) -> bool {
    match p {
        CredentialPlan::SshKey { username: u, public_key: pk, private_key: k, passphrase: pp } => {
            &&& u@ == username
            &&& pk is Some
            &&& pk->0@ == public
            &&& k@ == private
            &&& pp is None
        },
        _ => false,
    }
}

/// The outcome is an authentication error with message `m`.
pub open spec fn is_auth_error<T>(r: Result<T, GitBackendError>, m: Seq<char>) -> bool {
    r matches Err(GitBackendError::AuthError(x)) && x@ == m
}

/// The plan for credentials `c`, given which kinds the remote allows.
pub open spec fn plan_for(c: Credentials, r: Result<CredentialPlan, GitBackendError>, allow_ssh_key: bool, allow_user_pass: bool) -> bool {
    match c {
        Credentials::UserPass { username, password } => if allow_user_pass {
            r matches Ok(CredentialPlan::UserPass { username: u, password: p }) && u@ == username@ && p@ == password@
        } else {
            is_auth_error(r, "Userpass authentication not allowed"@)
        },
        Credentials::SshKey { username, public_key, private_key, passphrase } => if allow_ssh_key {
            r matches Ok(p) && is_key_plan(p, username@, public_key@, private_key@, match passphrase {
                Some(x) => Some(x@),
                None => None,
            })
        } else {
            is_auth_error(r, "SSH key authentication not allowed"@)
        },
        Credentials::Token { username, token } => if allow_user_pass {
            r matches Ok(CredentialPlan::UserPass { username: u, password: p }) && u@ == username@ && p@ == token@
        } else {
            is_auth_error(r, "Token authentication not allowed"@)
        },
    }
}

/// Provides credentials for remotes.
pub struct AuthProvider {
    config: AuthConfig,
    credentials: Vec<(String, Credentials)>,
}

/// The credentials stored for `url`, if any: the first entry under that URL.
pub open spec fn stored_for(stored: Seq<(Seq<char>, Credentials)>, url: Seq<char>) -> Option<Credentials>
    decreases stored.len(),
{
    if stored.len() == 0 {
        None
    } else if stored[0].0 == url {
        Some(stored[0].1)
    } else {
        stored_for(stored.drop_first(), url)
    }
}

/// The URL is reached over SSH.
pub open spec fn is_ssh_url(url: Seq<char>) -> bool {
    has_prefix(url, "git@"@) || has_prefix(url, "ssh://"@)
}

/// The message when no credentials are found.
pub open spec fn no_credentials_message(url: Seq<char>) -> Seq<char> {
    "No credentials found for URL: "@ + url
}

/// The credentials are an SSH key for user `git` whose private key is `private` and whose
/// public key is `public`, without a passphrase.
pub open spec fn is_git_ssh_key(c: Credentials, public: Seq<char>, private: Seq<char>) -> bool {
    c matches Credentials::SshKey { username, public_key, private_key, passphrase }
        && username@ == "git"@ && public_key@ == public && private_key@ == private && passphrase is None
}

impl AuthProvider {
    /// The configuration of the provider.
    pub closed spec fn spec_config(&self) -> AuthConfig {
        self.config
    }

    /// The stored credentials, by URL.
    pub closed spec fn stored(&self) -> Seq<(Seq<char>, Credentials)> {
        self.credentials@.map_values(|e: (String, Credentials)| (e.0@, e.1))
    }

    /// Creates a provider with no stored credentials; this always succeeds.
    pub fn new(config: AuthConfig) -> (r: Result<AuthProvider, GitBackendError>)
        ensures
            r matches Ok(p) && p.spec_config() == config && p.stored().len() == 0,
    {
        Ok(AuthProvider { config, credentials: Vec::new() })
    }

    /// The credentials to use for `url`.
    pub fn get_credentials(&self, url: &str) -> (r: Result<Credentials, GitBackendError>)
        ensures
            match stored_for(self.stored(), url@) {
                Some(c) => r == Ok::<Credentials, GitBackendError>(c),
                None => if self.spec_config().use_credential_helper || !is_ssh_url(url@)
                    || (self.spec_config().ssh_key_path is None && !self.spec_config().use_ssh_agent) {
                    r matches Err(GitBackendError::AuthError(m)) && m@ == no_credentials_message(url@)
                } else if self.spec_config().ssh_key_path is Some {
                    r matches Ok(c) && is_git_ssh_key(
                        c,
                        path_with_extension(self.spec_config().ssh_key_path->0@, "pub"@),
                        self.spec_config().ssh_key_path->0@,
                    )
                } else {
                    r matches Ok(c) && is_git_ssh_key(c, Seq::empty(), Seq::empty())
                },
            },
    {
        let mut i: usize = 0;
        assert(self.stored().skip(0) == self.stored());
        while i < self.credentials.len()
            invariant
                i <= self.credentials@.len(),
                stored_for(self.stored(), url@) == stored_for(self.stored().skip(i as int), url@),
            decreases self.credentials.len() - i,
        {
            let entry = &self.credentials[i];
            assert(self.stored().skip(i as int)[0] == (entry.0@, entry.1));
            assert(self.stored().skip(i as int).drop_first() == self.stored().skip(i + 1));
            if crate::text::str_eq(entry.0.as_str(), url) {
                return Ok(copy_credentials(&entry.1));
            }
            i = i + 1;
        }
        assert(self.stored().skip(i as int).len() == 0);
        let refusal = || -> (e: GitBackendError)
            ensures
                e matches GitBackendError::AuthError(m) && m@ == no_credentials_message(url@),
        {
            let mut m = owned("No credentials found for URL: ");
            push_str(&mut m, url);
            GitBackendError::AuthError(m)
        };
        if self.config.use_credential_helper {
            return Err(refusal());
        }
        let u = chars_of(url);
        let git_at = chars_of("git@");
        let ssh = chars_of("ssh://");
        if starts_with(&u, &git_at) || starts_with(&u, &ssh) {
            match &self.config.ssh_key_path {
                Some(p) => {
                    proof {
                        lemma_extension_has_no_separator();
                    }
                    let public_key = with_extension(p.as_str(), "pub");
                    return Ok(Credentials::SshKey {
                        username: owned("git"),
                        public_key,
                        private_key: p.clone(),
                        passphrase: None,
                    });
                },
                None => {},
            }
            if self.config.use_ssh_agent {
                return Ok(Credentials::SshKey {
                    username: owned("git"),
                    public_key: String::new(),
                    private_key: String::new(),
                    passphrase: None,
                });
            }
        }
        Err(refusal())
    }

    /// No credentials are found for `url`.
    pub open spec fn lookup_refused(&self, url: Seq<char>) -> bool {
        stored_for(self.stored(), url) is None && (self.spec_config().use_credential_helper || !is_ssh_url(url)
            || (self.spec_config().ssh_key_path is None && !self.spec_config().use_ssh_agent))
    }

    /// Chooses how to authenticate to `url`, given the user name in the URL and which kinds of
    /// credentials the remote allows: the credentials found for the URL, as far as the remote
    /// allows their kind; when none are found, a configured SSH key, then the SSH agent, then
    /// the platform's default credentials, as far as allowed.
    pub fn plan_git2_credentials(
        &self,
        url: &str,
        username_from_url: Option<&str>,
        allow_ssh_key: bool,
        allow_user_pass: bool,
        allow_default: bool,
    ) -> (r: Result<CredentialPlan, GitBackendError>)
        ensures
            ({
                let user = match username_from_url {
                    Some(u) => u@,
                    None => "git"@,
                };
                let key = self.spec_config().ssh_key_path;
                if self.lookup_refused(url@) {
                    if allow_ssh_key && key is Some {
                        r matches Ok(p) && is_configured_key_plan(p, user, path_with_extension(key->0@, "pub"@), key->0@)
                    } else if allow_ssh_key && self.spec_config().use_ssh_agent {
                        r matches Ok(CredentialPlan::SshAgent { username: u }) && u@ == user
                    } else if allow_default {
                        r matches Ok(CredentialPlan::Default)
                    } else {
                        is_auth_error(r, "No credentials available for URL: "@ + url@)
                    }
                } else {
                    match stored_for(self.stored(), url@) {
                        Some(c) => plan_for(c, r, allow_ssh_key, allow_user_pass),
                        None => if !allow_ssh_key {
                            is_auth_error(r, "SSH key authentication not allowed"@)
                        } else if key is Some {
                            r matches Ok(p) && is_key_plan(p, "git"@, path_with_extension(key->0@, "pub"@), key->0@, None)
                        } else {
                            r matches Ok(p) && is_key_plan(p, "git"@, Seq::empty(), Seq::empty(), None)
                        },
                    }
                }
            }),
    {
        let credentials = match self.get_credentials(url) {
            Ok(c) => c,
            Err(_) => {
                let user = match username_from_url {
                    Some(u) => owned(u),
                    None => owned("git"),
                };
                if allow_ssh_key {
                    match &self.config.ssh_key_path {
                        Some(p) => {
                            proof {
                                lemma_extension_has_no_separator();
                            }
                            let public_key = with_extension(p.as_str(), "pub");
                            return Ok(CredentialPlan::SshKey {
                                username: user,
                                public_key: Some(public_key),
                                private_key: p.clone(),
                                passphrase: None,
                            });
                        },
                        None => {},
                    }
                    if self.config.use_ssh_agent {
                        return Ok(CredentialPlan::SshAgent { username: user });
                    }
                }
                if allow_default {
                    return Ok(CredentialPlan::Default);
                }
                let mut m = owned("No credentials available for URL: ");
                push_str(&mut m, url);
                return Err(GitBackendError::AuthError(m));
            },
        };
        match credentials {
            Credentials::UserPass { username, password } => {
                if allow_user_pass {
                    Ok(CredentialPlan::UserPass { username, password })
                } else {
                    Err(GitBackendError::AuthError(owned("Userpass authentication not allowed")))
                }
            },
            Credentials::SshKey { username, public_key, private_key, passphrase } => {
                if allow_ssh_key {
                    let public = if public_key.as_str().unicode_len() == 0 { None } else { Some(public_key) };
                    Ok(CredentialPlan::SshKey { username, public_key: public, private_key, passphrase })
                } else {
                    Err(GitBackendError::AuthError(owned("SSH key authentication not allowed")))
                }
            },
            Credentials::Token { username, token } => {
                if allow_user_pass {
                    Ok(CredentialPlan::UserPass { username, password: token })
                } else {
                    Err(GitBackendError::AuthError(owned("Token authentication not allowed")))
                }
            },
        }
    }

    /// Removes every entry stored under `url`, keeping the others in order.
    fn remove_entries(&mut self, url: &str)
        ensures
            final(self).spec_config() == old(self).spec_config(),
            stored_for(final(self).stored(), url@) is None,
            forall|u: Seq<char>| u != url@ ==> #[trigger] stored_for(final(self).stored(), u)
                == stored_for(old(self).stored(), u),
    {
        let ghost original = self.stored();
        let mut i: usize = 0;
        while i < self.credentials.len()
            invariant
                i <= self.credentials@.len(),
                self.spec_config() == old(self).spec_config(),
                original == old(self).stored(),
                forall|j: int| 0 <= j < i ==> #[trigger] self.stored()[j].0 != url@,
                forall|u: Seq<char>| u != url@ ==> #[trigger] stored_for(self.stored(), u)
                    == stored_for(original, u),
            decreases self.credentials.len() - i,
        {
            if crate::text::str_eq(self.credentials[i].0.as_str(), url) {
                let ghost before = self.stored();
                let ghost idx = i as int;
                self.credentials.remove(i);
                proof {
                    assert(self.stored() =~= before.remove(idx));
                    assert forall|u: Seq<char>| u != url@ implies #[trigger] stored_for(self.stored(), u)
                        == stored_for(original, u) by {
                        lemma_stored_for_remove(before, idx, u);
                    }
                }
            } else {
                i = i + 1;
            }
        }
        proof {
            lemma_stored_for_absent(self.stored(), url@);
        }
    }

    /// Stores `credentials` for `url`, in place of any stored for it before; the credentials
    /// for other URLs stay as they were.
    pub fn set_credentials(&mut self, url: &str, credentials: Credentials) -> (r: Result<(), GitBackendError>)
        ensures
            r is Ok,
            final(self).spec_config() == old(self).spec_config(),
            stored_for(final(self).stored(), url@) == Some(credentials),
            forall|u: Seq<char>| u != url@ ==> #[trigger] stored_for(final(self).stored(), u)
                == stored_for(old(self).stored(), u),
    {
        self.remove_entries(url);
        let ghost before = self.stored();
        let entry = (owned(url), credentials);
        let ghost x = (entry.0@, entry.1);
        self.credentials.push(entry);
        proof {
            assert(self.stored() =~= before.push(x));
            lemma_stored_for_push(before, x, url@);
            assert forall|u: Seq<char>| u != url@ implies #[trigger] stored_for(self.stored(), u)
                == stored_for(old(self).stored(), u) by {
                lemma_stored_for_push(before, x, u);
            }
        }
        Ok(())
    }

    /// Forgets the credentials stored for `url`; those for other URLs stay as they were.
    pub fn clear_credentials(&mut self, url: &str) -> (r: Result<(), GitBackendError>)
        ensures
            r is Ok,
            final(self).spec_config() == old(self).spec_config(),
            stored_for(final(self).stored(), url@) is None,
            forall|u: Seq<char>| u != url@ ==> #[trigger] stored_for(final(self).stored(), u)
                == stored_for(old(self).stored(), u),
    {
        self.remove_entries(url);
        Ok(())
    }
}

/// The extension of a public key file holds no path separator.
proof fn lemma_extension_has_no_separator()
    ensures
        !"pub"@.contains('/'),
        !"pub"@.contains('\\'),
{
    reveal_strlit("pub");
    assert forall|i: int| 0 <= i < "pub"@.len() implies "pub"@[i] != '/' && "pub"@[i] != '\\' by {
        assert("pub"@ =~= seq!['p', 'u', 'b']);
    }
}

/// Adding an entry at the end changes the lookup of a URL only where nothing was stored for it.
proof fn lemma_stored_for_push(s: Seq<(Seq<char>, Credentials)>, x: (Seq<char>, Credentials), u: Seq<char>)
    ensures
        stored_for(s.push(x), u) == match stored_for(s, u) {
            Some(c) => Some(c),
            None => if x.0 == u { Some(x.1) } else { None },
        },
    decreases s.len(),
{
    if s.len() == 0 {
        assert(s.push(x)[0] == x);
        assert(s.push(x).drop_first() =~= Seq::<(Seq<char>, Credentials)>::empty());
        assert(stored_for(s.push(x).drop_first(), u) is None);
    } else {
        assert(s.push(x)[0] == s[0]);
        assert(s.push(x).drop_first() =~= s.drop_first().push(x));
        lemma_stored_for_push(s.drop_first(), x, u);
    }
}

/// Removing an entry stored under another URL leaves the lookup of `u` as it was.
proof fn lemma_stored_for_remove(s: Seq<(Seq<char>, Credentials)>, i: int, u: Seq<char>)
    requires
        0 <= i < s.len(),
        s[i].0 != u,
    ensures
        stored_for(s.remove(i), u) == stored_for(s, u),
    decreases i,
{
    if i == 0 {
        assert(s.remove(0) =~= s.drop_first());
    } else {
        assert(s.remove(i).drop_first() =~= s.drop_first().remove(i - 1));
        lemma_stored_for_remove(s.drop_first(), i - 1, u);
    }
}

/// Nothing is found for a URL under which no entry is stored.
proof fn lemma_stored_for_absent(s: Seq<(Seq<char>, Credentials)>, u: Seq<char>)
    requires
        forall|j: int| 0 <= j < s.len() ==> #[trigger] s[j].0 != u,
    ensures
        stored_for(s, u) is None,
    decreases s.len(),
{
    if s.len() > 0 {
        assert forall|j: int| 0 <= j < s.drop_first().len() implies #[trigger] s.drop_first()[j].0 != u by {
            assert(s.drop_first()[j] == s[j + 1]);
        }
        lemma_stored_for_absent(s.drop_first(), u);
    }
}

} // verus!
