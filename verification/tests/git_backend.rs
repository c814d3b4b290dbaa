use implexa::git_backend::{AuthConfig, GitBackendConfig, GitBackendError, GitBackendManager, HookType, ConflictStrategy};
use implexa::git_backend::auth::AuthProvider;
use implexa::git_backend::auth::CredentialPlan;
use implexa::git_backend::Credentials;
use implexa::git_backend::hook::{hook_file_name, hook_path, script_with_shebang, workflow_to_script, default_plm_hooks, Workflow, WorkflowStep};
use implexa::git_backend::conflict::{
    resolve_markers, resolve_union_text, resolve_bom_text, BomConflictStrategy, MarkerResolution, ConflictPaths,
    find_conflict, conflict_action, ConflictAction, conflict_file_path, get_conflicted_files, no_conflict_for,
    missing_conflict_file,
};
use implexa::git_backend::lfs::{attributes_enable_lfs, parse_tracked_patterns, tracking_output_readable, lfs_sizes_fit, parse_lfs_object_stats, lfs_status};
use implexa::git_backend::metadata::{commit_message_with_metadata, get_commit_metadata, metadata_json_of, Metadata};
use implexa::git_backend::operation::{commit_path, merge_step, MergeStep, merge_message, conflicted_files, ui_commit_result, merge_completed, merge_conflicted, unsupported_merge};
use implexa::git_backend::repository::{
    plm_directory_paths, current_branch_name, has_worktree_changes, WorktreeStatus, ui_status, work_dir_of,
    sparse_checkout_set_args, GITATTRIBUTES_CONTENT,
};

fn message(e: GitBackendError) -> String {
    e.to_string()
}

#[test]
fn test_git_backend_manager_creation() {
    let config = GitBackendConfig::default();
    let auth_config = AuthConfig::default();

    let manager = GitBackendManager::new(config, auth_config);
    assert!(manager.is_ok());
}

#[test]
fn default_configuration() {
    let config = GitBackendConfig::default();
    assert_eq!(config.default_branch, "main");
    assert!(config.lfs_enabled);
    assert_eq!(config.lfs_patterns.len(), 8);
    assert_eq!(config.lfs_patterns[0], "*.bin");
    assert_eq!(config.git_lfs_executable, "git-lfs");
    let manager = GitBackendManager::new(config, AuthConfig::default()).unwrap();
    assert_eq!(manager.config().default_branch, "main");
}

#[test]
fn error_messages() {
    assert_eq!(message(GitBackendError::AuthError("denied".to_string())), "Auth error: denied");
    assert_eq!(message(GitBackendError::Other("x".to_string())), "Other error: x");
}

#[test]
fn credentials_are_missing_without_a_store() {
    let provider = AuthProvider::new(AuthConfig::default()).unwrap();
    match provider.get_credentials("https://example.com/repo.git") {
        Err(e) => assert_eq!(e.to_string(), "Auth error: No credentials found for URL: https://example.com/repo.git"),
        Ok(_) => panic!("credentials were found"),
    }
}

#[test]
fn hooks_have_git_names() {
    assert_eq!(hook_file_name(HookType::PreMerge), "pre-merge-commit");
    assert_eq!(hook_file_name(HookType::PostReferenceUpdate), "post-reference-update");
    assert_eq!(hook_path("/r/.git", HookType::PostCommit), "/r/.git/hooks/post-commit");
    let hooks = default_plm_hooks();
    assert_eq!(hooks.len(), 6);
    assert_eq!(hooks[0].0, HookType::PreCommit);
    assert!(hooks[0].1.starts_with("#!/bin/sh\n#\n# Implexa pre-commit hook"));
    assert_eq!(hooks[5].0, HookType::PostCheckout);
}

#[test]
fn shebang_is_added_once() {
    assert_eq!(script_with_shebang("echo hi"), "#!/bin/sh\necho hi");
    assert_eq!(script_with_shebang("#!/bin/bash\necho hi"), "#!/bin/bash\necho hi");
}

#[test]
fn workflow_script() {
    let w = Workflow {
        name: "Check".to_string(),
        description: Some("Checks things".to_string()),
        steps: vec![
            WorkflowStep { name: "Lint".to_string(), command: "make lint".to_string() },
            WorkflowStep { name: "Test".to_string(), command: "make test".to_string() },
        ],
    };
    let expected = "#!/bin/sh\n\n# Workflow: Check\n# Description: Checks things\n\n\
# Step 1: Lint\nmake lint\n\nif [ $? -ne 0 ]; then\n  echo \"Error in step 1: Lint\"\n  exit 1\nfi\n\n\
# Step 2: Test\nmake test\n\nif [ $? -ne 0 ]; then\n  echo \"Error in step 2: Test\"\n  exit 1\nfi\n\n\
echo \"Workflow 'Check' completed successfully\"\nexit 0\n";
    assert_eq!(workflow_to_script("/r/.git", &w).unwrap(), expected);
    let bare = Workflow { name: "Empty".to_string(), description: None, steps: vec![] };
    assert_eq!(
        workflow_to_script("/r/.git", &bare).unwrap(),
        "#!/bin/sh\n\n# Workflow: Empty\n\necho \"Workflow 'Empty' completed successfully\"\nexit 0\n"
    );
    match workflow_to_script("/", &bare) {
        Err(e) => assert_eq!(e.to_string(), "Repository error: Repository path has no parent"),
        Ok(_) => panic!("a root directory has no parent"),
    }
}

const CONFLICTED: &str = "a\n<<<<<<< HEAD\nours\n=======\ntheirs\n>>>>>>> branch\nb\n";

#[test]
fn union_keeps_both_sides() {
    assert_eq!(resolve_union_text(CONFLICTED), "a\nours\ntheirs\nb\n");
    assert_eq!(resolve_markers(MarkerResolution::Union, "x\r\ny"), "x\ny\n");
}

#[test]
fn bom_strategies() {
    assert_eq!(resolve_bom_text(BomConflictStrategy::PreferOurs, CONFLICTED), "a\nours\nb\n");
    assert_eq!(resolve_bom_text(BomConflictStrategy::PreferTheirs, CONFLICTED), "a\ntheirs\nb\n");
    assert_eq!(
        resolve_bom_text(BomConflictStrategy::PreferTheirs, "a\n<<<<<<< HEAD\no\n=======\nt\n>>>>>>> b\nz\n"),
        "a\nt\nz\n"
    );
    let empty_ours = "a\n<<<<<<< HEAD\n=======\nt\n>>>>>>> b\nz\n";
    assert_eq!(resolve_bom_text(BomConflictStrategy::PreferOurs, empty_ours), "a\nz\n");
    assert_eq!(resolve_union_text(empty_ours), "a\nt\nz\n");
    assert_eq!(
        resolve_bom_text(BomConflictStrategy::MergeQuantities, CONFLICTED),
        "a\n# BEGIN MERGED BOM ENTRIES\n# OUR VERSION:\nours\n# THEIR VERSION:\ntheirs\n# END MERGED BOM ENTRIES\nb\n"
    );
}

#[test]
fn text_without_markers_is_unchanged() {
    assert_eq!(resolve_union_text("one\ntwo\n"), "one\ntwo\n");
    assert_eq!(resolve_bom_text(BomConflictStrategy::PreferOurs, "one\ntwo\n"), "one\ntwo\n");
    assert_eq!(resolve_bom_text(BomConflictStrategy::PreferTheirs, "one\ntwo\n"), "one\ntwo\n");
}

#[test]
fn conflict_entries_are_matched_by_their_first_side() {
    let conflicts = vec![
        ConflictPaths { our: Some("a.txt".to_string()), their: Some("b.txt".to_string()), ancestor: None },
        ConflictPaths { our: None, their: Some("b.txt".to_string()), ancestor: None },
    ];
    assert_eq!(find_conflict(&conflicts, "b.txt"), Some(1));
    assert_eq!(find_conflict(&conflicts, "a.txt"), Some(0));
    assert_eq!(find_conflict(&conflicts, "c.txt"), None);
    assert_eq!(conflict_action(ConflictStrategy::Ours, false, true), ConflictAction::RemoveFile);
    assert_eq!(conflict_action(ConflictStrategy::Theirs, false, true), ConflictAction::TakeTheirs);
    assert_eq!(conflict_action(ConflictStrategy::Union, false, false), ConflictAction::Union);
    assert_eq!(conflict_file_path("/r", "x/y.txt"), "/r/x/y.txt");
    assert_eq!(conflict_file_path("/r", "/abs.txt"), "/abs.txt");
    assert_eq!(no_conflict_for("/r/x").to_string(), "Conflict error: No conflict found for file /r/x");
    assert_eq!(missing_conflict_file("/r/x").to_string(), "Conflict error: File /r/x does not exist");
}

#[test]
fn conflicted_files_follow_the_index() {
    let entries = vec!["a".to_string(), "".to_string(), "b".to_string(), "a".to_string()];
    let ours = vec!["a".to_string()];
    assert_eq!(get_conflicted_files(true, &entries, &ours), vec!["a".to_string(), "a".to_string()]);
    assert!(get_conflicted_files(false, &entries, &ours).is_empty());
    assert_eq!(conflicted_files(&entries, &vec!["b".to_string()]), vec!["b".to_string()]);
}

#[test]
fn lfs_output_is_read() {
    assert!(attributes_enable_lfs("*.pdf filter=lfs diff=lfs merge=lfs -text\n"));
    assert!(!attributes_enable_lfs("*.pdf binary\n"));
    let out = "Listing tracked patterns\nTracking \"*.pdf\" through .gitattributes\nTracking *.png through .gitattributes\n";
    assert!(tracking_output_readable(out));
    assert_eq!(parse_tracked_patterns(out), vec!["*.pdf".to_string(), "*.png".to_string()]);
    let sizes = "abc123 - big.bin (2k)\nabc124 * x.pdf\ndef 10 y.stl\n";
    assert!(lfs_sizes_fit(sizes));
    assert_eq!(parse_lfs_object_stats(sizes), (3, 10));
    let k = "id 2k file\nid 3m file\n";
    assert_eq!(parse_lfs_object_stats(k), (2, 2 * 1024 + 3 * 1048576));
    let off = lfs_status(None);
    assert!(!off.enabled && off.tracked_patterns.is_empty() && off.object_count == 0);
    let on = lfs_status(Some((vec!["*.pdf".to_string()], 2, 7)));
    assert!(on.enabled);
    assert_eq!(on.total_size, 7);
}

#[test]
fn metadata_round_trip() {
    let md = Metadata { properties: vec![("part".to_string(), "EL-RES-10001".to_string())] };
    let msg = commit_message_with_metadata("Add resistor", &md).unwrap();
    assert_eq!(msg, "Add resistor\n\nPLM-Metadata: {\"part\":\"EL-RES-10001\"}");
    assert_eq!(metadata_json_of(&msg), Some("{\"part\":\"EL-RES-10001\"}".to_string()));
    let back = get_commit_metadata(Some(&msg)).unwrap();
    assert_eq!(back.properties, vec![("part".to_string(), "EL-RES-10001".to_string())]);
    assert!(get_commit_metadata(Some("plain message")).unwrap().properties.is_empty());
    assert!(get_commit_metadata(Some("m\n\nPLM-Metadata: not json")).unwrap().properties.is_empty());
    match get_commit_metadata(None) {
        Err(e) => assert_eq!(e.to_string(), "Other error: Commit message is not valid UTF-8"),
        Ok(_) => panic!("a message that is not UTF-8 has no metadata"),
    }
}

#[test]
fn commit_paths() {
    assert_eq!(commit_path("/repo/.git", "/repo/a/./b.txt").unwrap(), "a/b.txt");
    assert_eq!(commit_path("/repo/.git", "a/../b.txt").unwrap(), "b.txt");
    match commit_path("/repo/.git", "/other/x.txt") {
        Err(e) => assert_eq!(e.to_string(), "Operation error: File /other/x.txt is not in the repository"),
        Ok(_) => panic!("a file outside the repository was accepted"),
    }
    assert!(commit_path("/", "x").is_err());
}

#[test]
fn merges() {
    assert_eq!(merge_step(true, true, true), MergeStep::UpToDate);
    assert_eq!(merge_step(false, true, true), MergeStep::FastForward);
    assert_eq!(merge_step(false, false, true), MergeStep::Normal);
    assert_eq!(merge_step(false, false, false), MergeStep::Unsupported);
    assert_eq!(merge_message("feature", Some("main")), "Merge branch 'feature' into main");
    assert_eq!(merge_message("feature", None), "Merge branch 'feature' into HEAD");
    let done = merge_completed("abc".to_string());
    assert!(done.success && !done.has_conflicts && done.commit_id == Some("abc".to_string()));
    let stuck = merge_conflicted(vec!["x".to_string()]);
    assert!(!stuck.success && stuck.has_conflicts && stuck.commit_id.is_none());
    assert_eq!(unsupported_merge("f").to_string(), "Operation error: Unsupported merge type for branch f");
}

#[test]
fn ui_commit_reports() {
    let ok = ui_commit_result(Ok("abc".to_string()));
    assert!(ok.success);
    assert_eq!(ok.commit_id, Some("abc".to_string()));
    let failed = ui_commit_result(Err(GitBackendError::GitError("no index".to_string())));
    assert!(!failed.success);
    assert_eq!(failed.error_message, Some("Git error: no index".to_string()));
}

#[test]
fn repository_layout() {
    let dirs = plm_directory_paths("/r");
    assert_eq!(dirs.len(), 12);
    assert_eq!(dirs[0], "/r/parts");
    assert_eq!(dirs[10], "/r/config/directory-templates/custom");
    assert!(GITATTRIBUTES_CONTENT.contains("*.stl filter=lfs diff=lfs merge=lfs -text"));
    assert!(attributes_enable_lfs(GITATTRIBUTES_CONTENT));
    assert_eq!(work_dir_of("/r/.git").unwrap(), "/r");
    assert_eq!(current_branch_name(true, Some("dev")), "dev");
    assert_eq!(current_branch_name(false, Some("dev")), "HEAD");
    assert_eq!(current_branch_name(true, None), "HEAD");
    assert_eq!(
        sparse_checkout_set_args(&vec!["parts/EL".to_string()]),
        vec!["sparse-checkout".to_string(), "set".to_string(), "parts/EL".to_string()]
    );
}

#[test]
fn status_for_the_user_interface() {
    let clean = WorktreeStatus { new: false, modified: false, deleted: false, typechange: false, renamed: false };
    let modified = WorktreeStatus { modified: true, ..clean };
    let new = WorktreeStatus { new: true, ..clean };
    assert!(!has_worktree_changes(&vec![clean, clean]));
    assert!(has_worktree_changes(&vec![clean, new]));
    let entries = vec![("a".to_string(), modified), ("b".to_string(), new), ("c".to_string(), clean)];
    let s = ui_status("main".to_string(), true, &entries, vec![], vec!["v1".to_string()]);
    assert_eq!(s.modified_files, vec!["a".to_string()]);
    assert_eq!(s.untracked_files, vec!["b".to_string()]);
    assert_eq!(s.tags, vec!["v1".to_string()]);
}

#[test]
fn ssh_keys_are_offered_for_ssh_remotes() {
    let config = AuthConfig { use_credential_helper: false, ssh_key_path: Some("/k/id_rsa".to_string()), use_ssh_agent: false };
    let provider = AuthProvider::new(config).unwrap();
    match provider.get_credentials("git@example.com:team/repo.git") {
        Ok(Credentials::SshKey { username, public_key, private_key, passphrase }) => {
            assert_eq!(username, "git");
            assert_eq!(public_key, "/k/id_rsa.pub");
            assert_eq!(private_key, "/k/id_rsa");
            assert!(passphrase.is_none());
        }
        _ => panic!("no key was offered"),
    }
    assert!(provider.get_credentials("https://example.com/repo.git").is_err());
    match provider.plan_git2_credentials("git@example.com:team/repo.git", Some("me"), true, false, false) {
        Ok(CredentialPlan::SshKey { username, public_key, .. }) => {
            assert_eq!(username, "git");
            assert_eq!(public_key, Some("/k/id_rsa.pub".to_string()));
        }
        _ => panic!("no key plan"),
    }
    match provider.plan_git2_credentials("https://example.com/repo.git", None, false, true, true) {
        Ok(CredentialPlan::Default) => {}
        _ => panic!("the default credentials were not chosen"),
    }
}

#[test]
fn stored_credentials_are_found_until_cleared() {
    let mut provider = AuthProvider::new(AuthConfig::default()).unwrap();
    let token = Credentials::Token { username: "u".to_string(), token: "t".to_string() };
    let other = Credentials::Token { username: "v".to_string(), token: "w".to_string() };
    assert!(provider.get_credentials("https://h/r.git").is_err());
    assert!(provider.set_credentials("https://h/r.git", token).is_ok());
    assert!(provider.set_credentials("https://h/s.git", other).is_ok());
    match provider.get_credentials("https://h/r.git") {
        Ok(Credentials::Token { username, token }) => {
            assert_eq!(username, "u");
            assert_eq!(token, "t");
        }
        _ => panic!("the stored token was not found"),
    }
    let newer = Credentials::Token { username: "u2".to_string(), token: "t2".to_string() };
    assert!(provider.set_credentials("https://h/r.git", newer).is_ok());
    match provider.get_credentials("https://h/r.git") {
        Ok(Credentials::Token { username, .. }) => assert_eq!(username, "u2"),
        _ => panic!("the newer token was not found"),
    }
    assert!(provider.clear_credentials("https://h/r.git").is_ok());
    assert!(provider.get_credentials("https://h/r.git").is_err());
    assert!(provider.get_credentials("https://h/s.git").is_ok());
}

#[test]
fn a_configured_key_always_offers_its_public_key() {
    let config = AuthConfig { use_credential_helper: true, ssh_key_path: Some("/k/id_rsa".to_string()), use_ssh_agent: false };
    let provider = AuthProvider::new(config).unwrap();
    match provider.plan_git2_credentials("https://example.com/repo.git", None, true, false, false) {
        Ok(CredentialPlan::SshKey { username, public_key, private_key, passphrase }) => {
            assert_eq!(username, "git");
            assert_eq!(public_key, Some("/k/id_rsa.pub".to_string()));
            assert_eq!(private_key, "/k/id_rsa");
            assert!(passphrase.is_none());
        }
        _ => panic!("the configured key was not planned"),
    }
    let bare = AuthConfig { use_credential_helper: true, ssh_key_path: Some(String::new()), use_ssh_agent: false };
    let provider = AuthProvider::new(bare).unwrap();
    match provider.plan_git2_credentials("https://example.com/repo.git", None, true, false, false) {
        Ok(CredentialPlan::SshKey { public_key, .. }) => assert_eq!(public_key, Some(String::new())),
        _ => panic!("the configured key was not planned"),
    }
}

#[test]
fn both_sides_resolutions_follow_the_reader_of_the_original() {
    let empty_ours = "a\n<<<<<<< HEAD\n=======\nt\n>>>>>>> b\nz\n";
    assert_eq!(
        resolve_bom_text(BomConflictStrategy::MergeQuantities, empty_ours),
        "a\nt\n# BEGIN MERGED BOM ENTRIES\n# OUR VERSION:\n# THEIR VERSION:\n# END MERGED BOM ENTRIES\nz\n"
    );
    assert_eq!(resolve_union_text("<<<<<<< x\no\n>>>>>>> y\nz\n"), "o\n");
    assert_eq!(resolve_union_text("<<<<<<< x\n=======\nt\n"), "t\n");
}
