use postgirl::branches::{branch_summary, git_branch, parse_branch_list, parse_commit_info};
use postgirl::creation::{BranchCreateRequest, CreationAction, CreationEvent};
use postgirl::history::{HistoryEntry, HistoryLog};
use postgirl::naming::{BranchConfig, BranchPattern, FeatureType, SystemInfo};
use postgirl::negotiation::{
    attempts_exhausted_message, key_pair_paths, no_method_message, ssh_username, AuthCandidate,
    AuthNegotiation, CredentialOffer,
};
use postgirl::service::GitBranchService;
use postgirl::status::{
    classify_status, clone_outcome, commit_outcome, current_branch_label, init_outcome,
    EntryFlags, StatusEntry,
};

fn no_flags() -> EntryFlags {
    EntryFlags {
        index_new: false,
        index_modified: false,
        index_deleted: false,
        index_renamed: false,
        index_typechange: false,
        wt_new: false,
        wt_modified: false,
        wt_deleted: false,
        wt_renamed: false,
        wt_typechange: false,
    }
}

#[test]
fn negotiation_offers_agent_then_key_then_password() {
    // The remote accepts keys and passwords and rejects every credential; the
    // agent identity and the ed25519 key can be built.
    let mut n = AuthNegotiation::new(true);
    let offer = CredentialOffer { ssh_key: true, user_pass_plaintext: true };
    let first = n.next_candidates(offer).unwrap();
    assert_eq!(
        first,
        vec![
            AuthCandidate::SshAgent,
            AuthCandidate::KeyPair(0),
            AuthCandidate::KeyPair(1),
            AuthCandidate::KeyPair(2),
            AuthCandidate::Plaintext,
        ]
    );
    n.record_outcome(Some(AuthCandidate::SshAgent));
    assert!(n.tried_agent);
    assert!(!n.tried_key_files);
    assert!(!n.tried_plaintext);

    let second = n.next_candidates(offer).unwrap();
    assert_eq!(
        second,
        vec![
            AuthCandidate::KeyPair(0),
            AuthCandidate::KeyPair(1),
            AuthCandidate::KeyPair(2),
            AuthCandidate::Plaintext,
        ]
    );
    n.record_outcome(Some(AuthCandidate::KeyPair(0)));
    assert!(n.tried_key_files);
    assert!(!n.tried_plaintext);

    let third = n.next_candidates(offer).unwrap();
    assert_eq!(third, vec![AuthCandidate::Plaintext]);
    n.record_outcome(Some(AuthCandidate::Plaintext));

    // The fourth request is refused: no fourth credential is offered.
    assert!(n.next_candidates(offer).is_none());
    assert!(n.next_candidates(offer).is_none());
    assert_eq!(n.attempts, 5);
}

#[test]
fn negotiation_rejected_everywhere_makes_three_offers_at_most() {
    // A remote that only takes keys and rejects each one; every key builds.
    let mut n = AuthNegotiation::new(false);
    let offer = CredentialOffer { ssh_key: true, user_pass_plaintext: false };
    let mut answered = 0;
    for _ in 0..10 {
        match n.next_candidates(offer) {
            Some(c) => {
                answered += 1;
                n.record_outcome(c.first().copied());
            }
            None => break,
        }
    }
    assert_eq!(answered, 3);
}

#[test]
fn failed_agent_falls_through_to_keys() {
    // The agent cannot be built, so the first key pair is offered in the same request.
    let mut n = AuthNegotiation::new(true);
    let offer = CredentialOffer { ssh_key: true, user_pass_plaintext: true };
    n.next_candidates(offer).unwrap();
    n.record_outcome(Some(AuthCandidate::KeyPair(1)));
    assert!(n.tried_agent);
    assert!(n.tried_key_files);
    assert!(!n.tried_plaintext);
    assert_eq!(n.next_candidates(offer).unwrap(), vec![AuthCandidate::Plaintext]);
    n.record_outcome(None);
    assert!(n.tried_plaintext);
    assert_eq!(n.next_candidates(offer).unwrap(), vec![]);
}

#[test]
fn agent_only_on_the_first_request() {
    let mut n = AuthNegotiation::new(true);
    let https = CredentialOffer { ssh_key: false, user_pass_plaintext: true };
    assert_eq!(n.next_candidates(https).unwrap(), vec![AuthCandidate::Plaintext]);
    n.record_outcome(Some(AuthCandidate::Plaintext));
    let ssh = CredentialOffer { ssh_key: true, user_pass_plaintext: false };
    assert_eq!(
        n.next_candidates(ssh).unwrap(),
        vec![AuthCandidate::KeyPair(0), AuthCandidate::KeyPair(1), AuthCandidate::KeyPair(2)]
    );
}

#[test]
fn plaintext_needs_inline_credentials() {
    let mut n = AuthNegotiation::new(false);
    let https = CredentialOffer { ssh_key: false, user_pass_plaintext: true };
    assert_eq!(n.next_candidates(https).unwrap(), vec![]);
    n.record_outcome(None);
    assert!(n.tried_plaintext);
}

#[test]
fn negotiation_messages_and_paths() {
    assert_eq!(attempts_exhausted_message(), "Authentication failed after multiple attempts");
    assert_eq!(no_method_message(), "No authentication method available");
    assert_eq!(ssh_username(None), "git");
    assert_eq!(ssh_username(Some("deploy")), "deploy");
    assert_eq!(
        key_pair_paths("/home/u", 0),
        ("/home/u/.ssh/id_ed25519".to_string(), "/home/u/.ssh/id_ed25519.pub".to_string())
    );
    assert_eq!(key_pair_paths("/h", 1).0, "/h/.ssh/id_rsa");
    assert_eq!(key_pair_paths("/h", 2).1, "/h/.ssh/id_ecdsa.pub");
}

#[test]
fn status_classification_puts_each_file_in_its_bucket() {
    // committed.txt is unchanged and so not reported by the engine.
    let mut modified = no_flags();
    modified.wt_modified = true;
    let mut untracked = no_flags();
    untracked.wt_new = true;
    let entries = vec![
        StatusEntry { path: "changed.txt".to_string(), flags: modified },
        StatusEntry { path: "new.txt".to_string(), flags: untracked },
    ];
    let status = classify_status("main".to_string(), &entries);
    assert_eq!(status.current_branch, "main");
    assert!(status.staged_files.is_empty());
    assert_eq!(status.modified_files, vec!["changed.txt".to_string()]);
    assert_eq!(status.untracked_files, vec!["new.txt".to_string()]);
    assert!(!status.is_clean);
    assert_eq!(status.ahead, 0);
    assert_eq!(status.behind, 0);
}

#[test]
fn status_path_in_both_staged_and_modified() {
    let mut both = no_flags();
    both.index_modified = true;
    both.wt_modified = true;
    let mut renamed = no_flags();
    renamed.index_renamed = true;
    let entries = vec![
        StatusEntry { path: "a".to_string(), flags: both },
        StatusEntry { path: "b".to_string(), flags: renamed },
    ];
    let status = classify_status("HEAD".to_string(), &entries);
    assert_eq!(status.staged_files, vec!["a".to_string(), "b".to_string()]);
    assert_eq!(status.modified_files, vec!["a".to_string()]);
    assert!(status.untracked_files.is_empty());
    let clean = classify_status("main".to_string(), &vec![]);
    assert!(clean.is_clean);
}

#[test]
fn head_labels_and_outcomes() {
    assert_eq!(current_branch_label(true, Some("main")), "main");
    assert_eq!(current_branch_label(false, Some("main")), "HEAD");
    assert_eq!(current_branch_label(true, None), "HEAD");
    let ok = clone_outcome("/tmp/r", None);
    assert!(ok.success);
    assert_eq!(ok.message, "Repository cloned successfully");
    let bad = clone_outcome("/tmp/r", Some("auth"));
    assert!(!bad.success);
    assert_eq!(bad.path, "/tmp/r");
    assert_eq!(bad.message, "Failed to clone repository: auth");
    assert_eq!(init_outcome("/x", None).message, "Repository initialized successfully");
    assert_eq!(commit_outcome("/x", "first", None).message, "Committed changes: first");
    assert_eq!(commit_outcome("/x", "first", Some("boom")).message, "Failed to commit: boom");
}

#[test]
fn branch_summaries() {
    let b = branch_summary("main", Some("main"), Some(("0123456789abcdef", Some("init\n"))));
    assert!(b.is_current);
    assert!(!b.is_remote);
    assert_eq!(b.last_commit, "01234567");
    assert_eq!(b.last_commit_message, "init\n");
    let b = branch_summary("dev", None, None);
    assert!(!b.is_current);
    assert_eq!(b.last_commit, "unknown");
    assert_eq!(b.last_commit_message, "No commits");
}

#[test]
fn branch_listing_is_parsed() {
    let out = "main|*|\n  feature/x | |[ahead 1]\n\norigin/main| |\nremotes/up/dev||\nnobar\n";
    let lines = parse_branch_list(out);
    assert_eq!(lines.len(), 4);
    assert_eq!(lines[0].name, "main");
    assert!(lines[0].is_current);
    assert!(!lines[0].is_remote);
    assert_eq!(lines[1].name, "feature/x");
    assert!(!lines[1].is_current);
    assert!(lines[2].is_remote);
    assert!(lines[3].is_remote);
}

#[test]
fn commit_info_is_parsed() {
    let info = parse_commit_info(true, "abc123|Add thing|1700000000\n");
    assert_eq!(info.hash, "abc123");
    assert_eq!(info.message, "Add thing");
    assert_eq!(info.timestamp, Some(1700000000));
    let info = parse_commit_info(true, "abc|msg|soon");
    assert_eq!(info.timestamp, Some(0));
    let info = parse_commit_info(false, "abc|msg|1");
    assert_eq!(info.hash, "unknown");
    assert_eq!(info.message, "No commits");
    assert_eq!(info.timestamp, None);
    let info = parse_commit_info(true, "abc|msg");
    assert_eq!(info.hash, "unknown");
    let line = parse_branch_list("dev| |").pop().unwrap();
    let g = git_branch(line, parse_commit_info(true, "h|m|-5"));
    assert_eq!(g.last_commit_date, Some(-5));
    assert_eq!(g.last_commit_hash.as_deref(), Some("h"));
    assert!(g.ahead_count.is_none());
}

fn entry(name: &str, t: i64) -> HistoryEntry {
    HistoryEntry {
        branch_name: name.to_string(),
        pattern: Some(BranchPattern {
            workspace: "w".to_string(),
            username: "u".to_string(),
            machine: "m".to_string(),
            feature_type: FeatureType::Feature,
            description: None,
        }),
        created_at: t,
    }
}

#[test]
fn history_is_read_newest_first() {
    let mut log = HistoryLog::new();
    for i in 0..5 {
        log.record(entry(&format!("b{}", i), 100 + i));
    }
    let r = log.recent(Some(3));
    let names: Vec<&str> = r.iter().map(|e| e.branch_name.as_str()).collect();
    assert_eq!(names, vec!["b4", "b3", "b2"]);
    assert_eq!(log.recent(None).len(), 5);
    assert_eq!(log.recent(Some(-1)).len(), 5);
    assert_eq!(log.recent(Some(0)).len(), 0);
}

#[test]
fn history_orders_by_time_not_by_insertion() {
    let mut log = HistoryLog::new();
    log.record(entry("late", 300));
    log.record(entry("early", 100));
    log.record(entry("middle", 200));
    let names: Vec<String> = log.recent(None).into_iter().map(|e| e.branch_name).collect();
    assert_eq!(names, vec!["late", "middle", "early"]);
}

fn service() -> GitBranchService {
    GitBranchService::new(
        BranchConfig::default(),
        SystemInfo {
            username: "john.doe".to_string(),
            machine_name: "MacBook-Pro".to_string(),
            os_type: "macOS".to_string(),
        },
    )
}

fn request(auto_switch: bool) -> BranchCreateRequest {
    BranchCreateRequest {
        pattern: BranchPattern {
            workspace: "shop".to_string(),
            username: "john.doe".to_string(),
            machine: "MacBook-Pro".to_string(),
            feature_type: FeatureType::Bugfix,
            description: Some("Fix cart".to_string()),
        },
        base_branch: None,
        auto_switch,
    }
}

#[test]
fn creating_the_same_branch_twice() {
    let mut svc = service();
    let req = request(true);
    let mut existing: Vec<String> = vec!["main".to_string()];

    let mut results = Vec::new();
    for _ in 0..2 {
        let (mut creation, mut action) = svc.create_branch(&req).unwrap();
        loop {
            action = match action {
                CreationAction::CheckExists(name) => {
                    creation.advance(CreationEvent::Exists(existing.contains(&name)))
                }
                CreationAction::ReadCurrentBranch => {
                    creation.advance(CreationEvent::CurrentBranch("main".to_string()))
                }
                CreationAction::CreateBranch(name, base) => {
                    assert_eq!(base, "main");
                    existing.push(name);
                    creation.advance(CreationEvent::Created(None))
                }
                CreationAction::CheckoutBase(_) => creation.advance(CreationEvent::SwitchedBack(true)),
                CreationAction::RecordHistory(name) => {
                    svc.save_branch_creation(name, req.pattern.duplicate(), 1000);
                    creation.advance(CreationEvent::Recorded)
                }
                CreationAction::Finish(result) => {
                    results.push(result);
                    break;
                }
            };
        }
    }
    let name = "shop/john-doe-macbook-pro/bugfix-fix-cart";
    assert_eq!(results[0].branch_name, name);
    assert!(results[0].created);
    assert!(results[0].switched);
    assert_eq!(results[0].message, format!("Created and switched to branch '{}'", name));
    assert!(!results[1].created);
    assert!(!results[1].switched);
    assert_eq!(results[1].message, format!("Branch '{}' already exists", name));
    assert_eq!(svc.get_branch_history(None).len(), 1);
}

#[test]
fn creation_without_switch_and_failures() {
    let svc = service();
    let mut req = request(false);
    req.base_branch = Some("develop".to_string());
    let (mut c, a) = svc.create_branch(&req).unwrap();
    assert!(matches!(a, CreationAction::CheckExists(_)));
    assert!(matches!(c.advance(CreationEvent::Exists(false)), CreationAction::ReadCurrentBranch));
    match c.advance(CreationEvent::CurrentBranch("main".to_string())) {
        CreationAction::CreateBranch(_, base) => assert_eq!(base, "develop"),
        _ => panic!("expected a create action"),
    }
    match c.advance(CreationEvent::Created(None)) {
        CreationAction::CheckoutBase(base) => assert_eq!(base, "develop"),
        _ => panic!("expected a checkout action"),
    }
    assert!(matches!(c.advance(CreationEvent::SwitchedBack(true)), CreationAction::RecordHistory(_)));
    match c.advance(CreationEvent::Recorded) {
        CreationAction::Finish(r) => {
            assert!(r.created);
            assert!(!r.switched);
            assert_eq!(
                r.message,
                "Created branch 'shop/john-doe-macbook-pro/bugfix-fix-cart' (stayed on 'develop')"
            );
        }
        _ => panic!("expected the end"),
    }

    let (mut c, _) = svc.create_branch(&req).unwrap();
    c.advance(CreationEvent::Exists(false));
    c.advance(CreationEvent::CurrentBranch("main".to_string()));
    match c.advance(CreationEvent::Created(Some("bad ref".to_string()))) {
        CreationAction::Finish(r) => {
            assert!(!r.created);
            assert_eq!(r.message, "Failed to create branch: bad ref");
        }
        _ => panic!("expected the end"),
    }
    // A finished creation keeps its result.
    match c.advance(CreationEvent::Recorded) {
        CreationAction::Finish(r) => assert!(!r.created),
        _ => panic!("expected the end"),
    }
}

#[test]
fn switch_back_failure_leaves_caller_on_new_branch() {
    let svc = service();
    let (mut c, _) = svc.create_branch(&request(false)).unwrap();
    c.advance(CreationEvent::Exists(false));
    c.advance(CreationEvent::CurrentBranch("main".to_string()));
    c.advance(CreationEvent::Created(None));
    assert!(matches!(c.advance(CreationEvent::SwitchedBack(false)), CreationAction::RecordHistory(_)));
    match c.advance(CreationEvent::Recorded) {
        CreationAction::Finish(r) => {
            assert!(r.created);
            assert!(r.switched);
        }
        _ => panic!("expected the end"),
    }
}

#[test]
fn suggestions_cover_allowed_types() {
    let mut svc = service();
    let s = svc.get_suggested_branches("Shop");
    assert_eq!(s.len(), 6);
    assert_eq!(s[0], (FeatureType::Feature, "shop/john-doe-macbook-pro/feature".to_string()));
    assert_eq!(s[5], (FeatureType::Documentation, "shop/john-doe-macbook-pro/docs".to_string()));
    let mut config = BranchConfig::default();
    config.allowed_feature_types = vec![FeatureType::Hotfix];
    config.branch_prefix_pattern = "{feature}/{workspace}".to_string();
    svc.update_config(config);
    assert_eq!(svc.get_system_info().username, "john.doe");
    assert_eq!(svc.get_suggested_branches("Shop"), vec![(FeatureType::Hotfix, "hotfix/shop".to_string())]);
    // A workspace name that sanitises to nothing leaves a trailing slash only
    // where the template ends with it.
    let mut config = BranchConfig::default();
    config.branch_prefix_pattern = "{workspace}-x".to_string();
    svc.update_config(config);
    assert!(svc.get_suggested_branches("!!!").is_empty());
}

#[test]
fn history_skips_unreadable_patterns() {
    let mut log = HistoryLog::new();
    log.record(entry("a", 1));
    log.record(HistoryEntry { branch_name: "b".to_string(), pattern: None, created_at: 2 });
    let svc = GitBranchService { generator: service().generator, history: log };
    let h = svc.get_branch_history(Some(2));
    assert_eq!(h.len(), 1);
    assert_eq!(h[0].branch_name, "a");
}
