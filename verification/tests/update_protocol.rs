use self_update::errors::ConfigIssue;
use self_update::errors::UpdateError;
use self_update::identity::Platform;
use self_update::identity::Quality;
use self_update::update::cleanup_verdict;
use self_update::update::update_step;
use self_update::update::validate_cli_is_good;
use self_update::update::ProcessOutput;
use self_update::update::Release;
use self_update::update::SelfUpdate;
use self_update::update::UpdateEvent;
use self_update::update::UpdateState;

fn resolved() -> SelfUpdate {
    SelfUpdate::new(
        Some("0123abcd".to_string()),
        Some("stable".to_string()),
        Some(Platform::LinuxX64),
    )
    .unwrap()
}

fn release(commit: &str) -> Release {
    Release { commit: commit.to_string(), download_url: "https://example.invalid/r".to_string() }
}

#[test]
fn new_resolves_a_full_identity() {
    let s = resolved();
    assert_eq!(s.commit, "0123abcd");
    assert_eq!(s.quality, Quality::Stable);
    assert_eq!(s.platform, Platform::LinuxX64);
}

#[test]
fn new_reports_each_missing_piece_distinctly() {
    let e = SelfUpdate::new(None, Some("stable".to_string()), Some(Platform::LinuxX64));
    assert!(matches!(e, Err(UpdateError::NotConfigured(ConfigIssue::MissingCommit))));

    let e = SelfUpdate::new(Some("c".to_string()), None, Some(Platform::LinuxX64));
    assert!(matches!(e, Err(UpdateError::NotConfigured(ConfigIssue::MissingQuality))));

    let e = SelfUpdate::new(
        Some("c".to_string()),
        Some("nightly".to_string()),
        Some(Platform::LinuxX64),
    );
    assert!(matches!(e, Err(UpdateError::NotConfigured(ConfigIssue::UnknownQuality))));

    let e = SelfUpdate::new(Some("c".to_string()), Some("stable".to_string()), None);
    assert!(matches!(e, Err(UpdateError::NotConfigured(ConfigIssue::UnknownPlatform))));
}

#[test]
fn up_to_date_iff_commits_match() {
    let s = resolved();
    assert!(s.is_up_to_date_with(&release("0123abcd")));
    assert!(!s.is_up_to_date_with(&release("ffffffff")));
    assert!(!s.is_up_to_date_with(&release("")));
    assert!(!s.is_up_to_date_with(&release("0123abc")));
}

#[test]
fn up_to_date_with_empty_commits() {
    let s = SelfUpdate::new(
        Some(String::new()),
        Some("stable".to_string()),
        Some(Platform::LinuxX64),
    )
    .unwrap();
    assert!(s.is_up_to_date_with(&release("")));
    assert!(!s.is_up_to_date_with(&release("x")));
}

#[test]
fn a_fully_successful_run_commits_the_update() {
    let st = UpdateState::AwaitTempDir;
    let st = update_step(st, UpdateEvent::TempDirReady(Ok("/tmp/upd".to_string())));
    match &st {
        UpdateState::AwaitStream { temp_dir } => assert_eq!(temp_dir, "/tmp/upd"),
        other => panic!("unexpected state: {:?}", state_name(other)),
    }
    let st = update_step(st, UpdateEvent::StreamOpened(Ok("rel.zip".to_string())));
    match &st {
        UpdateState::AwaitDownload { temp_dir, archive } => {
            assert_eq!(temp_dir, "/tmp/upd");
            assert_eq!(archive, "/tmp/upd/rel.zip");
        },
        other => panic!("unexpected state: {:?}", state_name(other)),
    }
    let st = update_step(st, UpdateEvent::Downloaded(Ok(())));
    assert!(matches!(st, UpdateState::AwaitTarget { .. }));
    let st = update_step(st, UpdateEvent::TargetResolved(Ok("/inst/code".to_string())));
    match &st {
        UpdateState::AwaitExtract { temp_dir, target, staging, archive, contents } => {
            assert_eq!(temp_dir, "/tmp/upd");
            assert_eq!(target, "/inst/code");
            assert_eq!(staging, "/inst/code..update");
            assert_eq!(archive, "/tmp/upd/rel.zip");
            assert_eq!(contents, "/tmp/upd/content");
        },
        other => panic!("unexpected state: {:?}", state_name(other)),
    }
    let st = update_step(st, UpdateEvent::Extracted(Ok(())));
    assert!(matches!(st, UpdateState::AwaitEntries { .. }));
    let st = update_step(
        st,
        UpdateEvent::EntriesListed(Ok(vec![Ok("/tmp/upd/content/code-new".to_string())])),
    );
    match &st {
        UpdateState::AwaitStaging { source, staging, .. } => {
            assert_eq!(source, "/tmp/upd/content/code-new");
            assert_eq!(staging, "/inst/code..update");
        },
        other => panic!("unexpected state: {:?}", state_name(other)),
    }
    let st = update_step(st, UpdateEvent::Staged(Ok(())));
    match &st {
        UpdateState::AwaitMetadata { target, staging, .. } => {
            assert_eq!(target, "/inst/code");
            assert_eq!(staging, "/inst/code..update");
        },
        other => panic!("unexpected state: {:?}", state_name(other)),
    }
    let st = update_step(st, UpdateEvent::MetadataCopied(Ok(())));
    assert!(matches!(st, UpdateState::AwaitValidation { .. }));
    let st = update_step(
        st,
        UpdateEvent::Validated(Ok(ProcessOutput {
            success: true,
            stdout: "1.2.3".to_string(),
            stderr: String::new(),
        })),
    );
    match &st {
        UpdateState::AwaitRetire { target, staging, retire_to } => {
            assert_eq!(target, "/inst/code");
            assert_eq!(staging, "/inst/code..update");
            assert_eq!(retire_to, "/tmp/upd/old-code-cli");
        },
        other => panic!("unexpected state: {:?}", state_name(other)),
    }
    let st = update_step(st, UpdateEvent::Retired(Ok(())));
    match &st {
        UpdateState::AwaitActivate { target, staging } => {
            assert_eq!(target, "/inst/code");
            assert_eq!(staging, "/inst/code..update");
        },
        other => panic!("unexpected state: {:?}", state_name(other)),
    }
    let st = update_step(st, UpdateEvent::Activated(Ok(())));
    assert!(matches!(st, UpdateState::Done));
}

fn state_name(s: &UpdateState) -> &'static str {
    match s {
        UpdateState::AwaitTempDir => "AwaitTempDir",
        UpdateState::AwaitStream { .. } => "AwaitStream",
        UpdateState::AwaitDownload { .. } => "AwaitDownload",
        UpdateState::AwaitTarget { .. } => "AwaitTarget",
        UpdateState::AwaitExtract { .. } => "AwaitExtract",
        UpdateState::AwaitEntries { .. } => "AwaitEntries",
        UpdateState::AwaitStaging { .. } => "AwaitStaging",
        UpdateState::AwaitMetadata { .. } => "AwaitMetadata",
        UpdateState::AwaitValidation { .. } => "AwaitValidation",
        UpdateState::AwaitRetire { .. } => "AwaitRetire",
        UpdateState::AwaitSentinelRetire { .. } => "AwaitSentinelRetire",
        UpdateState::AwaitActivate { .. } => "AwaitActivate",
        UpdateState::Done => "Done",
        UpdateState::Failed(_) => "Failed",
    }
}

fn await_entries() -> UpdateState {
    UpdateState::AwaitEntries {
        temp_dir: "/tmp/upd".to_string(),
        target: "/inst/code".to_string(),
        staging: "/inst/code..update".to_string(),
        contents: "/tmp/upd/content".to_string(),
    }
}

#[test]
fn an_empty_archive_is_a_corrupt_download() {
    let st = update_step(await_entries(), UpdateEvent::EntriesListed(Ok(vec![])));
    match st {
        UpdateState::Failed(UpdateError::CorruptDownload(m)) => {
            assert_eq!(m, "expected exactly one file in the update, got 0");
        },
        other => panic!("unexpected state: {:?}", state_name(&other)),
    }
}

#[test]
fn a_crowded_archive_is_a_corrupt_download() {
    let st = update_step(
        await_entries(),
        UpdateEvent::EntriesListed(Ok(vec![Ok("a".to_string()), Ok("b".to_string())])),
    );
    match st {
        UpdateState::Failed(UpdateError::CorruptDownload(m)) => {
            assert_eq!(m, "expected exactly one file in the update, got 2");
        },
        other => panic!("unexpected state: {:?}", state_name(&other)),
    }
}

#[test]
fn an_unreadable_entry_is_a_filesystem_error() {
    let st = update_step(
        await_entries(),
        UpdateEvent::EntriesListed(Ok(vec![Err("permission denied".to_string())])),
    );
    match st {
        UpdateState::Failed(UpdateError::Filesystem { context, cause }) => {
            assert_eq!(context, "error while reading an update file entry");
            assert_eq!(cause, "permission denied");
        },
        other => panic!("unexpected state: {:?}", state_name(&other)),
    }
}

#[test]
fn an_unlistable_directory_is_a_filesystem_error() {
    let st = update_step(await_entries(), UpdateEvent::EntriesListed(Err("gone".to_string())));
    match st {
        UpdateState::Failed(UpdateError::Filesystem { context, cause }) => {
            assert_eq!(context, "could not read the updated contents");
            assert_eq!(cause, "gone");
        },
        other => panic!("unexpected state: {:?}", state_name(&other)),
    }
}

#[test]
fn a_nonzero_self_check_carries_both_streams() {
    let r = validate_cli_is_good(Ok(ProcessOutput {
        success: false,
        stdout: "out text".to_string(),
        stderr: "err text".to_string(),
    }));
    match r {
        Err(UpdateError::CorruptDownload(m)) => {
            assert!(m.contains("out text"));
            assert!(m.contains("err text"));
            assert_eq!(
                m,
                "could not run the new binary, aborting. stdout:\n\nout text\n\nstderr:\n\nerr text"
            );
        },
        _ => panic!("expected a corrupt-download error"),
    }
}

#[test]
fn a_binary_that_cannot_spawn_is_a_corrupt_download() {
    let r = validate_cli_is_good(Err("no such file".to_string()));
    match r {
        Err(UpdateError::CorruptDownload(m)) => {
            assert_eq!(m, "could not run the new binary, aborting: no such file");
        },
        _ => panic!("expected a corrupt-download error"),
    }
}

#[test]
fn a_good_self_check_passes_validation() {
    let r = validate_cli_is_good(Ok(ProcessOutput {
        success: true,
        stdout: "1.0".to_string(),
        stderr: String::new(),
    }));
    assert!(r.is_ok());
}

fn await_retire() -> UpdateState {
    UpdateState::AwaitRetire {
        target: "/inst/code".to_string(),
        staging: "/inst/code..update".to_string(),
        retire_to: "/tmp/upd/old-code-cli".to_string(),
    }
}

#[test]
fn a_failed_primary_retirement_falls_back_to_the_sentinel() {
    let st = update_step(await_retire(), UpdateEvent::Retired(Err("cross-device".to_string())));
    match &st {
        UpdateState::AwaitSentinelRetire { target, staging, sentinel } => {
            assert_eq!(target, "/inst/code");
            assert_eq!(staging, "/inst/code..update");
            assert_eq!(sentinel, "/inst/code.atualizando cli");
        },
        other => panic!("unexpected state: {:?}", state_name(other)),
    }
    let st = update_step(st, UpdateEvent::SentinelRetired(Ok(())));
    assert!(matches!(st, UpdateState::AwaitActivate { .. }));
    let st = update_step(st, UpdateEvent::Activated(Ok(())));
    assert!(matches!(st, UpdateState::Done));
}

#[test]
fn a_failed_sentinel_retirement_is_fatal() {
    let st = update_step(await_retire(), UpdateEvent::Retired(Err("cross-device".to_string())));
    let st = update_step(st, UpdateEvent::SentinelRetired(Err("locked".to_string())));
    match st {
        UpdateState::Failed(UpdateError::Filesystem { context, cause }) => {
            assert_eq!(context, "failed to rename the old binary");
            assert_eq!(cause, "locked");
        },
        other => panic!("unexpected state: {:?}", state_name(&other)),
    }
}

#[test]
fn a_failed_activation_is_fatal() {
    let st = update_step(await_retire(), UpdateEvent::Retired(Ok(())));
    let st = update_step(st, UpdateEvent::Activated(Err("in use".to_string())));
    match st {
        UpdateState::Failed(UpdateError::Filesystem { context, cause }) => {
            assert_eq!(context, "failed to rename the newly installed binary");
            assert_eq!(cause, "in use");
        },
        other => panic!("unexpected state: {:?}", state_name(&other)),
    }
}

#[test]
fn transport_errors_pass_through_unchanged() {
    let st = UpdateState::AwaitStream { temp_dir: "/tmp/upd".to_string() };
    let st = update_step(
        st,
        UpdateEvent::StreamOpened(Err(UpdateError::Transport("connection reset".to_string()))),
    );
    match st {
        UpdateState::Failed(UpdateError::Transport(m)) => assert_eq!(m, "connection reset"),
        other => panic!("unexpected state: {:?}", state_name(&other)),
    }
}

#[test]
fn a_failed_temp_dir_is_a_filesystem_error() {
    let st = update_step(
        UpdateState::AwaitTempDir,
        UpdateEvent::TempDirReady(Err("read-only".to_string())),
    );
    match st {
        UpdateState::Failed(UpdateError::Filesystem { context, cause }) => {
            assert_eq!(context, "failed to create temporary directory");
            assert_eq!(cause, "read-only");
        },
        other => panic!("unexpected state: {:?}", state_name(&other)),
    }
}

#[test]
fn an_unanswered_request_leaves_the_state_alone() {
    let st = update_step(UpdateState::Done, UpdateEvent::Activated(Ok(())));
    assert!(matches!(st, UpdateState::Done));
    let st = update_step(
        UpdateState::AwaitTempDir,
        UpdateEvent::Downloaded(Ok(())),
    );
    assert!(matches!(st, UpdateState::AwaitTempDir));
}

#[test]
fn cleanup_reports_each_case() {
    assert!(cleanup_verdict(false, None).is_ok());
    assert!(cleanup_verdict(true, Some(Ok(()))).is_ok());
    assert_eq!(
        cleanup_verdict(true, Some(Err("held open".to_string()))),
        Err("held open".to_string())
    );
}

#[test]
fn an_unresolvable_executable_is_a_filesystem_error() {
    let st = UpdateState::AwaitTarget {
        temp_dir: "/tmp/upd".to_string(),
        archive: "/tmp/upd/rel.zip".to_string(),
    };
    let st = update_step(st, UpdateEvent::TargetResolved(Err("no proc entry".to_string())));
    match st {
        UpdateState::Failed(UpdateError::Filesystem { context, cause }) => {
            assert_eq!(context, "could not resolve the current executable");
            assert_eq!(cause, "no proc entry");
        },
        other => panic!("unexpected state: {:?}", state_name(&other)),
    }
}

#[test]
fn a_failed_staging_copy_is_a_filesystem_error() {
    let st = UpdateState::AwaitStaging {
        temp_dir: "/tmp/upd".to_string(),
        target: "/inst/code".to_string(),
        staging: "/inst/code..update".to_string(),
        source: "/tmp/upd/content/code-new".to_string(),
    };
    let st = update_step(st, UpdateEvent::Staged(Err("disk full".to_string())));
    match st {
        UpdateState::Failed(UpdateError::Filesystem { context, cause }) => {
            assert_eq!(context, "error copying the staging file");
            assert_eq!(cause, "disk full");
        },
        other => panic!("unexpected state: {:?}", state_name(&other)),
    }
}

#[test]
fn a_failed_metadata_copy_is_a_filesystem_error() {
    let st = UpdateState::AwaitMetadata {
        temp_dir: "/tmp/upd".to_string(),
        target: "/inst/code".to_string(),
        staging: "/inst/code..update".to_string(),
    };
    let st = update_step(st, UpdateEvent::MetadataCopied(Err("not permitted".to_string())));
    match st {
        UpdateState::Failed(UpdateError::Filesystem { context, cause }) => {
            assert_eq!(context, "failed to copy file permissions");
            assert_eq!(cause, "not permitted");
        },
        other => panic!("unexpected state: {:?}", state_name(&other)),
    }
}

#[test]
fn a_failed_self_check_aborts_before_any_rename() {
    let st = UpdateState::AwaitValidation {
        temp_dir: "/tmp/upd".to_string(),
        target: "/inst/code".to_string(),
        staging: "/inst/code..update".to_string(),
    };
    let st = update_step(
        st,
        UpdateEvent::Validated(Ok(ProcessOutput {
            success: false,
            stdout: String::new(),
            stderr: "wrong architecture".to_string(),
        })),
    );
    match st {
        UpdateState::Failed(UpdateError::CorruptDownload(m)) => {
            assert!(m.contains("wrong architecture"));
        },
        other => panic!("unexpected state: {:?}", state_name(&other)),
    }
}
