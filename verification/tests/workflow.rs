//! The workflow decisions: preflight checks, short-circuits, and the
//! running-instance guard.

use beans_rs::appvar::AppVarData;
use beans_rs::ctx::RunnerContext;
use beans_rs::error::BeansError;
use beans_rs::helper::{
    find_game_process, has_free_space, install_state, sml_has_free_space, InstallType,
    ProcessInfo,
};
use beans_rs::version::{RemotePatch, RemoteVersion, RemoteVersionResponse};
use beans_rs::workflows::{
    CleanWorkflow, InstallWorkflow, UninstallWorkflow, UpdateDecision, UpdateWorkflow,
    VerifyDecision, VerifyWorkflow,
};

fn remote_version(signature: Option<&str>, heal: Option<&str>) -> RemoteVersion {
    RemoteVersion {
        url: None,
        file: Some(String::from("of-latest.tar.zst")),
        pre_sz: Some(1000),
        post_sz: Some(2000),
        signature_url: signature.map(String::from),
        heal_url: heal.map(String::from),
    }
}

fn context(
    versions: Vec<(usize, RemoteVersion)>,
    patches: Vec<(usize, RemotePatch)>,
    current_version: Option<usize>,
) -> RunnerContext {
    RunnerContext {
        sourcemod_path: String::from("/home/user/sourcemods"),
        remote_version_list: RemoteVersionResponse { versions, patches },
        current_version,
        appvar: AppVarData::get(),
    }
}

fn patch(file: &str, tempreq: usize) -> RemotePatch {
    RemotePatch {
        url: String::from("https://beans.adastral.net/patches"),
        file: String::from(file),
        tempreq,
    }
}

#[test]
fn free_space_check_is_strictly_greater() {
    // available == required -> insufficient; one byte more -> sufficient
    assert!(!has_free_space(100, 100));
    assert!(has_free_space(101, 100));
    assert!(!sml_has_free_space(100, 100));
    assert!(sml_has_free_space(101, 100));
}

#[test]
fn install_preflight_space_boundary() {
    let v = remote_version(None, None);
    // required space is 1000 + 2000
    let r = InstallWorkflow::install_preflight(None, 3, &v, 3000, String::from("/tmp"));
    assert!(matches!(r, Err(BeansError::FreeSpaceCheckFailure { .. })));
    let r = InstallWorkflow::install_preflight(None, 3, &v, 3001, String::from("/tmp"));
    assert_eq!(r.expect("one spare byte suffices"), 3000);
}

#[test]
fn install_preflight_short_circuits_when_already_latest() {
    let v = remote_version(None, None);
    let r = InstallWorkflow::install_preflight(Some(3), 3, &v, 1 << 40, String::from("/tmp"));
    assert!(matches!(
        r,
        Err(BeansError::LatestVersionAlreadyInstalled {
            current: 3,
            latest: 3
        })
    ));
}

#[test]
fn fresh_install_skips_reinstall_prompt() {
    // no marker files at all: not installed, and no confirmation prompt
    let state = install_state(false, false, false);
    assert_eq!(state, InstallType::NotInstalled);
    assert!(!InstallWorkflow::needs_reinstall_confirm(None, false));
    assert!(InstallWorkflow::needs_reinstall_confirm(Some(2), false));
    assert!(!InstallWorkflow::needs_reinstall_confirm(Some(2), true));
}

#[test]
fn install_state_ordering() {
    assert_eq!(install_state(true, true, true), InstallType::Adastral);
    assert_eq!(install_state(false, true, true), InstallType::OtherSource);
    assert_eq!(install_state(false, false, true), InstallType::OtherSourceManual);
    // the coarsened equality: a foreign manual install counts as a
    // foreign install, but not the other way around
    assert!(InstallType::OtherSource == InstallType::OtherSourceManual);
    assert!(InstallType::OtherSourceManual != InstallType::OtherSource);
}

#[test]
fn confirm_input_parsing() {
    assert_eq!(InstallWorkflow::parse_confirm_input(""), Some(true));
    assert_eq!(InstallWorkflow::parse_confirm_input("y"), Some(true));
    assert_eq!(InstallWorkflow::parse_confirm_input("YES"), Some(true));
    assert_eq!(InstallWorkflow::parse_confirm_input("n"), Some(false));
    assert_eq!(InstallWorkflow::parse_confirm_input("No"), Some(false));
    assert_eq!(InstallWorkflow::parse_confirm_input("maybe"), None);
}

#[test]
fn update_reports_no_patch_available_without_changes() {
    // manifest {versions: {1, 3}, patches: {}}, current = 1
    let ctx = context(
        vec![
            (1, remote_version(Some("sig/1"), Some("heal/1"))),
            (3, remote_version(Some("sig/3"), Some("heal/3"))),
        ],
        vec![],
        Some(1),
    );
    let d = UpdateWorkflow::plan(&ctx, 1 << 40).expect("an expected, non-fatal outcome");
    assert!(matches!(d, UpdateDecision::NoPatchAvailable));
}

#[test]
fn update_not_installed_short_circuit() {
    let ctx = context(vec![(3, remote_version(None, None))], vec![], None);
    let d = UpdateWorkflow::plan(&ctx, 1 << 40).expect("an expected, non-fatal outcome");
    assert!(matches!(d, UpdateDecision::NotInstalled));
}

#[test]
fn update_unknown_current_version_is_fatal() {
    let ctx = context(vec![(3, remote_version(None, None))], vec![], Some(2));
    assert!(matches!(
        UpdateWorkflow::plan(&ctx, 1 << 40),
        Err(BeansError::RemoteVersionNotFound { version: Some(2) })
    ));
}

#[test]
fn update_missing_remote_files_short_circuit() {
    let ctx = context(
        vec![
            (1, remote_version(Some("sig/1"), None)),
            (3, remote_version(Some("sig/3"), Some("heal/3"))),
        ],
        vec![(9, patch("of-1to3.pwr", 10))],
        Some(1),
    );
    let d = UpdateWorkflow::plan(&ctx, 1 << 40).expect("an expected, non-fatal outcome");
    assert!(matches!(d, UpdateDecision::MissingRemoteFiles));
}

#[test]
fn update_temp_space_boundary() {
    let ctx = context(
        vec![
            (1, remote_version(Some("sig/1"), Some("heal/1"))),
            (3, remote_version(None, None)),
        ],
        vec![(9, patch("of-1to3.pwr", 500))],
        Some(1),
    );
    let d = UpdateWorkflow::plan(&ctx, 500).expect("an expected, non-fatal outcome");
    assert!(matches!(
        d,
        UpdateDecision::InsufficientTempSpace { required: 500 }
    ));
    let d = UpdateWorkflow::plan(&ctx, 501).expect("the update may proceed");
    match d {
        UpdateDecision::Proceed {
            signature_url,
            heal_url,
            patch_file,
            tempreq,
        } => {
            assert_eq!(signature_url, "https://beans.adastral.net/sig/1");
            assert_eq!(heal_url, "https://beans.adastral.net/heal/1");
            assert_eq!(patch_file, "of-1to3.pwr");
            assert_eq!(tempreq, 500);
        }
        other => panic!("expected Proceed, got {:?}", other),
    }
}

#[test]
fn verify_needs_both_remote_urls() {
    let ctx = context(
        vec![(1, remote_version(Some("sig/1"), None))],
        vec![],
        Some(1),
    );
    let d = VerifyWorkflow::plan(&ctx).expect("an expected, non-fatal outcome");
    assert!(matches!(d, VerifyDecision::MissingRemoteFiles));

    let ctx = context(
        vec![(1, remote_version(Some("sig/1"), Some("heal/1")))],
        vec![],
        Some(1),
    );
    match VerifyWorkflow::plan(&ctx).expect("the verify may proceed") {
        VerifyDecision::Proceed {
            signature_url,
            heal_url,
        } => {
            assert_eq!(signature_url, "https://beans.adastral.net/sig/1");
            assert_eq!(heal_url, "https://beans.adastral.net/heal/1");
        }
        other => panic!("expected Proceed, got {:?}", other),
    }
}

#[test]
fn verify_not_installed_short_circuit() {
    let ctx = context(vec![(1, remote_version(None, None))], vec![], None);
    let d = VerifyWorkflow::plan(&ctx).expect("an expected, non-fatal outcome");
    assert!(matches!(d, VerifyDecision::NotInstalled));
}

#[test]
fn uninstall_aborts_while_the_game_is_running() {
    // a process whose command line uses the install path is running:
    // the workflow fails with still-running and deletes nothing
    let processes = vec![
        ProcessInfo {
            pid: 10,
            name: String::from("bash"),
            cmd: vec![String::from("/usr/bin/bash")],
        },
        ProcessInfo {
            pid: 42,
            name: String::from("hl2.exe"),
            cmd: vec![
                String::from("hl2.exe"),
                String::from("/home/user/sourcemods/open_fortress/"),
            ],
        },
    ];
    let pid = find_game_process(&processes, "/home/user/sourcemods/open_fortress/");
    assert_eq!(pid, Some(42));
    let r = UninstallWorkflow::plan(Some(3), pid, "Open Fortress");
    match r {
        Err(BeansError::GameStillRunning { name, pid }) => {
            assert_eq!(name, "Open Fortress");
            assert_eq!(pid, "42");
        }
        other => panic!("expected GameStillRunning, got {:?}", other.map(|_| ())),
    }
}

#[test]
fn uninstall_proceeds_when_nothing_runs() {
    let processes = vec![ProcessInfo {
        pid: 10,
        name: String::from("bash"),
        cmd: vec![String::from("/usr/bin/bash")],
    }];
    let pid = find_game_process(&processes, "/home/user/sourcemods/open_fortress/");
    assert_eq!(pid, None);
    assert!(UninstallWorkflow::plan(Some(3), pid, "Open Fortress").is_ok());
}

#[test]
fn uninstall_without_install_does_nothing() {
    let r = UninstallWorkflow::plan(None, None, "Open Fortress").expect("not installed");
    assert!(matches!(
        r,
        beans_rs::workflows::UninstallDecision::NotInstalled
    ));
}

#[test]
fn launcher_own_process_does_not_block_uninstall() {
    let processes = vec![ProcessInfo {
        pid: 7,
        name: String::from("beans-rs"),
        cmd: vec![String::from("/home/user/sourcemods/open_fortress/tool")],
    }];
    assert_eq!(
        find_game_process(&processes, "/home/user/sourcemods/open_fortress/"),
        None
    );
}

#[test]
fn quoted_command_line_counts_for_the_engine() {
    let processes = vec![ProcessInfo {
        pid: 9,
        name: String::from("hl2.exe"),
        cmd: vec![String::from("\"/home/user/sourcemods/open_fortress/\"")],
    }];
    assert_eq!(
        find_game_process(&processes, "/home/user/sourcemods/open_fortress/"),
        Some(9)
    );
}

#[test]
fn marker_written_only_after_successful_extraction() {
    assert!(InstallWorkflow::should_write_marker(true, Some(3)));
    assert!(!InstallWorkflow::should_write_marker(false, Some(3)));
    assert!(!InstallWorkflow::should_write_marker(true, None));
}

#[test]
fn user_actionable_failures_are_not_reported() {
    let still_running = BeansError::GameStillRunning {
        name: String::from("Open Fortress"),
        pid: String::from("42"),
    };
    assert!(!still_running.is_reportable());
    let already = BeansError::LatestVersionAlreadyInstalled { current: 3, latest: 3 };
    assert!(!already.is_reportable());
    let space = BeansError::FreeSpaceCheckFailure { location: String::from("/tmp") };
    assert!(!space.is_reportable());
    let io = BeansError::IO { error: String::from("broken pipe") };
    assert!(io.is_reportable());
}

#[test]
fn clean_outcome_mapping() {
    assert!(CleanWorkflow::outcome(true, true, String::from("/tmp/beans-rs/")).is_ok());
    assert!(matches!(
        CleanWorkflow::outcome(false, true, String::from("/tmp/beans-rs/")),
        Err(BeansError::CleanTempFailure { .. })
    ));
    assert!(matches!(
        CleanWorkflow::outcome(true, false, String::from("/tmp/beans-rs/")),
        Err(BeansError::DirectoryCreateFailure { .. })
    ));
}
