//! Version and patch resolution, the marker file, and the legacy
//! migration.

use beans_rs::appvar::AppVarData;
use beans_rs::ctx::RunnerContext;
use beans_rs::error::BeansError;
use beans_rs::helper::InstallType;
use beans_rs::version::{
    get_current_version, migrate_markers, marker_version, AdastralVersionFile, MarkerFiles,
    RemotePatch, RemoteVersion, RemoteVersionResponse,
};

fn remote_version_plain() -> RemoteVersion {
    RemoteVersion {
        url: None,
        file: None,
        pre_sz: None,
        post_sz: None,
        signature_url: None,
        heal_url: None,
    }
}

fn context(
    versions: Vec<(usize, RemoteVersion)>,
    patches: Vec<(usize, RemotePatch)>,
    current_version: Option<usize>,
) -> RunnerContext {
    RunnerContext {
        sourcemod_path: String::from("/home/user/sourcemods"),
        remote_version_list: RemoteVersionResponse { versions, patches },
        current_version,
        appvar: AppVarData::get(),
    }
}

fn patch(file: &str, tempreq: usize) -> RemotePatch {
    RemotePatch {
        url: String::from("https://beans.adastral.net/patches"),
        file: String::from(file),
        tempreq,
    }
}

#[test]
fn latest_picks_strict_maximum_key() {
    let ctx = context(
        vec![(1, remote_version_plain()), (3, remote_version_plain())],
        vec![],
        None,
    );
    let (id, _) = ctx.latest_remote_version();
    assert_eq!(id, 3);
}

#[test]
fn latest_ignores_listing_order() {
    let ctx = context(
        vec![
            (7, remote_version_plain()),
            (2, remote_version_plain()),
            (5, remote_version_plain()),
        ],
        vec![],
        None,
    );
    let (id, _) = ctx.latest_remote_version();
    assert_eq!(id, 7);
}

#[test]
fn latest_of_single_entry() {
    let ctx = context(vec![(4, remote_version_plain())], vec![], None);
    let (id, _) = ctx.latest_remote_version();
    assert_eq!(id, 4);
}

#[test]
fn current_remote_version_found() {
    let mut with_file = remote_version_plain();
    with_file.file = Some(String::from("of-3.tar.zst"));
    let ctx = context(
        vec![(1, remote_version_plain()), (3, with_file)],
        vec![],
        Some(3),
    );
    let v = ctx.current_remote_version().expect("version 3 is listed");
    assert_eq!(v.file.as_deref(), Some("of-3.tar.zst"));
}

#[test]
fn current_remote_version_missing_is_error() {
    let ctx = context(vec![(3, remote_version_plain())], vec![], Some(2));
    match ctx.current_remote_version() {
        Err(BeansError::RemoteVersionNotFound { version }) => assert_eq!(version, Some(2)),
        other => panic!("expected RemoteVersionNotFound, got {:?}", other.map(|_| ())),
    }
}

#[test]
fn patch_file_name_format() {
    let ctx = context(vec![(3, remote_version_plain())], vec![], Some(1));
    assert_eq!(ctx.patch_file_name(1, 3), "of-1to3.pwr");
}

#[test]
fn patch_for_exact_identity_match() {
    let ctx = context(
        vec![(1, remote_version_plain()), (3, remote_version_plain())],
        vec![(10, patch("of-1to3.pwr", 4096))],
        Some(1),
    );
    let p = ctx.has_patch_available().expect("the 1to3 patch applies");
    assert_eq!(p.file, "of-1to3.pwr");
    assert_eq!(p.tempreq, 4096);
}

#[test]
fn patch_for_rejects_other_content() {
    let ctx = context(
        vec![(1, remote_version_plain()), (3, remote_version_plain())],
        vec![(10, patch("of-1to2.pwr", 4096)), (11, patch("of-2to3.pwr", 64))],
        Some(1),
    );
    assert!(ctx.has_patch_available().is_none());
}

#[test]
fn patch_for_rejects_ambiguous_match() {
    let ctx = context(
        vec![(1, remote_version_plain()), (3, remote_version_plain())],
        vec![(10, patch("of-1to3.pwr", 1)), (11, patch("of-1to3.pwr", 2))],
        Some(1),
    );
    assert!(ctx.has_patch_available().is_none());
}

#[test]
fn patch_for_needs_current_version() {
    let ctx = context(
        vec![(3, remote_version_plain())],
        vec![(10, patch("of-1to3.pwr", 1))],
        None,
    );
    assert!(ctx.has_patch_available().is_none());
}

#[test]
fn mod_and_staging_locations() {
    let ctx = context(vec![(1, remote_version_plain())], vec![], None);
    assert_eq!(ctx.get_mod_location(), "/home/user/sourcemods/open_fortress/");
    assert_eq!(ctx.get_staging_location(), "/home/user/sourcemods/butler-staging");
    assert_eq!(
        ctx.gameinfo_location(),
        "/home/user/sourcemods/open_fortress/gameinfo.txt"
    );
}

#[test]
fn platform_seams() {
    let ctx = context(vec![(1, remote_version_plain())], vec![], Some(1));
    // permission passes: 0644 on an existing config file, nothing otherwise
    assert_eq!(ctx.gameinfo_perms(true), Some(0o644));
    assert_eq!(ctx.gameinfo_perms(false), None);
    // a regular file standing at the symlink location is stale
    assert!(ctx.prepare_symlink(true, false));
    assert!(!ctx.prepare_symlink(true, true));
    assert!(!ctx.prepare_symlink(false, false));
    assert_eq!(
        ctx.symlink_location(),
        "/home/user/sourcemods/open_fortress/bin/server_srv.so"
    );
}

#[test]
fn marker_round_trip() {
    let marker = AdastralVersionFile {
        version: String::from("7"),
    };
    let text = marker.to_json();
    assert_eq!(text, "{\"version\":\"7\"}");
    assert_eq!(marker_version(&text), Some(7));
}

#[test]
fn marker_rejects_corrupted_content() {
    assert_eq!(marker_version(""), None);
    assert_eq!(marker_version("7"), None);
    assert_eq!(marker_version("{\"version\":7}"), None);
    assert_eq!(marker_version("{\"version\":\"07\"}"), None);
    assert_eq!(marker_version("{\"version\":\"7\"} "), None);
    assert_eq!(marker_version("{\"version\":\"\"}"), None);
}

#[test]
fn current_version_reads_managed_marker() {
    let state = InstallType::Adastral;
    let r = get_current_version(&state, Some("{\"version\":\"7\"}"));
    assert!(matches!(r, Ok(Some(7))));
}

#[test]
fn current_version_none_when_not_managed() {
    let r = get_current_version(&InstallType::OtherSource, Some("{\"version\":\"7\"}"));
    assert!(matches!(r, Ok(None)));
    let r = get_current_version(&InstallType::NotInstalled, None);
    assert!(matches!(r, Ok(None)));
}

#[test]
fn current_version_fails_loudly_on_bad_marker() {
    let r = get_current_version(&InstallType::Adastral, Some("version 7"));
    assert!(matches!(r, Err(BeansError::VersionFileParseFailure { .. })));
    let r = get_current_version(&InstallType::Adastral, None);
    assert!(matches!(r, Err(BeansError::VersionFileReadFailure { .. })));
}

#[test]
fn legacy_migration_writes_modern_marker_and_deletes_legacy() {
    let files = MarkerFiles {
        modern: None,
        legacy: Some(String::from("12")),
    };
    let (after, outcome) = migrate_markers(files, true, true);
    assert!(outcome.is_ok());
    assert_eq!(after.modern.as_deref(), Some("{\"version\":\"12\"}"));
    assert!(after.legacy.is_none());
}

#[test]
fn legacy_migration_failed_write_keeps_legacy_untouched() {
    let files = MarkerFiles {
        modern: None,
        legacy: Some(String::from("12")),
    };
    let (after, outcome) = migrate_markers(files, false, true);
    assert!(matches!(
        outcome,
        Err(BeansError::VersionFileMigrationFailure { .. })
    ));
    assert!(after.modern.is_none());
    assert_eq!(after.legacy.as_deref(), Some("12"));
}

#[test]
fn legacy_migration_failed_delete_keeps_both_markers() {
    let files = MarkerFiles {
        modern: None,
        legacy: Some(String::from("12")),
    };
    let (after, outcome) = migrate_markers(files, true, false);
    assert!(matches!(
        outcome,
        Err(BeansError::VersionFileMigrationDeleteFailure { .. })
    ));
    assert_eq!(after.modern.as_deref(), Some("{\"version\":\"12\"}"));
    assert_eq!(after.legacy.as_deref(), Some("12"));
}

#[test]
fn legacy_migration_rejects_garbage() {
    let files = MarkerFiles {
        modern: None,
        legacy: Some(String::from("twelve")),
    };
    let (after, outcome) = migrate_markers(files, true, true);
    assert!(matches!(
        outcome,
        Err(BeansError::VersionFileParseFailure { .. })
    ));
    assert_eq!(after.legacy.as_deref(), Some("twelve"));
    assert!(after.modern.is_none());
}
