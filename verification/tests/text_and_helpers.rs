//! String shaping, sizes, paths, configuration values, and the smaller
//! helpers.

use beans_rs::appvar::AppVarData;
use beans_rs::aria2::{build_download_args, can_use_aria2, get_executable_location};
use beans_rs::butler::{patch_args, verify_args};
use beans_rs::download::{
    check_content_length, clamp_progress, should_emit_sample, throughput_bps,
};
use beans_rs::error::{Aria2cExitCodeReason, BeansError};
use beans_rs::helper::{
    backup_file_name, find_sourcemod_path, format_directory_path, format_size, get_tmp_dir,
    get_tmp_file, has_env_var, join_path, release_is_update, remove_path_head, unmark_readonly,
    use_custom_tmpdir, GithubReleaseItem,
};
use beans_rs::strutil::{parse_usize, replace_all, trim_ascii, usize_to_string};
use beans_rs::userconfig::{get_cfg_location, UserConfigData};
use beans_rs::wizard::{parse_menu_choice, MenuChoice, WizardContext};
use beans_rs::{
    check_env_bool, env_aria2c_extra_args, env_custom_tmpdir, env_debug, get_user_agent,
};

#[test]
fn decimal_rendering_and_parsing() {
    assert_eq!(usize_to_string(0), "0");
    assert_eq!(usize_to_string(7), "7");
    assert_eq!(usize_to_string(1234), "1234");
    assert_eq!(parse_usize("0"), Some(0));
    assert_eq!(parse_usize("007"), Some(7));
    assert_eq!(parse_usize("1234"), Some(1234));
    assert_eq!(parse_usize(""), None);
    assert_eq!(parse_usize("12a"), None);
    assert_eq!(parse_usize("-3"), None);
    assert_eq!(parse_usize("18446744073709551615"), Some(usize::MAX));
    assert_eq!(parse_usize("18446744073709551616"), None);
}

#[test]
fn replace_and_trim() {
    assert_eq!(replace_all("a-b-c", "-", "+"), "a+b+c");
    assert_eq!(replace_all("aaa", "aa", "b"), "ba");
    assert_eq!(trim_ascii("  x y\t\r\n"), "x y");
    assert_eq!(trim_ascii("\r\n"), "");
}

#[test]
fn appvar_substitution() {
    let av = AppVarData::get();
    assert_eq!(
        av.sub(String::from("play $MOD_NAME_STYLIZED from $URL_BASE")),
        "play Open Fortress from https://beans.adastral.net/"
    );
    assert_eq!(av.sub(String::from("$MOD_NAME/$MOD_NAME_SHORT")), "open_fortress/of");
    assert_eq!(
        av.remote_info.versions_url,
        "https://beans.adastral.net/versions.json"
    );
    let again = AppVarData::reset();
    assert_eq!(again.mod_info.sourcemod_name, "open_fortress");
}

#[test]
fn path_shaping() {
    assert_eq!(format_directory_path(String::from("/a/b//")), "/a/b/");
    assert_eq!(format_directory_path(String::from("C:\\x\\")), "C:/x/");
    assert_eq!(join_path(String::from("/a/b"), String::from("c.txt")), "/a/b/c.txt");
    assert_eq!(join_path(String::from("/a/b/"), String::from("/c/")), "/a/b/c/");
    assert_eq!(join_path(String::from("a\\b"), String::from("\\c")), "a/b/c");
    assert_eq!(remove_path_head(String::from("/a/b/c")), "/a/b");
    assert_eq!(remove_path_head(String::from("/a")), "/");
    assert_eq!(remove_path_head(String::from("abc")), "");
    assert_eq!(remove_path_head(String::from("/")), "");
}

#[test]
fn size_formatting_exact_values() {
    assert_eq!(format_size(0), "0b");
    assert_eq!(format_size(250), "250b");
    assert_eq!(format_size(999), "999b");
    assert_eq!(format_size(1000), "1kb");
    assert_eq!(format_size(1024), "1.024kb");
    assert_eq!(format_size(1500000), "1.5mb");
    assert_eq!(format_size(999999999999), "999.999gb");
    assert_eq!(format_size(1000000000000), "1tb");
}

#[test]
fn exit_code_taxonomy() {
    assert_eq!(Aria2cExitCodeReason::from_exit_code(0), None);
    assert_eq!(Aria2cExitCodeReason::from_exit_code(-1), None);
    assert_eq!(
        Aria2cExitCodeReason::from_exit_code(2),
        Some(Aria2cExitCodeReason::Timeout)
    );
    assert_eq!(
        Aria2cExitCodeReason::from_exit_code(9),
        Some(Aria2cExitCodeReason::NotEnoughDiskSpace)
    );
    assert_eq!(
        Aria2cExitCodeReason::from_exit_code(32),
        Some(Aria2cExitCodeReason::ChecksumValidationFailure)
    );
    assert_eq!(
        Aria2cExitCodeReason::from_exit_code(31),
        Some(Aria2cExitCodeReason::Unknown(31))
    );
}

#[test]
fn accelerator_resolution_and_arguments() {
    assert!(!can_use_aria2(&None));
    assert!(can_use_aria2(&Some(String::from("/usr/bin/aria2c"))));
    assert_eq!(
        get_executable_location(Some(String::from("a")), Some(String::from("b")), None, false),
        Some(String::from("a"))
    );
    assert_eq!(
        get_executable_location(None, Some(String::from("b")), None, false),
        Some(String::from("b"))
    );
    assert_eq!(
        get_executable_location(None, None, Some(String::from("c")), true),
        Some(String::from("c"))
    );
    assert_eq!(get_executable_location(None, None, Some(String::from("c")), false), None);

    let args = build_download_args(
        String::from("/tmp/beans-rs"),
        String::from("presz_X"),
        String::from("beans-rs/1.0.0"),
        String::from("https://beans.adastral.net/of-latest.tar.zst"),
    );
    assert_eq!(
        args,
        vec![
            String::from("-d"),
            String::from("/tmp/beans-rs"),
            String::from("--out=presz_X"),
            String::from("-c"),
            String::from("--user-agent=beans-rs/1.0.0"),
            String::from("https://beans.adastral.net/of-latest.tar.zst"),
        ]
    );
}

#[test]
fn patcher_arguments() {
    assert_eq!(
        verify_args(
            String::from("https://x/sig"),
            String::from("/mods/of/"),
            String::from("https://x/heal"),
        ),
        vec![
            String::from("verify"),
            String::from("https://x/sig"),
            String::from("/mods/of/"),
            String::from("--heal=archive,https://x/heal"),
        ]
    );
    assert_eq!(
        patch_args(
            String::from("/tmp/of-1to3.pwr"),
            String::from("/mods/butler-staging"),
            String::from("/mods/of/"),
        ),
        vec![
            String::from("apply"),
            String::from("--staging-dir=/mods/butler-staging"),
            String::from("/tmp/of-1to3.pwr"),
            String::from("/mods/of/"),
        ]
    );
}

#[test]
fn download_computations() {
    assert!(matches!(
        check_content_length(None),
        Err(BeansError::DownloadFailure { .. })
    ));
    assert_eq!(check_content_length(Some(10)).unwrap(), 10);
    assert_eq!(clamp_progress(90, 20, 100), 100);
    assert_eq!(clamp_progress(10, 20, 100), 30);
    assert!(!should_emit_sample(500));
    assert!(should_emit_sample(501));
    assert_eq!(throughput_bps(1000, 500), 2000);
    assert_eq!(throughput_bps(0, 100), 0);
    assert_eq!(throughput_bps(u64::MAX, 1), u64::MAX);
}

#[test]
fn environment_values() {
    assert!(check_env_bool(Some(" TRUE ")));
    assert!(check_env_bool(Some("1")));
    assert!(!check_env_bool(Some("0")));
    assert!(!check_env_bool(None));
    assert!(env_debug(None, Some("true")));
    assert!(!env_debug(Some("no"), None));
    assert_eq!(env_custom_tmpdir(Some(String::from("  "))), None);
    assert_eq!(
        env_custom_tmpdir(Some(String::from("/scratch"))),
        Some(String::from("/scratch"))
    );
    assert_eq!(
        env_aria2c_extra_args(Some(String::new()), Some(String::from("-x16"))),
        Some(String::from("-x16"))
    );
    assert!(has_env_var(Some(&String::from("ab"))));
    assert!(!has_env_var(Some(&String::from("a"))));
    assert!(!has_env_var(None));
}

#[test]
fn temporary_locations() {
    let f = get_tmp_file(String::from("/tmp/beans-rs"), String::from("data.tar"));
    assert!(f.starts_with("/tmp/beans-rs/"));
    assert!(f.ends_with("_data.tar"));
    // random prefix of exactly eight upper-case alphanumerics
    let middle = &f["/tmp/beans-rs/".len()..f.len() - "_data.tar".len()];
    assert_eq!(middle.len(), 8);
    assert!(middle
        .chars()
        .all(|c| c.is_ascii_uppercase() || c.is_ascii_digit()));

    assert_eq!(
        get_tmp_dir(Some(String::from("/scratch")), false, None),
        "/scratch/beans-rs/"
    );
    assert_eq!(get_tmp_dir(None, false, None), "/var/tmp/beans-rs/");
    assert_eq!(
        get_tmp_dir(None, true, Some(String::from("/home/user"))),
        "/home/user/.tmp/beans-rs/"
    );
    assert_eq!(
        use_custom_tmpdir(Some(String::from("/scratch")), true),
        Some(String::from("/scratch"))
    );
    assert_eq!(use_custom_tmpdir(Some(String::from("/scratch")), false), None);
}

#[test]
fn backup_names() {
    assert_eq!(
        backup_file_name(Some(5), "20240101-000000"),
        "5-20240101-000000.txt"
    );
    assert_eq!(backup_file_name(None, "20240101-000000"), "0-20240101-000000.txt");
}

#[test]
fn registry_content_parsing() {
    let content = "\"Registry\"\n{\n\t\"SourceModInstallPath\"\t\t\"/home/user/.steam/steam/steamapps/sourcemods\"\n}\n";
    let path = find_sourcemod_path(content).expect("the key is present");
    assert_eq!(path, "/home/user/.steam/steam/steamapps/sourcemods/");

    let missing = find_sourcemod_path("\"Registry\"\n{\n}\n");
    assert!(matches!(missing, Err(BeansError::SourceModLocationNotFound)));
}

#[test]
fn release_update_detection() {
    let release = GithubReleaseItem {
        _id: 1,
        created_at: String::from("2024-01-01T00:00:00Z"),
        tag_name: String::from("v1.2.0"),
        url: String::new(),
        html_url: String::new(),
        draft: false,
        prerelease: false,
    };
    assert!(release_is_update(&release, "v1.0.0"));
    assert!(!release_is_update(&release, "v1.2.0"));
    let draft = GithubReleaseItem { draft: true, ..release.clone() };
    assert!(!release_is_update(&draft, "v1.0.0"));
}

#[test]
fn user_config_fields() {
    let mut cfg = UserConfigData::set_instance_blank();
    assert!(cfg.get_sourcemods_location().is_none());
    cfg.set_sourcemods_location(Some(String::from("/mods")));
    assert_eq!(cfg.get_sourcemods_location().as_deref(), Some("/mods"));
    assert_eq!(
        get_cfg_location(String::from("/home/user/.config/brioche")),
        "/home/user/.config/brioche/config.json"
    );
}

#[test]
fn wizard_menu_choices() {
    assert_eq!(parse_menu_choice("1"), MenuChoice::Install);
    assert_eq!(parse_menu_choice("INSTALL"), MenuChoice::Install);
    assert_eq!(parse_menu_choice("2"), MenuChoice::Update);
    assert_eq!(parse_menu_choice("verify"), MenuChoice::Verify);
    assert_eq!(parse_menu_choice("c"), MenuChoice::Clean);
    assert_eq!(parse_menu_choice("Uninstall"), MenuChoice::Uninstall);
    assert_eq!(parse_menu_choice("d"), MenuChoice::Debug);
    assert_eq!(parse_menu_choice("q"), MenuChoice::Quit);
    assert_eq!(parse_menu_choice("zzz"), MenuChoice::Unknown);
}

#[test]
fn wizard_update_banner() {
    let ctx = beans_rs::ctx::RunnerContext {
        sourcemod_path: String::from("/mods"),
        remote_version_list: beans_rs::version::RemoteVersionResponse {
            versions: vec![],
            patches: vec![],
        },
        current_version: Some(1),
        appvar: AppVarData::get(),
    };
    let mut wizard = WizardContext { context: ctx, menu_trigger_count: 0 };
    assert!(wizard.should_show_update_banner(3));
    assert!(!wizard.should_show_update_banner(1));
    wizard.note_unknown_choice();
    assert_eq!(wizard.menu_trigger_count, 1);
    assert!(!wizard.should_show_update_banner(3));
}

#[test]
fn misc_helpers() {
    assert!(unmark_readonly(String::from("/mods/of/gameinfo.txt")).is_ok());
    assert_eq!(get_user_agent(), "beans-rs/1.0.0");
}

#[test]
fn free_space_walks_up_the_path() {
    let disks = vec![
        (String::from("/"), 1000u64),
        (String::from("/home"), 5000u64),
    ];
    assert_eq!(
        beans_rs::helper::free_space_at(String::from("/home/user/sourcemods"), &disks).unwrap(),
        5000
    );
    assert_eq!(
        beans_rs::helper::free_space_at(String::from("/var/tmp"), &disks).unwrap(),
        1000
    );
    assert!(matches!(
        beans_rs::helper::free_space_at(String::from("relative/path"), &disks),
        Err(BeansError::FreeSpaceCheckFailure { .. })
    ));
}
