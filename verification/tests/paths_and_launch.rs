use chrome_profile_manage::clock::{
    current_millis, current_timestamp, local_stamp_at, millis_or_zero, stamp_instant, EpochOffset,
    STAMP_MAX_SECS, STAMP_MIN_SECS,
};
use chrome_profile_manage::launch::{
    check_chrome_executable, chrome_launch_args, directory_dialog_title, should_open_path,
};
use chrome_profile_manage::model::{ConfigError, Environment};
use chrome_profile_manage::paths::PathKind::{Directory, File, Missing, Other};
use chrome_profile_manage::paths::{
    bytes_equal, check_managed_profile_path, chrome_path_candidates, chrome_user_data_dir, strictly_inside,
    config_path, copy_action, fallback_data_dir, default_profile_child, default_profiles_dir,
    environment_default_profile_dir, is_chrome_profile_dir, is_profile_runtime_file,
    managed_roots, pick_chrome_path, pick_default_profile_path, profile_marker_paths,
    resolve_master_profile_source, CopyAction, PathKind, PathProbe, ProbedPath, ProbedRoot,
    ProfileMarkers,
};

fn probed(path: &str, kind: PathKind) -> ProbedPath {
    ProbedPath { path: path.to_string(), kind }
}

fn comps(parts: &[&str]) -> Vec<Vec<u8>> {
    parts.iter().map(|p| p.as_bytes().to_vec()).collect()
}

fn markers(p: PathKind, s: PathKind, e: PathKind) -> ProfileMarkers {
    ProfileMarkers { preferences: p, secure_preferences: s, extensions: e }
}

#[test]
fn join_adds_one_separator() {
    let sep = std::path::MAIN_SEPARATOR;
    assert_eq!(default_profile_child("/data"), format!("/data{sep}Default"));
    assert_eq!(default_profile_child("/data/"), "/data/Default");
    assert_eq!(default_profile_child(""), "Default");
}

#[test]
fn settings_and_profile_locations() {
    let sep = std::path::MAIN_SEPARATOR;
    assert_eq!(config_path("/app"), format!("/app{sep}config.json"));
    assert_eq!(fallback_data_dir("/cwd"), format!("/cwd{sep}data"));
    assert_eq!(default_profiles_dir("/app"), format!("/app{sep}profiles"));
    assert_eq!(default_profile_child("/p/w"), format!("/p/w{sep}Default"));
    let e = Environment {
        id: "1".to_string(),
        name: "w".to_string(),
        profile_path: "/p/w".to_string(),
        start_url: String::new(),
        extension_paths: Vec::new(),
        created_at: String::new(),
        updated_at: String::new(),
    };
    assert_eq!(environment_default_profile_dir(&e), format!("/p/w{sep}Default"));
}

#[test]
fn marker_paths_are_inside_the_directory() {
    let sep = std::path::MAIN_SEPARATOR;
    let (a, b, c) = profile_marker_paths("/m");
    assert_eq!(a, format!("/m{sep}Preferences"));
    assert_eq!(b, format!("/m{sep}Secure Preferences"));
    assert_eq!(c, format!("/m{sep}Extensions"));
}

#[test]
fn profile_directory_recognised_by_any_marker() {
    assert!(is_chrome_profile_dir(&markers(File, Missing, Missing)));
    assert!(is_chrome_profile_dir(&markers(Missing, File, Missing)));
    assert!(is_chrome_profile_dir(&markers(Missing, Missing, Directory)));
    assert!(!is_chrome_profile_dir(&markers(Directory, Directory, File)));
    assert!(!is_chrome_profile_dir(&markers(Missing, Missing, Missing)));
}

#[test]
fn master_source_must_be_a_directory() {
    let r = resolve_master_profile_source("/m", File, &markers(File, File, Directory), &probed("/m/Default", Directory));
    assert_eq!(r, Err(ConfigError::MasterProfileMissing));
    assert_eq!(r.unwrap_err().message(), "母版 profile 目录不存在，请先在全局设置中选择有效目录");
}

#[test]
fn master_source_profile_is_taken_as_is() {
    let r = resolve_master_profile_source("/m/Profile 3", Directory, &markers(File, Missing, Missing), &probed("/m/Profile 3/Default", Directory));
    assert_eq!(r, Ok("/m/Profile 3".to_string()));
}

#[test]
fn master_source_user_data_gives_default_profile() {
    let r = resolve_master_profile_source("/ud", Directory, &markers(Missing, Missing, Missing), &probed("/ud/Default", Directory));
    assert_eq!(r, Ok("/ud/Default".to_string()));
    let r = resolve_master_profile_source("/ud", Directory, &markers(Missing, Missing, Missing), &probed("/ud/Default", Missing));
    assert_eq!(r, Ok("/ud".to_string()));
}

#[test]
fn chrome_candidates_follow_set_variables() {
    let sep = std::path::MAIN_SEPARATOR;
    let c = chrome_path_candidates(Some("/pf".to_string()), None, Some("/lad".to_string()));
    assert_eq!(c.len(), 2);
    assert_eq!(c[0], format!("/pf{sep}Google\\Chrome\\Application\\chrome.exe"));
    assert_eq!(c[1], format!("/lad{sep}Google\\Chrome\\Application\\chrome.exe"));
    assert!(chrome_path_candidates(None, None, None).is_empty());
}

#[test]
fn chrome_path_is_first_file() {
    let c = vec![probed("/a", Missing), probed("/b", Directory), probed("/c", File), probed("/d", File)];
    assert_eq!(pick_chrome_path(&c), "/c");
    assert_eq!(pick_chrome_path(&vec![probed("/a", Missing)]), "");
    assert_eq!(pick_chrome_path(&Vec::new()), "");
}

#[test]
fn default_profile_prefers_default_then_user_data() {
    let sep = std::path::MAIN_SEPARATOR;
    assert_eq!(chrome_user_data_dir("/lad"), format!("/lad{sep}Google\\Chrome\\User Data"));
    assert_eq!(pick_default_profile_path(&probed("/ud", Directory), &probed("/ud/Default", Directory)), "/ud/Default");
    assert_eq!(pick_default_profile_path(&probed("/ud", Directory), &probed("/ud/Default", Missing)), "/ud");
    assert_eq!(pick_default_profile_path(&probed("/ud", File), &probed("/ud/Default", File)), "");
}

#[test]
fn runtime_lock_files() {
    for n in ["SingletonCookie", "SingletonLock", "SingletonSocket", "Lockfile"] {
        assert!(is_profile_runtime_file(n));
    }
    assert!(!is_profile_runtime_file("Preferences"));
    assert!(!is_profile_runtime_file("singletonlock"));
    assert!(!is_profile_runtime_file("Lockfile2"));
}

#[test]
fn copy_skips_lock_files_and_other_entries() {
    assert_eq!(copy_action("SingletonLock", File), CopyAction::Skip);
    assert_eq!(copy_action("Lockfile", Directory), CopyAction::Skip);
    assert_eq!(copy_action("Cache", Directory), CopyAction::Descend);
    assert_eq!(copy_action("Preferences", File), CopyAction::CopyFile);
    assert_eq!(copy_action("link", Other), CopyAction::Skip);
}

#[test]
fn managed_roots_drop_duplicate() {
    assert_eq!(managed_roots("/a".to_string(), "/a".to_string(), true), vec!["/a".to_string()]);
    assert_eq!(managed_roots("/a".to_string(), "/b".to_string(), false), vec!["/a".to_string(), "/b".to_string()]);
}

#[test]
fn strictly_inside_is_whole_components() {
    assert!(strictly_inside(&comps(&["/", "p"]), &comps(&["/", "p", "w"])));
    assert!(!strictly_inside(&comps(&["/", "p"]), &comps(&["/", "p"])));
    assert!(!strictly_inside(&comps(&["/", "p"]), &comps(&["/", "pw"])));
    assert!(!strictly_inside(&comps(&["/", "p", "w"]), &comps(&["/", "p"])));
}

fn root(path: &str, probe: PathProbe) -> ProbedRoot {
    ProbedRoot { path: path.to_string(), probe }
}

#[test]
fn missing_target_may_be_deleted() {
    assert_eq!(check_managed_profile_path("/x", &PathProbe::Missing, &Vec::new()), Ok(()));
}

#[test]
fn target_under_a_root_may_be_deleted() {
    let roots = vec![
        root("/gone", PathProbe::Missing),
        root("/p", PathProbe::Resolved(comps(&["/", "p"]))),
    ];
    let t = PathProbe::Resolved(comps(&["/", "p", "w"]));
    assert_eq!(check_managed_profile_path("/p/w", &t, &roots), Ok(()));
}

#[test]
fn target_outside_roots_is_refused() {
    let roots = vec![root("/p", PathProbe::Resolved(comps(&["/", "p"])))];
    let t = PathProbe::Resolved(comps(&["/", "home", "me"]));
    let r = check_managed_profile_path("/home/me", &t, &roots);
    assert_eq!(r, Err(ConfigError::UnmanagedProfilePath));
    assert_eq!(r.unwrap_err().message(), "出于安全限制，只允许删除本工具创建的 profile 目录");
    let t = PathProbe::Resolved(comps(&["/", "pw"]));
    assert_eq!(check_managed_profile_path("/pw", &t, &roots), Err(ConfigError::UnmanagedProfilePath));
}

#[test]
fn managed_root_itself_is_refused() {
    let roots = vec![root("/p", PathProbe::Resolved(comps(&["/", "p"])))];
    let t = PathProbe::Resolved(comps(&["/", "p"]));
    assert_eq!(check_managed_profile_path("/p", &t, &roots), Err(ConfigError::UnmanagedProfilePath));
}

#[test]
fn unreadable_target_is_an_error() {
    let r = check_managed_profile_path("/x", &PathProbe::Unreadable("denied".to_string()), &Vec::new());
    let e = r.unwrap_err();
    assert_eq!(e, ConfigError::ProfileTargetUnreadable { path: "/x".to_string(), detail: "denied".to_string() });
    assert_eq!(e.message(), "读取待删除 profile 目录失败：denied，路径：/x");
}

#[test]
fn unreadable_root_before_match_is_an_error() {
    let roots = vec![
        root("/bad", PathProbe::Unreadable("loop".to_string())),
        root("/p", PathProbe::Resolved(comps(&["/", "p"]))),
    ];
    let t = PathProbe::Resolved(comps(&["/", "p", "w"]));
    let e = check_managed_profile_path("/p/w", &t, &roots).unwrap_err();
    assert_eq!(e, ConfigError::ProfileRootUnreadable { path: "/bad".to_string(), detail: "loop".to_string() });
    assert_eq!(e.message(), "读取环境根目录失败：loop，路径：/bad");
    let roots = vec![
        root("/p", PathProbe::Resolved(comps(&["/", "p"]))),
        root("/bad", PathProbe::Unreadable("loop".to_string())),
    ];
    assert_eq!(check_managed_profile_path("/p/w", &t, &roots), Ok(()));
}

#[test]
fn launch_args_with_start_page() {
    let a = chrome_launch_args("/p/w", "  https://example.com ");
    assert_eq!(a, vec![
        "--user-data-dir=/p/w".to_string(),
        "--profile-directory=Default".to_string(),
        "--no-first-run".to_string(),
        "--disable-default-apps".to_string(),
        "https://example.com".to_string(),
    ]);
}

#[test]
fn launch_args_without_start_page() {
    let a = chrome_launch_args("C:\\p", " \t ");
    assert_eq!(a.len(), 4);
    assert_eq!(a[0], "--user-data-dir=C:\\p");
}

#[test]
fn chrome_must_be_a_file() {
    assert_eq!(check_chrome_executable(PathKind::File), Ok(()));
    let e = check_chrome_executable(PathKind::Directory).unwrap_err();
    assert_eq!(e, ConfigError::InvalidChromePath);
    assert_eq!(e.message(), "Chrome 程序路径无效，请在全局设置中选择 chrome.exe");
    assert!(check_chrome_executable(PathKind::Missing).is_err());
}

#[test]
fn blank_paths_are_not_opened() {
    assert!(!should_open_path("  "));
    assert!(should_open_path(" /p "));
}

#[test]
fn dialog_title_defaults() {
    assert_eq!(directory_dialog_title(None), "选择目录");
    assert_eq!(directory_dialog_title(Some("选择母版".to_string())), "选择母版");
}

#[test]
fn clock_readings() {
    let stamp = current_timestamp();
    assert!(chrono::DateTime::parse_from_rfc3339(&stamp).is_ok());
    assert_stamp_shape(&stamp);
    assert!(current_millis() > 1_600_000_000_000);
}

#[test]
fn millis_fall_back_to_zero_before_epoch() {
    assert_eq!(millis_or_zero(Some(1_700_000_000_123)), 1_700_000_000_123);
    assert_eq!(millis_or_zero(None), 0);
}

#[test]
fn components_compare_as_bytes() {
    assert!(bytes_equal(&vec![0xff, 0x61], &vec![0xff, 0x61]));
    assert!(!bytes_equal(&vec![0xff, 0x61], &vec![0xfe, 0x61]));
    let a = vec![vec![0x2f], vec![0xff]];
    let b = vec![vec![0x2f], vec![0xfe], vec![0x61]];
    assert!(!strictly_inside(&a, &b));
}

fn assert_stamp_shape(stamp: &str) {
    let c: Vec<char> = stamp.chars().collect();
    let n = c.len();
    assert!([25, 29, 32, 35].contains(&n), "{stamp}");
    for i in [0, 1, 2, 3, 5, 6, 8, 9, 11, 12, 14, 15, 17, 18] {
        assert!(c[i].is_ascii_digit(), "{stamp}");
    }
    assert_eq!((c[4], c[7], c[10], c[13], c[16]), ('-', '-', 'T', ':', ':'));
    if n > 25 {
        assert_eq!(c[19], '.');
    }
    assert!(c[n - 6] == '+' || c[n - 6] == '-');
    assert_eq!(c[n - 3], ':');
}

#[test]
fn stamps_at_fixed_instants() {
    let s = local_stamp_at(1_700_000_000, 0);
    assert_stamp_shape(&s);
    assert_eq!(chrono::DateTime::parse_from_rfc3339(&s).unwrap().timestamp(), 1_700_000_000);
    let s = local_stamp_at(-86_400, 5_000_000);
    assert_stamp_shape(&s);
    assert_eq!(chrono::DateTime::parse_from_rfc3339(&s).unwrap().timestamp_millis(), -86_399_995);
    assert_stamp_shape(&local_stamp_at(STAMP_MIN_SECS, 0));
    assert_stamp_shape(&local_stamp_at(STAMP_MAX_SECS, 999_999_999));
}

#[test]
fn stamp_instant_after_and_before_epoch() {
    assert_eq!(stamp_instant(EpochOffset::After { secs: 10, nanos: 7 }), (10, 7));
    assert_eq!(stamp_instant(EpochOffset::Before { secs: 10, nanos: 0 }), (-10, 0));
    assert_eq!(stamp_instant(EpochOffset::Before { secs: 10, nanos: 250_000_000 }), (-11, 750_000_000));
}

#[test]
fn stamp_instant_clamps_to_bounds() {
    assert_eq!(stamp_instant(EpochOffset::After { secs: u64::MAX, nanos: 1 }), (STAMP_MAX_SECS, 0));
    assert_eq!(stamp_instant(EpochOffset::Before { secs: u64::MAX, nanos: 0 }), (STAMP_MIN_SECS, 0));
    assert_eq!(stamp_instant(EpochOffset::Before { secs: 62104060800, nanos: 0 }), (STAMP_MIN_SECS, 0));
    assert_eq!(stamp_instant(EpochOffset::Before { secs: 62104060800, nanos: 1 }), (STAMP_MIN_SECS, 0));
}

#[test]
fn joins_follow_the_base_shape() {
    let sep = std::path::MAIN_SEPARATOR;
    assert_eq!(default_profile_child("/p/"), "/p/Default");
    assert_eq!(default_profile_child("/p"), format!("/p{sep}Default"));
    if sep == '/' {
        assert_eq!(default_profile_child("C:"), "C:/Default");
        assert_eq!(default_profile_child("p\\"), "p\\/Default");
    } else {
        assert_eq!(default_profile_child("C:"), "C:Default");
        assert_eq!(default_profile_child("p\\"), "p\\Default");
    }
}
