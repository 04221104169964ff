use filehub::jupiter::{
    DiscoveryError, DiscoveryMethod, JupiterDiscovery, JupiterInstallation, LauncherProbe, LauncherState,
    PathProbe,
};

#[test]
fn test_inno_setup_guid() {
    let guid = JupiterDiscovery::inno_setup_guid();
    assert_eq!(guid, "{700798F8-7038-4887-BCC5-37278433D213}");
    assert!(guid.starts_with('{'));
    assert!(guid.ends_with('}'));
}

#[test]
fn test_launcher_filename() {
    assert_eq!(JupiterDiscovery::launcher_filename(), "Start_It.bat");
}

#[test]
fn test_common_paths_not_empty() {
    let paths = JupiterDiscovery::common_install_paths(None, None);
    assert!(!paths.is_empty());
}

#[test]
fn common_paths_include_program_files() {
    let paths = JupiterDiscovery::common_install_paths(Some("C:/Program Files"), None);
    assert_eq!(
        paths,
        vec![
            "C:/Program Files/TechnoStar".to_string(),
            "C:/Program Files/TechnoStar/Jupiter-Web_5.0".to_string(),
            "C:/Program Files/TechnoStar/Jupiter-Web_5.0".to_string(),
        ]
    );
}

#[test]
fn test_explicit_path_nonexistent() {
    let probe = PathProbe { exists: false, is_file: false, is_dir: false, listing: Vec::new() };
    let result = JupiterDiscovery::from_explicit_path("/nonexistent/jupiter/path", &probe);
    assert!(result.is_err());
}

#[test]
fn test_explicit_path_file() {
    let probe = PathProbe { exists: true, is_file: true, is_dir: false, listing: Vec::new() };
    let installation = JupiterDiscovery::from_explicit_path("/tmp/jw/Start_It.bat", &probe).expect("ok");
    assert_eq!(installation.launcher_path, "/tmp/jw/Start_It.bat");
    assert_eq!(installation.install_dir, "/tmp/jw");
    assert_eq!(installation.discovery_method, DiscoveryMethod::ExplicitConfig);
}

#[test]
fn test_explicit_path_directory_with_launcher() {
    let probe = PathProbe {
        exists: true,
        is_file: false,
        is_dir: true,
        listing: vec![LauncherProbe { dir: "/tmp/jw".to_string(), depth: 0, has_launcher: true }],
    };
    let result = JupiterDiscovery::from_explicit_path("/tmp/jw", &probe);
    assert!(result.is_ok());
    let installation = result.expect("ok");
    assert_eq!(installation.launcher_path, "/tmp/jw/Start_It.bat");
}

#[test]
fn test_explicit_path_directory_without_launcher() {
    let probe = PathProbe {
        exists: true,
        is_file: false,
        is_dir: true,
        listing: vec![LauncherProbe { dir: "/tmp/empty".to_string(), depth: 0, has_launcher: false }],
    };
    let result = JupiterDiscovery::from_explicit_path("/tmp/empty", &probe);
    assert!(result.is_err());
    assert!(matches!(result.unwrap_err(), DiscoveryError::LauncherMissing { .. }));
}

#[test]
fn test_explicit_path_nested_launcher() {
    let probe = PathProbe {
        exists: true,
        is_file: false,
        is_dir: true,
        listing: vec![
            LauncherProbe { dir: "/tmp/jw".to_string(), depth: 0, has_launcher: false },
            LauncherProbe { dir: "/tmp/jw/Jupiter-Web_5.0".to_string(), depth: 1, has_launcher: true },
        ],
    };
    let installation = JupiterDiscovery::from_explicit_path("/tmp/jw", &probe).expect("ok");
    assert_eq!(installation.launcher_path, "/tmp/jw/Jupiter-Web_5.0/Start_It.bat");
}

#[test]
fn test_find_launcher_recursive_depth_limit() {
    let listing = vec![
        LauncherProbe { dir: "/t".to_string(), depth: 0, has_launcher: false },
        LauncherProbe { dir: "/t/a".to_string(), depth: 1, has_launcher: false },
        LauncherProbe { dir: "/t/a/b".to_string(), depth: 2, has_launcher: false },
        LauncherProbe { dir: "/t/a/b/c".to_string(), depth: 3, has_launcher: true },
    ];
    assert!(JupiterDiscovery::find_launcher_recursive(&listing, 1).is_none());
    assert!(JupiterDiscovery::find_launcher_recursive(&listing, 3).is_some());
}

fn installation(launcher: &str) -> JupiterInstallation {
    JupiterInstallation {
        launcher_path: launcher.to_string(),
        install_dir: "/nonexistent".to_string(),
        display_name: None,
        display_version: None,
        publisher: None,
        discovery_method: DiscoveryMethod::ExplicitConfig,
    }
}

#[test]
fn test_validate_valid_installation() {
    let inst = installation("/opt/jw/Start_It.bat");
    assert!(JupiterDiscovery::validate(&inst, &LauncherState::Present { size: 27 }, false).is_ok());
}

#[test]
fn test_validate_empty_launcher() {
    let inst = installation("/opt/jw/Start_It.bat");
    assert!(JupiterDiscovery::validate(&inst, &LauncherState::Present { size: 0 }, false).is_err());
}

#[test]
fn test_validate_missing_launcher() {
    let inst = installation("/nonexistent/Start_It.bat");
    let result = JupiterDiscovery::validate(&inst, &LauncherState::Missing, false);
    assert!(matches!(result.unwrap_err(), DiscoveryError::LauncherMissing { .. }));
}

#[test]
fn validate_requires_bat_on_windows() {
    let exe = installation("C:/Jupiter/run.exe");
    assert!(JupiterDiscovery::validate(&exe, &LauncherState::Present { size: 27 }, false).is_ok());
    match JupiterDiscovery::validate(&exe, &LauncherState::Present { size: 27 }, true) {
        Err(DiscoveryError::LauncherMissing { launcher, .. }) => assert_eq!(launcher, "Start_It.bat (not a .bat file)"),
        other => panic!("unexpected {:?}", other),
    }
    let bat = installation("C:/Jupiter/START_IT.BAT");
    assert!(JupiterDiscovery::validate(&bat, &LauncherState::Present { size: 27 }, true).is_ok());
}

#[test]
fn search_path_splits_on_separator() {
    let dirs = JupiterDiscovery::search_path_dirs("/usr/bin:/opt/jw::/bin", ':');
    assert_eq!(dirs, vec!["/usr/bin", "/opt/jw", "", "/bin"]);
}

#[test]
fn registry_uninstaller_value_names_its_directory() {
    assert_eq!(
        JupiterDiscovery::registry_candidate_dir("UninstallString", "C:\\path\\to\\unins000.exe"),
        "C:\\path\\to"
    );
    assert_eq!(JupiterDiscovery::registry_candidate_dir("UninstallString", "C:\\unins000.exe"), "C:\\");
    assert_eq!(JupiterDiscovery::registry_candidate_dir("UninstallString", "C:\\path\\to\\"), "C:\\path");
    assert_eq!(JupiterDiscovery::registry_candidate_dir("UninstallString", "C:/a/b.exe"), "C:/a");
    assert_eq!(JupiterDiscovery::registry_candidate_dir("UninstallString", "C:"), "C:");
    assert_eq!(
        JupiterDiscovery::registry_candidate_dir("InstallLocation", "C:\\Program Files\\Jupiter\\"),
        "C:\\Program Files\\Jupiter\\"
    );
}
