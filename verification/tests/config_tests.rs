use filehub::config::ConversionConfig;
use filehub::jupiter::{DiscoveryMethod, JupiterDiscovery, JupiterInstallation, LauncherProbe, PathProbe};
use std::path::Path;

fn launcher_exists(config: &ConversionConfig) -> bool {
    Path::new(&config.jupiter_path).exists()
}

#[test]
fn test_default_config_empty_jupiter_path() {
    let config = ConversionConfig::default();
    assert!(config.jupiter_path.is_empty());
    assert!(config.enabled);
    assert_eq!(config.max_global_concurrency, 4);
    assert_eq!(config.max_io_concurrency, 16);
    assert_eq!(config.jupiter_timeout_seconds, 600);
}

#[test]
fn test_is_jupiter_resolved_empty() {
    let config = ConversionConfig::default();
    assert!(!config.is_jupiter_resolved(launcher_exists(&config)));
}

#[test]
fn test_is_jupiter_resolved_nonexistent() {
    let config = ConversionConfig {
        jupiter_path: "/nonexistent/Start_It.bat".to_string(),
        ..Default::default()
    };
    assert!(!config.is_jupiter_resolved(launcher_exists(&config)));
}

#[test]
fn test_is_jupiter_resolved_real() {
    let launcher = tempfile::NamedTempFile::new().expect("temp file");

    let config = ConversionConfig {
        jupiter_path: launcher.path().to_string_lossy().to_string(),
        ..Default::default()
    };
    assert!(config.is_jupiter_resolved(launcher_exists(&config)));
}

#[test]
fn test_resolve_explicit_path() {
    let launcher_str = "/opt/jupiter/Start_It.bat".to_string();

    let mut config = ConversionConfig {
        jupiter_path: launcher_str.clone(),
        ..Default::default()
    };

    let probe = PathProbe { exists: true, is_file: true, is_dir: false, listing: Vec::new() };
    let explicit = JupiterDiscovery::from_explicit_path(&launcher_str, &probe);
    let resolved = config.resolve_jupiter_path(Some(explicit), None).expect("should resolve");
    assert_eq!(resolved, launcher_str);
    assert!(config.discovered_installation.is_some());

    let inst = config.discovered_installation.as_ref().expect("has installation");
    assert_eq!(inst.discovery_method, DiscoveryMethod::ExplicitConfig);
}

#[test]
fn test_jupiter_summary_not_configured() {
    let config = ConversionConfig::default();
    let summary = config.jupiter_summary();
    assert!(summary.contains("auto-discovery"));
}

#[test]
fn test_jupiter_summary_configured() {
    let config = ConversionConfig {
        jupiter_path: "C:/some/path/Start_It.bat".to_string(),
        ..Default::default()
    };
    let summary = config.jupiter_summary();
    assert!(summary.contains("Start_It.bat"));
}

#[test]
fn test_jupiter_summary_discovered() {
    let config = ConversionConfig {
        jupiter_path: "C:/Test/Start_It.bat".to_string(),
        discovered_installation: Some(JupiterInstallation {
            launcher_path: "C:/Test/Start_It.bat".to_string(),
            install_dir: "C:/Test".to_string(),
            display_name: Some("Jupiter-Web 5.0".to_string()),
            display_version: Some("5.0.2".to_string()),
            publisher: Some("TechnoStar".to_string()),
            discovery_method: DiscoveryMethod::WindowsRegistry,
        }),
        ..Default::default()
    };
    let summary = config.jupiter_summary();
    assert!(summary.contains("Jupiter-Web 5.0"));
    assert!(summary.contains("v5.0.2"));
    assert!(summary.contains("registry"));
}

#[test]
fn summary_of_discovered_installation_is_exact() {
    let config = ConversionConfig {
        discovered_installation: Some(JupiterInstallation {
            launcher_path: "/opt/jw/Start_It.bat".to_string(),
            install_dir: "/opt/jw".to_string(),
            display_name: None,
            display_version: None,
            publisher: None,
            discovery_method: DiscoveryMethod::CommonPath,
        }),
        ..Default::default()
    };
    assert_eq!(
        config.jupiter_summary(),
        "Jupiter-Web vunknown at /opt/jw/Start_It.bat (found via common path)"
    );
}

#[test]
fn effective_temp_root_defaults_below_system_temp() {
    let config = ConversionConfig::default();
    assert_eq!(config.effective_temp_root("/tmp"), "/tmp/TechnoStar");
    let custom = ConversionConfig { temp_root: Some("/var/work".to_string()), ..Default::default() };
    assert_eq!(custom.effective_temp_root("/tmp"), "/var/work");
}

#[test]
fn range_violations_name_out_of_range_fields() {
    let config = ConversionConfig {
        max_global_concurrency: 9,
        max_retries: 6,
        ..Default::default()
    };
    assert_eq!(config.range_violations(), vec!["max_global_concurrency", "max_retries"]);
    assert!(ConversionConfig::default().range_violations().is_empty());
}

#[test]
fn resolution_falls_back_to_discovery() {
    let mut config = ConversionConfig::default();
    let found = JupiterInstallation {
        launcher_path: "/opt/jw/Start_It.bat".to_string(),
        install_dir: "/opt/jw".to_string(),
        display_name: None,
        display_version: None,
        publisher: None,
        discovery_method: DiscoveryMethod::SystemPath,
    };
    let probe_listing: Vec<LauncherProbe> = Vec::new();
    assert!(probe_listing.is_empty());
    let resolved = config.resolve_jupiter_path(None, Some(Ok(found))).expect("resolved");
    assert_eq!(resolved, "/opt/jw/Start_It.bat");
    assert_eq!(config.jupiter_path, "/opt/jw/Start_It.bat");
}
