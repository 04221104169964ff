use filehub::cad_plugin::{create_plugin, create_plugin_with_config, upload_signal, CadConverterPlugin, UploadPayload, PLUGIN_NAME};
use filehub::config::ConversionConfig;
use filehub::jupiter::DiscoveryError;

#[test]
fn test_is_supported_file() {
    assert!(CadConverterPlugin::is_supported_file("model.stp"));
    assert!(CadConverterPlugin::is_supported_file("model.step"));
    assert!(CadConverterPlugin::is_supported_file("drawing.dwg"));
    assert!(CadConverterPlugin::is_supported_file("part.x_t"));
    assert!(CadConverterPlugin::is_supported_file("part.sldprt"));
    assert!(CadConverterPlugin::is_supported_file("mesh.bdf"));
    assert!(CadConverterPlugin::is_supported_file("mesh.dat"));
    assert!(CadConverterPlugin::is_supported_file("results.op2"));
    assert!(CadConverterPlugin::is_supported_file("vis.vtfx"));
    assert!(!CadConverterPlugin::is_supported_file("document.pdf"));
    assert!(!CadConverterPlugin::is_supported_file("image.png"));
    assert!(!CadConverterPlugin::is_supported_file("readme.md"));
    assert!(!CadConverterPlugin::is_supported_file("archive.tar.gz"));
}

#[test]
fn test_plugin_default_state() {
    let plugin = CadConverterPlugin::new();
    assert!(!plugin.is_initialized());
    assert!(plugin.processor().is_none());
    assert!(plugin.metrics_snapshot().is_none());
    assert!(plugin.config().enabled);
}

#[test]
fn test_plugin_disabled() {
    let config = ConversionConfig { enabled: false, ..Default::default() };
    let plugin = CadConverterPlugin::with_config(config);
    assert!(!plugin.config().enabled);
}

fn not_found() -> Option<Result<filehub::jupiter::JupiterInstallation, DiscoveryError>> {
    Some(Err(DiscoveryError::NotFound { guid: "{x}".to_string() }))
}

#[test]
fn test_plugin_initialize_enabled() {
    let config = ConversionConfig {
        enabled: true,
        temp_root: Some("/tmp/filehub_plugin_init_test".to_string()),
        ..Default::default()
    };
    let mut plugin = CadConverterPlugin::with_config(config);
    plugin.initialize(None, not_found(), Ok(()), "/tmp").expect("should initialize");
    assert!(plugin.is_initialized());
    assert!(plugin.processor().is_some());
    assert!(plugin.metrics_snapshot().is_some());
}

#[test]
fn test_plugin_initialize_disabled() {
    let config = ConversionConfig { enabled: false, ..Default::default() };
    let mut plugin = CadConverterPlugin::with_config(config);
    plugin.initialize(None, None, Ok(()), "/tmp").expect("should succeed");
    assert!(!plugin.is_initialized());
    assert!(plugin.processor().is_none());
}

#[test]
fn initialize_reports_temp_root_failure() {
    let mut plugin = CadConverterPlugin::new();
    let err = plugin.initialize(None, not_found(), Err("denied".to_string()), "/tmp").unwrap_err();
    assert_eq!(err, "Failed to create conversion processor: IO error: denied");
    assert!(!plugin.is_initialized());
}

fn payload(name: Option<&str>) -> UploadPayload {
    UploadPayload {
        file_name: name.map(|s| s.to_string()),
        file_id: None,
        storage_id: None,
        storage_path: None,
    }
}

#[test]
fn test_after_upload_handler_cad_file() {
    let p = UploadPayload {
        file_name: Some("model.stp".to_string()),
        file_id: Some("f-1".to_string()),
        storage_id: Some("s-1".to_string()),
        storage_path: Some("/storage/local/model.stp".to_string()),
    };
    let signal = upload_signal(&p, 4).expect("should have output");
    assert!(!signal.is_vtfx_passthrough);
    assert_eq!(signal.file_type, "Step");
    assert_eq!(signal.input_path, "/storage/local/model.stp");
    assert_eq!(signal.file_id, "f-1");
    assert_eq!(signal.available_slots, 4);
    assert_eq!(PLUGIN_NAME, "cad-converter");
}

#[test]
fn test_after_upload_handler_non_cad_file() {
    assert!(upload_signal(&payload(Some("document.pdf")), 4).is_none());
}

#[test]
fn test_after_upload_handler_vtfx_passthrough() {
    let signal = upload_signal(&payload(Some("visualization.vtfx")), 4).expect("should have output");
    assert!(signal.is_vtfx_passthrough);
    assert_eq!(signal.file_id, "unknown");
    assert_eq!(signal.storage_id, "unknown");
    assert_eq!(signal.input_path, "");
}

#[test]
fn test_after_upload_handler_missing_filename() {
    assert!(upload_signal(&payload(None), 4).is_none());
}

#[test]
fn test_after_upload_handler_results_format() {
    let signal = upload_signal(&payload(Some("analysis.op2")), 4).expect("should have output");
    assert!(signal.is_results_format);
    assert!(!signal.is_vtfx_passthrough);
}

#[test]
fn test_factory_functions() {
    let p1 = create_plugin();
    assert!(p1.config().enabled);
    let p2 = create_plugin_with_config(ConversionConfig { enabled: false, ..Default::default() });
    assert!(!p2.config().enabled);
}
