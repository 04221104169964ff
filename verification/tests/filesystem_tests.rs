use filehub::filesystem::FsUtils;
use filehub::models::{ConversionInput, FileType};

#[test]
fn test_sanitize_stem_edge_cases() {
    assert_eq!(FsUtils::sanitize_stem("a b c.stp"), "a_b_c");
    assert_eq!(FsUtils::sanitize_stem("file<>:\"|?*.dwg"), "file");
    assert_eq!(FsUtils::sanitize_stem(""), "unnamed_file");

    let long_name = "a".repeat(300) + ".stp";
    let result = FsUtils::sanitize_stem(&long_name);
    assert_eq!(result.len(), 200);
}

#[test]
fn test_unique_filename_uniqueness() {
    let a = FsUtils::generate_unique_filename("test.stp", "vtfx");
    let b = FsUtils::generate_unique_filename("test.stp", "vtfx");
    assert_ne!(a, b);
}

#[test]
fn unique_filename_shape() {
    let name = FsUtils::generate_unique_filename("my part.stp", "vtfx");
    assert!(name.starts_with("my_part__"));
    assert!(name.ends_with(".vtfx"));
    let token = &name["my_part__".len()..name.len() - ".vtfx".len()];
    assert_eq!(token.len(), 32);
    assert!(token.chars().all(|c| c.is_ascii_hexdigit() && !c.is_ascii_uppercase()));
}

#[test]
fn unique_filename_with_token_is_exact() {
    assert_eq!(FsUtils::unique_filename_with("a b.stp", "0123", "vtfx"), "a_b__0123.vtfx");
}

#[test]
fn extract_filename_falls_back() {
    assert_eq!(FsUtils::extract_filename_str("/data/model.stp"), "model.stp");
    assert_eq!(FsUtils::extract_filename_str("/"), "unknown_file");
}

fn input(path: &str, name: &str) -> ConversionInput {
    ConversionInput { path: path.to_string(), original_name: name.to_string(), file_type: FileType::Step }
}

#[test]
fn primary_input_found_by_file_name() {
    let inputs = vec![input("/data/a.stp", "a.stp"), input("/data/b.stp", "b.stp")];
    let found = FsUtils::find_primary_input(&inputs, Some("b.stp")).expect("found");
    assert_eq!(found.path, "/data/b.stp");
    assert!(FsUtils::find_primary_input(&inputs, Some("c.stp")).is_err());
    assert!(FsUtils::find_primary_input(&inputs, None).is_err());
}

#[test]
fn conversion_result_checks_size() {
    let i = input("/data/a.stp", "a.stp");
    assert!(FsUtils::create_conversion_result(&i, "/out/a.vtfx", 0, 1).is_err());
    let r = FsUtils::create_conversion_result(&i, "/out/a.vtfx", 10, 1).expect("ok");
    assert_eq!(r.filename, "a.vtfx");
    assert_eq!(r.destination, "/out");
    assert_eq!(r.size, 10);
}

#[test]
fn zip_limits() {
    assert!(FsUtils::check_zip_entry_count(10_000).is_ok());
    assert!(FsUtils::check_zip_entry_count(10_001).is_err());
    assert_eq!(FsUtils::add_extracted_size(5, 7).expect("ok"), 12);
    assert!(FsUtils::add_extracted_size(FsUtils::MAX_EXTRACTED_SIZE, 1).is_err());
}
