use filehub::models::{lookup_extension, ConversionInput, ConversionMode, ConversionOptions, FileType};
use filehub::scripting::ScriptingEngine;
use filehub::error::{ConversionError, ErrorClass};

fn ext(s: &str) -> Option<FileType> {
    let v: Vec<char> = s.chars().collect();
    lookup_extension(&v)
}

#[test]
fn test_extension_aliases() {
    assert!(ext("stp").is_some());
    assert!(ext("step").is_some());
    assert!(ext("igs").is_some());
    assert!(ext("iges").is_some());
    assert!(ext("x_t").is_some());
    assert!(ext("x_b").is_some());
    assert!(ext("sldprt").is_some());
    assert!(ext("sldasm").is_some());
}

#[test]
fn test_compound_extension_asm() {
    let lower = "assembly.asm.9".to_ascii_lowercase();
    assert!(lower.contains(".asm."));
    assert_eq!(FileType::from_path_ref("assembly.asm.9", None), Some(FileType::ProEngineerAssembly));
}

#[test]
fn test_step_alt_is_cad() {
    assert!(FileType::StepAlt.is_cad_format());
    assert!(FileType::IgesAlt.is_cad_format());
    assert!(FileType::ParasolidBinary.is_cad_format());
}

#[test]
fn test_nastran_dat_import() {
    let cmd = FileType::NastranDat.generate_import_command("/data/mesh.dat").expect("should generate");
    assert!(cmd.contains("ImportBdf"));
}

#[test]
fn test_options_assembly_no_primary() {
    let opts = ConversionOptions { mode: Some(ConversionMode::Assembly), primary_name: None, ..Default::default() };
    assert!(opts.get_primary_name().is_err());
}

#[test]
fn import_command_exact_text() {
    let cmd = FileType::NastranOp2.generate_import_command("C:\\r\\a.op2").expect("ok");
    assert_eq!(cmd, "JPT.Exec('CmdImportTSVOp2Post(\"C:/r/a.op2\", 1, 1.0472, 1.0472, 0, 0, 0)')");
    assert!(FileType::Zip.generate_import_command("/a.zip").is_err());
}

#[test]
fn export_mode_depends_on_cad() {
    let cad = FileType::Step.generate_export_command("/o/x.vtfx");
    let fea = FileType::NastranOp2.generate_export_command("/o/x.vtfx");
    assert_eq!(cad, "JPT.Exec('ExportVTFxFile(\"/o/x.vtfx\", 0, 0, 0, 1, [], 1, 0, 0, 0, 0, 1, 1)')");
    assert_eq!(fea, "JPT.Exec('ExportVTFxFile(\"/o/x.vtfx\", 1, 0, 0, 1, [], 1, 0, 0, 0, 0, 1, 1)')");
}

#[test]
fn classification_is_case_insensitive() {
    assert_eq!(FileType::from_path_ref("/data/PART.STP", None), Some(FileType::Step));
    assert_eq!(FileType::from_path_ref("/data/readme.md", None), None);
    assert_eq!(FileType::from_path_ref("model", None), None);
    assert_eq!(FileType::from_path_ref("/data/zip", None), None);
    assert_eq!(FileType::from_path_ref("part.model", None), Some(FileType::ProEngineerModel));
    let names = vec!["model.adv".to_string()];
    assert_eq!(FileType::from_path_ref("/data/run", Some(&names)), Some(FileType::ADVC));
}

#[test]
fn concurrency_is_clamped() {
    let opts = ConversionOptions { concurrency: Some(9), ..Default::default() };
    assert_eq!(opts.concurrency(), 4);
    let opts = ConversionOptions { concurrency: Some(0), ..Default::default() };
    assert_eq!(opts.concurrency(), 1);
}

#[test]
fn combine_mode_default_primary() {
    let opts = ConversionOptions { mode: Some(ConversionMode::Combine), primary_name: None, ..Default::default() };
    assert_eq!(opts.get_primary_name().expect("ok"), "combined_files");
}

fn make_input(name: &str, ft: FileType) -> ConversionInput {
    ConversionInput { path: format!("/data/{}", name), original_name: name.to_string(), file_type: ft }
}

#[test]
fn test_single_produces_two_lines() {
    let input = make_input("part.stp", FileType::Step);
    let content = ScriptingEngine::generate_single_content(&input, "/out/part.vtfx").expect("ok");
    assert_eq!(content.lines().count(), 2);
    assert!(content.contains("HoopsExchangeImport"));
    assert!(content.contains("ExportVTFxFile"));
}

#[test]
fn test_combine_produces_n_plus_one_lines() {
    let inputs = vec![
        make_input("a.stp", FileType::Step),
        make_input("b.igs", FileType::Iges),
        make_input("c.dwg", FileType::AutoCad),
    ];
    let content = ScriptingEngine::generate_combine_content(&inputs, "/out/combo.vtfx").expect("ok");
    assert_eq!(content.lines().count(), 4);
}

#[test]
fn test_empty_inputs_error() {
    let result = ScriptingEngine::script_content(&Vec::new(), "/out.vtfx", ConversionMode::Single, None);
    assert!(matches!(result, Err(ConversionError::NoInputs)));
}

#[test]
fn test_assembly_without_primary_error() {
    let inputs = vec![make_input("part.stp", FileType::Step)];
    let result = ScriptingEngine::script_content(&inputs, "/out.vtfx", ConversionMode::Assembly, None);
    assert!(matches!(result, Err(ConversionError::PrimaryNotSpecified)));
}

#[test]
fn error_messages_and_classes() {
    assert_eq!(ConversionError::JupiterTimeout { timeout_seconds: 600 }.message(), "Jupiter process timed out after 600s");
    assert_eq!(
        ConversionError::JupiterFailed { code: -3, stderr: "boom".to_string(), stdout: String::new() }.message(),
        "Jupiter exited with code -3: boom"
    );
    assert_eq!(
        ConversionError::ZipTooManyFiles { count: 10001, limit: 10000 }.message(),
        "ZIP contains 10001 files, exceeding limit of 10000"
    );
    assert_eq!(ConversionError::AtCapacity { max_slots: 4 }.class(), ErrorClass::ServiceUnavailable);
    assert_eq!(ConversionError::Cancelled.class(), ErrorClass::Conflict);
    assert_eq!(ConversionError::NoInputs.class(), ErrorClass::BadRequest);
    assert_eq!(ConversionError::JupiterKilled.class(), ErrorClass::Internal);
}

#[test]
fn import_commands_exist_for_cad_and_results_only() {
    let bdf = FileType::NastranBdf.generate_import_command("C:\\m\\a.bdf").expect("bdf");
    let dat = FileType::NastranDat.generate_import_command("C:\\m\\a.bdf").expect("dat");
    assert_eq!(bdf, dat);
    assert!(bdf.starts_with("JPT.Exec('"));
    assert!(bdf.contains("C:/m/a.bdf"));
    assert!(FileType::Step.generate_import_command("/m/a.stp").expect("step").contains("/m/a.stp"));
    assert!(FileType::AbaqusOdb.generate_import_command("/m/a.odb").is_ok());
    assert!(FileType::Zip.generate_import_command("/m/a.zip").is_err());
    assert!(FileType::Vtfx.generate_import_command("/m/a.vtfx").is_err());
}
