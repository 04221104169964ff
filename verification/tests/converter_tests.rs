use filehub::converter::{
    assemble_conversion, failed_result, finish_conversion, target_outcome, CadConverter, ConversionRequest,
};
use filehub::executor::{
    command_locator, interpret_outcome, take_chars, ConversionExecutor, ExecutionParams, ExecutionResult, ExecutorError,
    ProcessOutcome,
};
use filehub::mapping::{CadFormat, ConversionMapping, ConversionTarget};

fn converter() -> CadConverter {
    CadConverter::new(ConversionMapping::default_mappings(), "/tmp/conv".to_string())
}

fn request(name: &str, targets: Vec<ConversionTarget>) -> ConversionRequest {
    ConversionRequest {
        file_id: "f1".to_string(),
        file_name: name.to_string(),
        source_path: format!("/store/{}", name),
        targets,
        output_dir: "/out".to_string(),
        job_id: "job7".to_string(),
    }
}

#[test]
fn convertible_and_format() {
    let c = converter();
    assert!(c.is_convertible("drawing.DWG"));
    assert!(!c.is_convertible("notes.txt"));
    assert!(!c.is_convertible("noext"));
    assert_eq!(c.detect_format("part.STEP"), Some(CadFormat::Step));
    assert_eq!(c.detect_format("x.unknown"), None);
}

#[test]
fn plan_skips_unsupported_targets() {
    let c = converter();
    let targets = c.supported_targets("a.dwg");
    assert!(!targets.is_empty());
    let supported = targets[0];
    let req = request("a.dwg", vec![ConversionTarget::Gltf, supported]);
    let plan = c.plan_conversion(&req).expect("plan");
    assert_eq!(plan.extension, "dwg");
    assert_eq!(plan.job_temp_dir, "/tmp/conv/cad_conversion/job7");
    let kept: Vec<ConversionTarget> = plan.steps.iter().map(|s| s.target).collect();
    let expected: Vec<ConversionTarget> = req.targets.iter().copied().filter(|t| targets.contains(t)).collect();
    assert_eq!(kept, expected);
    for step in &plan.steps {
        assert_eq!(step.params.input_path, "/store/a.dwg");
        assert_eq!(step.params.output_path, format!("/out/a.{}", step.target.extension()));
        assert_eq!(step.params.working_dir.as_deref(), Some("/tmp/conv/cad_conversion/job7"));
        assert!(step.params.env_vars.is_empty());
        for arg in &step.params.args {
            assert!(!arg.contains("{input}"));
            assert!(!arg.contains("{output}"));
        }
    }
}

#[test]
fn plan_failures() {
    let c = converter();
    assert_eq!(c.plan_conversion(&request("noext", vec![])).unwrap_err(), "Could not determine file extension");
    assert_eq!(
        c.plan_conversion(&request("a.xyz", vec![])).unwrap_err(),
        "No conversion mapping found for extension 'xyz'"
    );
}

#[test]
fn substitute_args_fills_placeholders() {
    let e = ConversionExecutor::new("/tmp".to_string());
    let args = vec![
        "{input}".to_string(),
        "-o={output}".to_string(),
        "{format}:{input_dir}|{output_dir}".to_string(),
        "{input}{input}".to_string(),
    ];
    let r = e.substitute_args(&args, "/in/a.dwg", "/out/a.pdf", "pdf");
    assert_eq!(r, vec!["/in/a.dwg", "-o=/out/a.pdf", "pdf:/in|/out", "/in/a.dwg/in/a.dwg"]);
    assert_eq!(e.job_temp_dir("j"), "/tmp/cad_conversion/j");
    assert_eq!(command_locator(true), "where");
    assert_eq!(command_locator(false), "which");
}

fn params() -> ExecutionParams {
    ExecutionParams {
        command: "conv".to_string(),
        args: vec![],
        working_dir: None,
        env_vars: vec![],
        timeout_seconds: 30,
        input_path: "/in/a.dwg".to_string(),
        output_path: "/out/a.pdf".to_string(),
    }
}

#[test]
fn process_outcomes() {
    let p = params();
    let long = "e".repeat(2500);
    match interpret_outcome(&p, ProcessOutcome::Exited { success: false, code: None, stdout: String::new(), stderr: long, output_size: None }, 5) {
        Err(ExecutorError::ProcessFailed { code, stderr }) => {
            assert_eq!(code, -1);
            assert_eq!(stderr.chars().count(), 2000);
        }
        other => panic!("unexpected {:?}", other),
    }
    let ok = interpret_outcome(&p, ProcessOutcome::Exited { success: true, code: Some(0), stdout: "o".into(), stderr: String::new(), output_size: Some(9) }, 5).expect("ok");
    assert_eq!(ok.output_path.as_deref(), Some("/out/a.pdf"));
    let missing = interpret_outcome(&p, ProcessOutcome::Exited { success: true, code: Some(0), stdout: String::new(), stderr: String::new(), output_size: None }, 5).expect("ok");
    assert!(missing.output_path.is_none());
    assert!(matches!(interpret_outcome(&p, ProcessOutcome::TimedOut, 5), Err(ExecutorError::Timeout(30))));
    assert_eq!(ExecutorError::Timeout(30).message(), "Conversion timed out after 30 seconds");
    assert_eq!(take_chars("héllo", 2), "hé");
}

#[test]
fn outcomes_add_up() {
    let req = request("a.dwg", vec![ConversionTarget::Pdf]);
    let (failed, err) = target_outcome(ConversionTarget::Pdf, Err(ExecutorError::Timeout(30)), 3);
    assert!(!failed.success);
    assert_eq!(err.as_deref(), Some("Conversion to pdf failed: Conversion timed out after 30 seconds"));
    assert_eq!(failed.mime_type, "application/pdf");
    let result = finish_conversion(&req, vec![failed], vec![err.unwrap()], 10);
    assert!(!result.success);
    assert_eq!(result.errors.len(), 1);
    let early = failed_result(&req, "boom".to_string(), 1);
    assert!(!early.success);
    assert_eq!(early.errors, vec!["boom".to_string()]);
}

#[test]
fn tool_checks_are_distinct() {
    let c = converter();
    let plan = c.tool_check_plan();
    let mut commands: Vec<&String> = plan.iter().map(|(cmd, _)| cmd).collect();
    let n = commands.len();
    commands.dedup();
    commands.sort();
    commands.dedup();
    assert_eq!(commands.len(), n);
    assert!(n >= 1);
}

#[test]
fn lookups_ignore_extension_case() {
    assert_eq!(CadFormat::from_extension("DWG"), Some(CadFormat::Dwg));
    let mapping = ConversionMapping::default_mappings();
    assert!(mapping.get_mapping("StEp").is_some());
    assert!(mapping.is_cad_file("DXF"));
}

#[test]
fn whole_conversion_follows_plan_order() {
    let c = converter();
    let supported = c.supported_targets("a.dwg");
    assert!(supported.len() >= 2);
    let req = request("a.dwg", vec![supported[1], supported[0]]);
    let plan = c.plan_conversion(&req).expect("plan");
    assert_eq!(plan.steps.len(), 2);
    let ok = ExecutionResult {
        success: true,
        output_path: Some("/out/a.x".to_string()),
        stdout: String::new(),
        stderr: String::new(),
        exit_code: Some(0),
        duration_ms: 4,
        output_size: Some(12),
    };
    let outcomes = vec![(Err(ExecutorError::Timeout(30)), 7), (Ok(ok), 4)];
    let result = assemble_conversion(&req, &plan, outcomes, 20);
    assert_eq!(result.file_id, "f1");
    assert_eq!(result.job_id, "job7");
    assert!(result.success);
    assert_eq!(result.total_duration_ms, 20);
    assert_eq!(result.target_results.len(), 2);
    assert_eq!(result.target_results[0].target, supported[1]);
    assert_eq!(result.target_results[1].target, supported[0]);
    assert!(!result.target_results[0].success);
    assert!(result.target_results[1].success);
    assert_eq!(result.target_results[1].output_size, Some(12));
    assert_eq!(result.target_results[0].duration_ms, 7);
    assert_eq!(result.target_results[1].mime_type, supported[0].mime_type());
    assert_eq!(
        result.errors,
        vec![format!("Conversion to {} failed: Conversion timed out after 30 seconds", supported[1].extension())]
    );
}

#[test]
fn uppercase_names_convert() {
    let c = converter();
    assert!(c.is_convertible("Drawing.DWG"));
    let mapping = ConversionMapping::default_mappings();
    assert_eq!(mapping.get_mapping("DWG").map(|e| e.command.clone()), mapping.get_mapping("dwg").map(|e| e.command.clone()));
}
