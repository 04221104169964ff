use filehub::config::ConversionConfig;
use filehub::error::ConversionError;
use filehub::input_resolver::{InputAction, InputResolver, PathKind};
use filehub::models::{ConversionInput, ConversionOptions, ConversionMode, FileType};
use filehub::processor::{
    jupiter_args, partition_inputs, pipeline_next, ConversionProcessor, JupiterExit, OutputProbe, PipelineAction,
    PipelineStage, RetryStep,
};
use std::time::Duration;

fn processor() -> ConversionProcessor {
    let config = ConversionConfig { temp_root: Some("/tmp/filehub_test_processor".to_string()), ..Default::default() };
    ConversionProcessor::new(config, "/tmp")
}

#[test]
fn test_processor_creation() {
    let p = processor();
    assert_eq!(p.config().max_global_concurrency, 4);
    assert_eq!(p.temp_root(), "/tmp/filehub_test_processor");
}

#[test]
fn test_validate_output_nonexistent() {
    let p = processor();
    let result = p.validate_output("/nonexistent/file.vtfx", &OutputProbe::Missing);
    assert!(matches!(result, Err(ConversionError::OutputNotCreated { .. })));
}

#[test]
fn test_metrics_accessible() {
    let p = processor();
    let snap = p.metrics_snapshot();
    assert_eq!(snap.conversions_started, 0);
}

#[test]
fn output_below_minimum_is_empty() {
    let p = processor();
    assert!(matches!(p.validate_output("/o/x.vtfx", &OutputProbe::Present(0)), Err(ConversionError::OutputEmpty { .. })));
    assert!(matches!(p.validate_output("/o/x.vtfx", &OutputProbe::Present(99)), Err(ConversionError::OutputEmpty { .. })));
    assert!(p.validate_output("/o/x.vtfx", &OutputProbe::Present(100)).is_ok());
}

#[test]
fn jupiter_arguments() {
    assert_eq!(jupiter_args("/tmp/s.py"), vec!["-b", "-py", "/tmp/s.py", "-keywebapp"]);
}

#[test]
fn jupiter_exit_meanings() {
    let p = processor();
    assert!(p.interpret_jupiter_exit(JupiterExit::Exited { success: true, code: Some(0), stdout: String::new(), stderr: String::new() }).is_ok());
    match p.interpret_jupiter_exit(JupiterExit::Exited { success: false, code: None, stdout: "o".into(), stderr: "e".into() }) {
        Err(ConversionError::JupiterFailed { code, stderr, stdout }) => {
            assert_eq!(code, -1);
            assert_eq!(stderr, "e");
            assert_eq!(stdout, "o");
        }
        other => panic!("unexpected {:?}", other),
    }
    assert!(matches!(p.interpret_jupiter_exit(JupiterExit::TimedOut), Err(ConversionError::JupiterTimeout { timeout_seconds: 600 })));
    assert!(matches!(p.interpret_jupiter_exit(JupiterExit::Cancelled), Err(ConversionError::Cancelled)));
}

#[test]
fn retries_stop_after_max_and_keep_last_error() {
    let config = ConversionConfig { max_retries: 1, retry_delay_seconds: 7, ..Default::default() };
    let mut p = ConversionProcessor::new(config, "/tmp");
    let mut retry = p.new_retry();
    match p.begin_attempt(&retry, false) {
        RetryStep::Run { attempt, delay_seconds } => {
            assert_eq!(attempt, 0);
            assert_eq!(delay_seconds, 0);
        }
        other => panic!("unexpected {:?}", other),
    }
    assert!(p.finish_attempt(&mut retry, Err(ConversionError::JupiterKilled)).is_none());
    match p.begin_attempt(&retry, false) {
        RetryStep::Run { attempt, delay_seconds } => {
            assert_eq!(attempt, 1);
            assert_eq!(delay_seconds, 7);
        }
        other => panic!("unexpected {:?}", other),
    }
    assert!(p.finish_attempt(&mut retry, Err(ConversionError::Io("x".into()))).is_none());
    match p.begin_attempt(&retry, false) {
        RetryStep::Done(Err(ConversionError::Io(m))) => assert_eq!(m, "x"),
        other => panic!("unexpected {:?}", other),
    }
    assert_eq!(retry.attempts_begun(), 2);
}

#[test]
fn timeout_is_not_retried() {
    let mut p = processor();
    let mut retry = p.new_retry();
    let _ = p.begin_attempt(&retry, false);
    let done = p.finish_attempt(&mut retry, Err(ConversionError::JupiterTimeout { timeout_seconds: 1 }));
    assert!(matches!(done, Some(Err(ConversionError::JupiterTimeout { timeout_seconds: 600 }))));
    let snap = p.metrics_snapshot();
    assert_eq!(snap.conversions_timed_out, 1);
    assert_eq!(snap.conversions_failed, 1);
}

#[test]
fn cancellation_before_attempt() {
    let mut p = processor();
    let retry = p.new_retry();
    assert!(matches!(p.begin_attempt(&retry, true), RetryStep::Done(Err(ConversionError::Cancelled))));
    assert_eq!(p.metrics_snapshot().conversions_cancelled, 1);
}

fn input(name: &str, t: FileType) -> ConversionInput {
    ConversionInput { path: format!("/in/{}", name), original_name: name.to_string(), file_type: t }
}

#[test]
fn partition_keeps_order() {
    let (vtfx, cad) = partition_inputs(vec![
        input("a.vtfx", FileType::Vtfx),
        input("b.stp", FileType::Step),
        input("c.vtfx", FileType::Vtfx),
        input("d.op2", FileType::NastranOp2),
    ]);
    let v: Vec<&str> = vtfx.iter().map(|i| i.original_name.as_str()).collect();
    let c: Vec<&str> = cad.iter().map(|i| i.original_name.as_str()).collect();
    assert_eq!(v, vec!["a.vtfx", "c.vtfx"]);
    assert_eq!(c, vec!["b.stp", "d.op2"]);
}

#[test]
fn single_conversion_counts() {
    let mut p = processor();
    let i = input("part.stp", FileType::Step);
    let out = p.start_single(&i, "/out");
    assert!(out.starts_with("/out/part__"));
    let r = p.finish_single(&i, &out, Ok(()), &OutputProbe::Present(2048), Duration::from_millis(5)).expect("ok");
    assert_eq!(r.size, 2048);
    assert_eq!(r.original_name, "part.stp");
    let failed = p.finish_single(&i, &out, Err(ConversionError::JupiterKilled), &OutputProbe::Missing, Duration::from_millis(1));
    assert!(failed.is_err());
    let snap = p.metrics_snapshot();
    assert_eq!(snap.conversions_started, 1);
    assert_eq!(snap.conversions_succeeded, 1);
    assert_eq!(snap.conversions_failed, 1);
    assert_eq!(snap.total_output_bytes, 2048);
    assert_eq!(snap.duration_p50, Some(5_000_000));
}

#[test]
fn multi_needs_primary() {
    let p = processor();
    let inputs = vec![input("a.stp", FileType::Step), input("b.stp", FileType::Step)];
    let opts = ConversionOptions { mode: Some(ConversionMode::Assembly), primary_name: None, ..Default::default() };
    assert!(matches!(p.plan_multi(&inputs, "/out", &opts), Err(ConversionError::PrimaryNotSpecified)));
    let opts = ConversionOptions { mode: Some(ConversionMode::Assembly), primary_name: Some("b.stp".into()), ..Default::default() };
    let (primary, out) = p.plan_multi(&inputs, "/out", &opts).expect("ok");
    assert_eq!(primary.path, "/in/b.stp");
    assert!(out.starts_with("/out/b__"));
}

#[test]
fn test_resolve_skips_nonexistent() {
    let mut resolver = InputResolver::new("/tmp/job".to_string(), false);
    let action = resolver.classify_input("/nonexistent/file.stp".to_string(), PathKind::Missing);
    assert!(matches!(action, InputAction::Skip));
    assert!(resolver.source_cleanup_list().is_empty());
}

#[test]
fn test_extraction_dirs_tracked() {
    let resolver = InputResolver::new("/tmp".to_string(), false);
    assert!(resolver.extraction_dirs().is_empty());
}

#[test]
fn resolver_decides_by_kind() {
    let mut resolver = InputResolver::new("/tmp/job".to_string(), true);
    assert!(matches!(resolver.classify_input("/in/a.zip".into(), PathKind::File), InputAction::ExtractArchive(_)));
    match resolver.classify_input("/in/b.STEP".into(), PathKind::File) {
        InputAction::Single(i) => {
            assert_eq!(i.file_type, FileType::StepAlt);
            assert_eq!(i.original_name, "b.STEP");
        }
        other => panic!("unexpected {:?}", other),
    }
    assert!(matches!(resolver.classify_input("/in/dir".into(), PathKind::Directory), InputAction::ScanDirectory(_)));
    resolver.record_extraction("/tmp/job/x".into());
    assert_eq!(resolver.source_cleanup_list().len(), 3);
    assert_eq!(resolver.extraction_dirs(), &vec!["/tmp/job/x".to_string()]);
}

#[test]
fn pipeline_checks_cancellation_before_work() {
    assert_eq!(pipeline_next(PipelineStage::Start, true), PipelineAction::Cancel);
    assert_eq!(pipeline_next(PipelineStage::Start, false), PipelineAction::Resolve);
    assert_eq!(pipeline_next(PipelineStage::Resolved { vtfx: 0, cad: 0 }, true), PipelineAction::NothingToDo);
    assert_eq!(pipeline_next(PipelineStage::Resolved { vtfx: 1, cad: 2 }, false), PipelineAction::ProcessVtfx);
    assert_eq!(pipeline_next(PipelineStage::Resolved { vtfx: 0, cad: 2 }, false), PipelineAction::ProcessCad);
    assert_eq!(pipeline_next(PipelineStage::Resolved { vtfx: 1, cad: 0 }, true), PipelineAction::Cancel);
    assert_eq!(pipeline_next(PipelineStage::VtfxDone { cad: 0 }, true), PipelineAction::Finish);
    assert_eq!(pipeline_next(PipelineStage::VtfxDone { cad: 3 }, true), PipelineAction::Cancel);
    assert_eq!(pipeline_next(PipelineStage::VtfxDone { cad: 3 }, false), PipelineAction::ProcessCad);
    assert_eq!(pipeline_next(PipelineStage::CadDone, true), PipelineAction::Finish);
}

#[test]
fn classify_inputs_tracks_existing_sources_in_order() {
    let mut resolver = InputResolver::new("/job".to_string(), false);
    let inputs = vec!["/in/a.stp".to_string(), "/gone/b.stp".to_string(), "/in/dir".to_string()];
    let kinds = vec![PathKind::File, PathKind::Missing, PathKind::Directory];
    let actions = resolver.classify_inputs(inputs, &kinds);
    assert_eq!(actions.len(), 3);
    assert!(matches!(&actions[0], InputAction::Single(i) if i.file_type == FileType::Step));
    assert!(matches!(actions[1], InputAction::Skip));
    assert!(matches!(&actions[2], InputAction::ScanDirectory(d) if d == "/in/dir"));
    assert_eq!(resolver.source_cleanup_list(), &vec!["/in/a.stp".to_string(), "/in/dir".to_string()]);
}
