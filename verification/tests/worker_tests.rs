use filehub::worker::{
    is_older_than, report_period, MAX_VERSIONS_PER_FILE, TEMP_MAX_AGE_MS, WEEK_MS,
    default_queues, default_schedule, job_action, parse_conversion_job, pool_task_step, resolve_task,
    ConversionPayload, JobAction, JobExecutionError, JobPriority, PoolTaskStep,
};

#[test]
fn transient_failures_retry_while_attempts_left() {
    assert!(matches!(job_action(Some(0), Some(3), Err(JobExecutionError::Transient("t".into()))), JobAction::Retry));
    match job_action(Some(2), Some(3), Err(JobExecutionError::Transient("t".into()))) {
        JobAction::Fail(m) => assert_eq!(m, "t"),
        other => panic!("unexpected {:?}", other),
    }
    match job_action(None, None, Err(JobExecutionError::Internal("db".into()))) {
        JobAction::Fail(m) => assert_eq!(m, "db"),
        other => panic!("unexpected {:?}", other),
    }
    assert!(matches!(job_action(Some(9), Some(1), Ok(())), JobAction::Complete));
}

#[test]
fn queues_and_schedule() {
    assert_eq!(default_queues(), vec!["critical", "conversion", "default", "maintenance"]);
    let s = default_schedule();
    assert_eq!(s.len(), 9);
    assert_eq!(s[5].job_type, "pool_sync");
    assert_eq!(s[5].cron, "*/15 * * * * *");
    assert_eq!(s[5].priority, JobPriority::High);
    assert_eq!(s[4].max_attempts, 3);
}

#[test]
fn tasks_resolve_by_name() {
    let known = vec!["weekly_report", "storage_usage"];
    assert_eq!(resolve_task(None, "weekly_report", &known, "report").expect("ok"), 0);
    assert_eq!(resolve_task(Some("storage_usage"), "weekly_report", &known, "report").expect("ok"), 1);
    match resolve_task(Some("x"), "weekly_report", &known, "report") {
        Err(JobExecutionError::Permanent(m)) => assert_eq!(m, "Unknown report task: 'x'"),
        other => panic!("unexpected {:?}", other),
    }
    match resolve_task(None, "", &vec!["rebuild_indexes"], "maintenance") {
        Err(JobExecutionError::Permanent(m)) => assert_eq!(m, "Unknown maintenance task: ''"),
        other => panic!("unexpected {:?}", other),
    }
}

fn payload(file_id: Option<&str>) -> ConversionPayload {
    ConversionPayload {
        file_id: file_id.map(|s| s.to_string()),
        file_name: Some("a.dwg".into()),
        source_path: Some("/s/a.dwg".into()),
        targets: None,
        output_dir: None,
    }
}

#[test]
fn conversion_payload_parsing() {
    let job = parse_conversion_job(payload(Some("67e55044-10b1-426f-9247-bb680e5fe0c8")), "j1".into()).expect("ok");
    assert_eq!(job.file_id, 0x67e5504410b1426f9247bb680e5fe0c8);
    assert_eq!(job.output_dir, "./data/cache/conversions");
    assert!(job.targets.is_empty());
    match parse_conversion_job(payload(None), "j1".into()) {
        Err(JobExecutionError::Permanent(m)) => assert_eq!(m, "Missing file_id in conversion payload"),
        other => panic!("unexpected {:?}", other),
    }
    match parse_conversion_job(payload(Some("not-a-uuid")), "j1".into()) {
        Err(JobExecutionError::Permanent(m)) => assert!(m.starts_with("Invalid file_id: ")),
        other => panic!("unexpected {:?}", other),
    }
}

#[test]
fn pool_task_steps() {
    assert!(matches!(pool_task_step(false, true), Err(JobExecutionError::Permanent(_))));
    assert_eq!(pool_task_step(true, false).expect("ok"), PoolTaskStep::Skip);
    assert_eq!(pool_task_step(true, true).expect("ok"), PoolTaskStep::Run);
}

#[test]
fn cleanup_cutoffs_and_report_period() {
    let now: i64 = 1_700_000_000_000;
    assert!(is_older_than(now - TEMP_MAX_AGE_MS - 1, now, TEMP_MAX_AGE_MS));
    assert!(!is_older_than(now - TEMP_MAX_AGE_MS, now, TEMP_MAX_AGE_MS));
    assert!(!is_older_than(now - 1_000, now, TEMP_MAX_AGE_MS));
    assert_eq!(TEMP_MAX_AGE_MS, 24 * 60 * 60 * 1000);
    assert_eq!(MAX_VERSIONS_PER_FILE, 10);
    assert_eq!(report_period(now), (now - 7 * 24 * 60 * 60 * 1000, now));
    assert_eq!(WEEK_MS, 7 * TEMP_MAX_AGE_MS);
}
