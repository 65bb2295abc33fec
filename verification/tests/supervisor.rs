use nsq_supervisor::config::{Config, ServiceSpec};
use nsq_supervisor::cycle::{
    build_launch, plan_cycle, resolved_command, CycleRun, LaunchOutcome, CYCLE_PAUSE_UNITS,
    SETTLE_PAUSE_UNITS,
};
use nsq_supervisor::probe::ProcessRecord;
use nsq_supervisor::shutdown::{
    classify_kill_result, shutdown_plan, Platform, ShutdownSequence, StopOutcome,
    TerminationAction,
};
use nsq_supervisor::text::contains_substring;

fn svc(name: &str, command: &str) -> ServiceSpec {
    ServiceSpec {
        name: name.to_string(),
        command: command.to_string(),
        args: vec![format!("--name={}", name)],
        log_file: format!("{}.log", name),
    }
}

fn proc_rec(name: &str, cmd: &[&str]) -> ProcessRecord {
    ProcessRecord {
        name: name.to_string(),
        cmd: cmd.iter().map(|s| s.to_string()).collect(),
    }
}

fn two_service_config() -> Config {
    Config {
        root: "/opt/nsq".to_string(),
        services: vec![svc("nsqd", "nsqd"), svc("nsqadmin", "nsqadmin")],
    }
}

#[test]
fn substring_empty_pattern_always_found() {
    assert!(contains_substring("abc", ""));
    assert!(contains_substring("", ""));
}

#[test]
fn substring_basic_cases() {
    assert!(contains_substring("hello world", "lo w"));
    assert!(contains_substring("abc", "abc"));
    assert!(!contains_substring("abc", "abcd"));
    assert!(!contains_substring("abc", "d"));
    assert!(!contains_substring("", "a"));
}

#[test]
fn resolved_command_joins_relative_to_root() {
    let r = resolved_command("/opt/nsq", "nsqd");
    assert_eq!(r, "/opt/nsq/nsqd");
}

#[test]
fn resolved_command_keeps_absolute_paths() {
    assert_eq!(resolved_command("/opt/nsq", "/usr/bin/nsqd"), "/usr/bin/nsqd");
    assert_eq!(resolved_command("C:/nsq", "\\tools\\nsqd.exe"), "\\tools\\nsqd.exe");
    assert_eq!(resolved_command("/opt/nsq", "C:\\nsq\\nsqd.exe"), "C:\\nsq\\nsqd.exe");
    assert_eq!(resolved_command("/opt/nsq", "d:/nsq/nsqd"), "d:/nsq/nsqd");
    // A lone letter, or a colon later in the name, is still relative.
    assert_eq!(resolved_command("/opt/nsq", "n"), "/opt/nsq/n");
    assert_eq!(resolved_command("/opt/nsq", "nsqd:1"), "/opt/nsq/nsqd:1");
}

#[test]
fn probe_finds_matching_process() {
    let s = svc("nsqd", "nsqd");
    let table = vec![proc_rec("nsqd.exe", &["/opt/nsq/nsqd", "--name=nsqd"])];
    assert!(s.is_running(&table));
}

#[test]
fn probe_needs_name_in_process_name() {
    let s = svc("nsqd", "nsqd");
    let table = vec![proc_rec("other.exe", &["/opt/nsq/nsqd", "--name=nsqd"])];
    assert!(!s.is_running(&table));
}

#[test]
fn probe_needs_name_in_some_argument() {
    let s = svc("nsqd", "nsqd");
    let table = vec![proc_rec("nsqd.exe", &["--quiet"])];
    assert!(!s.is_running(&table));
}

#[test]
fn probe_empty_table_reports_absent() {
    let s = svc("nsqd", "nsqd");
    assert!(!s.is_running(&Vec::new()));
}

#[test]
fn probe_is_a_heuristic_and_accepts_lookalikes() {
    // An unrelated process whose name and arguments happen to mention the
    // service name satisfies the heuristic: a documented false positive.
    let s = svc("nsqd", "nsqd");
    let table = vec![proc_rec("nsqd-backup-tool", &["archive", "old-nsqd-logs"])];
    assert!(s.is_running(&table));
}

#[test]
fn build_launch_keeps_args_and_log_file() {
    let s = svc("nsqd", "nsqd");
    let l = build_launch("/opt/nsq", &s);
    assert_eq!(l.program, "/opt/nsq/nsqd");
    assert_eq!(l.args, vec!["--name=nsqd".to_string()]);
    assert_eq!(l.log_file, "nsqd.log");
}

#[test]
fn cycle_launches_every_absent_service_in_order() {
    let cfg = two_service_config();
    let plan = plan_cycle(&cfg, &Vec::new());
    assert_eq!(plan.len(), 2);
    assert_eq!(plan[0].name, "nsqd");
    assert_eq!(plan[1].name, "nsqadmin");
    for d in &plan {
        assert!(!d.running);
        assert!(d.launch.is_some());
        assert_eq!(d.settle_pause, SETTLE_PAUSE_UNITS);
    }
    assert_eq!(CYCLE_PAUSE_UNITS, 10);
    assert_eq!(SETTLE_PAUSE_UNITS, 5);
}

#[test]
fn cycle_skips_running_service() {
    let cfg = two_service_config();
    let table = vec![
        proc_rec("nsqd", &["/opt/nsq/nsqd", "--name=nsqd"]),
        proc_rec("nsqadmin", &["/opt/nsq/nsqadmin", "--name=nsqadmin"]),
    ];
    let plan = plan_cycle(&cfg, &table);
    assert_eq!(plan.len(), 2);
    for d in &plan {
        assert!(d.running);
        assert!(d.launch.is_none());
        assert_eq!(d.settle_pause, 0);
    }
}

#[test]
fn one_absent_one_present_cycle_scenario() {
    // Service A is absent, service B is present: A gets one launch attempt
    // followed by the settle pause, B gets none, and the cycle then pauses.
    let cfg = Config {
        root: "/opt/nsq".to_string(),
        services: vec![svc("svc-a", "svc-a"), svc("svc-b", "svc-b")],
    };
    let table = vec![proc_rec("svc-b", &["/opt/nsq/svc-b", "--name=svc-b"])];
    let plan = plan_cycle(&cfg, &table);
    assert_eq!(plan.len(), 2);
    assert!(!plan[0].running);
    let launch = plan[0].launch.as_ref().expect("absent service must be launched");
    assert_eq!(launch.program, "/opt/nsq/svc-a");
    assert_eq!(plan[0].settle_pause, SETTLE_PAUSE_UNITS);
    assert!(plan[1].running);
    assert!(plan[1].launch.is_none());
    assert_eq!(plan[1].settle_pause, 0);
    assert_eq!(CYCLE_PAUSE_UNITS, 10);
}

#[test]
fn launch_failure_does_not_abort_cycle() {
    // Both services are absent; the first launch fails. The machine still
    // hands out the decision for the second service.
    let cfg = Config {
        root: "/opt/nsq".to_string(),
        services: vec![svc("missing", "does-not-exist"), svc("nsqd", "nsqd")],
    };
    let table = Vec::new();
    let mut run = CycleRun::new();
    let first = run.next_decision(&cfg, &table, None).expect("first decision");
    assert!(first.launch.is_some());
    let second = run
        .next_decision(&cfg, &table, Some(&LaunchOutcome::SpawnFailed))
        .expect("cycle must continue after a launch failure");
    assert_eq!(second.name, "nsqd");
    assert!(second.launch.is_some());
    assert!(run.next_decision(&cfg, &table, Some(&LaunchOutcome::Started)).is_none());
}

#[test]
fn shutdown_terminates_every_service_once_in_order() {
    let cfg = two_service_config();
    let plan = shutdown_plan(&cfg, Platform::Windows);
    assert_eq!(plan.len(), 2);
    assert_eq!(plan[0].name, "nsqd");
    assert_eq!(plan[1].name, "nsqadmin");
    // The kill names the service's own command, not the root-joined path.
    match &plan[0].action {
        TerminationAction::Kill(k) => {
            assert_eq!(k.program, "taskkill");
            assert_eq!(k.args, vec!["/IM".to_string(), "nsqd".to_string(), "/F".to_string()]);
        }
        TerminationAction::ReportUnsupported => panic!("expected a kill command"),
    }
}

#[test]
fn shutdown_reports_unsupported_on_other_platforms() {
    let cfg = two_service_config();
    let plan = shutdown_plan(&cfg, Platform::Other);
    assert_eq!(plan.len(), 2);
    for step in &plan {
        assert!(matches!(step.action, TerminationAction::ReportUnsupported));
    }
}

#[test]
fn shutdown_continues_after_rejected_kill() {
    // The first kill is rejected (service already absent): the sequence still
    // reaches the second service, and each service is attempted exactly once.
    let cfg = two_service_config();
    let mut seq = ShutdownSequence::new();
    let mut seen: Vec<String> = Vec::new();
    let mut prev: Option<StopOutcome> = None;
    while let Some(step) = seq.next_action(&cfg, Platform::Windows, prev.as_ref()) {
        seen.push(step.name.clone());
        prev = Some(StopOutcome::KillRejected);
    }
    assert_eq!(seen, vec!["nsqd".to_string(), "nsqadmin".to_string()]);
}

#[test]
fn interrupt_mid_cycle_still_shuts_down_everything_once() {
    // A cycle is abandoned after its first decision, as on an external
    // interrupt; the shutdown sequence then terminates every configured
    // service exactly once.
    let cfg = two_service_config();
    let table = Vec::new();
    let mut run = CycleRun::new();
    let _ = run.next_decision(&cfg, &table, None);
    // The cycle is dropped here, mid-way.
    let mut seq = ShutdownSequence::new();
    let mut seen: Vec<String> = Vec::new();
    let mut prev: Option<StopOutcome> = None;
    while let Some(step) = seq.next_action(&cfg, Platform::Windows, prev.as_ref()) {
        seen.push(step.name.clone());
        prev = Some(StopOutcome::Stopped);
    }
    assert_eq!(seen.len(), cfg.services.len());
    for (i, s) in cfg.services.iter().enumerate() {
        assert_eq!(seen[i], s.name);
        assert_eq!(seen.iter().filter(|n| **n == s.name).count(), 1);
    }
}

#[test]
fn kill_results_classify_exactly() {
    assert!(matches!(classify_kill_result(true, true), StopOutcome::Stopped));
    assert!(matches!(classify_kill_result(true, false), StopOutcome::KillRejected));
    assert!(matches!(classify_kill_result(false, true), StopOutcome::ExecFailed));
    assert!(matches!(classify_kill_result(false, false), StopOutcome::ExecFailed));
}

#[test]
fn snapshot_smoke_test() {
    // The process-table snapshot promises nothing about its contents; this
    // only exercises the real OS query end to end.
    let mut sys = nsq_supervisor::sysquery::new_system();
    let table = nsq_supervisor::sysquery::capture_snapshot(&mut sys);
    let s = svc("no-process-could-plausibly-carry-this-name", "x");
    let _ = s.is_running(&table);
}
