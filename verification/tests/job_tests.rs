use flight_controller::job::BuildOutcome;
use flight_controller::job::JobAction;
use flight_controller::job::JobEvent;
use flight_controller::job::JobFailure;
use flight_controller::job::JobMachine;
use flight_controller::job::JobWorld;
use flight_controller::job::run_batch;
use flight_controller::job::run_job;
use flight_controller::job::should_skip;

fn good_world() -> JobWorld {
    JobWorld {
        dest_exists: false,
        fetch_ok: true,
        entries: vec!["build.gradle".to_string()],
        exit_code: Some(0),
        stdout: String::new(),
        stderr: String::new(),
        libs: vec!["widget-all.jar".to_string()],
        copy_ok: true,
    }
}

#[test]
fn should_skip_follows_existence_unless_forced() {
    assert!(should_skip(true, false));
    assert!(!should_skip(false, false));
    assert!(!should_skip(true, true));
    assert!(!should_skip(false, true));
}

#[test]
fn scenario_fresh_build_compiles_into_the_output_folder() {
    let o = run_job("https://example.com/acme/widget.git", false, "/out", &good_world());
    assert_eq!(o, BuildOutcome::Compiled("/out/acme-widget.jar".to_string()));
}

#[test]
fn scenario_existing_artifact_skips_without_fetching() {
    let world = JobWorld { dest_exists: true, ..good_world() };
    let o = run_job("https://example.com/acme/widget.git", false, "/out", &world);
    assert_eq!(o, BuildOutcome::Skipped);
}

#[test]
fn scenario_recompile_overrides_an_existing_artifact() {
    let world = JobWorld { dest_exists: true, ..good_world() };
    let o = run_job("https://example.com/acme/widget.git", true, "/out", &world);
    assert_eq!(o, BuildOutcome::Compiled("/out/acme-widget.jar".to_string()));
}

#[test]
fn scenario_failed_build_reports_the_captured_output() {
    let world = JobWorld {
        exit_code: Some(1),
        stdout: "foo".to_string(),
        stderr: "bar".to_string(),
        ..good_world()
    };
    let o = run_job("https://example.com/acme/widget.git", false, "/out", &world);
    assert_eq!(
        o,
        BuildOutcome::Failed(JobFailure::BuildFailed {
            stdout: "foo".to_string(),
            stderr: "bar".to_string(),
        })
    );
}

#[test]
fn scenario_unrecognized_project_fails_as_unsupported() {
    let world = JobWorld { entries: vec!["README.md".to_string()], ..good_world() };
    let o = run_job("https://example.com/acme/widget.git", false, "/out", &world);
    assert_eq!(o, BuildOutcome::Failed(JobFailure::UnsupportedProjectType));
}

#[test]
fn malformed_locator_fails_before_anything_runs() {
    let o = run_job("widget", false, "/out", &good_world());
    assert_eq!(o, BuildOutcome::Failed(JobFailure::MalformedLocator));
}

#[test]
fn failed_fetch_is_terminal() {
    let world = JobWorld { fetch_ok: false, ..good_world() };
    let o = run_job("https://example.com/acme/widget.git", false, "/out", &world);
    assert_eq!(o, BuildOutcome::Failed(JobFailure::Fetch));
}

#[test]
fn missing_artifact_after_a_good_build_is_terminal() {
    let world = JobWorld { libs: vec!["widget.jar".to_string()], ..good_world() };
    let o = run_job("https://example.com/acme/widget.git", false, "/out", &world);
    assert_eq!(o, BuildOutcome::Failed(JobFailure::ArtifactNotFound));
}

#[test]
fn failed_copy_is_terminal() {
    let world = JobWorld { copy_ok: false, ..good_world() };
    let o = run_job("https://example.com/acme/widget.git", false, "/out", &world);
    assert_eq!(o, BuildOutcome::Failed(JobFailure::Io));
}

#[test]
fn batch_confines_one_failure_to_its_own_job() {
    let locators = vec![
        "https://example.com/acme/widget.git".to_string(),
        "https://example.com/acme/broken.git".to_string(),
        "https://example.com/acme/gadget.git".to_string(),
    ];
    let worlds = vec![
        good_world(),
        JobWorld { fetch_ok: false, ..good_world() },
        good_world(),
    ];
    let outcomes = run_batch(&locators, false, "/out", &worlds);
    assert_eq!(outcomes.len(), 3);
    assert_eq!(outcomes[0], BuildOutcome::Compiled("/out/acme-widget.jar".to_string()));
    assert_eq!(outcomes[1], BuildOutcome::Failed(JobFailure::Fetch));
    assert_eq!(outcomes[2], BuildOutcome::Compiled("/out/acme-gadget.jar".to_string()));
}

#[test]
fn machine_walks_the_full_pipeline_in_order() {
    let mut m = JobMachine::new("https://example.com/acme/widget.git", false, "/out");
    match m.action() {
        JobAction::CheckDest { dest } => assert_eq!(dest, "/out/acme-widget.jar"),
        a => panic!("unexpected action {:?}", a),
    }
    m.step(JobEvent::DestChecked { exists: false });
    match m.action() {
        JobAction::Fetch { locator } => {
            assert_eq!(locator, "https://example.com/acme/widget.git")
        }
        a => panic!("unexpected action {:?}", a),
    }
    m.step(JobEvent::Fetched { ok: true });
    assert!(matches!(m.action(), JobAction::ListWorkdir));
    m.step(JobEvent::WorkdirListed { entries: vec!["build.gradle".to_string()] });
    assert!(matches!(m.action(), JobAction::RunBuild));
    m.step(JobEvent::BuildRan {
        exit_code: Some(0),
        stdout: String::new(),
        stderr: String::new(),
    });
    assert!(matches!(m.action(), JobAction::ListLibs));
    m.step(JobEvent::LibsListed { entries: vec!["widget-all.jar".to_string()] });
    match m.action() {
        JobAction::CopyArtifact { artifact, dest } => {
            assert_eq!(artifact, "widget-all.jar");
            assert_eq!(dest, "/out/acme-widget.jar");
        }
        a => panic!("unexpected action {:?}", a),
    }
    m.step(JobEvent::Copied { ok: true });
    match m.action() {
        JobAction::Report { outcome } => {
            assert_eq!(outcome, BuildOutcome::Compiled("/out/acme-widget.jar".to_string()))
        }
        a => panic!("unexpected action {:?}", a),
    }
}

#[test]
fn machine_reports_a_skip_before_any_fetch() {
    let mut m = JobMachine::new("https://example.com/acme/widget.git", false, "/out");
    m.step(JobEvent::DestChecked { exists: true });
    match m.action() {
        JobAction::Report { outcome } => assert_eq!(outcome, BuildOutcome::Skipped),
        a => panic!("unexpected action {:?}", a),
    }
}

#[test]
fn machine_finishes_at_once_on_a_malformed_locator() {
    let m = JobMachine::new("widget", false, "/out");
    match m.action() {
        JobAction::Report { outcome } => {
            assert_eq!(outcome, BuildOutcome::Failed(JobFailure::MalformedLocator))
        }
        a => panic!("unexpected action {:?}", a),
    }
}
