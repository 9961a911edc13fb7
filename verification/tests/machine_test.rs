use example_runner::report::report_line;
use example_runner::report::ResultEntry;
use example_runner::run::format_i32;
use example_runner::run::prepare_example;
use example_runner::run::Action;
use example_runner::run::CommandStatus;
use example_runner::run::ExampleRun;
use example_runner::run::InstantiateOutcome;
use example_runner::run::RemoveOutcome;
use example_runner::run::RunOutcome;

fn plan_for_minimal() -> example_runner::run::ExamplePlan {
    prepare_example("minimal", &None).expect("preparation never fails")
}

#[test]
fn prepares_names_and_paths() {
    let plan = plan_for_minimal();
    assert_eq!(plan.target_path, "examples-test");
    assert_eq!(plan.component_name, "minimal-comp");
    assert_eq!(plan.package_name, "golemx:componentx");
    assert_eq!(plan.component_path, "examples-test/minimal-comp");
}

#[test]
fn prepares_with_custom_target() {
    let plan = prepare_example("minimal", &Some("out".to_string())).unwrap();
    assert_eq!(plan.component_path, "out/minimal-comp");
}

#[test]
fn minimal_example_runs_to_ok() {
    // One example whose rendered instructions hold one informational line and
    // two commands: the machine asks to remove, instantiate, render, then run
    // both commands in the component directory, in order, and reports a pass.
    let run = &mut ExampleRun::new(plan_for_minimal(), false, false);

    match run.next_action() {
        Action::CheckRemove { path } => assert_eq!(path, "examples-test/minimal-comp"),
        _ => panic!("expected the removal request first"),
    }
    run.on_remove(RemoveOutcome::Removed);

    match run.next_action() {
        Action::Instantiate { path } => assert_eq!(path, "examples-test/minimal-comp"),
        _ => panic!("expected the instantiation request"),
    }
    run.on_instantiate(InstantiateOutcome::Instantiated);

    match run.next_action() {
        Action::Render => {}
        _ => panic!("expected the render request"),
    }
    run.on_rendered("intro line\n  echo hi\n  touch done.txt\n");

    match run.next_action() {
        Action::PrintInfo { line } => assert_eq!(line, "intro line"),
        _ => panic!("expected the informational line"),
    }
    run.advance_info();

    match run.next_action() {
        Action::RunCommand { directory, line } => {
            assert_eq!(directory, "examples-test/minimal-comp");
            assert_eq!(line, "  echo hi");
        }
        _ => panic!("expected the first command"),
    }
    run.on_command(CommandStatus::Exited { code: 0 });

    match run.next_action() {
        Action::RunCommand { directory, line } => {
            assert_eq!(directory, "examples-test/minimal-comp");
            assert_eq!(line, "  touch done.txt");
        }
        _ => panic!("expected the second command"),
    }
    run.on_command(CommandStatus::Exited { code: 0 });

    match run.next_action() {
        Action::Done { outcome } => assert!(matches!(outcome, RunOutcome::Pass)),
        _ => panic!("expected the run to be done"),
    }

    let entry = ResultEntry { name: "minimal".to_string(), outcome: RunOutcome::Pass };
    assert_eq!(report_line(&entry), "minimal: OK");
}

#[test]
fn skipping_both_phases_passes_immediately() {
    let run = ExampleRun::new(plan_for_minimal(), true, true);
    match run.next_action() {
        Action::Done { outcome } => assert!(matches!(outcome, RunOutcome::Pass)),
        _ => panic!("expected an immediate pass"),
    }
}

#[test]
fn first_failing_command_halts_the_example() {
    let run = &mut ExampleRun::new(plan_for_minimal(), true, false);
    match run.next_action() {
        Action::Render => {}
        _ => panic!("expected the render request"),
    }
    run.on_rendered("  false\n  never run\n");
    match run.next_action() {
        Action::RunCommand { line, .. } => assert_eq!(line, "  false"),
        _ => panic!("expected the first command"),
    }
    run.on_command(CommandStatus::Exited { code: 2 });
    match run.next_action() {
        Action::Done { outcome } => match outcome {
            RunOutcome::Fail { message } => {
                assert_eq!(message, "bash -c   false failed: non-zero exit code: 2");
            }
            RunOutcome::Pass => panic!("the example must have failed"),
        },
        _ => panic!("no further line may run after a failure"),
    }
}

#[test]
fn deeper_indented_lines_are_only_printed() {
    let run = &mut ExampleRun::new(plan_for_minimal(), true, false);
    run.on_rendered("   three spaces\n  two spaces\n");
    match run.next_action() {
        Action::PrintInfo { line } => assert_eq!(line, "   three spaces"),
        _ => panic!("a line indented past two spaces must not be run"),
    }
    run.advance_info();
    match run.next_action() {
        Action::RunCommand { line, .. } => assert_eq!(line, "  two spaces"),
        _ => panic!("expected the two-space line as a command"),
    }
}

#[test]
fn signaled_command_reports_terminated() {
    let run = &mut ExampleRun::new(plan_for_minimal(), true, false);
    run.on_rendered("  sleep forever\n");
    run.on_command(CommandStatus::Signaled);
    match run.next_action() {
        Action::Done { outcome } => match outcome {
            RunOutcome::Fail { message } => {
                assert_eq!(message, "bash -c   sleep forever failed: terminated");
            }
            RunOutcome::Pass => panic!("the example must have failed"),
        },
        _ => panic!("expected the run to be done"),
    }
}

#[test]
fn spawn_error_reports_the_os_text() {
    let run = &mut ExampleRun::new(plan_for_minimal(), true, false);
    run.on_rendered("  x\n");
    run.on_command(CommandStatus::SpawnFailed { message: "no such file".to_string() });
    match run.next_action() {
        Action::Done { outcome } => match outcome {
            RunOutcome::Fail { message } => {
                assert_eq!(message, "bash -c   x failed: no such file");
            }
            RunOutcome::Pass => panic!("the example must have failed"),
        },
        _ => panic!("expected the run to be done"),
    }
}

#[test]
fn removal_failure_fails_the_example() {
    let run = &mut ExampleRun::new(plan_for_minimal(), false, false);
    run.on_remove(RemoveOutcome::Failed { message: "permission denied".to_string() });
    match run.next_action() {
        Action::Done { outcome } => match outcome {
            RunOutcome::Fail { message } => {
                assert_eq!(message, "remove dir all failed: permission denied");
            }
            RunOutcome::Pass => panic!("the example must have failed"),
        },
        _ => panic!("expected the run to be done"),
    }
}

#[test]
fn instantiation_failure_fails_the_example() {
    let run = &mut ExampleRun::new(plan_for_minimal(), false, false);
    run.on_remove(RemoveOutcome::Removed);
    run.on_instantiate(InstantiateOutcome::Failed { message: "target exists".to_string() });
    match run.next_action() {
        Action::Done { outcome } => match outcome {
            RunOutcome::Fail { message } => {
                assert_eq!(message, "instantiate failed: target exists");
            }
            RunOutcome::Pass => panic!("the example must have failed"),
        },
        _ => panic!("expected the run to be done"),
    }
}

#[test]
fn empty_instruction_text_passes() {
    let run = &mut ExampleRun::new(plan_for_minimal(), true, false);
    run.on_rendered("");
    match run.next_action() {
        Action::Done { outcome } => assert!(matches!(outcome, RunOutcome::Pass)),
        _ => panic!("expected the run to be done"),
    }
}

#[test]
fn formats_signed_decimals() {
    assert_eq!(format_i32(0), "0");
    assert_eq!(format_i32(7), "7");
    assert_eq!(format_i32(42), "42");
    assert_eq!(format_i32(-3), "-3");
    assert_eq!(format_i32(i32::MAX), "2147483647");
    assert_eq!(format_i32(i32::MIN), "-2147483648");
}
