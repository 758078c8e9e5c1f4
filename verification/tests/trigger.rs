use containerd_shim_spin::descriptor::{AppDescriptor, TriggerDecl};
use containerd_shim_spin::engine::{RunOutcome, ShimError, SpinSandbox, SpinShim};
use containerd_shim_spin::loader::DescriptorResolutionError;
use containerd_shim_spin::source::InvalidSourceError;
use containerd_shim_spin::supervisor::{all_distinct, Action, Event, Phase, Supervisor, Verdict};
use containerd_shim_spin::trigger::{
    get_supported_triggers, trigger_kind, TriggerKind, UnsupportedTriggerKind,
};

fn app_with(types: &[&str]) -> AppDescriptor {
    AppDescriptor {
        components: vec![],
        triggers: types
            .iter()
            .enumerate()
            .map(|(i, t)| TriggerDecl {
                id: format!("trigger-{i}"),
                trigger_type: t.to_string(),
                component: format!("component-{i}"),
            })
            .collect(),
    }
}

#[test]
fn duplicate_trigger_types_collapse_to_one() {
    let app = app_with(&["http", "http", "redis"]);
    assert_eq!(
        get_supported_triggers(&app),
        Ok(vec![TriggerKind::Http, TriggerKind::Redis])
    );
}

#[test]
fn launch_set_keeps_the_order_of_first_occurrence() {
    let app = app_with(&["mqtt", "command", "mqtt", "sqs", "command", "http", "redis", "sqs"]);
    assert_eq!(
        get_supported_triggers(&app),
        Ok(vec![
            TriggerKind::Mqtt,
            TriggerKind::Command,
            TriggerKind::Sqs,
            TriggerKind::Http,
            TriggerKind::Redis,
        ])
    );
}

#[test]
fn no_declared_trigger_gives_the_empty_launch_set() {
    assert_eq!(get_supported_triggers(&app_with(&[])), Ok(vec![]));
}

#[test]
fn unsupported_trigger_type_fails_selection_and_is_named() {
    let app = app_with(&["http", "timer", "redis", "cron"]);
    let error = get_supported_triggers(&app).unwrap_err();
    assert_eq!(error, UnsupportedTriggerKind { tag: "timer".to_string() });
    assert_eq!(
        error.message(),
        "Only Http, Redis, MQTT, SQS, and Command triggers are currently supported. Found unsupported trigger: \"timer\""
    );
}

#[test]
fn trigger_tags_are_compared_exactly() {
    assert_eq!(trigger_kind("http"), Some(TriggerKind::Http));
    assert_eq!(trigger_kind("redis"), Some(TriggerKind::Redis));
    assert_eq!(trigger_kind("sqs"), Some(TriggerKind::Sqs));
    assert_eq!(trigger_kind("command"), Some(TriggerKind::Command));
    assert_eq!(trigger_kind("mqtt"), Some(TriggerKind::Mqtt));
    assert_eq!(trigger_kind("HTTP"), None);
    assert_eq!(trigger_kind("http "), None);
    assert_eq!(trigger_kind(""), None);
    for kind in [
        TriggerKind::Http,
        TriggerKind::Redis,
        TriggerKind::Sqs,
        TriggerKind::Command,
        TriggerKind::Mqtt,
    ] {
        assert_eq!(trigger_kind(kind.tag()), Some(kind));
    }
}

#[test]
fn unsupported_tag_is_quoted_with_escapes_in_the_message() {
    let error = UnsupportedTriggerKind { tag: "a\"b\n".to_string() };
    assert!(error.message().ends_with("Found unsupported trigger: \"a\\\"b\\n\""));
}

#[test]
fn unsupported_trigger_launches_nothing() {
    let sandbox = SpinSandbox;
    let result = sandbox.supervise::<String>(&app_with(&["http", "timer"]));
    match result {
        Err(error) => assert_eq!(error.tag, "timer"),
        Ok(_) => panic!("expected the selection to fail"),
    }
}

#[test]
fn fresh_supervisor_has_launched_nothing() {
    let sandbox = SpinSandbox;
    let supervisor = sandbox
        .supervise::<String>(&app_with(&["redis", "http", "redis"]))
        .expect("selection failed")
        .expect("no supervisor");
    assert_eq!(supervisor.launched(), 0);
    assert_eq!(supervisor.phase(), Phase::Launching);
    assert_eq!(supervisor.due(), Action::Launch(TriggerKind::Redis));
    assert!(supervisor.verdict().is_none());
    assert!(supervisor.cancelled_tasks().is_empty());
}

#[test]
fn application_without_triggers_gets_no_supervisor() {
    let sandbox = SpinSandbox;
    assert!(matches!(sandbox.supervise::<String>(&app_with(&[])), Ok(None)));
    assert!(Supervisor::<String>::new(vec![]).is_none());
    assert!(Supervisor::<String>::new(vec![TriggerKind::Http, TriggerKind::Http]).is_none());
    assert!(all_distinct(&vec![TriggerKind::Http, TriggerKind::Sqs]));
    assert!(!all_distinct(&vec![TriggerKind::Sqs, TriggerKind::Http, TriggerKind::Sqs]));
}

/// A task that notes whether it was stopped before it ended by itself.
struct Task {
    ended: bool,
    cancelled: bool,
}

#[test]
fn first_task_to_end_decides_and_the_other_is_cancelled() {
    let mut supervisor =
        Supervisor::<String>::new(vec![TriggerKind::Http, TriggerKind::Redis]).unwrap();
    let mut tasks: Vec<Task> = Vec::new();

    assert_eq!(supervisor.due(), Action::Launch(TriggerKind::Http));
    tasks.push(Task { ended: false, cancelled: false });
    assert_eq!(supervisor.handle(Event::Launched), Action::Launch(TriggerKind::Redis));
    tasks.push(Task { ended: false, cancelled: false });
    assert_eq!(supervisor.handle(Event::Launched), Action::Wait);
    assert_eq!(supervisor.phase(), Phase::Racing);
    assert_eq!(supervisor.launched(), 2);

    // The redis task ends first, without an error.
    tasks[1].ended = true;
    assert_eq!(supervisor.handle(Event::Exited { task: 1, result: Ok(()) }), Action::Stop);
    for task in supervisor.cancelled_tasks() {
        assert!(!tasks[task].ended);
        tasks[task].cancelled = true;
    }

    assert_eq!(supervisor.phase(), Phase::Terminated);
    assert_eq!(
        supervisor.verdict(),
        Some(&Verdict::Finished { task: 1, kind: TriggerKind::Redis, result: Ok(()) })
    );
    assert!(tasks[0].cancelled && !tasks[0].ended);
    assert!(!tasks[1].cancelled);
    assert!(supervisor.is_cancelled(0));
    assert!(!supervisor.is_cancelled(1));
    assert!(!supervisor.is_cancelled(2));

    // What the stopped task reports afterwards changes nothing.
    assert_eq!(
        supervisor.handle(Event::Exited { task: 0, result: Err("stopped".to_string()) }),
        Action::Ignore
    );
    assert_eq!(
        supervisor.verdict(),
        Some(&Verdict::Finished { task: 1, kind: TriggerKind::Redis, result: Ok(()) })
    );
}

#[test]
fn first_task_to_fail_gives_its_own_error() {
    let mut supervisor = Supervisor::<String>::new(vec![
        TriggerKind::Sqs,
        TriggerKind::Mqtt,
        TriggerKind::Command,
    ])
    .unwrap();
    supervisor.handle(Event::Launched);
    supervisor.handle(Event::Launched);
    supervisor.handle(Event::Launched);

    let action = supervisor.handle(Event::Exited { task: 2, result: Err("exit 3".to_string()) });

    assert_eq!(action, Action::Stop);
    assert_eq!(supervisor.cancelled_tasks(), vec![0, 1]);
    assert_eq!(supervisor.kind_of_task(2), Some(TriggerKind::Command));
    assert_eq!(supervisor.kind_of_task(3), None);
    let sandbox = SpinSandbox;
    let outcome = sandbox.conclude(Verdict::Finished {
        task: 2,
        kind: TriggerKind::Command,
        result: Err("exit 3".to_string()),
    });
    assert_eq!(
        outcome,
        RunOutcome::Failed(ShimError::TriggerRuntime {
            kind: TriggerKind::Command,
            error: "exit 3".to_string()
        })
    );
}

#[test]
fn failed_launch_ends_the_run_and_stops_what_runs() {
    let mut supervisor = Supervisor::<String>::new(vec![
        TriggerKind::Redis,
        TriggerKind::Http,
        TriggerKind::Sqs,
    ])
    .unwrap();
    assert_eq!(supervisor.handle(Event::Launched), Action::Launch(TriggerKind::Http));

    let action = supervisor.handle(Event::LaunchFailed("address in use".to_string()));

    assert_eq!(action, Action::Stop);
    assert_eq!(supervisor.launched(), 1);
    assert_eq!(supervisor.cancelled_tasks(), vec![0]);
    assert_eq!(
        supervisor.verdict(),
        Some(&Verdict::LaunchFailed {
            kind: TriggerKind::Http,
            error: "address in use".to_string()
        })
    );
    // No further launch is asked for.
    assert_eq!(supervisor.due(), Action::Stop);
    assert_eq!(supervisor.handle(Event::Launched), Action::Ignore);
    assert_eq!(supervisor.launched(), 1);
}

#[test]
fn stop_request_cancels_every_task() {
    let mut supervisor =
        Supervisor::<String>::new(vec![TriggerKind::Http, TriggerKind::Redis]).unwrap();
    supervisor.handle(Event::Launched);
    supervisor.handle(Event::Launched);

    assert_eq!(supervisor.handle(Event::Cancelled), Action::Stop);

    assert_eq!(supervisor.verdict(), Some(&Verdict::Cancelled));
    assert_eq!(supervisor.cancelled_tasks(), vec![0, 1]);
    let sandbox = SpinSandbox;
    assert_eq!(sandbox.conclude::<String>(Verdict::Cancelled), RunOutcome::Cancelled);
    assert_eq!(sandbox.exit_status::<String>(RunOutcome::Cancelled), Ok(0));
}

#[test]
fn reports_that_fit_no_task_are_ignored() {
    let mut supervisor =
        Supervisor::<String>::new(vec![TriggerKind::Http, TriggerKind::Redis]).unwrap();
    // Nothing runs yet.
    assert_eq!(supervisor.handle(Event::Exited { task: 0, result: Ok(()) }), Action::Ignore);
    supervisor.handle(Event::Launched);
    // Task 1 was not launched.
    assert_eq!(supervisor.handle(Event::Exited { task: 1, result: Ok(()) }), Action::Ignore);
    supervisor.handle(Event::Launched);
    // No launch is pending.
    assert_eq!(supervisor.handle(Event::Launched), Action::Ignore);
    assert_eq!(supervisor.handle(Event::LaunchFailed("late".to_string())), Action::Ignore);
    assert_eq!(supervisor.phase(), Phase::Racing);
    assert_eq!(supervisor.launched(), 2);
}

#[test]
fn task_that_ends_during_launching_decides_too() {
    let mut supervisor =
        Supervisor::<String>::new(vec![TriggerKind::Http, TriggerKind::Redis]).unwrap();
    supervisor.handle(Event::Launched);
    assert_eq!(supervisor.handle(Event::Exited { task: 0, result: Ok(()) }), Action::Stop);
    assert_eq!(
        supervisor.verdict(),
        Some(&Verdict::Finished { task: 0, kind: TriggerKind::Http, result: Ok(()) })
    );
    assert!(supervisor.cancelled_tasks().is_empty());
}

#[test]
fn exit_status_is_zero_unless_the_run_failed() {
    let sandbox = SpinSandbox;
    assert_eq!(sandbox.exit_status::<String>(RunOutcome::Completed), Ok(0));
    assert_eq!(sandbox.exit_status::<String>(RunOutcome::Cancelled), Ok(0));
    assert_eq!(
        sandbox.exit_status(RunOutcome::Failed(ShimError::Host("disk full".to_string()))),
        Err(ShimError::Host("disk full".to_string()))
    );
    assert_eq!(
        sandbox.conclude::<String>(Verdict::Finished {
            task: 0,
            kind: TriggerKind::Http,
            result: Ok(())
        }),
        RunOutcome::Completed
    );
    assert_eq!(
        sandbox.conclude(Verdict::LaunchFailed {
            kind: TriggerKind::Http,
            error: "bind".to_string()
        }),
        RunOutcome::Failed(ShimError::TriggerLaunch {
            kind: TriggerKind::Http,
            error: "bind".to_string()
        })
    );
}

#[test]
fn every_failure_is_reported_as_it_is() {
    let sandbox = SpinSandbox;
    let failures: Vec<ShimError<String>> = vec![
        ShimError::InvalidSource(InvalidSourceError { package_layers: 2 }),
        ShimError::DescriptorResolution(DescriptorResolutionError {
            component: "hello".to_string(),
            digest: "sha256:gone".to_string(),
        }),
        ShimError::UnsupportedTrigger(UnsupportedTriggerKind { tag: "timer".to_string() }),
        ShimError::TriggerLaunch { kind: TriggerKind::Http, error: "bind".to_string() },
        ShimError::TriggerRuntime { kind: TriggerKind::Sqs, error: "queue gone".to_string() },
        ShimError::CacheIo {
            path: "/cache/wasm/sha256:ab".to_string(),
            error: "disk full".to_string(),
        },
        ShimError::Host("no manifest".to_string()),
    ];
    for failure in failures {
        let shown = format!("{failure:?}");
        match sandbox.exit_status(RunOutcome::Failed(failure)) {
            Err(error) => assert_eq!(format!("{error:?}"), shown),
            Ok(status) => panic!("a failed run gave the status {status}"),
        }
    }
}

#[test]
fn shim_name_and_supported_layer_types() {
    assert_eq!(SpinShim::name(), "spin");
    assert_eq!(
        SpinShim::supported_layers_types(),
        vec![
            "application/vnd.wasm.content.layer.v1+wasm",
            "application/vnd.wasm.content.bundle.v1.tar+gzip",
            "application/vnd.wasm.content.layer.v1+data",
            "application/vnd.fermyon.spin.application.v1+config",
        ]
    );
}
