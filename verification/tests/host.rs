use std::collections::HashMap;

use containerd_shim_spin::descriptor::{AppDescriptor, Component, Content, TriggerDecl};
use containerd_shim_spin::engine::{RunOutcome, ShimError, SpinSandbox};
use containerd_shim_spin::env::Environment;
use containerd_shim_spin::layer::{
    ContentLayer, MEDIA_TYPE_ARCHIVE, MEDIA_TYPE_DATA, MEDIA_TYPE_MANIFEST, MEDIA_TYPE_WASM_MODULE,
};
use containerd_shim_spin::loader::Loader;
use containerd_shim_spin::settings::{trigger_args, RunSettings, TriggerArgs};
use containerd_shim_spin::source::{Artifacts, Source, Workspace, SPIN_JSON_PATH};
use containerd_shim_spin::supervisor::{Action, Event};
use containerd_shim_spin::trigger::TriggerKind;

/// A host that keeps its files in a map and runs tasks that end when told to.
struct Host {
    files: HashMap<String, Vec<u8>>,
    launched: Vec<TriggerArgs>,
    running: Vec<bool>,
}

impl Host {
    fn new() -> Host {
        Host { files: HashMap::new(), launched: Vec::new(), running: Vec::new() }
    }

    fn persist(&mut self, workspace: &Workspace) {
        if let Some(manifest) = &workspace.manifest {
            self.files.insert(SPIN_JSON_PATH.to_string(), manifest.clone());
        }
        for entry in workspace.cache.wasm_entries() {
            self.files.insert(workspace.cache.wasm_path(&entry.digest), entry.bytes.clone());
        }
        for entry in workspace.cache.data_entries() {
            self.files.insert(workspace.cache.data_path(&entry.digest), entry.bytes.clone());
        }
    }
}

fn run(
    entries: &[&str],
    layers: Vec<ContentLayer>,
    triggers: &[&str],
    first_to_end: (usize, Result<(), String>),
) -> (Host, Result<i32, ShimError<String>>) {
    let sandbox = SpinSandbox::default();
    let mut host = Host::new();
    let environment =
        Environment::from_entries(&entries.iter().map(|e| e.to_string()).collect());
    let settings = RunSettings::from_env(&environment);
    let root = String::from("/.cache/registry");

    let mut workspace = Workspace::new(&root);
    let source = match Source::from_ctx(&Artifacts::Oci(layers), &mut workspace) {
        Ok(source) => source,
        Err(error) => {
            let outcome = RunOutcome::Failed(ShimError::InvalidSource(error));
            return (host, sandbox.exit_status(outcome));
        }
    };
    host.persist(&workspace);

    let loaded = match source.loader() {
        Loader::LockedApp { manifest, working_dir } => {
            assert_eq!(working_dir, "/");
            assert!(host.files.contains_key(&manifest));
            AppDescriptor {
                components: vec![Component {
                    id: "hello".to_string(),
                    content: Content::Digest("sha256:hello".to_string()),
                }],
                triggers: triggers
                    .iter()
                    .map(|t| TriggerDecl {
                        id: format!("{t}-trigger"),
                        trigger_type: t.to_string(),
                        component: "hello".to_string(),
                    })
                    .collect(),
            }
        }
        other => panic!("unexpected loader {other:?}"),
    };
    let app = match source.to_locked_app(&workspace.cache, loaded) {
        Ok(app) => app,
        Err(error) => {
            let outcome = RunOutcome::Failed(ShimError::DescriptorResolution(error));
            return (host, sandbox.exit_status(outcome));
        }
    };
    for component in &app.components {
        match &component.content {
            Content::Path(path) => assert!(host.files.contains_key(path)),
            Content::Digest(digest) => panic!("{digest} was not resolved"),
        }
    }

    let mut supervisor = match sandbox.supervise::<String>(&app) {
        Ok(supervisor) => supervisor.expect("no trigger is declared"),
        Err(error) => {
            let outcome = RunOutcome::Failed(ShimError::UnsupportedTrigger(error));
            return (host, sandbox.exit_status(outcome));
        }
    };
    let guest_args = vec!["/app.wasm".to_string()];
    let mut action = supervisor.due();
    loop {
        match action {
            Action::Launch(kind) => {
                host.launched.push(trigger_args(kind, &settings, &guest_args));
                host.running.push(true);
                action = supervisor.handle(Event::Launched);
            }
            Action::Wait => {
                let (task, result) = first_to_end.clone();
                host.running[task] = false;
                action = supervisor.handle(Event::Exited { task, result });
            }
            Action::Stop => {
                for task in supervisor.cancelled_tasks() {
                    host.running[task] = false;
                }
                break;
            }
            Action::Ignore => panic!("the supervisor ignored a report"),
        }
    }
    let verdict = supervisor.into_verdict().expect("no verdict");
    (host, sandbox.exit_status(sandbox.conclude(verdict)))
}

fn app_layers() -> Vec<ContentLayer> {
    vec![
        ContentLayer::new(MEDIA_TYPE_MANIFEST, "sha256:manifest", b"{\"spin\":1}".to_vec()),
        ContentLayer::new(MEDIA_TYPE_WASM_MODULE, "sha256:hello", vec![0, 97, 115, 109]),
        ContentLayer::new(MEDIA_TYPE_DATA, "sha256:asset", vec![1, 2, 3]),
        ContentLayer::new(MEDIA_TYPE_ARCHIVE, "sha256:bundle", vec![0x1f, 0x8b]),
        ContentLayer::new("application/vnd.future.layer.v9", "sha256:new", vec![9]),
    ]
}

#[test]
fn whole_run_ends_with_the_first_trigger_to_end() {
    let (host, status) = run(
        &["SPIN_HTTP_LISTEN_ADDR=0.0.0.0:3000", "HOSTNAME=pod-1"],
        app_layers(),
        &["http", "redis", "http"],
        (1, Ok(())),
    );

    assert_eq!(status, Ok(0));
    assert_eq!(
        host.launched,
        vec![
            TriggerArgs::Http {
                address: "0.0.0.0:3000".to_string(),
                tls_cert: None,
                tls_key: None,
                find_free_port: false
            },
            TriggerArgs::Redis
        ]
    );
    assert_eq!(host.running, vec![false, false]);
    assert_eq!(host.files.get("/spin.json"), Some(&b"{\"spin\":1}".to_vec()));
    assert_eq!(
        host.files.get("/.cache/registry/wasm/sha256:hello"),
        Some(&vec![0, 97, 115, 109])
    );
    assert_eq!(host.files.get("/.cache/registry/data/sha256:asset"), Some(&vec![1, 2, 3]));
    assert_eq!(host.files.get("/.cache/registry/data/sha256:bundle"), Some(&vec![0x1f, 0x8b]));
    assert_eq!(host.files.len(), 4);
}

#[test]
fn whole_run_fails_with_the_error_of_the_first_trigger_to_end() {
    let (host, status) =
        run(&[], app_layers(), &["command", "mqtt"], (0, Err("exit status 3".to_string())));

    assert_eq!(
        status,
        Err(ShimError::TriggerRuntime {
            kind: TriggerKind::Command,
            error: "exit status 3".to_string()
        })
    );
    assert_eq!(
        host.launched,
        vec![
            TriggerArgs::Command { guest_args: vec!["/app.wasm".to_string()] },
            TriggerArgs::Mqtt { test: false },
        ]
    );
    assert_eq!(host.running, vec![false, false]);
}

#[test]
fn whole_run_launches_nothing_for_an_unsupported_trigger() {
    let (host, status) = run(&[], app_layers(), &["http", "timer"], (0, Ok(())));

    assert!(matches!(status, Err(ShimError::UnsupportedTrigger(error)) if error.tag == "timer"));
    assert!(host.launched.is_empty());
    assert!(host.running.is_empty());
}

#[test]
fn whole_run_fails_where_the_content_of_a_component_is_missing() {
    let layers = vec![ContentLayer::new(MEDIA_TYPE_MANIFEST, "sha256:manifest", b"{}".to_vec())];

    let (host, status) = run(&[], layers, &["http"], (0, Ok(())));

    assert!(matches!(
        status,
        Err(ShimError::DescriptorResolution(error))
            if error.component == "hello" && error.digest == "sha256:hello"
    ));
    assert!(host.launched.is_empty());
}
