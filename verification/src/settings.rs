//! The settings of one run, and what each trigger is started with.

use vstd::prelude::*;
use crate::env::{
    list_items, lookup, parse_limit, parsed_limit, split_list, Environment, Variable,
    HOSTNAME_ENV, SPIN_ADDR_DEFAULT, SPIN_COMPONENTS_TO_RETAIN_ENV, SPIN_HTTP_LISTEN_ADDR_ENV,
    SPIN_MAX_INSTANCE_MEMORY_ENV, UNKNOWN_APP_ID,
};
use crate::text::{copy_strings, owned, quoted, quoted_text, texts};
use crate::trigger::TriggerKind;

verus! {

/// Where the runtime configuration is looked for.
pub const RUNTIME_CONFIG_PATH: &'static str = "/runtime-config.toml";

/// The directory in which every trigger works.
pub const SPIN_TRIGGER_WORKING_DIR: &'static str = "/";

/// What the environment settles for one run.
#[derive(Clone, Debug, PartialEq, Eq)]
pub struct RunSettings {
    /// The address on which the HTTP trigger listens.
    pub listen_addr: String,
    /// The components to retain, where the environment names any list of them.
    pub retained_components: Option<Vec<String>>,
    /// The most memory that one instance may take, in bytes.
    pub max_instance_memory: Option<usize>,
    /// The name under which the application runs.
    pub app_id: String,
}

/// The value of the variable `name`, or `default` where it is not set.
pub open spec fn value_or(vars: Seq<Variable>, name: Seq<char>, default: Seq<char>) -> Seq<char> {
    match lookup(vars, name) {
        Some(value) => value,
        None => default,
    }
}

/// The allow-list of components: the items of the variable that names them. A variable
/// that is set and names none gives the empty list, not `None`.
pub open spec fn retained_of(vars: Seq<Variable>) -> Option<Seq<Seq<char>>> {
    match lookup(vars, SPIN_COMPONENTS_TO_RETAIN_ENV@) {
        Some(value) => Some(list_items(value)),
        None => None,
    }
}

/// The memory limit: the number that its variable writes. A variable that writes no
/// number sets no limit.
pub open spec fn memory_limit_of(vars: Seq<Variable>) -> Option<usize> {
    match lookup(vars, SPIN_MAX_INSTANCE_MEMORY_ENV@) {
        Some(value) => parsed_limit(value),
        None => None,
    }
}

impl RunSettings {
    /// The allow-list as a list of texts.
    pub open spec fn retained(self) -> Option<Seq<Seq<char>>> {
        match self.retained_components {
            Some(list) => Some(texts(list@)),
            None => None,
        }
    }

    /// Reads the settings from the environment.
    pub fn from_env(env: &Environment) -> (settings: RunSettings)
        ensures
            settings.listen_addr@ == value_or(
                env.vars@,
                SPIN_HTTP_LISTEN_ADDR_ENV@,
                SPIN_ADDR_DEFAULT@,
            ),
            settings.retained() == retained_of(env.vars@),
            settings.max_instance_memory == memory_limit_of(env.vars@),
            settings.app_id@ == value_or(env.vars@, HOSTNAME_ENV@, UNKNOWN_APP_ID@),
    {
        let listen_addr = match env.get(SPIN_HTTP_LISTEN_ADDR_ENV) {
            Some(value) => owned(value),
            None => owned(SPIN_ADDR_DEFAULT),
        };
        let retained_components = match env.get(SPIN_COMPONENTS_TO_RETAIN_ENV) {
            Some(value) => Some(split_list(value)),
            None => None,
        };
        let max_instance_memory = match env.get(SPIN_MAX_INSTANCE_MEMORY_ENV) {
            Some(value) => parse_limit(value),
            None => None,
        };
        let app_id = match env.get(HOSTNAME_ENV) {
            Some(value) => owned(value),
            None => owned(UNKNOWN_APP_ID),
        };
        RunSettings { listen_addr, retained_components, max_instance_memory, app_id }
    }
}

/// A list of names as `Debug` shows it: each name quoted, a comma and a blank between
/// two of them, the whole in square brackets.
pub open spec fn listed(names: Seq<Seq<char>>) -> Seq<char> {
    "["@ + listed_items(names) + "]"@
}

/// The names of [`listed`] without the brackets.
pub open spec fn listed_items(names: Seq<Seq<char>>) -> Seq<char>
    decreases names.len(),
{
    if names.len() == 0 {
        Seq::empty()
    } else if names.len() == 1 {
        quoted_text(names[0])
    } else {
        listed_items(names.drop_last()) + ", "@ + quoted_text(names.last())
    }
}

/// What is said where the application cannot be reduced to the retained components.
pub open spec fn retention_failure(names: Seq<Seq<char>>) -> Seq<char> {
    "failed to resolve application with only ["@ + listed(names)
        + "] components retained by configured environment variable "@
        + SPIN_COMPONENTS_TO_RETAIN_ENV@
}

/// The words that say which components were to be retained when retaining failed.
pub fn retention_context(names: &Vec<String>) -> (text: String)
    ensures
        text@ == retention_failure(texts(names@)),
{
    let mut items = String::new();
    let mut i: usize = 0;
    while i < names.len()
        invariant
            i <= names.len(),
            items@ == listed_items(texts(names@).take(i as int)),
        decreases names.len() - i,
    {
        let ghost before = texts(names@).take(i as int);
        let ghost after = texts(names@).take(i + 1);
        proof {
            assert(after.drop_last() == before);
        }
        if i > 0 {
            items.append(", ");
        }
        let name = quoted(names[i].as_str());
        items.append(name.as_str());
        i += 1;
    }
    assert(texts(names@).take(i as int) == texts(names@));
    let mut text = owned("failed to resolve application with only [");
    text.append("[");
    text.append(items.as_str());
    text.append("]");
    text.append("] components retained by configured environment variable ");
    text.append(SPIN_COMPONENTS_TO_RETAIN_ENV);
    text
}

/// What a trigger of each type is started with.
#[derive(Clone, Debug, PartialEq, Eq)]
pub enum TriggerArgs {
    /// Listen on `address`, with the given certificate and key for TLS where there are
    /// any, and look for a free port where the address's own is taken if asked to.
    Http { address: String, tls_cert: Option<String>, tls_key: Option<String>, find_free_port: bool },
    /// No argument.
    Redis,
    /// No argument.
    Sqs,
    /// Hand the container's arguments on to the guest.
    Command { guest_args: Vec<String> },
    /// Whether to run in test mode.
    Mqtt { test: bool },
}

/// The mathematical value of [`TriggerArgs`].
pub ghost enum TriggerArgsModel {
    Http {
        address: Seq<char>,
        tls_cert: Option<Seq<char>>,
        tls_key: Option<Seq<char>>,
        find_free_port: bool,
    },
    Redis,
    Sqs,
    Command { guest_args: Seq<Seq<char>> },
    Mqtt { test: bool },
}

impl View for TriggerArgs {
    type V = TriggerArgsModel;

    open spec fn view(&self) -> TriggerArgsModel {
        match self {
            TriggerArgs::Http { address, tls_cert, tls_key, find_free_port } => {
                TriggerArgsModel::Http {
                    address: address@,
                    tls_cert: match tls_cert {
                        Some(path) => Some(path@),
                        None => None,
                    },
                    tls_key: match tls_key {
                        Some(path) => Some(path@),
                        None => None,
                    },
                    find_free_port: *find_free_port,
                }
            },
            TriggerArgs::Redis => TriggerArgsModel::Redis,
            TriggerArgs::Sqs => TriggerArgsModel::Sqs,
            TriggerArgs::Command { guest_args } => TriggerArgsModel::Command {
                guest_args: texts(guest_args@),
            },
            TriggerArgs::Mqtt { test } => TriggerArgsModel::Mqtt { test: *test },
        }
    }
}

/// The arguments for a trigger of kind `kind`: the HTTP trigger listens on the listen
/// address, without TLS and on that very port; the command trigger gets the container's
/// arguments; the MQTT trigger runs outside test mode; and the others take nothing.
pub open spec fn args_for(kind: TriggerKind, listen_addr: Seq<char>, args: Seq<Seq<char>>)
    -> TriggerArgsModel {
    match kind {
        TriggerKind::Http => TriggerArgsModel::Http {
            address: listen_addr,
            tls_cert: None,
            tls_key: None,
            find_free_port: false,
        },
        TriggerKind::Redis => TriggerArgsModel::Redis,
        TriggerKind::Sqs => TriggerArgsModel::Sqs,
        TriggerKind::Command => TriggerArgsModel::Command { guest_args: args },
        TriggerKind::Mqtt => TriggerArgsModel::Mqtt { test: false },
    }
}

/// Builds what a trigger of kind `kind` is started with.
pub fn trigger_args(kind: TriggerKind, settings: &RunSettings, args: &Vec<String>) -> (built:
    TriggerArgs)
    ensures
        built@ == args_for(kind, settings.listen_addr@, texts(args@)),
{
    match kind {
        TriggerKind::Http => TriggerArgs::Http {
            address: settings.listen_addr.clone(),
            tls_cert: None,
            tls_key: None,
            find_free_port: false,
        },
        TriggerKind::Redis => TriggerArgs::Redis,
        TriggerKind::Sqs => TriggerArgs::Sqs,
        TriggerKind::Command => TriggerArgs::Command { guest_args: copy_strings(args) },
        TriggerKind::Mqtt => TriggerArgs::Mqtt { test: false },
    }
}

/// Where a trigger writes its logs.
#[derive(Clone, Debug, PartialEq, Eq)]
pub enum LogDir {
    /// In the given directory.
    Provided(String),
    /// Nowhere on disk: logs go to the standard output.
    Unset,
    /// In the application's state directory.
    Default,
}

/// The configuration that every trigger's runtime is built with.
#[derive(Clone, Debug, PartialEq, Eq)]
pub struct FactorsSettings {
    pub working_dir: String,
    pub runtime_config_file: Option<String>,
    pub local_app_dir: Option<String>,
    pub log_dir: LogDir,
}

/// The runtime configuration. The configuration file is named only where it exists; the
/// working directory is also the base of the state directory; and no log directory is
/// set, so that logs are shown on the standard output.
pub fn factors_config(runtime_config_exists: bool) -> (config: FactorsSettings)
    ensures
        config.working_dir@ == SPIN_TRIGGER_WORKING_DIR@,
        config.runtime_config_file is Some == runtime_config_exists,
        runtime_config_exists ==> config.runtime_config_file->0@ == RUNTIME_CONFIG_PATH@,
        config.local_app_dir is Some,
        config.local_app_dir->0@ == SPIN_TRIGGER_WORKING_DIR@,
        config.log_dir == LogDir::Unset,
{
    let runtime_config_file = if runtime_config_exists {
        Some(owned(RUNTIME_CONFIG_PATH))
    } else {
        None
    };
    FactorsSettings {
        working_dir: owned(SPIN_TRIGGER_WORKING_DIR),
        runtime_config_file,
        local_app_dir: Some(owned(SPIN_TRIGGER_WORKING_DIR)),
        log_dir: LogDir::Unset,
    }
}

} // verus!
