//! The shim and its sandbox: what the host is told about the shim, how a run is set
//! up, and how its end is turned into an exit status.

use vstd::prelude::*;
use crate::compiler::{shim_settings, CompileError, SpinCompiler};
use crate::descriptor::{trigger_types, AppDescriptor};
use crate::layer::{
    kind_of, lemma_media_types_distinct, LayerKind, MEDIA_TYPE_ARCHIVE, MEDIA_TYPE_DATA,
    MEDIA_TYPE_MANIFEST, MEDIA_TYPE_WASM_MODULE,
};
use crate::loader::DescriptorResolutionError;
use crate::source::InvalidSourceError;
use crate::supervisor::{Action, Supervisor, SupervisorModel, Verdict};
use crate::trigger::{
    first_unsupported, get_supported_triggers, kind_of_tag, lemma_distinct_kinds,
    lemma_first_unsupported, selection, TriggerKind, UnsupportedTriggerKind,
};

verus! {

/// The name under which the shim is known to the container runtime.
pub const SHIM_NAME: &'static str = "spin";

/// The shim.
pub struct SpinShim;

/// The sandbox in which one application runs.
#[derive(Default)]
pub struct SpinSandbox;

/// The media types of the layers that the shim asks the host for, in this order.
pub open spec fn supported_layer_types() -> Seq<Seq<char>> {
    seq![
        MEDIA_TYPE_WASM_MODULE@,
        MEDIA_TYPE_ARCHIVE@,
        MEDIA_TYPE_DATA@,
        MEDIA_TYPE_MANIFEST@,
    ]
}

impl SpinShim {
    /// The name under which the shim registers.
    pub fn name() -> (name: &'static str)
        ensures
            name@ == SHIM_NAME@,
    {
        SHIM_NAME
    }

    /// The compiler that compiles layers ahead of time: one whose engine is asked for
    /// with the shim's settings. Where the engine refuses them, the error says why.
    pub fn compiler() -> (compiler: Result<SpinCompiler, CompileError>)
        ensures
            match compiler {
                Ok(made) => made.built_with() == shim_settings(),
                Err(error) => error is Engine,
            },
    {
        SpinCompiler::new()
    }

    /// The media types of the layers that the host is to hand over.
    pub fn supported_layers_types() -> (types: Vec<&'static str>)
        ensures
            types@.len() == supported_layer_types().len(),
            forall|i: int| 0 <= i < types@.len() ==> types[i]@ == supported_layer_types()[i],
    {
        let mut types: Vec<&'static str> = Vec::new();
        types.push(MEDIA_TYPE_WASM_MODULE);
        types.push(MEDIA_TYPE_ARCHIVE);
        types.push(MEDIA_TYPE_DATA);
        types.push(MEDIA_TYPE_MANIFEST);
        types
    }
}

/// Every layer that the shim asks for is one that it knows what to do with.
pub proof fn lemma_supported_layers_are_known()
    ensures
        forall|i: int|
            0 <= i < supported_layer_types().len() ==> kind_of(#[trigger] supported_layer_types()[i])
                != LayerKind::Unknown,
{
    lemma_media_types_distinct();
}

/// Any fatal error of a run. `E` is the host's own error type: what a trigger or the
/// host's input and output failed with is carried as it came.
#[derive(Debug, PartialEq, Eq)]
pub enum ShimError<E> {
    /// The layers are no valid source.
    InvalidSource(InvalidSourceError),
    /// The content of a component is missing.
    DescriptorResolution(DescriptorResolutionError),
    /// The application declares a trigger type that is not supported.
    UnsupportedTrigger(UnsupportedTriggerKind),
    /// A trigger could not be started.
    TriggerLaunch { kind: TriggerKind, error: E },
    /// The first trigger to end failed.
    TriggerRuntime { kind: TriggerKind, error: E },
    /// The cache could not be written or read at `path`.
    CacheIo { path: String, error: E },
    /// The host failed otherwise: a loader gave up, and the like.
    Host(E),
}

/// How a run ended.
#[derive(Debug, PartialEq, Eq)]
pub enum RunOutcome<E> {
    /// The first trigger to end did so without an error.
    Completed,
    /// The run was stopped from outside.
    Cancelled,
    /// The run failed.
    Failed(ShimError<E>),
}

/// The outcome that a supervisor's verdict stands for: the first task's own result,
/// with its error tagged by the trigger type; a failed launch as a failure; a stop
/// request as a cancellation.
pub open spec fn outcome_of<E>(verdict: Verdict<E>) -> RunOutcome<E> {
    match verdict {
        Verdict::Finished { task, kind, result } => match result {
            Ok(_) => RunOutcome::Completed,
            Err(error) => RunOutcome::Failed(ShimError::TriggerRuntime { kind, error }),
        },
        Verdict::LaunchFailed { kind, error } => RunOutcome::Failed(
            ShimError::TriggerLaunch { kind, error },
        ),
        Verdict::Cancelled => RunOutcome::Cancelled,
    }
}

/// The exit status that an outcome is reported with: zero for a clean end and for a
/// cancellation, the error itself for a failure.
pub open spec fn status_of<E>(outcome: RunOutcome<E>) -> Result<i32, ShimError<E>> {
    match outcome {
        RunOutcome::Completed => Ok(0i32),
        RunOutcome::Cancelled => Ok(0i32),
        RunOutcome::Failed(error) => Err(error),
    }
}

/// The supervisor that a list of declared trigger types leads to: none where a type is
/// unsupported, none to run where nothing is declared, else one that has launched
/// nothing yet.
pub open spec fn supervision<E>(tags: Seq<Seq<char>>) -> Result<
    Option<SupervisorModel<E>>,
    Seq<char>,
> {
    match selection(tags) {
        Err(tag) => Err(tag),
        Ok(kinds) => if kinds.len() == 0 {
            Ok(None)
        } else {
            Ok(Some(SupervisorModel::<E>::initial(kinds)))
        },
    }
}

/// Where a declared trigger type is not supported, selection fails and names it, no
/// supervisor comes to be, and so no trigger is launched. Where a supervisor comes to
/// be, it has launched nothing, and the first thing it asks for is a launch.
pub proof fn lemma_unsupported_trigger_launches_nothing<E>(tags: Seq<Seq<char>>)
    ensures
        (exists|i: int| 0 <= i < tags.len() && kind_of_tag(tags[i]) is None) <==> supervision::<E>(
            tags,
        ) is Err,
        supervision::<E>(tags) matches Err(tag) ==> tag == tags[first_unsupported(tags)],
        supervision::<E>(tags) matches Ok(Some(supervisor)) ==> supervisor.wf()
            && supervisor.launched == 0 && supervisor.verdict is None && supervisor.due()
            == Action::Launch(supervisor.kinds[0]),
{
    lemma_first_unsupported(tags);
    lemma_distinct_kinds(tags);
}

impl SpinSandbox {
    /// Sets up the supervision of an application's triggers. Nothing is launched here:
    /// the trigger types are selected first, and an unsupported one fails the run before
    /// any launch. An application without triggers gets no supervisor.
    pub fn supervise<E>(&self, app: &AppDescriptor) -> (result: Result<
        Option<Supervisor<E>>,
        UnsupportedTriggerKind,
    >)
        ensures
            match result {
                Ok(Some(supervisor)) => supervision::<E>(trigger_types(app)) == Ok::<
                    Option<SupervisorModel<E>>,
                    Seq<char>,
                >(Some(supervisor@)),
                Ok(None) => supervision::<E>(trigger_types(app)) == Ok::<
                    Option<SupervisorModel<E>>,
                    Seq<char>,
                >(None),
                Err(error) => supervision::<E>(trigger_types(app)) == Err::<
                    Option<SupervisorModel<E>>,
                    Seq<char>,
                >(error.tag@),
            },
    {
        match get_supported_triggers(app) {
            Err(error) => Err(error),
            Ok(kinds) => {
                proof {
                    lemma_distinct_kinds(trigger_types(app));
                }
                Ok(Supervisor::new(kinds))
            },
        }
    }

    /// Turns the supervisor's verdict into the outcome of the run.
    pub fn conclude<E>(&self, verdict: Verdict<E>) -> (outcome: RunOutcome<E>)
        ensures
            outcome == outcome_of(verdict),
    {
        match verdict {
            Verdict::Finished { task: _, kind, result } => match result {
                Ok(_) => RunOutcome::Completed,
                Err(error) => RunOutcome::Failed(ShimError::TriggerRuntime { kind, error }),
            },
            Verdict::LaunchFailed { kind, error } => RunOutcome::Failed(
                ShimError::TriggerLaunch { kind, error },
            ),
            Verdict::Cancelled => RunOutcome::Cancelled,
        }
    }

    /// The exit status of a run: zero unless the run failed.
    pub fn exit_status<E>(&self, outcome: RunOutcome<E>) -> (status: Result<i32, ShimError<E>>)
        ensures
            status == status_of(outcome),
    {
        match outcome {
            RunOutcome::Completed => Ok(0),
            RunOutcome::Cancelled => Ok(0),
            RunOutcome::Failed(error) => Err(error),
        }
    }
}

} // verus!
