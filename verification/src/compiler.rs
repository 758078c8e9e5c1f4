//! Compiling WebAssembly layers ahead of time.
//!
//! The host hands the compiler the layers of an image and gets back, layer by layer and
//! in the same order, what to store in their place: nothing for a layer that holds no
//! WebAssembly module, the layer's own bytes where they are compiled already, and the
//! compiled component otherwise. Turning a module into a component is the host's part;
//! the compiler says for which layers it is needed and compiles what the host made.

use vstd::prelude::*;
use crate::layer::{ContentLayer, LayerKind, LayerModel};
use crate::text::copy_bytes;

verus! {

/// Whether the engine checks the epoch while guest code runs. The host that loads the
/// compiled code expects it to.
pub const EPOCH_INTERRUPTION: bool = true;

/// Whether the engine emits native unwind information. It does not.
pub const NATIVE_UNWIND_INFO: bool = false;

#[verifier::external_type_specification]
#[verifier::external_body]
pub struct ExEngine(wasmtime::Engine);

#[verifier::external_type_specification]
#[verifier::external_body]
pub struct ExError(anyhow::Error);

/// What kind of compiled code a blob looks like.
#[derive(Clone, Copy, Debug, PartialEq, Eq, Structural)]
pub enum Precompiled {
    Module,
    Component,
}

/// What `wasmtime::Engine::detect_precompiled` finds in the given bytes.
pub uninterp spec fn detected(bytes: Seq<u8>) -> Option<Precompiled>;

/// Calls `wasmtime::Engine::detect_precompiled`. Trusted: the result is named, not
/// stated. It depends on the bytes alone: the function reads the header of the blob and
/// no engine, file or setting.
#[verifier::external_body]
fn detect_precompiled(bytes: &Vec<u8>) -> (found: Option<Precompiled>)
    ensures
        found == detected(bytes@),
{
    match wasmtime::Engine::detect_precompiled(bytes) {
        Some(wasmtime::Precompiled::Module) => Some(Precompiled::Module),
        Some(wasmtime::Precompiled::Component) => Some(Precompiled::Component),
        None => None,
    }
}

/// Builds a `wasmtime::Config` with the two given settings, all others at their
/// defaults, and calls `wasmtime::Engine::new` on it. Trusted: nothing is claimed of the
/// result, which depends on the machine.
#[verifier::external_body]
fn build_engine(epoch_interruption: bool, native_unwind_info: bool) -> Result<
    wasmtime::Engine,
    anyhow::Error,
> {
    let mut config = wasmtime::Config::default();
    config.epoch_interruption(epoch_interruption);
    config.native_unwind_info(native_unwind_info);
    wasmtime::Engine::new(&config)
}

/// Calls `wasmtime::Engine::precompile_component`. Trusted: nothing is claimed of the
/// result, which depends on the engine and the machine.
#[verifier::external_body]
fn precompile_component(engine: &wasmtime::Engine, bytes: &Vec<u8>) -> Result<
    Vec<u8>,
    anyhow::Error,
> {
    engine.precompile_component(bytes)
}

/// Formats an `anyhow::Error` with its chain of causes, as `{:?}` does. Trusted:
/// nothing is claimed of the text.
#[verifier::external_body]
fn error_text(error: &anyhow::Error) -> String {
    format!("{error:?}")
}

/// The compiler could not be made, or a layer could not be compiled.
#[derive(Clone, Debug, PartialEq, Eq)]
pub enum CompileError {
    /// The engine refused its configuration.
    Engine { reason: String },
    /// The host supplied no component for a layer that needs compiling.
    MissingComponent { layer: usize },
    /// The engine could not compile the component made of layer `layer`.
    Layer { layer: usize, reason: String },
    /// The host supplied components for another number of layers.
    Mismatch { layers: usize, components: usize },
}

/// What is to be done with one layer.
#[derive(Clone, Copy, Debug, PartialEq, Eq, Structural)]
pub enum LayerPlan {
    /// The layer holds no WebAssembly module: nothing is stored for it.
    Skip,
    /// The layer's bytes are compiled code already: they are stored as they are.
    Keep,
    /// The layer holds a module that is yet to be compiled.
    Compile,
}

/// The plan for a layer: only a layer declared as a WebAssembly module is compiled, and
/// only if its bytes are not compiled code already.
pub open spec fn plan_of(layer: LayerModel) -> LayerPlan {
    if layer.kind() != LayerKind::WasmModule {
        LayerPlan::Skip
    } else if detected(layer.bytes) is Some {
        LayerPlan::Keep
    } else {
        LayerPlan::Compile
    }
}

/// The plan for one layer, given what the engine found in its bytes.
pub fn decide(kind: LayerKind, found: Option<Precompiled>) -> (plan: LayerPlan)
    ensures
        plan == if kind != LayerKind::WasmModule {
            LayerPlan::Skip
        } else if found is Some {
            LayerPlan::Keep
        } else {
            LayerPlan::Compile
        },
{
    if kind != LayerKind::WasmModule {
        LayerPlan::Skip
    } else if found.is_some() {
        LayerPlan::Keep
    } else {
        LayerPlan::Compile
    }
}

/// What is stored for layer `layer` once the engine was asked to compile its
/// component: the engine's bytes, or the failure with the engine's reason.
pub fn entry_of(layer: usize, outcome: Result<Vec<u8>, String>) -> (entry: Result<
    Option<Vec<u8>>,
    CompileError,
>)
    ensures
        entry == match outcome {
            Ok(bytes) => Ok::<Option<Vec<u8>>, CompileError>(Some(bytes)),
            Err(reason) => Err::<Option<Vec<u8>>, CompileError>(
                CompileError::Layer { layer, reason },
            ),
        },
{
    match outcome {
        Ok(bytes) => Ok(Some(bytes)),
        Err(reason) => Err(CompileError::Layer { layer, reason }),
    }
}

/// The compiler: an engine set up as the host that runs the compiled code expects.
pub struct SpinCompiler {
    engine: wasmtime::Engine,
    settings: EngineSettings,
}

impl SpinCompiler {
    /// Makes a compiler. Its engine is asked for with the shim's settings and with
    /// nothing else changed. It fails where the engine refuses the configuration, and
    /// only then: the error is [`CompileError::Engine`] with the engine's reason.
    pub fn new() -> (compiler: Result<SpinCompiler, CompileError>)
        ensures
            match compiler {
                Ok(made) => made.built_with() == shim_settings(),
                Err(error) => error is Engine,
            },
    {
        let settings = EngineSettings {
            epoch_interruption: EPOCH_INTERRUPTION,
            native_unwind_info: NATIVE_UNWIND_INFO,
        };
        let built = match build_engine(settings.epoch_interruption, settings.native_unwind_info) {
            Ok(engine) => Ok(engine),
            Err(error) => Err(error_text(&error)),
        };
        Self::from_engine(built, settings)
    }

    /// The engine, for what the host does with it.
    pub fn engine(&self) -> (engine: &wasmtime::Engine)
        ensures
            *engine == self.engine_of(),
    {
        &self.engine
    }

    /// The compiler's engine.
    pub closed spec fn engine_of(&self) -> wasmtime::Engine {
        self.engine
    }

    /// The settings that the compiler's engine was asked for.
    pub closed spec fn built_with(&self) -> EngineSettings {
        self.settings
    }

    /// The settings that the compiler's engine was asked for.
    pub fn settings(&self) -> (settings: EngineSettings)
        ensures
            settings == self.built_with(),
    {
        self.settings
    }

    /// The compiler around an engine that was asked for with `settings`, or the failure
    /// with the reason for which the engine refused them.
    fn from_engine(built: Result<wasmtime::Engine, String>, settings: EngineSettings) -> (compiler:
        Result<SpinCompiler, CompileError>)
        ensures
            match built {
                Ok(engine) => compiler matches Ok(made) && made.engine_of() == engine
                    && made.built_with() == settings,
                Err(reason) => compiler == Err::<SpinCompiler, CompileError>(
                    CompileError::Engine { reason },
                ),
            },
    {
        match built {
            Ok(engine) => Ok(SpinCompiler { engine, settings }),
            Err(reason) => Err(CompileError::Engine { reason }),
        }
    }

    /// Says, layer by layer, what is to be done.
    pub fn plan(layers: &Vec<ContentLayer>) -> (plans: Vec<LayerPlan>)
        ensures
            plans@.len() == layers@.len(),
            forall|i: int| 0 <= i < layers@.len() ==> plans[i] == plan_of(layers[i]@),
    {
        let mut plans: Vec<LayerPlan> = Vec::new();
        let mut i: usize = 0;
        while i < layers.len()
            invariant
                i <= layers.len(),
                plans@.len() == i,
                forall|j: int| 0 <= j < i ==> plans[j] == plan_of(layers[j]@),
            decreases layers.len() - i,
        {
            let layer = &layers[i];
            let kind = layer.kind();
            let found = if kind == LayerKind::WasmModule {
                detect_precompiled(&layer.bytes)
            } else {
                None
            };
            plans.push(decide(kind, found));
            i += 1;
        }
        plans
    }

    /// Compiles the layers. `components` holds, for each layer that is to be compiled,
    /// the component that the host made of it, at the layer's index; what it holds for
    /// the other layers is not read.
    ///
    /// The result has one entry per layer, in the order of the layers: `None` for a
    /// layer that is skipped, the layer's own bytes for one that is kept, and for one
    /// that is compiled what the engine made of its component. The first layer, in
    /// their order, that lacks a component or that the engine refuses fails the whole.
    pub fn compile(
        &self,
        layers: &Vec<ContentLayer>,
        components: &Vec<Option<Vec<u8>>>,
    ) -> (result: Result<Vec<Option<Vec<u8>>>, CompileError>)
        ensures
            match result {
                Ok(compiled) => {
                    &&& components@.len() == layers@.len()
                    &&& compiled@.len() == layers@.len()
                    &&& forall|i: int|
                        0 <= i < layers@.len() ==> match plan_of(#[trigger] layers[i]@) {
                            LayerPlan::Skip => compiled[i] is None,
                            LayerPlan::Keep => compiled[i] is Some && compiled[i]->0@
                                == layers[i]@.bytes,
                            LayerPlan::Compile => compiled[i] is Some && components[i] is Some,
                        }
                },
                Err(CompileError::Mismatch { layers: expected, components: given }) => expected
                    == layers@.len() && given == components@.len() && expected != given,
                Err(CompileError::MissingComponent { layer }) => components@.len()
                    == layers@.len() && layer < layers@.len() && plan_of(layers[layer as int]@)
                    == LayerPlan::Compile && components[layer as int] is None && forall|j: int|
                    0 <= j < layer && plan_of(#[trigger] layers[j]@) == LayerPlan::Compile
                        ==> components[j] is Some,
                Err(CompileError::Layer { layer, reason }) => components@.len() == layers@.len()
                    && layer < layers@.len() && plan_of(layers[layer as int]@)
                    == LayerPlan::Compile && components[layer as int] is Some && forall|j: int|
                    0 <= j < layer && plan_of(#[trigger] layers[j]@) == LayerPlan::Compile
                        ==> components[j] is Some,
                Err(CompileError::Engine { .. }) => false,
            },
            (forall|i: int|
                0 <= i < layers@.len() ==> plan_of(#[trigger] layers[i]@) != LayerPlan::Compile)
                && components@.len() == layers@.len() ==> result is Ok,
    {
        if components.len() != layers.len() {
            return Err(
                CompileError::Mismatch { layers: layers.len(), components: components.len() },
            );
        }
        let plans = Self::plan(layers);
        let mut compiled: Vec<Option<Vec<u8>>> = Vec::new();
        let mut i: usize = 0;
        while i < layers.len()
            invariant
                i <= layers.len(),
                components@.len() == layers@.len(),
                plans@.len() == layers@.len(),
                forall|j: int| 0 <= j < layers@.len() ==> plans[j] == plan_of(layers[j]@),
                compiled@.len() == i,
                forall|j: int|
                    0 <= j < i ==> match plan_of(#[trigger] layers[j]@) {
                        LayerPlan::Skip => compiled[j] is None,
                        LayerPlan::Keep => compiled[j] is Some && compiled[j]->0@
                            == layers[j]@.bytes,
                        LayerPlan::Compile => compiled[j] is Some && components[j] is Some,
                    },
            decreases layers.len() - i,
        {
            let entry = match plans[i] {
                LayerPlan::Skip => None,
                LayerPlan::Keep => Some(copy_bytes(&layers[i].bytes)),
                LayerPlan::Compile => match &components[i] {
                    None => {
                        return Err(CompileError::MissingComponent { layer: i });
                    },
                    Some(component) => {
                        let outcome = match precompile_component(&self.engine, component) {
                            Ok(bytes) => Ok(bytes),
                            Err(error) => Err(error_text(&error)),
                        };
                        match entry_of(i, outcome) {
                            Ok(entry) => entry,
                            Err(error) => {
                                return Err(error);
                            },
                        }
                    },
                },
            };
            compiled.push(entry);
            i += 1;
        }
        Ok(compiled)
    }
}

/// The settings of an engine that the shim chooses; all others stay at their defaults.
#[derive(Clone, Copy, Debug, PartialEq, Eq, Structural)]
pub struct EngineSettings {
    /// Whether the engine checks the epoch while guest code runs.
    pub epoch_interruption: bool,
    /// Whether the engine emits native unwind information.
    pub native_unwind_info: bool,
}

/// The settings with which the shim's compiler asks for its engine.
pub open spec fn shim_settings() -> EngineSettings {
    EngineSettings {
        epoch_interruption: EPOCH_INTERRUPTION,
        native_unwind_info: NATIVE_UNWIND_INFO,
    }
}

} // verus!
