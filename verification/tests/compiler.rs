use containerd_shim_spin::compiler::{
    decide, entry_of, CompileError, EngineSettings, LayerPlan, Precompiled, SpinCompiler,
};
use containerd_shim_spin::layer::LayerKind;
use containerd_shim_spin::layer::{ContentLayer, MEDIA_TYPE_DATA, MEDIA_TYPE_WASM_MODULE};

const TEST_DIGEST: &str = "sha256:6c3c624b58dbbcd3c0dd82b4c53f04194d1247c6eebdaab7c610cf7d66709b3b";

/// The binary of the empty module: the magic number and the version.
fn empty_module() -> Vec<u8> {
    vec![0x00, 0x61, 0x73, 0x6d, 0x01, 0x00, 0x00, 0x00]
}

/// The component that the host would make of the empty module.
fn empty_component() -> Vec<u8> {
    b"(component)".to_vec()
}

#[test]
fn precompile() {
    let module = empty_module();
    let wasmtime_engine = wasmtime::Engine::default();
    let component = wasmtime::component::Component::new(&wasmtime_engine, "(component)")
        .unwrap()
        .serialize()
        .unwrap();
    let wasm_layers: Vec<ContentLayer> = vec![
        // Needs to be precompiled
        ContentLayer::new(MEDIA_TYPE_WASM_MODULE, TEST_DIGEST, module.clone()),
        // Precompiled
        ContentLayer::new(MEDIA_TYPE_WASM_MODULE, TEST_DIGEST, component.to_owned()),
        // Content that should be skipped
        ContentLayer::new(MEDIA_TYPE_DATA, TEST_DIGEST, vec![]),
    ];
    let compiler = SpinCompiler::new().expect("no compiler");
    assert_eq!(
        SpinCompiler::plan(&wasm_layers),
        vec![LayerPlan::Compile, LayerPlan::Keep, LayerPlan::Skip]
    );
    let components = vec![Some(empty_component()), None, None];
    let precompiled = compiler
        .compile(&wasm_layers, &components)
        .expect("compile failed");
    assert_eq!(precompiled.len(), 3);
    assert_ne!(precompiled[0].as_deref().expect("no first entry"), module);
    assert_ne!(precompiled[0].as_deref().expect("no first entry"), empty_component());
    assert_eq!(
        precompiled[1].as_deref().expect("no second entry"),
        component
    );
    assert!(precompiled[2].is_none());
    // What the engine made is itself compiled code.
    let again = vec![ContentLayer::new(
        MEDIA_TYPE_WASM_MODULE,
        TEST_DIGEST,
        precompiled[0].clone().unwrap(),
    )];
    assert_eq!(SpinCompiler::plan(&again), vec![LayerPlan::Keep]);
}

#[test]
fn compile_fails_on_the_first_layer_that_lacks_a_component() {
    let layers = vec![
        ContentLayer::new(MEDIA_TYPE_DATA, TEST_DIGEST, vec![]),
        ContentLayer::new(MEDIA_TYPE_WASM_MODULE, TEST_DIGEST, empty_module()),
        ContentLayer::new(MEDIA_TYPE_WASM_MODULE, TEST_DIGEST, empty_module()),
    ];
    let compiler = SpinCompiler::new().expect("no compiler");
    assert_eq!(
        compiler.compile(&layers, &vec![None, None, Some(empty_component())]),
        Err(CompileError::MissingComponent { layer: 1 })
    );
    assert_eq!(
        compiler.compile(&layers, &vec![None]),
        Err(CompileError::Mismatch { layers: 3, components: 1 })
    );
}

#[test]
fn compile_reports_what_the_engine_refuses() {
    let layers = vec![ContentLayer::new(MEDIA_TYPE_WASM_MODULE, TEST_DIGEST, empty_module())];
    let compiler = SpinCompiler::new().expect("no compiler");
    // A core module is no component.
    match compiler.compile(&layers, &vec![Some(empty_module())]) {
        Err(CompileError::Layer { layer, reason }) => {
            assert_eq!(layer, 0);
            assert!(!reason.is_empty());
        }
        other => panic!("expected the engine to refuse, got {other:?}"),
    }
}

#[test]
fn layers_that_need_no_compiling_always_compile() {
    let layers = vec![
        ContentLayer::new(MEDIA_TYPE_DATA, TEST_DIGEST, vec![1]),
        ContentLayer::new("application/unknown+type", TEST_DIGEST, empty_module()),
    ];
    let compiler = SpinCompiler::new().expect("no compiler");
    assert_eq!(SpinCompiler::plan(&layers), vec![LayerPlan::Skip, LayerPlan::Skip]);
    assert_eq!(compiler.compile(&layers, &vec![None, None]), Ok(vec![None, None]));
    assert_eq!(compiler.compile(&vec![], &vec![]), Ok(vec![]));
}

#[test]
fn plan_depends_on_the_kind_and_on_what_the_engine_finds() {
    assert_eq!(decide(LayerKind::WasmModule, None), LayerPlan::Compile);
    assert_eq!(decide(LayerKind::WasmModule, Some(Precompiled::Component)), LayerPlan::Keep);
    assert_eq!(decide(LayerKind::WasmModule, Some(Precompiled::Module)), LayerPlan::Keep);
    for kind in [
        LayerKind::Manifest,
        LayerKind::WasmPackage,
        LayerKind::DataBlob,
        LayerKind::Archive,
        LayerKind::Unknown,
    ] {
        assert_eq!(decide(kind, None), LayerPlan::Skip);
        assert_eq!(decide(kind, Some(Precompiled::Component)), LayerPlan::Skip);
    }
}

#[test]
fn engine_outcome_becomes_the_entry_or_the_error_of_the_layer() {
    assert_eq!(entry_of(4, Ok(vec![1, 2])), Ok(Some(vec![1, 2])));
    assert_eq!(
        entry_of(4, Err("not a component".to_string())),
        Err(CompileError::Layer { layer: 4, reason: "not a component".to_string() })
    );
}

#[test]
fn compiler_is_built_with_the_settings_of_the_shim() {
    let expected = EngineSettings { epoch_interruption: true, native_unwind_info: false };
    let compiler = SpinCompiler::new().expect("no compiler");
    assert_eq!(compiler.settings(), expected);
    let compiler = containerd_shim_spin::SpinShim::compiler().expect("no compiler");
    assert_eq!(compiler.settings(), expected);
    // The engine that is handed out is one that compiles.
    assert!(compiler.engine().precompile_component(b"(component)").is_ok());
}
