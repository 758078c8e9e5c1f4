use containerd_shim_spin::cache::ContentCache;
use containerd_shim_spin::descriptor::{AppDescriptor, Component, Content, TriggerDecl};
use containerd_shim_spin::layer::{ContentLayer, MEDIA_TYPE_MANIFEST, MEDIA_TYPE_WASM_MODULE};
use containerd_shim_spin::loader::{
    locate, resolve_components, DescriptorResolutionError, FilesMount, LoadStage, Loader,
};
use containerd_shim_spin::source::{Artifacts, Source, Workspace};

fn component(id: &str, content: Content) -> Component {
    Component { id: id.to_string(), content }
}

fn by_digest(digest: &str) -> Content {
    Content::Digest(digest.to_string())
}

#[test]
fn each_source_has_its_loader() {
    assert_eq!(
        Source::File("/nonexistent/spin.toml".to_string()).loader(),
        Loader::Manifest {
            path: "/nonexistent/spin.toml".to_string(),
            files: FilesMount::Direct
        }
    );
    assert_eq!(
        Source::OciSpin.loader(),
        Loader::LockedApp { manifest: "/spin.json".to_string(), working_dir: "/".to_string() }
    );
    assert_eq!(
        Source::OciWkg("/cache/wasm/sha256:ab".to_string()).loader(),
        Loader::WasmFile { path: "/cache/wasm/sha256:ab".to_string() }
    );
}

#[test]
fn load_failures_say_where_loading_failed() {
    assert_eq!(
        LoadStage::ReadLockedApp { path: "/spin.json".to_string() }.context(),
        "failed to read from \"/spin.json\""
    );
    assert_eq!(
        LoadStage::DecodeLockedApp { path: "/spin.json".to_string() }.context(),
        "failed to decode locked app from \"/spin.json\""
    );
    assert_eq!(
        LoadStage::LoadWasmFile { path: "/tmp/test.wasm".to_string() }.context(),
        "Failed to load component from \"/tmp/test.wasm\""
    );
}

#[test]
fn cached_content_round_trips_through_resolution() {
    let bytes = vec![0x00, 0x61, 0x73, 0x6d, 0x01, 0x00, 0x00, 0x00];
    let artifacts = Artifacts::Oci(vec![
        ContentLayer::new(MEDIA_TYPE_MANIFEST, "sha256:m", b"{}".to_vec()),
        ContentLayer::new(MEDIA_TYPE_WASM_MODULE, "sha256:D", bytes.clone()),
    ]);
    let mut workspace = Workspace::new("/cache");
    let source = Source::from_ctx(&artifacts, &mut workspace).unwrap();
    assert_eq!(source, Source::OciSpin);

    let loaded = AppDescriptor {
        components: vec![component("hello", by_digest("sha256:D"))],
        triggers: vec![TriggerDecl {
            id: "t".to_string(),
            trigger_type: "http".to_string(),
            component: "hello".to_string(),
        }],
    };
    let app = source.to_locked_app(&workspace.cache, loaded.clone()).unwrap();

    assert_eq!(app.components.len(), 1);
    assert_eq!(app.components[0].id, "hello");
    assert_eq!(app.components[0].content, Content::Path("/cache/wasm/sha256:D".to_string()));
    assert_eq!(app.triggers, loaded.triggers);
    // What lies at that path is what the layer held.
    assert_eq!(workspace.cache.wasm_path("sha256:D"), "/cache/wasm/sha256:D");
    assert_eq!(workspace.cache.read_wasm("sha256:D"), Some(&bytes));
}

#[test]
fn missing_content_names_the_first_component_that_lacks_it() {
    let mut cache = ContentCache::new("/cache");
    cache.write_wasm(&vec![1], "sha256:a");
    let components = vec![
        component("one", by_digest("sha256:a")),
        component("two", by_digest("sha256:b")),
        component("three", by_digest("sha256:c")),
    ];

    let error = resolve_components(&components, &cache).unwrap_err();

    assert_eq!(
        error,
        DescriptorResolutionError { component: "two".to_string(), digest: "sha256:b".to_string() }
    );
    assert_eq!(error.message(), "failed to resolve content for component \"two\"");
}

#[test]
fn resolution_keeps_order_names_and_paths() {
    let mut cache = ContentCache::new("/cache");
    cache.write_wasm(&vec![1], "sha256:a");
    cache.write_wasm(&vec![2], "sha256:b");
    let components = vec![
        component("front", by_digest("sha256:b")),
        component("local", Content::Path("/app/local.wasm".to_string())),
        component("back", by_digest("sha256:a")),
    ];

    let resolved = resolve_components(&components, &cache).unwrap();

    assert_eq!(
        resolved,
        vec![
            component("front", Content::Path("/cache/wasm/sha256:b".to_string())),
            component("local", Content::Path("/app/local.wasm".to_string())),
            component("back", Content::Path("/cache/wasm/sha256:a".to_string())),
        ]
    );
    assert_eq!(resolve_components(&vec![], &cache), Ok(vec![]));
}

#[test]
fn content_in_the_data_area_does_not_resolve_a_component() {
    let mut cache = ContentCache::new("/cache");
    cache.write_data(&vec![1], "sha256:a");
    assert_eq!(locate(&by_digest("sha256:a"), &cache), None);
    cache.write_wasm(&vec![1], "sha256:a");
    assert_eq!(
        locate(&by_digest("sha256:a"), &cache),
        Some(Content::Path("/cache/wasm/sha256:a".to_string()))
    );
    assert_eq!(
        locate(&Content::Path("/x".to_string()), &cache),
        Some(Content::Path("/x".to_string()))
    );
}

#[test]
fn only_a_registry_application_is_completed_from_the_cache() {
    let cache = ContentCache::new("/cache");
    let loaded = AppDescriptor {
        components: vec![component("hello", by_digest("sha256:gone"))],
        triggers: vec![],
    };

    assert_eq!(
        Source::File("/spin.toml".to_string()).to_locked_app(&cache, loaded.clone()),
        Ok(loaded.clone())
    );
    assert_eq!(
        Source::OciWkg("/cache/wasm/x".to_string()).to_locked_app(&cache, loaded.clone()),
        Ok(loaded.clone())
    );
    assert_eq!(
        Source::OciSpin.to_locked_app(&cache, loaded),
        Err(DescriptorResolutionError {
            component: "hello".to_string(),
            digest: "sha256:gone".to_string()
        })
    );
}

#[test]
fn source_is_described_as_in_messages() {
    assert_eq!(Source::File("/spin.toml".to_string()).describe(), "File(/spin.toml)");
    assert_eq!(Source::OciSpin.describe(), "OciSpin");
    assert_eq!(Source::OciWkg("/c/wasm/d".to_string()).describe(), "OciWkg(/c/wasm/d)");
    assert!(!Source::File("/spin.toml".to_string()).loads_precompiled());
    assert!(Source::OciSpin.loads_precompiled());
    assert!(Source::OciWkg("/c/wasm/d".to_string()).loads_precompiled());
}
