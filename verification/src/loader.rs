//! From a resolved source to the application descriptor: which loader reads it, and
//! how the content of its components is found in the cache.

use vstd::prelude::*;
use crate::cache::{CacheModel, ContentCache};
use crate::descriptor::{
    component_models, AppDescriptor, AppModel, Component, ComponentModel, Content, ContentModel,
};
use crate::layer::{LayerKind, LayerModel};
use crate::source::{
    after_layers, lemma_scanned, lemma_written_wasm, resolved_workspace, scanned, ArtifactsModel,
    Source, SourceModel, WorkspaceModel, SPIN_JSON_PATH,
};
use crate::text::{join2, owned, quoted, quoted_text};

verus! {

/// The directory below which a registry application's files are laid out.
pub const OCI_WORKING_DIR: &'static str = "/";

/// How the files that a manifest names reach the application.
#[derive(Clone, Copy, Debug, PartialEq, Eq, Structural)]
pub enum FilesMount {
    /// They are used where they lie.
    Direct,
    /// They are copied to a directory of the application's own.
    Copy,
}

/// The way in which the descriptor of a source is read.
#[derive(Clone, Debug, PartialEq, Eq)]
pub enum Loader {
    /// Read the manifest at `path`, and mount the files that it names as `files` says.
    Manifest { path: String, files: FilesMount },
    /// Decode the locked application at `manifest`, then find the content of each of
    /// its components in the cache; its files are laid out below `working_dir`.
    LockedApp { manifest: String, working_dir: String },
    /// Describe the single component whose binary lies at `path`.
    WasmFile { path: String },
}

/// The mathematical value of a [`Loader`].
pub ghost enum LoaderModel {
    Manifest { path: Seq<char>, files: FilesMount },
    LockedApp { manifest: Seq<char>, working_dir: Seq<char> },
    WasmFile { path: Seq<char> },
}

impl View for Loader {
    type V = LoaderModel;

    open spec fn view(&self) -> LoaderModel {
        match self {
            Loader::Manifest { path, files } => LoaderModel::Manifest {
                path: path@,
                files: *files,
            },
            Loader::LockedApp { manifest, working_dir } => LoaderModel::LockedApp {
                manifest: manifest@,
                working_dir: working_dir@,
            },
            Loader::WasmFile { path } => LoaderModel::WasmFile { path: path@ },
        }
    }
}

/// The loader that reads the descriptor of each kind of source. The files of a local
/// manifest are used where they lie: nothing is copied in.
pub open spec fn loader_of(source: SourceModel) -> LoaderModel {
    match source {
        SourceModel::File(path) => LoaderModel::Manifest { path, files: FilesMount::Direct },
        SourceModel::OciSpin => LoaderModel::LockedApp {
            manifest: SPIN_JSON_PATH@,
            working_dir: OCI_WORKING_DIR@,
        },
        SourceModel::OciWkg(path) => LoaderModel::WasmFile { path },
    }
}

/// What went wrong while the descriptor was read.
#[derive(Clone, Debug, PartialEq, Eq)]
pub enum LoadStage {
    /// The locked application could not be read from `path`.
    ReadLockedApp { path: String },
    /// What was read from `path` is no locked application.
    DecodeLockedApp { path: String },
    /// No component could be made of the binary at `path`.
    LoadWasmFile { path: String },
}

impl LoadStage {
    pub open spec fn spec_context(self) -> Seq<char> {
        match self {
            LoadStage::ReadLockedApp { path } => "failed to read from "@ + quoted_text(path@),
            LoadStage::DecodeLockedApp { path } => "failed to decode locked app from "@
                + quoted_text(path@),
            LoadStage::LoadWasmFile { path } => "Failed to load component from "@ + quoted_text(
                path@,
            ),
        }
    }

    /// The words that say at which stage loading failed, and on which file.
    pub fn context(&self) -> (text: String)
        ensures
            text@ == self.spec_context(),
    {
        match self {
            LoadStage::ReadLockedApp { path } => {
                let path = quoted(path.as_str());
                join2("failed to read from ", path.as_str())
            },
            LoadStage::DecodeLockedApp { path } => {
                let path = quoted(path.as_str());
                join2("failed to decode locked app from ", path.as_str())
            },
            LoadStage::LoadWasmFile { path } => {
                let path = quoted(path.as_str());
                join2("Failed to load component from ", path.as_str())
            },
        }
    }
}

/// The content of a component could not be found.
#[derive(Clone, Debug, PartialEq, Eq)]
pub struct DescriptorResolutionError {
    /// The component whose content is missing.
    pub component: String,
    /// The digest under which the cache holds nothing.
    pub digest: String,
}

/// The mathematical value of a [`DescriptorResolutionError`].
pub ghost struct MissingContent {
    pub component: Seq<char>,
    pub digest: Seq<char>,
}

impl View for DescriptorResolutionError {
    type V = MissingContent;

    open spec fn view(&self) -> MissingContent {
        MissingContent { component: self.component@, digest: self.digest@ }
    }
}

impl DescriptorResolutionError {
    pub open spec fn spec_message(self) -> Seq<char> {
        "failed to resolve content for component "@ + quoted_text(self.component@)
    }

    /// The error in words; it names the component.
    pub fn message(&self) -> (text: String)
        ensures
            text@ == self.spec_message(),
    {
        let component = quoted(self.component.as_str());
        join2("failed to resolve content for component ", component.as_str())
    }
}

/// Where content is found once the cache was asked: a digest gives the path of the
/// binary stored under it, or nothing where none is stored; a path stays.
pub open spec fn located(content: ContentModel, cache: CacheModel) -> Option<ContentModel> {
    match content {
        ContentModel::Digest(digest) => if cache.wasm.contains_key(digest) {
            Some(ContentModel::Path(cache.wasm_path(digest)))
        } else {
            None
        },
        ContentModel::Path(path) => Some(ContentModel::Path(path)),
    }
}

/// The components with their content located, or the first component, in their order,
/// whose content the cache does not hold.
pub open spec fn resolution(components: Seq<ComponentModel>, cache: CacheModel) -> Result<
    Seq<ComponentModel>,
    MissingContent,
>
    decreases components.len(),
{
    if components.len() == 0 {
        Ok(Seq::empty())
    } else {
        match resolution(components.drop_last(), cache) {
            Err(missing) => Err(missing),
            Ok(done) => match located(components.last().content, cache) {
                Some(content) => Ok(done.push(ComponentModel { content, ..components.last() })),
                None => Err(
                    MissingContent {
                        component: components.last().id,
                        digest: components.last().content->Digest_0,
                    },
                ),
            },
        }
    }
}

/// The descriptor that a source's loader read, after the step that follows loading: for
/// a registry application the content of every component is located in the cache; for
/// the other sources the descriptor stays as it was read.
pub open spec fn completed(source: SourceModel, app: AppModel, cache: CacheModel) -> Result<
    AppModel,
    MissingContent,
> {
    match source {
        SourceModel::OciSpin => match resolution(app.components, cache) {
            Ok(components) => Ok(AppModel { components, ..app }),
            Err(missing) => Err(missing),
        },
        _ => Ok(app),
    }
}

/// Resolution succeeds exactly if the cache holds the content of every component. It
/// then keeps each component in its place and under its name, and changes its content
/// alone. Where it fails, the error names the first component whose
/// content is missing.
pub proof fn lemma_resolution(components: Seq<ComponentModel>, cache: CacheModel)
    ensures
        resolution(components, cache) is Ok <==> forall|i: int|
            0 <= i < components.len() ==> located(#[trigger] components[i].content, cache) is Some,
        resolution(components, cache) matches Ok(done) ==> done.len() == components.len()
            && forall|i: int|
            0 <= i < components.len() ==> #[trigger] done[i] == (ComponentModel {
                content: located(components[i].content, cache)->0,
                ..components[i]
            }),
        resolution(components, cache) matches Err(missing) ==> exists|i: int|
            0 <= i < components.len() && located(#[trigger] components[i].content, cache) is None
                && missing.component == components[i].id && components[i].content
                == ContentModel::Digest(missing.digest) && forall|j: int|
                0 <= j < i ==> located(#[trigger] components[j].content, cache) is Some,
    decreases components.len(),
{
    if components.len() > 0 {
        let init = components.drop_last();
        lemma_resolution(init, cache);
        assert forall|i: int| 0 <= i < init.len() implies init[i] == components[i] by {}
        if resolution(init, cache) is Err {
            // The component that failed among the earlier ones fails the whole.
            let missing = resolution(init, cache)->Err_0;
            let i = choose|i: int|
                0 <= i < init.len() && located(#[trigger] init[i].content, cache) is None
                    && missing.component == init[i].id && init[i].content
                    == ContentModel::Digest(missing.digest) && forall|j: int|
                    0 <= j < i ==> located(#[trigger] init[j].content, cache) is Some;
            assert(located(components[i].content, cache) is None);
        }
    }
}

/// Round trip. Where the cache holds `bytes` under `digest` and a component refers to
/// its content by that digest, a resolution that succeeds gives the component the path
/// of that entry, and what the cache holds at that path is exactly `bytes`.
pub proof fn lemma_round_trip(
    components: Seq<ComponentModel>,
    cache: CacheModel,
    at: int,
    digest: Seq<char>,
    bytes: Seq<u8>,
)
    requires
        0 <= at < components.len(),
        components[at].content == ContentModel::Digest(digest),
        cache.wasm.contains_key(digest),
        cache.wasm[digest] == bytes,
    ensures
        resolution(components, cache) matches Ok(done) ==> done[at].content == ContentModel::Path(
            cache.wasm_path(digest),
        ) && done[at].id == components[at].id && cache.wasm_at(cache.wasm_path(digest)) == Some(
            bytes,
        ),
        (forall|i: int|
            0 <= i < components.len() ==> located(#[trigger] components[i].content, cache) is Some)
            ==> resolution(components, cache) is Ok,
{
    lemma_resolution(components, cache);
    cache.lemma_wasm_at(digest);
}

/// From layer to component. A WebAssembly layer that resolution takes up is in the cache
/// under its digest afterwards, unless a later layer bears the same digest with other
/// bytes; and a component that refers to its content by that digest is then given the
/// path at which exactly the layer's bytes lie.
pub proof fn lemma_layer_round_trip(
    w: WorkspaceModel,
    layers: Seq<LayerModel>,
    at: int,
    components: Seq<ComponentModel>,
    component: int,
)
    requires
        0 <= at < scanned(layers),
        layers[at].kind() == LayerKind::WasmModule || layers[at].kind() == LayerKind::WasmPackage,
        forall|j: int|
            at < j < scanned(layers) && layers[j].digest == layers[at].digest ==> layers[j].bytes
                == layers[at].bytes,
        0 <= component < components.len(),
        components[component].content == ContentModel::Digest(layers[at].digest),
    ensures
        ({
            let cache = resolved_workspace(ArtifactsModel::Oci(layers), w).cache;
            let digest = layers[at].digest;
            &&& cache.wasm.contains_key(digest)
            &&& cache.wasm[digest] == layers[at].bytes
            &&& resolution(components, cache) matches Ok(done) ==> done[component].content
                == ContentModel::Path(cache.wasm_path(digest)) && cache.wasm_at(
                cache.wasm_path(digest),
            ) == Some(layers[at].bytes)
        }),
{
    lemma_scanned(layers, 0);
    let taken = layers.take(scanned(layers) as int);
    lemma_written_wasm(w, taken, at);
    let cache = after_layers(w, taken).cache;
    lemma_round_trip(components, cache, component, layers[at].digest, layers[at].bytes);
}

/// An owned copy of a component with other content.
fn with_content(component: &Component, content: Content) -> (copy: Component)
    ensures
        copy@ == (ComponentModel { content: content@, ..component@ }),
{
    Component { id: component.id.clone(), content }
}

/// Finds where content lies: asks the cache for a digest, keeps a path.
pub fn locate(content: &Content, cache: &ContentCache) -> (found: Option<Content>)
    ensures
        found is Some == located(content@, cache@) is Some,
        found is Some ==> found->0@ == located(content@, cache@)->0,
{
    match content {
        Content::Digest(digest) => match cache.wasm_file(digest.as_str()) {
            Some(path) => Some(Content::Path(path)),
            None => None,
        },
        Content::Path(path) => Some(Content::Path(path.clone())),
    }
}

/// Locates the content of every component in the cache, in the order of the components.
/// The first whose content the cache does not hold fails the resolution.
pub fn resolve_components(components: &Vec<Component>, cache: &ContentCache) -> (result: Result<
    Vec<Component>,
    DescriptorResolutionError,
>)
    ensures
        match result {
            Ok(done) => resolution(component_models(components@), cache@) == Ok::<
                Seq<ComponentModel>,
                MissingContent,
            >(component_models(done@)),
            Err(error) => resolution(component_models(components@), cache@) == Err::<
                Seq<ComponentModel>,
                MissingContent,
            >(error@),
        },
{
    let ghost models = component_models(components@);
    let mut done: Vec<Component> = Vec::new();
    let mut i: usize = 0;
    assert(component_models(done@) == Seq::<ComponentModel>::empty());
    while i < components.len()
        invariant
            models == component_models(components@),
            i <= components.len(),
            done.len() == i,
            resolution(models.take(i as int), cache@) == Ok::<Seq<ComponentModel>, MissingContent>(
                component_models(done@),
            ),
        decreases components.len() - i,
    {
        let component = &components[i];
        proof {
            assert(models.take(i + 1).drop_last() == models.take(i as int));
        }
        let ghost before = component_models(done@);
        match locate(&component.content, cache) {
            Some(content) => {
                done.push(with_content(component, content));
                assert(component_models(done@) == before.push(
                    ComponentModel { content: content@, ..component@ },
                ));
            },
            None => {
                let digest = match &component.content {
                    Content::Digest(digest) => digest.clone(),
                    Content::Path(_) => String::new(),
                };
                let error = DescriptorResolutionError { component: component.id.clone(), digest };
                proof {
                    // Every later component leaves the first failure in place.
                    lemma_failure_stays(models, cache@, i + 1);
                }
                return Err(error);
            },
        }
        i += 1;
    }
    assert(models.take(i as int) == models);
    Ok(done)
}

/// A failure among the first `upto` components is the failure of the whole list.
pub proof fn lemma_failure_stays(components: Seq<ComponentModel>, cache: CacheModel, upto: int)
    requires
        0 <= upto <= components.len(),
        resolution(components.take(upto), cache) is Err,
    ensures
        resolution(components, cache) == resolution(components.take(upto), cache),
    decreases components.len() - upto,
{
    if upto < components.len() {
        assert(components.take(upto + 1).drop_last() == components.take(upto));
        lemma_failure_stays(components, cache, upto + 1);
    } else {
        assert(components.take(upto) == components);
    }
}

impl Source {
    /// The loader that reads this source's descriptor.
    pub fn loader(&self) -> (loader: Loader)
        ensures
            loader@ == loader_of(self@),
    {
        match self {
            Source::File(path) => Loader::Manifest {
                path: path.clone(),
                files: FilesMount::Direct,
            },
            Source::OciSpin => Loader::LockedApp {
                manifest: owned(SPIN_JSON_PATH),
                working_dir: owned(OCI_WORKING_DIR),
            },
            Source::OciWkg(path) => Loader::WasmFile { path: path.clone() },
        }
    }

    /// Completes the descriptor that this source's loader read. For a registry
    /// application the content of each component is located in `cache`, and a component
    /// whose content is missing fails the whole; for the other sources the descriptor is
    /// handed back as it is.
    pub fn to_locked_app(&self, cache: &ContentCache, loaded: AppDescriptor) -> (result: Result<
        AppDescriptor,
        DescriptorResolutionError,
    >)
        ensures
            match result {
                Ok(app) => completed(self@, loaded@, cache@) == Ok::<AppModel, MissingContent>(
                    app@,
                ),
                Err(error) => completed(self@, loaded@, cache@) == Err::<AppModel, MissingContent>(
                    error@,
                ),
            },
    {
        match self {
            Source::OciSpin => {
                match resolve_components(&loaded.components, cache) {
                    Ok(components) => Ok(AppDescriptor { components, triggers: loaded.triggers }),
                    Err(error) => Err(error),
                }
            },
            _ => Ok(loaded),
        }
    }
}

} // verus!
