//! Source resolution: from what the host supplied to one application source.
//!
//! A local file reference resolves at once. Otherwise the layers are taken in the order
//! given: each is classified by its media type and materialised in the workspace, up to
//! and including the first packaged component. A single packaged component is the source
//! by itself; without one the source is the application that the manifest layer and the
//! cached content describe; more than one is refused.

use vstd::prelude::*;
use crate::cache::{CacheModel, ContentCache};
use crate::layer::{layer_models, ContentLayer, LayerKind, LayerModel};
use crate::text::{copy_bytes, decimal, decimal_text, join3, owned};

verus! {

/// Where the application's manifest lies when the source is a local file.
pub const SPIN_MANIFEST_FILE_PATH: &'static str = "/spin.toml";

/// Where the manifest layer of a registry application is written.
pub const SPIN_JSON_PATH: &'static str = "/spin.json";

/// The resolved source of the application.
#[derive(Clone, Debug, PartialEq, Eq)]
pub enum Source {
    /// A manifest at a well-known place of the local file system.
    File(String),
    /// An application from a registry: a manifest layer and content in the cache.
    OciSpin,
    /// One packaged component from a registry, at the given path in the cache.
    OciWkg(String),
}

/// The mathematical value of a [`Source`].
pub ghost enum SourceModel {
    File(Seq<char>),
    OciSpin,
    OciWkg(Seq<char>),
}

impl View for Source {
    type V = SourceModel;

    open spec fn view(&self) -> SourceModel {
        match self {
            Source::File(path) => SourceModel::File(path@),
            Source::OciSpin => SourceModel::OciSpin,
            Source::OciWkg(path) => SourceModel::OciWkg(path@),
        }
    }
}

/// What the host supplied for one container start.
#[derive(Clone, Debug, PartialEq, Eq)]
pub enum Artifacts {
    /// A reference to a file; the path is a hint that resolution does not follow.
    File(String),
    /// The layers of an image, already fetched, in the host's order.
    Oci(Vec<ContentLayer>),
}

/// The mathematical value of [`Artifacts`].
pub ghost enum ArtifactsModel {
    File(Seq<char>),
    Oci(Seq<LayerModel>),
}

impl View for Artifacts {
    type V = ArtifactsModel;

    open spec fn view(&self) -> ArtifactsModel {
        match self {
            Artifacts::File(path) => ArtifactsModel::File(path@),
            Artifacts::Oci(layers) => ArtifactsModel::Oci(layer_models(layers@)),
        }
    }
}

/// The source is invalid: it holds more than one packaged component.
#[derive(Clone, Copy, Debug, PartialEq, Eq, Structural)]
pub struct InvalidSourceError {
    /// How many packaged-component layers were supplied.
    pub package_layers: usize,
}

impl InvalidSourceError {
    pub open spec fn spec_message(self) -> Seq<char> {
        "expected single layer in OCI package, found "@ + decimal_text(self.package_layers as nat)
            + " layers"@
    }

    /// The error in words; it names the count that was found.
    pub fn message(&self) -> (text: String)
        ensures
            text@ == self.spec_message(),
    {
        let count = decimal(self.package_layers);
        join3("expected single layer in OCI package, found ", count.as_str(), " layers")
    }
}

/// The container's private files as resolution leaves them: the content cache, the
/// manifest that was written to [`SPIN_JSON_PATH`], and the digests of the archives in the
/// cache whose files are still to be unpacked into it.
pub struct Workspace {
    pub cache: ContentCache,
    pub manifest: Option<Vec<u8>>,
    pub archives: Vec<String>,
}

/// The mathematical value of a [`Workspace`].
pub ghost struct WorkspaceModel {
    pub cache: CacheModel,
    pub manifest: Option<Seq<u8>>,
    pub archives: Seq<Seq<char>>,
}

impl WorkspaceModel {
    /// The workspace with an empty cache rooted at `root` and nothing written.
    pub open spec fn empty(root: Seq<char>) -> WorkspaceModel {
        WorkspaceModel { cache: CacheModel::empty(root), manifest: None, archives: Seq::empty() }
    }
}

impl View for Workspace {
    type V = WorkspaceModel;

    open spec fn view(&self) -> WorkspaceModel {
        WorkspaceModel {
            cache: self.cache@,
            manifest: match self.manifest {
                Some(bytes) => Some(bytes@),
                None => None,
            },
            archives: Seq::new(self.archives.len() as nat, |i: int| self.archives[i]@),
        }
    }
}

/// The workspace after one layer was materialised in it.
pub open spec fn after_layer(w: WorkspaceModel, layer: LayerModel) -> WorkspaceModel {
    match layer.kind() {
        LayerKind::Manifest => WorkspaceModel { manifest: Some(layer.bytes), ..w },
        LayerKind::WasmModule | LayerKind::WasmPackage => WorkspaceModel {
            cache: w.cache.with_wasm(layer.digest, layer.bytes),
            ..w
        },
        LayerKind::DataBlob => WorkspaceModel {
            cache: w.cache.with_data(layer.digest, layer.bytes),
            ..w
        },
        LayerKind::Archive => WorkspaceModel {
            cache: w.cache.with_data(layer.digest, layer.bytes),
            archives: w.archives.push(layer.digest),
            ..w
        },
        LayerKind::Unknown => w,
    }
}

/// The workspace after the given layers were materialised in it, first to last.
pub open spec fn after_layers(w: WorkspaceModel, layers: Seq<LayerModel>) -> WorkspaceModel
    decreases layers.len(),
{
    if layers.len() == 0 {
        w
    } else {
        after_layer(after_layers(w, layers.drop_last()), layers.last())
    }
}

/// How many of the layers are packaged components.
pub open spec fn package_count(layers: Seq<LayerModel>) -> nat
    decreases layers.len(),
{
    if layers.len() == 0 {
        0
    } else {
        package_count(layers.drop_last()) + if layers.last().kind() == LayerKind::WasmPackage {
            1nat
        } else {
            0nat
        }
    }
}

/// How many layers resolution takes up: all up to and including the first packaged
/// component, or all of them where there is none.
pub open spec fn scanned(layers: Seq<LayerModel>) -> nat
    decreases layers.len(),
{
    if layers.len() == 0 {
        0
    } else if layers.first().kind() == LayerKind::WasmPackage {
        1
    } else {
        1 + scanned(layers.drop_first())
    }
}

/// The source that the artifacts resolve to, or the error that refuses them.
pub open spec fn resolved_source(artifacts: ArtifactsModel, cache: CacheModel) -> Result<
    SourceModel,
    InvalidSourceError,
> {
    match artifacts {
        ArtifactsModel::File(_) => Ok(SourceModel::File(SPIN_MANIFEST_FILE_PATH@)),
        ArtifactsModel::Oci(layers) => if package_count(layers) == 0 {
            Ok(SourceModel::OciSpin)
        } else if package_count(layers) == 1 {
            Ok(SourceModel::OciWkg(cache.wasm_path(layers[scanned(layers) - 1].digest)))
        } else {
            Err(InvalidSourceError { package_layers: package_count(layers) as usize })
        },
    }
}

/// The workspace as resolution of the artifacts leaves it, on success and on failure.
pub open spec fn resolved_workspace(artifacts: ArtifactsModel, w: WorkspaceModel) -> WorkspaceModel {
    match artifacts {
        ArtifactsModel::File(_) => w,
        ArtifactsModel::Oci(layers) => after_layers(w, layers.take(scanned(layers) as int)),
    }
}

/// Materialising layers never moves the cache: its root stays.
pub proof fn lemma_root_kept(w: WorkspaceModel, layers: Seq<LayerModel>)
    ensures
        after_layers(w, layers).cache.root == w.cache.root,
    decreases layers.len(),
{
    if layers.len() > 0 {
        lemma_root_kept(w, layers.drop_last());
    }
}

/// Without a packaged component among the first `upto` layers, the scan goes on past
/// them; it ends at layer `upto` if that is a packaged component or the list ends there.
pub proof fn lemma_scanned(layers: Seq<LayerModel>, upto: int)
    requires
        0 <= upto <= layers.len(),
        forall|j: int| 0 <= j < upto ==> layers[j].kind() != LayerKind::WasmPackage,
    ensures
        scanned(layers) <= layers.len(),
        upto == layers.len() ==> scanned(layers) == upto,
        upto < layers.len() && layers[upto].kind() == LayerKind::WasmPackage ==> scanned(layers)
            == upto + 1,
        upto < layers.len() ==> scanned(layers) > upto,
    decreases layers.len(),
{
    if layers.len() > 0 {
        let rest = layers.drop_first();
        if upto == 0 {
            lemma_scanned(rest, 0);
        } else {
            lemma_scanned(rest, upto - 1);
        }
    }
}

/// The count is zero exactly where no layer is a packaged component, and never more
/// than the number of layers.
pub proof fn lemma_package_count(layers: Seq<LayerModel>)
    ensures
        package_count(layers) <= layers.len(),
        package_count(layers) == 0 <==> forall|j: int|
            0 <= j < layers.len() ==> layers[j].kind() != LayerKind::WasmPackage,
    decreases layers.len(),
{
    if layers.len() > 0 {
        let init = layers.drop_last();
        lemma_package_count(init);
        if package_count(layers) == 0 {
            assert forall|j: int| 0 <= j < layers.len() implies layers[j].kind()
                != LayerKind::WasmPackage by {
                if j < layers.len() - 1 {
                    assert(init[j] == layers[j]);
                }
            }
        } else if layers.last().kind() != LayerKind::WasmPackage {
            let j = choose|j: int| 0 <= j < init.len() && init[j].kind() == LayerKind::WasmPackage;
            assert(layers[j].kind() == LayerKind::WasmPackage);
        }
    }
}

/// Layers with at most one packaged component resolve; layers with two or more are
/// refused, and the error names how many there are.
pub proof fn lemma_package_rule(layers: Seq<LayerModel>, cache: CacheModel)
    requires
        layers.len() <= usize::MAX,
    ensures
        package_count(layers) <= 1 <==> resolved_source(ArtifactsModel::Oci(layers), cache) is Ok,
        package_count(layers) >= 2 ==> resolved_source(ArtifactsModel::Oci(layers), cache) is Err
            && resolved_source(ArtifactsModel::Oci(layers), cache)->Err_0.package_layers
            == package_count(layers),
        package_count(layers) >= 2 ==> resolved_source(
            ArtifactsModel::Oci(layers),
            cache,
        )->Err_0.spec_message() == "expected single layer in OCI package, found "@ + decimal_text(
            package_count(layers),
        ) + " layers"@,
{
    lemma_package_count(layers);
}

/// A local file reference resolves to the well-known manifest path, whatever path it
/// names and whatever the workspace holds, and changes nothing.
pub proof fn lemma_file_source_fixed(hint: Seq<char>, w: WorkspaceModel)
    ensures
        resolved_source(ArtifactsModel::File(hint), w.cache) == Ok::<
            SourceModel,
            InvalidSourceError,
        >(SourceModel::File(SPIN_MANIFEST_FILE_PATH@)),
        resolved_workspace(ArtifactsModel::File(hint), w) == w,
{
}

/// A layer of unknown media type is passed over: the workspace stays as it was.
pub proof fn lemma_unknown_layer_skipped(w: WorkspaceModel, layer: LayerModel)
    requires
        layer.kind() == LayerKind::Unknown,
    ensures
        after_layer(w, layer) == w,
{
}

/// Layers that are all of unknown media type resolve to a registry application and
/// leave the workspace as it was.
pub proof fn lemma_unknown_layers_resolve(w: WorkspaceModel, layers: Seq<LayerModel>)
    requires
        forall|i: int| 0 <= i < layers.len() ==> layers[i].kind() == LayerKind::Unknown,
    ensures
        resolved_source(ArtifactsModel::Oci(layers), w.cache) == Ok::<
            SourceModel,
            InvalidSourceError,
        >(SourceModel::OciSpin),
        resolved_workspace(ArtifactsModel::Oci(layers), w) == w,
    decreases layers.len(),
{
    lemma_package_count(layers);
    lemma_scanned(layers, layers.len() as int);
    assert(layers.take(layers.len() as int) == layers);
    if layers.len() > 0 {
        let init = layers.drop_last();
        lemma_unknown_layers_resolve(w, init);
        lemma_scanned(init, init.len() as int);
        assert(init.take(init.len() as int) == init);
    }
}

/// The cache holds nothing under a digest after materialising layers if it held nothing
/// under it before and none of the layers that go to the cache bears it. So a layer of
/// unknown media type is not written, unless another layer has the same digest.
pub proof fn lemma_unwritten_digest(w: WorkspaceModel, layers: Seq<LayerModel>, digest: Seq<char>)
    requires
        !w.cache.wasm.contains_key(digest),
        !w.cache.data.contains_key(digest),
        forall|i: int|
            0 <= i < layers.len() && layers[i].digest == digest ==> !layers[i].kind().is_cached(),
    ensures
        !after_layers(w, layers).cache.wasm.contains_key(digest),
        !after_layers(w, layers).cache.data.contains_key(digest),
    decreases layers.len(),
{
    if layers.len() > 0 {
        let init = layers.drop_last();
        lemma_unwritten_digest(w, init, digest);
    }
}

/// What a layer that goes to the WebAssembly area holds is in the cache under its
/// digest afterwards, unless a later layer was written under the same digest.
pub proof fn lemma_written_wasm(w: WorkspaceModel, layers: Seq<LayerModel>, at: int)
    requires
        0 <= at < layers.len(),
        layers[at].kind() == LayerKind::WasmModule || layers[at].kind() == LayerKind::WasmPackage,
        forall|j: int|
            at < j < layers.len() && layers[j].digest == layers[at].digest
                ==> layers[j].bytes == layers[at].bytes,
    ensures
        after_layers(w, layers).cache.wasm.contains_key(layers[at].digest),
        after_layers(w, layers).cache.wasm[layers[at].digest] == layers[at].bytes,
    decreases layers.len(),
{
    let init = layers.drop_last();
    let last = layers.len() - 1;
    if at < last {
        lemma_written_wasm(w, init, at);
    }
}

impl Workspace {
    /// A workspace with an empty cache rooted at `root`.
    pub fn new(root: &str) -> (workspace: Workspace)
        ensures
            workspace@ == WorkspaceModel::empty(root@),
    {
        let workspace = Workspace {
            cache: ContentCache::new(root),
            manifest: None,
            archives: Vec::new(),
        };
        assert(workspace@.archives =~= Seq::empty());
        workspace
    }

    /// Materialises one layer: the manifest is kept as the file to write, a module, a
    /// package or a data blob goes to the cache under its digest, an archive goes to the
    /// cache and is noted for unpacking, and a layer of unknown kind is passed over.
    pub fn absorb(&mut self, layer: &ContentLayer) -> (kind: LayerKind)
        ensures
            final(self)@ == after_layer(old(self)@, layer@),
            kind == layer@.kind(),
    {
        let kind = layer.kind();
        match kind {
            LayerKind::Manifest => {
                self.manifest = Some(copy_bytes(&layer.bytes));
            },
            LayerKind::WasmModule | LayerKind::WasmPackage => {
                self.cache.write_wasm(&layer.bytes, layer.digest.as_str());
            },
            LayerKind::DataBlob => {
                self.cache.write_data(&layer.bytes, layer.digest.as_str());
            },
            LayerKind::Archive => {
                self.cache.write_data(&layer.bytes, layer.digest.as_str());
                self.archives.push(owned(layer.digest.as_str()));
                assert(self@.archives =~= old(self)@.archives.push(layer@.digest));
            },
            LayerKind::Unknown => {},
        }
        kind
    }
}

/// Counts the packaged components among all the layers.
pub fn count_packages(layers: &Vec<ContentLayer>) -> (count: usize)
    ensures
        count == package_count(layer_models(layers@)),
{
    let ghost models = layer_models(layers@);
    let mut count: usize = 0;
    let mut i: usize = 0;
    while i < layers.len()
        invariant
            models == layer_models(layers@),
            i <= layers.len(),
            count == package_count(models.take(i as int)),
            count <= i,
        decreases layers.len() - i,
    {
        proof {
            assert(models.take(i + 1).drop_last() == models.take(i as int));
        }
        if layers[i].kind() == LayerKind::WasmPackage {
            count += 1;
        }
        i += 1;
    }
    assert(models.take(layers.len() as int) == models);
    count
}

impl Source {
    /// Whether components that the shim compiled ahead of time may be loaded: only
    /// those that came from a registry were compiled by the shim.
    pub fn loads_precompiled(&self) -> (allowed: bool)
        ensures
            allowed == !(self@ is File),
    {
        match self {
            Source::File(_) => false,
            _ => true,
        }
    }

    pub open spec fn spec_describe(self) -> Seq<char> {
        match self {
            Source::File(path) => "File("@ + path@ + ")"@,
            Source::OciSpin => "OciSpin"@,
            Source::OciWkg(path) => "OciWkg("@ + path@ + ")"@,
        }
    }

    /// The source in words, as it is shown in messages.
    pub fn describe(&self) -> (text: String)
        ensures
            text@ == self.spec_describe(),
    {
        match self {
            Source::File(path) => join3("File(", path.as_str(), ")"),
            Source::OciSpin => owned("OciSpin"),
            Source::OciWkg(path) => join3("OciWkg(", path.as_str(), ")"),
        }
    }

    /// Resolves the artifacts of one container start.
    ///
    /// A file reference gives [`Source::File`] at [`SPIN_MANIFEST_FILE_PATH`], whatever
    /// path it names, and touches nothing. Layers are materialised in `workspace` in
    /// their order, up to and including the first packaged component. With no packaged
    /// component the result is [`Source::OciSpin`]; with exactly one among all the
    /// layers it is [`Source::OciWkg`] at that component's path in the cache; with more
    /// the layers are refused, and the error names their number.
    pub fn from_ctx(artifacts: &Artifacts, workspace: &mut Workspace) -> (result: Result<
        Source,
        InvalidSourceError,
    >)
        ensures
            final(workspace)@ == resolved_workspace(artifacts@, old(workspace)@),
            match result {
                Ok(source) => resolved_source(artifacts@, old(workspace)@.cache) == Ok::<
                    SourceModel,
                    InvalidSourceError,
                >(source@),
                Err(error) => resolved_source(artifacts@, old(workspace)@.cache) == Err::<
                    SourceModel,
                    InvalidSourceError,
                >(error),
            },
    {
        match artifacts {
            Artifacts::File(_) => Ok(Source::File(owned(SPIN_MANIFEST_FILE_PATH))),
            Artifacts::Oci(layers) => {
                let ghost models = layer_models(layers@);
                let ghost start = workspace@;
                let packages = count_packages(layers);
                let mut i: usize = 0;
                while i < layers.len()
                    invariant
                        artifacts@ == ArtifactsModel::Oci(models),
                        start == old(workspace)@,
                        models == layer_models(layers@),
                        i <= layers.len(),
                        packages == package_count(models),
                        workspace@ == after_layers(start, models.take(i as int)),
                        forall|j: int| 0 <= j < i ==> models[j].kind() != LayerKind::WasmPackage,
                    decreases layers.len() - i,
                {
                    let layer = &layers[i];
                    proof {
                        assert(models.take(i + 1).drop_last() == models.take(i as int));
                    }
                    let kind = workspace.absorb(layer);
                    if kind == LayerKind::WasmPackage {
                        proof {
                            lemma_scanned(models, i as int);
                            lemma_package_count(models);
                            lemma_root_kept(start, models.take(i + 1));
                        }
                        if packages != 1 {
                            return Err(InvalidSourceError { package_layers: packages });
                        }
                        return Ok(Source::OciWkg(workspace.cache.wasm_path(layer.digest.as_str())));
                    }
                    i += 1;
                }
                proof {
                    lemma_scanned(models, i as int);
                    lemma_package_count(models);
                }
                Ok(Source::OciSpin)
            },
        }
    }
}

} // verus!
