//! Content layers and their classification by declared media type.

use vstd::prelude::*;
use crate::text::str_eq;

verus! {

/// Media type of a layer that holds the application's locked manifest.
pub const MEDIA_TYPE_MANIFEST: &'static str = "application/vnd.fermyon.spin.application.v1+config";

/// Media type of a layer that holds one WebAssembly module.
pub const MEDIA_TYPE_WASM_MODULE: &'static str = "application/vnd.wasm.content.layer.v1+wasm";

/// Media type of a layer that holds one packaged component.
pub const MEDIA_TYPE_WASM_PACKAGE: &'static str = "application/wasm";

/// Media type of a layer that holds one opaque data file.
pub const MEDIA_TYPE_DATA: &'static str = "application/vnd.wasm.content.layer.v1+data";

/// Media type of a layer that holds a compressed archive of data files.
pub const MEDIA_TYPE_ARCHIVE: &'static str = "application/vnd.wasm.content.bundle.v1.tar+gzip";

/// What a layer is, as far as its declared media type tells.
#[derive(Clone, Copy, Debug, PartialEq, Eq, Structural)]
pub enum LayerKind {
    Manifest,
    WasmModule,
    WasmPackage,
    DataBlob,
    Archive,
    Unknown,
}

/// The kind that a media type stands for. Any tag but the five known ones is `Unknown`.
pub open spec fn kind_of(media_type: Seq<char>) -> LayerKind {
    if media_type == MEDIA_TYPE_MANIFEST@ {
        LayerKind::Manifest
    } else if media_type == MEDIA_TYPE_WASM_MODULE@ {
        LayerKind::WasmModule
    } else if media_type == MEDIA_TYPE_WASM_PACKAGE@ {
        LayerKind::WasmPackage
    } else if media_type == MEDIA_TYPE_DATA@ {
        LayerKind::DataBlob
    } else if media_type == MEDIA_TYPE_ARCHIVE@ {
        LayerKind::Archive
    } else {
        LayerKind::Unknown
    }
}

/// Classifies a declared media type. The comparison is exact: case, parameters and
/// surrounding white space all count.
pub fn classify(media_type: &str) -> (kind: LayerKind)
    ensures
        kind == kind_of(media_type@),
{
    if str_eq(media_type, MEDIA_TYPE_MANIFEST) {
        LayerKind::Manifest
    } else if str_eq(media_type, MEDIA_TYPE_WASM_MODULE) {
        LayerKind::WasmModule
    } else if str_eq(media_type, MEDIA_TYPE_WASM_PACKAGE) {
        LayerKind::WasmPackage
    } else if str_eq(media_type, MEDIA_TYPE_DATA) {
        LayerKind::DataBlob
    } else if str_eq(media_type, MEDIA_TYPE_ARCHIVE) {
        LayerKind::Archive
    } else {
        LayerKind::Unknown
    }
}

impl LayerKind {
    /// The media type that a recognised kind is declared by.
    pub open spec fn spec_media_type(self) -> Option<Seq<char>> {
        match self {
            LayerKind::Manifest => Some(MEDIA_TYPE_MANIFEST@),
            LayerKind::WasmModule => Some(MEDIA_TYPE_WASM_MODULE@),
            LayerKind::WasmPackage => Some(MEDIA_TYPE_WASM_PACKAGE@),
            LayerKind::DataBlob => Some(MEDIA_TYPE_DATA@),
            LayerKind::Archive => Some(MEDIA_TYPE_ARCHIVE@),
            LayerKind::Unknown => None,
        }
    }

    /// The media type that matched, or `None` for a layer that matched none.
    pub fn media_type(self) -> (tag: Option<&'static str>)
        ensures
            tag is Some == self.spec_media_type() is Some,
            tag is Some ==> tag->0@ == self.spec_media_type()->0,
    {
        match self {
            LayerKind::Manifest => Some(MEDIA_TYPE_MANIFEST),
            LayerKind::WasmModule => Some(MEDIA_TYPE_WASM_MODULE),
            LayerKind::WasmPackage => Some(MEDIA_TYPE_WASM_PACKAGE),
            LayerKind::DataBlob => Some(MEDIA_TYPE_DATA),
            LayerKind::Archive => Some(MEDIA_TYPE_ARCHIVE),
            LayerKind::Unknown => None,
        }
    }

    /// Whether layers of this kind are written to the content cache.
    pub open spec fn spec_is_cached(self) -> bool {
        self == LayerKind::WasmModule || self == LayerKind::WasmPackage || self
            == LayerKind::DataBlob || self == LayerKind::Archive
    }

    #[verifier::when_used_as_spec(spec_is_cached)]
    pub fn is_cached(self) -> (r: bool)
        ensures
            r == self.spec_is_cached(),
    {
        match self {
            LayerKind::WasmModule | LayerKind::WasmPackage | LayerKind::DataBlob
            | LayerKind::Archive => true,
            _ => false,
        }
    }
}

/// The five known media types are pairwise different.
pub proof fn lemma_media_types_distinct()
    ensures
        MEDIA_TYPE_MANIFEST@ != MEDIA_TYPE_WASM_MODULE@,
        MEDIA_TYPE_MANIFEST@ != MEDIA_TYPE_WASM_PACKAGE@,
        MEDIA_TYPE_MANIFEST@ != MEDIA_TYPE_DATA@,
        MEDIA_TYPE_MANIFEST@ != MEDIA_TYPE_ARCHIVE@,
        MEDIA_TYPE_WASM_MODULE@ != MEDIA_TYPE_WASM_PACKAGE@,
        MEDIA_TYPE_WASM_MODULE@ != MEDIA_TYPE_DATA@,
        MEDIA_TYPE_WASM_MODULE@ != MEDIA_TYPE_ARCHIVE@,
        MEDIA_TYPE_WASM_PACKAGE@ != MEDIA_TYPE_DATA@,
        MEDIA_TYPE_WASM_PACKAGE@ != MEDIA_TYPE_ARCHIVE@,
        MEDIA_TYPE_DATA@ != MEDIA_TYPE_ARCHIVE@,
{
    reveal_strlit("application/vnd.fermyon.spin.application.v1+config");
    reveal_strlit("application/vnd.wasm.content.layer.v1+wasm");
    reveal_strlit("application/wasm");
    reveal_strlit("application/vnd.wasm.content.layer.v1+data");
    reveal_strlit("application/vnd.wasm.content.bundle.v1.tar+gzip");
    assert(MEDIA_TYPE_MANIFEST@.len() == 50);
    assert(MEDIA_TYPE_WASM_PACKAGE@.len() == 16);
    assert(MEDIA_TYPE_DATA@.len() == 42);
    assert(MEDIA_TYPE_WASM_MODULE@[38] == 'w');
}

/// Classification and the matched tag agree: a recognised kind is given to its own
/// media type and to no other string.
pub proof fn lemma_kind_matches_tag(media_type: Seq<char>)
    ensures
        kind_of(media_type) != LayerKind::Unknown ==> kind_of(media_type).spec_media_type()
            == Some(media_type),
        forall|k: LayerKind|
            k != LayerKind::Unknown ==> kind_of(#[trigger] k.spec_media_type()->0) == k,
{
    lemma_media_types_distinct();
}

/// One content layer as the host supplies it: a declared media type, the digest of the
/// content, and the content itself. A layer is never changed after it was supplied.
#[derive(Clone, Debug, PartialEq, Eq)]
pub struct ContentLayer {
    pub media_type: String,
    pub digest: String,
    pub bytes: Vec<u8>,
}

/// The mathematical value of a [`ContentLayer`].
pub ghost struct LayerModel {
    pub media_type: Seq<char>,
    pub digest: Seq<char>,
    pub bytes: Seq<u8>,
}

impl LayerModel {
    /// The kind that the layer's media type stands for.
    pub open spec fn kind(self) -> LayerKind {
        kind_of(self.media_type)
    }
}

impl View for ContentLayer {
    type V = LayerModel;

    open spec fn view(&self) -> LayerModel {
        LayerModel { media_type: self.media_type@, digest: self.digest@, bytes: self.bytes@ }
    }
}

/// The values of a list of layers, in the order of the list.
pub open spec fn layer_models(layers: Seq<ContentLayer>) -> Seq<LayerModel> {
    Seq::new(layers.len(), |i: int| layers[i]@)
}

impl ContentLayer {
    pub fn new(media_type: &str, digest: &str, bytes: Vec<u8>) -> (layer: ContentLayer)
        ensures
            layer@ == (LayerModel { media_type: media_type@, digest: digest@, bytes: bytes@ }),
    {
        ContentLayer { media_type: media_type.to_owned(), digest: digest.to_owned(), bytes }
    }

    /// The layer's kind, by its declared media type alone.
    pub fn kind(&self) -> (kind: LayerKind)
        ensures
            kind == self@.kind(),
    {
        classify(self.media_type.as_str())
    }
}

} // verus!
