//! The content cache: a content-addressed store that lives for one invocation.
//!
//! The cache keeps WebAssembly binaries and opaque data blobs apart, each keyed by the
//! digest of the content, and gives every entry a path that depends on the cache's root
//! and the digest alone. Writing under a digest that is already present replaces the
//! entry; as a digest stands for its content, that changes nothing.

use vstd::prelude::*;
use crate::text::{copy_bytes, join3, owned, str_eq};

verus! {

/// Directory below the cache's root that holds WebAssembly binaries.
pub const WASM_DIR: &'static str = "/wasm/";

/// Directory below the cache's root that holds data blobs.
pub const DATA_DIR: &'static str = "/data/";

/// One stored blob with the digest it is kept under.
#[derive(Clone, Debug, PartialEq, Eq)]
pub struct CacheEntry {
    pub digest: String,
    pub bytes: Vec<u8>,
}

/// The mathematical value of a [`ContentCache`]: its root directory and, for each of its
/// two areas, the content stored under each digest.
pub ghost struct CacheModel {
    pub root: Seq<char>,
    pub wasm: Map<Seq<char>, Seq<u8>>,
    pub data: Map<Seq<char>, Seq<u8>>,
}

impl CacheModel {
    /// The cache with root `root` and nothing stored.
    pub open spec fn empty(root: Seq<char>) -> CacheModel {
        CacheModel { root, wasm: Map::empty(), data: Map::empty() }
    }

    /// The cache after `bytes` was written to the WebAssembly area under `digest`.
    pub open spec fn with_wasm(self, digest: Seq<char>, bytes: Seq<u8>) -> CacheModel {
        CacheModel { wasm: self.wasm.insert(digest, bytes), ..self }
    }

    /// The cache after `bytes` was written to the data area under `digest`.
    pub open spec fn with_data(self, digest: Seq<char>, bytes: Seq<u8>) -> CacheModel {
        CacheModel { data: self.data.insert(digest, bytes), ..self }
    }

    /// Where the WebAssembly binary with digest `digest` is kept.
    pub open spec fn wasm_path(self, digest: Seq<char>) -> Seq<char> {
        self.root + WASM_DIR@ + digest
    }

    /// Where the data blob with digest `digest` is kept.
    pub open spec fn data_path(self, digest: Seq<char>) -> Seq<char> {
        self.root + DATA_DIR@ + digest
    }

    /// The WebAssembly binary that is kept at `path`, if one is.
    pub open spec fn wasm_at(self, path: Seq<char>) -> Option<Seq<u8>> {
        if exists|digest: Seq<char>|
            self.wasm.contains_key(digest) && #[trigger] self.wasm_path(digest) == path {
            let digest = choose|digest: Seq<char>|
                self.wasm.contains_key(digest) && #[trigger] self.wasm_path(digest) == path;
            Some(self.wasm[digest])
        } else {
            None
        }
    }

    /// The data blob that is kept at `path`, if one is.
    pub open spec fn data_at(self, path: Seq<char>) -> Option<Seq<u8>> {
        if exists|digest: Seq<char>|
            self.data.contains_key(digest) && #[trigger] self.data_path(digest) == path {
            let digest = choose|digest: Seq<char>|
                self.data.contains_key(digest) && #[trigger] self.data_path(digest) == path;
            Some(self.data[digest])
        } else {
            None
        }
    }

    /// Different digests have different paths, so what lies at the path of a stored
    /// digest is what was stored under that digest.
    pub proof fn lemma_wasm_at(self, digest: Seq<char>)
        requires
            self.wasm.contains_key(digest),
        ensures
            self.wasm_at(self.wasm_path(digest)) == Some(self.wasm[digest]),
    {
        let path = self.wasm_path(digest);
        let prefix = self.root + WASM_DIR@;
        let found = choose|found: Seq<char>|
            self.wasm.contains_key(found) && #[trigger] self.wasm_path(found) == path;
        assert(found == (prefix + found).subrange(prefix.len() as int, (prefix + found).len() as int));
        assert(digest == (prefix + digest).subrange(
            prefix.len() as int,
            (prefix + digest).len() as int,
        ));
    }

    /// Different digests have different paths in the data area too.
    pub proof fn lemma_data_at(self, digest: Seq<char>)
        requires
            self.data.contains_key(digest),
        ensures
            self.data_at(self.data_path(digest)) == Some(self.data[digest]),
    {
        let path = self.data_path(digest);
        let prefix = self.root + DATA_DIR@;
        let found = choose|found: Seq<char>|
            self.data.contains_key(found) && #[trigger] self.data_path(found) == path;
        assert(found == (prefix + found).subrange(prefix.len() as int, (prefix + found).len() as int));
        assert(digest == (prefix + digest).subrange(
            prefix.len() as int,
            (prefix + digest).len() as int,
        ));
    }
}

/// Writing is idempotent: a second write of the same bytes under the same digest
/// leaves the cache as the first left it, and both writes name the same path, at which
/// those bytes lie.
pub proof fn lemma_write_idempotent(cache: CacheModel, digest: Seq<char>, bytes: Seq<u8>)
    ensures
        cache.with_wasm(digest, bytes).with_wasm(digest, bytes) == cache.with_wasm(digest, bytes),
        cache.with_wasm(digest, bytes).wasm_path(digest) == cache.wasm_path(digest),
        cache.with_wasm(digest, bytes).wasm_at(cache.wasm_path(digest)) == Some(bytes),
        cache.with_data(digest, bytes).with_data(digest, bytes) == cache.with_data(digest, bytes),
        cache.with_data(digest, bytes).data_path(digest) == cache.data_path(digest),
        cache.with_data(digest, bytes).data_at(cache.data_path(digest)) == Some(bytes),
{
    assert(cache.wasm.insert(digest, bytes).insert(digest, bytes) =~= cache.wasm.insert(
        digest,
        bytes,
    ));
    assert(cache.data.insert(digest, bytes).insert(digest, bytes) =~= cache.data.insert(
        digest,
        bytes,
    ));
    cache.with_wasm(digest, bytes).lemma_wasm_at(digest);
    cache.with_data(digest, bytes).lemma_data_at(digest);
}

/// The map that a list of entries stands for: each digest with the bytes of the last
/// entry that names it.
pub open spec fn contents(entries: Seq<CacheEntry>) -> Map<Seq<char>, Seq<u8>>
    decreases entries.len(),
{
    if entries.len() == 0 {
        Map::empty()
    } else {
        contents(entries.drop_last()).insert(entries.last().digest@, entries.last().bytes@)
    }
}

/// `at` is the last entry that names `digest`.
pub open spec fn last_named(entries: Seq<CacheEntry>, digest: Seq<char>, at: int) -> bool {
    &&& 0 <= at < entries.len()
    &&& entries[at].digest@ == digest
    &&& forall|j: int| at < j < entries.len() ==> entries[j].digest@ != digest
}

/// A digest is a key of `contents` exactly if some entry names it, and its value is the
/// bytes of the last entry that does.
pub proof fn lemma_contents_lookup(entries: Seq<CacheEntry>, digest: Seq<char>)
    ensures
        contents(entries).contains_key(digest) <==> exists|i: int|
            0 <= i < entries.len() && entries[i].digest@ == digest,
        forall|i: int| #[trigger]
            last_named(entries, digest, i) ==> contents(entries)[digest] == entries[i].bytes@,
    decreases entries.len(),
{
    if entries.len() > 0 {
        let init = entries.drop_last();
        let last = entries.len() - 1;
        lemma_contents_lookup(init, digest);
        if entries[last].digest@ != digest {
            if contents(init).contains_key(digest) {
                let i = choose|i: int| 0 <= i < init.len() && init[i].digest@ == digest;
                assert(entries[i].digest@ == digest);
            }
            if exists|i: int| 0 <= i < entries.len() && entries[i].digest@ == digest {
                let i = choose|i: int| 0 <= i < entries.len() && entries[i].digest@ == digest;
                assert(init[i].digest@ == digest);
            }
        }
        assert forall|i: int| #[trigger] last_named(entries, digest, i) implies contents(
            entries,
        )[digest] == entries[i].bytes@ by {
            if i < last {
                assert(last_named(init, digest, i));
            }
        }
    }
}

/// Replacing the last entry that names a digest by another with the same digest is a
/// write under that digest.
pub proof fn lemma_contents_replace(entries: Seq<CacheEntry>, at: int, entry: CacheEntry)
    requires
        last_named(entries, entry.digest@, at),
    ensures
        contents(entries.update(at, entry)) == contents(entries).insert(
            entry.digest@,
            entry.bytes@,
        ),
    decreases entries.len(),
{
    let after = entries.update(at, entry);
    let init = entries.drop_last();
    if at == entries.len() - 1 {
        assert(after.drop_last() == init);
        assert(contents(entries).insert(entry.digest@, entry.bytes@) == contents(init).insert(
            entry.digest@,
            entry.bytes@,
        ));
    } else {
        lemma_contents_replace(init, at, entry);
        assert(after.drop_last() == init.update(at, entry));
    }
}

/// The index of the last entry that names `digest`, if there is one.
fn position(entries: &Vec<CacheEntry>, digest: &str) -> (found: Option<usize>)
    ensures
        match found {
            Some(i) => last_named(entries@, digest@, i as int),
            None => forall|i: int| 0 <= i < entries.len() ==> entries[i].digest@ != digest@,
        },
{
    let mut i: usize = entries.len();
    while i > 0
        invariant
            i <= entries.len(),
            forall|j: int| i <= j < entries.len() ==> entries[j].digest@ != digest@,
        decreases i,
    {
        i -= 1;
        if str_eq(entries[i].digest.as_str(), digest) {
            return Some(i);
        }
    }
    None
}

/// Writes `bytes` under `digest`: over the entry that holds the digest, or as a new one.
fn store(entries: &mut Vec<CacheEntry>, bytes: &Vec<u8>, digest: &str)
    ensures
        contents(final(entries)@) == contents(old(entries)@).insert(digest@, bytes@),
{
    let entry = CacheEntry { digest: owned(digest), bytes: copy_bytes(bytes) };
    match position(entries, digest) {
        Some(i) => {
            proof {
                lemma_contents_replace(entries@, i as int, entry);
            }
            entries.set(i, entry);
        },
        None => {
            proof {
                assert(entries@.push(entry).drop_last() == entries@);
            }
            entries.push(entry);
        },
    }
}

/// The bytes stored under `digest`, if any.
fn fetch<'a>(entries: &'a Vec<CacheEntry>, digest: &str) -> (found: Option<&'a Vec<u8>>)
    ensures
        found is Some == contents(entries@).contains_key(digest@),
        found is Some ==> found->0@ == contents(entries@)[digest@],
{
    proof {
        lemma_contents_lookup(entries@, digest@);
    }
    match position(entries, digest) {
        Some(i) => Some(&entries[i].bytes),
        None => None,
    }
}

/// A content-addressed store held in memory. The host mirrors it to disk.
pub struct ContentCache {
    root: String,
    wasm: Vec<CacheEntry>,
    data: Vec<CacheEntry>,
}

impl View for ContentCache {
    type V = CacheModel;

    closed spec fn view(&self) -> CacheModel {
        CacheModel { root: self.root@, wasm: contents(self.wasm@), data: contents(self.data@) }
    }
}

impl ContentCache {
    /// An empty cache rooted at `root`.
    pub fn new(root: &str) -> (cache: ContentCache)
        ensures
            cache@ == CacheModel::empty(root@),
    {
        ContentCache { root: owned(root), wasm: Vec::new(), data: Vec::new() }
    }

    /// The directory under which every entry lies.
    pub fn root_dir(&self) -> (root: &str)
        ensures
            root@ == self@.root,
    {
        self.root.as_str()
    }

    /// The path of the WebAssembly binary with digest `digest`, stored or not.
    pub fn wasm_path(&self, digest: &str) -> (path: String)
        ensures
            path@ == self@.wasm_path(digest@),
    {
        join3(self.root.as_str(), WASM_DIR, digest)
    }

    /// The path of the data blob with digest `digest`, stored or not.
    pub fn data_path(&self, digest: &str) -> (path: String)
        ensures
            path@ == self@.data_path(digest@),
    {
        join3(self.root.as_str(), DATA_DIR, digest)
    }

    /// Stores a WebAssembly binary under its digest and returns its path.
    pub fn write_wasm(&mut self, bytes: &Vec<u8>, digest: &str) -> (path: String)
        ensures
            final(self)@ == old(self)@.with_wasm(digest@, bytes@),
            path@ == old(self)@.wasm_path(digest@),
    {
        store(&mut self.wasm, bytes, digest);
        self.wasm_path(digest)
    }

    /// Stores a data blob under its digest and returns its path.
    pub fn write_data(&mut self, bytes: &Vec<u8>, digest: &str) -> (path: String)
        ensures
            final(self)@ == old(self)@.with_data(digest@, bytes@),
            path@ == old(self)@.data_path(digest@),
    {
        store(&mut self.data, bytes, digest);
        self.data_path(digest)
    }

    /// The entries of the WebAssembly area, for the host to write them out in this
    /// order: should a digest occur twice, the later entry counts.
    pub fn wasm_entries(&self) -> (entries: &Vec<CacheEntry>)
        ensures
            contents(entries@) == self@.wasm,
    {
        &self.wasm
    }

    /// The entries of the data area, for the host to write them out.
    pub fn data_entries(&self) -> (entries: &Vec<CacheEntry>)
        ensures
            contents(entries@) == self@.data,
    {
        &self.data
    }

    /// The stored WebAssembly binary with digest `digest`.
    pub fn read_wasm(&self, digest: &str) -> (found: Option<&Vec<u8>>)
        ensures
            found is Some == self@.wasm.contains_key(digest@),
            found is Some ==> found->0@ == self@.wasm[digest@],
    {
        fetch(&self.wasm, digest)
    }

    /// The stored data blob with digest `digest`.
    pub fn read_data(&self, digest: &str) -> (found: Option<&Vec<u8>>)
        ensures
            found is Some == self@.data.contains_key(digest@),
            found is Some ==> found->0@ == self@.data[digest@],
    {
        fetch(&self.data, digest)
    }

    /// The path of the WebAssembly binary with digest `digest`, if it is stored.
    pub fn wasm_file(&self, digest: &str) -> (path: Option<String>)
        ensures
            path is Some == self@.wasm.contains_key(digest@),
            path is Some ==> path->0@ == self@.wasm_path(digest@),
    {
        match self.read_wasm(digest) {
            Some(_) => Some(self.wasm_path(digest)),
            None => None,
        }
    }

    /// The path of the data blob with digest `digest`, if it is stored.
    pub fn data_file(&self, digest: &str) -> (path: Option<String>)
        ensures
            path is Some == self@.data.contains_key(digest@),
            path is Some ==> path->0@ == self@.data_path(digest@),
    {
        match self.read_data(digest) {
            Some(_) => Some(self.data_path(digest)),
            None => None,
        }
    }
}

} // verus!
