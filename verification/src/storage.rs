//! Storage of assets under keys.
use crate::domain::invalid;
use crate::error::{AppResult, ErrorView};
use crate::hashing::{content_hash, content_hash_of, law_content_hash_is_hex};
use crate::ids::{hyphenated, law_hyphenated_shape, Id};
use crate::pipeline::keys::{render_key, scene_directory};
use crate::text::characters;
use vstd::prelude::*;
use vstd::string::*;

verus! {

/// A stored asset.
#[derive(Clone, Debug)]
pub struct StoredObject {
    pub key: String,
    pub public_url: String,
    pub byte_size: i64,
    pub checksum: String,
}

/// A store that keeps assets as files below a directory. Its paths are separated by slashes.
#[derive(Clone, Debug)]
pub struct LocalAssetStore {
    pub root: String,
    pub public_base_url: String,
}

/// A file to be written, and what is stored once it is.
#[derive(Clone, Debug)]
pub struct AssetWrite {
    pub path: String,
    pub object: StoredObject,
}

/// Whether the segment of `key` that starts at `i` is `..`.
pub open spec fn parent_segment_at(key: Seq<char>, i: int) -> bool {
    &&& 0 <= i
    &&& i + 2 <= key.len()
    &&& key[i] == '.' && key[i + 1] == '.'
    &&& i == 0 || key[i - 1] == '/'
    &&& i + 2 == key.len() || key[i + 2] == '/'
}

/// A key that names a place below the directory of the store: it is relative, and none of its
/// segments leads upwards.
pub open spec fn safe_key(key: Seq<char>) -> bool {
    &&& key.len() == 0 || key[0] != '/'
    &&& forall|i: int| !#[trigger] parent_segment_at(key, i)
}

/// The path of a relative key below `root`.
pub open spec fn path_below(root: Seq<char>, key: Seq<char>) -> Seq<char> {
    if root.len() == 0 || root.last() == '/' {
        root + key
    } else {
        root + "/"@ + key
    }
}

/// Whether `object` is what `bytes` under `key` are stored as.
pub open spec fn is_stored(
    object: StoredObject,
    store: LocalAssetStore,
    key: Seq<char>,
    bytes: Seq<u8>,
) -> bool {
    &&& object.key@ == key
    &&& object.public_url@ == store.public_base_url@ + "/"@ + key
    &&& object.byte_size == bytes.len() as i64
    &&& object.checksum@ == content_hash_of(bytes)
}

fn is_safe(key: &str) -> (r: bool)
    ensures
        r == safe_key(key@),
{
    let chars = characters(key);
    let n: usize = chars.len();
    if n > 0 && chars[0] == '/' {
        return false;
    }
    if n < 2 {
        return true;
    }
    let mut i: usize = 0;
    while i < n - 1
        invariant
            n == chars@.len(),
            n >= 2,
            chars@ == key@,
            i <= n - 1,
            forall|k: int| k < i ==> !#[trigger] parent_segment_at(key@, k),
        decreases n - i,
    {
        if chars[i] == '.' && chars[i + 1] == '.' && (i == 0 || chars[i - 1] == '/') && (i + 2 == n
            || chars[i + 2] == '/') {
            assert(parent_segment_at(key@, i as int));
            return false;
        }
        i += 1;
    }
    true
}

impl LocalAssetStore {
    pub fn new(root: String, public_base_url: String) -> (r: LocalAssetStore)
        ensures
            r == (LocalAssetStore { root, public_base_url }),
    {
        LocalAssetStore { root, public_base_url }
    }

    /// The path of the file for a key, where the key is safe.
    pub fn safe_path(&self, key: &str) -> (r: AppResult<String>)
        ensures
            safe_key(key@) ==> r is Ok && r->Ok_0@ == path_below(self.root@, key@),
            !safe_key(key@) ==> r is Err && r->Err_0@ == ErrorView::Validation(
                "非法素材存储键: "@ + key@,
            ),
    {
        if !is_safe(key) {
            return Err(invalid("非法素材存储键: ", key));
        }
        let root = characters(self.root.as_str());
        let mut path = self.root.clone();
        if root.len() > 0 && root[root.len() - 1] != '/' {
            path.append("/");
        }
        path.append(key);
        Ok(path)
    }

    /// The file to write for `bytes` under `key`, where the key is safe, and what is stored
    /// once it is written. A key may be written again.
    pub fn put(&self, key: &str, bytes: &[u8]) -> (r: AppResult<AssetWrite>)
        ensures
            safe_key(key@) ==> {
                &&& r is Ok
                &&& r->Ok_0.path@ == path_below(self.root@, key@)
                &&& is_stored(r->Ok_0.object, *self, key@, bytes@)
            },
            !safe_key(key@) ==> r is Err && r->Err_0@ == ErrorView::Validation(
                "非法素材存储键: "@ + key@,
            ),
    {
        let path = match self.safe_path(key) {
            Ok(path) => path,
            Err(error) => return Err(error),
        };
        let mut public_url = self.public_base_url.clone();
        public_url.append("/");
        public_url.append(key);
        Ok(
            AssetWrite {
                path,
                object: StoredObject {
                    key: key.to_owned(),
                    public_url,
                    byte_size: bytes.len() as i64,
                    checksum: content_hash(bytes),
                },
            },
        )
    }
}

/// The path of a safe key starts with the directory of the store, and no segment behind it
/// leads upwards.
pub proof fn law_safe_path_stays_below_root(root: Seq<char>, key: Seq<char>)
    requires
        safe_key(key),
    ensures
        root.is_prefix_of(path_below(root, key)),
        forall|i: int|
            root.len() <= i && (i > root.len() || root.len() == 0 || root.last() == '/')
                ==> !#[trigger] parent_segment_at(path_below(root, key), i),
{
    reveal_strlit("/");
    let path = path_below(root, key);
    let offset = path.len() - key.len();
    assert forall|i: int|
        root.len() <= i && (i > root.len() || root.len() == 0 || root.last() == '/')
        implies !#[trigger] parent_segment_at(path, i) by {
        if parent_segment_at(path, i) {
            if i >= offset {
                let k = i - offset;
                assert(path[i] == key[k] && path[i + 1] == key[k + 1]);
                if k > 0 {
                    assert(path[i - 1] == key[k - 1]);
                }
                if k + 2 < key.len() {
                    assert(path[i + 2] == key[k + 2]);
                }
                assert(parent_segment_at(key, k));
            }
        }
    }
}

/// The keys under which the files of scenes and the rendered videos are stored are safe.
pub proof fn law_generated_keys_are_safe(project_id: Id, scene_id: Id, bytes: Seq<u8>)
    ensures
        safe_key(scene_directory(project_id, scene_id) + "/"@ + "illustration.png"@),
        safe_key(scene_directory(project_id, scene_id) + "/"@ + "narration.wav"@),
        safe_key(scene_directory(project_id, scene_id) + "/"@ + "captions.json"@),
        safe_key(render_key(project_id, content_hash_of(bytes))),
{
    law_hyphenated_shape(project_id.value);
    law_hyphenated_shape(scene_id.value);
    law_content_hash_is_hex(bytes);
    reveal_strlit("projects/");
    reveal_strlit("/scenes/");
    reveal_strlit("/renders/");
    reveal_strlit("/");
    reveal_strlit("illustration.png");
    reveal_strlit("narration.wav");
    reveal_strlit("captions.json");
    reveal_strlit(".mp4");
    let d = scene_directory(project_id, scene_id);
    assert(d.len() == 89);
    assert forall|i: int| 0 <= i < d.len() implies #[trigger] d[i] != '.' by {}
    lemma_safe_name(d, "illustration.png"@);
    lemma_safe_name(d, "narration.wav"@);
    lemma_safe_name(d, "captions.json"@);
    let e = "projects/"@ + hyphenated(project_id.value) + "/renders/"@
        + content_hash_of(bytes);
    assert forall|i: int| 0 <= i < e.len() implies #[trigger] e[i] != '.' by {}
    let key = render_key(project_id, content_hash_of(bytes));
    assert(key =~= e + ".mp4"@);
    assert forall|i: int| !#[trigger] parent_segment_at(key, i) by {
        if parent_segment_at(key, i) {
            if i < e.len() {
                assert(key[i] == e[i]);
            } else {
                assert(key[i + 1] == ".mp4"@[i + 1 - e.len()]);
            }
        }
    }
}

proof fn lemma_safe_name(directory: Seq<char>, name: Seq<char>)
    requires
        directory.len() > 0,
        directory[0] != '/',
        forall|i: int| 0 <= i < directory.len() ==> #[trigger] directory[i] != '.',
        forall|i: int|
            0 <= i < name.len() - 1 ==> !(#[trigger] name[i] == '.' && name[i + 1] == '.'),
    ensures
        safe_key(directory + "/"@ + name),
{
    reveal_strlit("/");
    let key = directory + "/"@ + name;
    assert forall|i: int| !#[trigger] parent_segment_at(key, i) by {
        if parent_segment_at(key, i) {
            if i < directory.len() {
                assert(key[i] == directory[i]);
            } else if i == directory.len() {
                assert(key[i] == '/');
            } else {
                let k = i - directory.len() - 1;
                assert(key[i] == name[k] && key[i + 1] == name[k + 1]);
            }
        }
    }
}

/// A key is taken exactly where it does not start at the root and none of its segments, which
/// slashes separate, is the one that leads upwards; the path of its file is the directory of the
/// store, a slash unless one stands there, and the key.
pub proof fn law_key_is_taken_exactly(store: LocalAssetStore, key: &str, r: AppResult<String>)
    requires
        call_ensures(LocalAssetStore::safe_path, (&store, key), r),
    ensures
        r is Ok <==> {
            &&& !(key@.len() > 0 && key@[0] == '/')
            &&& forall|i: int|
                #![trigger key@[i]]
                0 <= i < key@.len() - 1 && key@[i] == '.' && key@[i + 1] == '.' && (i == 0
                    || key@[i - 1] == '/') ==> i + 2 < key@.len() && key@[i + 2] != '/'
        },
        r is Ok ==> {
            &&& store.root@.is_prefix_of(r->Ok_0@)
            &&& key@.is_suffix_of(r->Ok_0@)
            &&& store.root@.len() == 0 || store.root@.last() == '/' ==> r->Ok_0@.len()
                == store.root@.len() + key@.len()
            &&& store.root@.len() > 0 && store.root@.last() != '/' ==> r->Ok_0@.len()
                == store.root@.len() + 1 + key@.len() && r->Ok_0@[store.root@.len() as int] == '/'
        },
        r is Err ==> r->Err_0@ == ErrorView::Validation("非法素材存储键: "@ + key@),
{
    reveal_strlit("/");
    let k = key@;
    if r is Ok {
        assert forall|i: int|
            #![trigger k[i]]
            0 <= i < k.len() - 1 && k[i] == '.' && k[i + 1] == '.' && (i == 0 || k[i - 1]
                == '/') implies i + 2 < k.len() && k[i + 2] != '/' by {
            assert(!parent_segment_at(k, i));
        }
        let path = r->Ok_0@;
        assert(path.subrange(path.len() - k.len(), path.len() as int) =~= k);
    }
    if !(k.len() > 0 && k[0] == '/') && (forall|i: int|
        #![trigger k[i]]
        0 <= i < k.len() - 1 && k[i] == '.' && k[i + 1] == '.' && (i == 0 || k[i - 1] == '/')
            ==> i + 2 < k.len() && k[i + 2] != '/') {
        assert forall|i: int| !#[trigger] parent_segment_at(k, i) by {
            if 0 <= i && i + 2 <= k.len() {
                let c = k[i];
            }
        }
    }
}

/// What is stored has the key that it was given, the address of that key, and the length and the
/// hash of its content; it is refused exactly where the key has no path.
pub proof fn law_stored_object_is_its_content(
    store: LocalAssetStore,
    key: &str,
    bytes: &[u8],
    hash: String,
    path: AppResult<String>,
    r: AppResult<AssetWrite>,
)
    requires
        call_ensures(LocalAssetStore::put, (&store, key, bytes), r),
        call_ensures(LocalAssetStore::safe_path, (&store, key), path),
        call_ensures(content_hash, (bytes,), hash),
    ensures
        r is Ok <==> path is Ok,
        r is Err ==> r->Err_0@ == path->Err_0@,
        r is Ok ==> {
            &&& r->Ok_0.path@ == path->Ok_0@
            &&& r->Ok_0.object.key@ == key@
            &&& r->Ok_0.object.public_url@ == store.public_base_url@ + "/"@ + key@
            &&& bytes@.len() <= i64::MAX ==> r->Ok_0.object.byte_size == bytes@.len()
            &&& r->Ok_0.object.checksum@ == hash@
        },
{
}

/// A store keeps the directory and the address that it was made with.
pub proof fn law_store_of_a_directory(root: String, public_base_url: String, r: LocalAssetStore)
    requires
        call_ensures(LocalAssetStore::new, (root, public_base_url), r),
    ensures
        r.root == root,
        r.public_base_url == public_base_url,
{
}

} // verus!
