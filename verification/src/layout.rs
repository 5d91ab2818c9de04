//! Where a cache entry lies on disk: `<root>/<shard>/<key>` for the payload
//! and `<root>/<shard>/<key>.mime-type` for its media type, the shard being
//! the first two digits of the key.

use vstd::prelude::*;
use vstd::string::*;
use crate::cache_key::{hex_digits, is_key};

verus! {

/// `base` with the file or directory name `component` under it: the two are
/// parted by one `/`, which is left out where `base` is empty or already
/// ends in one.
pub open spec fn join(base: Seq<char>, component: Seq<char>) -> Seq<char> {
    if base.len() == 0 || base.last() == '/' {
        base + component
    } else {
        base + seq!['/'] + component
    }
}

/// The name of the directory that holds the entries of `key`.
pub open spec fn shard_of(key: Seq<char>) -> Seq<char> {
    key.subrange(0, 2)
}

/// The directory that holds the entries of `key` under `root`.
pub open spec fn folder_of(root: Seq<char>, key: Seq<char>) -> Seq<char> {
    join(root, shard_of(key))
}

/// The file that holds the payload of `key` under `root`.
pub open spec fn payload_path_of(root: Seq<char>, key: Seq<char>) -> Seq<char> {
    join(folder_of(root, key), key)
}

/// The file that holds the media type of `key` under `root`.
pub open spec fn media_type_path_of(root: Seq<char>, key: Seq<char>) -> Seq<char> {
    join(folder_of(root, key), key + ".mime-type"@)
}

/// The file in which what is meant for `path` is gathered before it is
/// moved there.
pub open spec fn staging_of(path: Seq<char>) -> Seq<char> {
    path + ".part"@
}

/// Builds `join(base, component)`.
pub fn join_path(base: &str, component: &str) -> (joined: String)
    ensures
        joined@ == join(base@, component@),
{
    let n = base.unicode_len();
    let mut joined = String::from_str(base);
    if n > 0 && base.get_char(n - 1) != '/' {
        proof {
            reveal_strlit("/");
        }
        joined.append("/");
        assert("/"@ =~= seq!['/']);
    }
    joined.append(component);
    joined
}

/// A key never holds the separator.
pub proof fn lemma_key_has_no_separator(key: Seq<char>, i: int)
    requires
        is_key(key),
        0 <= i < key.len(),
    ensures
        key[i] != '/',
{
    assert(hex_digits().contains(key[i]));
}

/// The folder of a key ends in the key's second digit, so a name joined to
/// it is always parted from it by a separator.
pub proof fn lemma_folder_shape(root: Seq<char>, key: Seq<char>)
    requires
        is_key(key),
    ensures
        folder_of(root, key).len() >= 2,
        folder_of(root, key).last() == key[1],
        folder_of(root, key).last() != '/',
        forall|name: Seq<char>| #[trigger]
            join(folder_of(root, key), name) == folder_of(root, key) + seq!['/'] + name,
{
    lemma_key_has_no_separator(key, 1);
    assert(shard_of(key).len() == 2);
    assert(shard_of(key)[1] == key[1]);
}

/// The two files of one key and their two staging files are four
/// different files.
pub proof fn lemma_paths_distinct(root: Seq<char>, key: Seq<char>)
    requires
        is_key(key),
    ensures
        payload_path_of(root, key) != media_type_path_of(root, key),
        staging_of(payload_path_of(root, key)) != payload_path_of(root, key),
        staging_of(payload_path_of(root, key)) != media_type_path_of(root, key),
        staging_of(media_type_path_of(root, key)) != payload_path_of(root, key),
        staging_of(media_type_path_of(root, key)) != media_type_path_of(root, key),
        staging_of(media_type_path_of(root, key)) != staging_of(payload_path_of(root, key)),
{
    lemma_folder_shape(root, key);
    reveal_strlit(".mime-type");
    reveal_strlit(".part");
    let folder = folder_of(root, key);
    assert(payload_path_of(root, key).len() == folder.len() + 1 + 64);
    assert(media_type_path_of(root, key).len() == folder.len() + 1 + 64 + 10);
    assert(staging_of(payload_path_of(root, key)).len() == folder.len() + 1 + 64 + 5);
    assert(staging_of(media_type_path_of(root, key)).len() == folder.len() + 1 + 64 + 10 + 5);
}

/// Under one root, two keys have the same payload path only if they are the
/// same key.
pub proof fn lemma_payload_path_injective(root: Seq<char>, a: Seq<char>, b: Seq<char>)
    requires
        is_key(a),
        is_key(b),
        payload_path_of(root, a) == payload_path_of(root, b),
    ensures
        a == b,
{
    lemma_folder_shape(root, a);
    lemma_folder_shape(root, b);
    let fa = folder_of(root, a);
    let fb = folder_of(root, b);
    let pa = payload_path_of(root, a);
    let pb = payload_path_of(root, b);
    assert(pa == fa + seq!['/'] + a);
    assert(pb == fb + seq!['/'] + b);
    assert(fa.len() == fb.len()) by {
        assert(pa.len() == fa.len() + 1 + 64);
        assert(pb.len() == fb.len() + 1 + 64);
    }
    assert forall|i: int| 0 <= i < 64 implies a[i] == b[i] by {
        assert(pa[fa.len() + 1 + i] == a[i]);
        assert(pb[fb.len() + 1 + i] == b[i]);
    }
    assert(a =~= b);
}

} // verus!
