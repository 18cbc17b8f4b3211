//! The asset index of a game version and the downloads it calls for: each
//! object is stored under its hash, in a folder named by the hash's first two
//! characters.

use vstd::prelude::*;
use vstd::string::StringSliceAdditionalSpecFns;
use vstd::utf8::{decode_utf8, encode_utf8, is_char_boundary};
use crate::download::DownloadItem;
use crate::paths;
use crate::text;

verus! {

/// Where asset objects are served from.
pub open spec fn resources_base_url() -> Seq<char> {
    "https://resources.download.minecraft.net"@
}

/// One asset: the SHA-1 of its content and its size.
#[derive(Debug, Clone)]
pub struct AssetObject {
    pub hash: String,
    pub size: u64,
}

/// An asset index: each asset's name with its object, in the order of the
/// index file.
#[derive(Debug, Clone)]
pub struct AssetIndex {
    pub objects: Vec<(String, AssetObject)>,
}

/// The first two bytes of a hash, as text.
pub open spec fn hash_prefix(hash: Seq<char>) -> Seq<char> {
    decode_utf8(encode_utf8(hash).subrange(0, 2))
}

/// The download of one asset object into `objects_dir`.
pub open spec fn asset_item(objects_dir: Seq<char>, hash: Seq<char>, size: u64) -> (
    Seq<char>,
    Seq<char>,
    Option<Seq<char>>,
    Option<u64>,
) {
    let p = hash_prefix(hash);
    (
        resources_base_url() + "/"@ + p + "/"@ + hash,
        paths::path_join(paths::path_join(objects_dir, p), hash),
        Some(hash),
        Some(size),
    )
}

/// The downloads of the objects, in order, leaving out those whose hash is
/// shorter than two bytes.
pub open spec fn asset_items(
    objects: Seq<(String, AssetObject)>,
    objects_dir: Seq<char>,
) -> Seq<(Seq<char>, Seq<char>, Option<Seq<char>>, Option<u64>)>
    decreases objects.len(),
{
    if objects.len() == 0 {
        seq![]
    } else {
        let rest = asset_items(objects.drop_last(), objects_dir);
        let o = objects.last().1;
        if encode_utf8(o.hash@).len() < 2 {
            rest
        } else {
            rest.push(asset_item(objects_dir, o.hash@, o.size))
        }
    }
}

/// Every hash of two bytes or more has a character boundary after its second
/// byte, so that its first two bytes can be cut off.
pub open spec fn prefixes_cut(objects: Seq<(String, AssetObject)>) -> bool {
    forall|i: int|
        0 <= i < objects.len() && #[trigger] encode_utf8(objects[i].1.hash@).len() >= 2
            ==> is_char_boundary(encode_utf8(objects[i].1.hash@), 2)
}

/// The download of one object (its hash has at least two bytes).
fn object_item(objects_dir: &str, hash: &str, size: u64) -> (r: DownloadItem)
    requires
        hash.spec_bytes().len() >= 2,
        is_char_boundary(hash.spec_bytes(), 2),
    ensures
        r@ == asset_item(objects_dir@, hash@, size),
{
    broadcast use vstd::utf8::encode_utf8_decode_utf8;

    let (prefix, _rest) = hash.split_at(2);
    assert(prefix@ == hash_prefix(hash@)) by {
        assert(decode_utf8(encode_utf8(prefix@)) == prefix@);
    }
    let mut url = text::owned("https://resources.download.minecraft.net");
    url.append("/");
    url.append(prefix);
    url.append("/");
    url.append(hash);
    let folder = paths::join(objects_dir, prefix);
    let dest = paths::join(folder.as_str(), hash);
    proof {
        reveal_strlit("https://resources.download.minecraft.net");
        reveal_strlit("/");
    }
    assert(url@ =~= resources_base_url() + "/"@ + prefix@ + "/"@ + hash@);
    DownloadItem::new(url.as_str(), dest.as_str()).with_sha1(hash).with_size(size)
}

impl AssetIndex {
    /// The downloads of all objects below `assets_dir/objects`, in index
    /// order; an object whose hash is shorter than two bytes is skipped.
    pub fn to_download_items(&self, assets_dir: &str) -> (r: Vec<DownloadItem>)
        requires
            prefixes_cut(self.objects@),
        ensures
            r@.map_values(|d: DownloadItem| d@) == asset_items(
                self.objects@,
                paths::path_join(assets_dir@, "objects"@),
            ),
    {
        let objects_dir = paths::join(assets_dir, "objects");
        proof {
            reveal_strlit("objects");
        }
        let ghost dir = objects_dir@;
        assert(dir == paths::path_join(assets_dir@, "objects"@));
        let mut items: Vec<DownloadItem> = Vec::new();
        let n: usize = self.objects.len();
        let mut i: usize = 0;
        while i < n
            invariant
                n == self.objects@.len(),
                i <= n,
                dir == objects_dir@,
                prefixes_cut(self.objects@),
                items@.map_values(|d: DownloadItem| d@) == asset_items(
                    self.objects@.subrange(0, i as int),
                    dir,
                ),
            decreases n - i,
        {
            let obj = &self.objects[i].1;
            let hash = obj.hash.as_str();
            let ghost before = items@;
            let ghost sub = self.objects@.subrange(0, i + 1);
            assert(sub.last() == self.objects@[i as int]);
            assert(self.objects@.subrange(0, i + 1).drop_last() =~= self.objects@.subrange(
                0,
                i as int,
            ));
            if hash.as_bytes().len() >= 2 {
                assert(encode_utf8(self.objects@[i as int].1.hash@).len() >= 2);
                let item = object_item(objects_dir.as_str(), hash, obj.size);
                items.push(item);
                assert(items@.map_values(|d: DownloadItem| d@) =~= before.map_values(
                    |d: DownloadItem| d@,
                ).push(item@));
            }
            assert(items@.map_values(|d: DownloadItem| d@) =~= asset_items(
                self.objects@.subrange(0, i + 1),
                dir,
            ));
            i = i + 1;
        }
        assert(self.objects@.subrange(0, n as int) =~= self.objects@);
        items
    }
}

} // verus!
