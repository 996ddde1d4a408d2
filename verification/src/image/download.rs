//! Images fetched from a URL are cached under the hex SHA-256 of the URL.
use vstd::prelude::*;
use crate::cache::{hex_lower, hex_string, sha256, sha256_digest};
use crate::paths::{join, join_path, Paths};
use crate::text::cat;

verus! {

/// The file extension that the first bytes of an image suggest; `.png`
/// when they suggest none.
pub open spec fn spec_guess_extension(bytes: Seq<u8>) -> Seq<char> {
    if bytes.len() < 4 {
        ".png"@
    } else if bytes[0] == 0x89 && bytes[1] == 0x50 && bytes[2] == 0x4E && bytes[3] == 0x47 {
        ".png"@
    } else if bytes[0] == 0xFF && bytes[1] == 0xD8 && bytes[2] == 0xFF {
        ".jpg"@
    } else if bytes[0] == 0x52 && bytes[1] == 0x49 && bytes[2] == 0x46 && bytes[3] == 0x46 {
        ".webp"@
    } else if bytes[0] == 0x47 && bytes[1] == 0x49 && bytes[2] == 0x46 {
        ".gif"@
    } else if bytes[0] == 0x42 && bytes[1] == 0x4D {
        ".bmp"@
    } else {
        ".png"@
    }
}

pub fn guess_extension(bytes: &[u8]) -> (res: &'static str)
    ensures
        res@ == spec_guess_extension(bytes@),
{
    if bytes.len() < 4 {
        return ".png";
    }
    if bytes[0] == 0x89 && bytes[1] == 0x50 && bytes[2] == 0x4E && bytes[3] == 0x47 {
        ".png"
    } else if bytes[0] == 0xFF && bytes[1] == 0xD8 && bytes[2] == 0xFF {
        ".jpg"
    } else if bytes[0] == 0x52 && bytes[1] == 0x49 && bytes[2] == 0x46 && bytes[3] == 0x46 {
        ".webp"
    } else if bytes[0] == 0x47 && bytes[1] == 0x49 && bytes[2] == 0x46 {
        ".gif"
    } else if bytes[0] == 0x42 && bytes[1] == 0x4D {
        ".bmp"
    } else {
        ".png"
    }
}

/// The hex SHA-256 of the URL's bytes.
pub open spec fn spec_url_hash(url: Seq<char>) -> Seq<char> {
    hex_lower(sha256_digest(vstd::utf8::encode_utf8(url)))
}

pub fn url_hash(url: &str) -> (res: String)
    ensures
        res@ == spec_url_hash(url@),
{
    let digest = sha256(url.as_bytes());
    hex_string(digest.as_slice())
}

/// Where a download of `url` whose bytes start like `bytes` is stored.
pub fn download_target(url: &str, bytes: &[u8], paths: &Paths) -> (res: String)
    ensures
        res@ == join(paths.downloads_dir@, spec_url_hash(url@) + spec_guess_extension(bytes@)),
{
    let hash = url_hash(url);
    let name = cat(hash.as_str(), guess_extension(bytes));
    join_path(paths.downloads_dir.as_str(), name.as_str())
}

/// The extensions a cached download may have, in the order they are tried.
pub open spec fn cached_extensions() -> Seq<Seq<char>> {
    seq![".png"@, ".jpg"@, ".jpeg"@, ".webp"@, ".gif"@, ".bmp"@]
}

/// The places a cached download of `url` may be, in order.
pub open spec fn cached_candidates(url: Seq<char>, downloads_dir: Seq<char>) -> Seq<Seq<char>> {
    cached_extensions().map_values(|e: Seq<char>| join(downloads_dir, spec_url_hash(url) + e))
}

pub fn cached_url_candidates(url: &str, paths: &Paths) -> (res: Vec<String>)
    ensures
        res@.map_values(|s: String| s@) == cached_candidates(url@, paths.downloads_dir@),
{
    let hash = url_hash(url);
    let exts = [".png", ".jpg", ".jpeg", ".webp", ".gif", ".bmp"];
    let mut out: Vec<String> = Vec::new();
    let mut i: usize = 0;
    proof {
        reveal_strlit(".png");
        assert(exts@.map_values(|e: &str| e@) =~= cached_extensions());
    }
    while i < 6
        invariant
            i <= 6,
            hash@ == spec_url_hash(url@),
            exts@.len() == 6,
            exts@.map_values(|e: &str| e@) == cached_extensions(),
            out@.map_values(|s: String| s@) == cached_candidates(url@, paths.downloads_dir@).take(
                i as int,
            ),
        decreases 6 - i,
    {
        let name = cat(hash.as_str(), exts[i]);
        let ghost before = out@;
        proof {
            assert(exts@.map_values(|e: &str| e@)[i as int] == exts@[i as int]@);
        }
        out.push(join_path(paths.downloads_dir.as_str(), name.as_str()));
        proof {
            assert(out@.map_values(|s: String| s@) =~= before.map_values(|s: String| s@).push(
                join(paths.downloads_dir@, hash@ + exts@[i as int]@),
            ));
            assert(cached_candidates(url@, paths.downloads_dir@).take(i + 1) =~= cached_candidates(
                url@,
                paths.downloads_dir@,
            ).take(i as int).push(join(paths.downloads_dir@, hash@ + exts@[i as int]@)));
        }
        i = i + 1;
    }
    proof {
        assert(cached_candidates(url@, paths.downloads_dir@).take(6) =~= cached_candidates(
            url@,
            paths.downloads_dir@,
        ));
    }
    out
}

/// The first position whose flag is set.
pub open spec fn first_set(flags: Seq<bool>) -> Option<int>
    decreases flags.len(),
{
    if flags.len() == 0 {
        None
    } else {
        match first_set(flags.drop_last()) {
            Some(i) => Some(i),
            None => if flags.last() {
                Some(flags.len() - 1)
            } else {
                None
            },
        }
    }
}

/// The cached download of `url`, given which of its candidate places
/// (see `cached_url_candidates`) exist: the first that does.
pub fn cached_url_path(url: &str, paths: &Paths, exists: &[bool]) -> (res: Option<String>)
    requires
        exists@.len() == 6,
    ensures
        match first_set(exists@) {
            Some(i) => res matches Some(p) && p@ == cached_candidates(url@, paths.downloads_dir@)[i],
            None => res is None,
        },
{
    let candidates = cached_url_candidates(url, paths);
    let mut i: usize = 0;
    proof {
        assert(candidates@.map_values(|s: String| s@).len() == candidates@.len());
        assert(cached_candidates(url@, paths.downloads_dir@).len() == 6);
    }
    while i < 6
        invariant
            i <= 6,
            exists@.len() == 6,
            candidates@.len() == 6,
            candidates@.map_values(|s: String| s@) == cached_candidates(url@, paths.downloads_dir@),
            first_set(exists@.take(i as int)) is None,
        decreases 6 - i,
    {
        proof {
            assert(exists@.take(i + 1).drop_last() =~= exists@.take(i as int));
        }
        if exists[i] {
            proof {
                lemma_first_set_prefix(exists@, i + 1);
                assert(candidates@.map_values(|s: String| s@)[i as int] == candidates@[i as int]@);
            }
            return Some(crate::text::copy_string(candidates[i].as_str()));
        }
        i = i + 1;
    }
    proof {
        assert(exists@.take(6) =~= exists@);
    }
    None
}

/// A flag found in a prefix is the first one of the whole.
proof fn lemma_first_set_prefix(flags: Seq<bool>, k: int)
    requires
        0 <= k <= flags.len(),
        first_set(flags.take(k)) is Some,
    ensures
        first_set(flags) == first_set(flags.take(k)),
    decreases flags.len() - k,
{
    if k < flags.len() {
        assert(flags.take(k + 1).drop_last() =~= flags.take(k));
        lemma_first_set_prefix(flags, k + 1);
    } else {
        assert(flags.take(k) =~= flags);
    }
}

} // verus!
