//! The earlier naming of downloaded images: the hex MD5 of the URL.
use vstd::prelude::*;
use crate::cache::{hex_lower, hex_string};
use crate::image::download::{guess_extension, spec_guess_extension};
use crate::paths::{join, join_path, Paths};
use crate::text::cat;

verus! {

/// The MD5 digest of `data`.
pub uninterp spec fn md5_digest(data: Seq<u8>) -> Seq<u8>;

/// Trusted: `md5::compute`, its sixteen digest bytes; the digest is named.
#[verifier::external_body]
fn md5(data: &[u8]) -> (res: Vec<u8>)
    ensures
        res@ == md5_digest(data@),
        res@.len() == 16,
{
    md5::compute(data).0.to_vec()
}

/// Where this download of `url`, starting with `bytes`, is stored.
pub fn download_target(url: &str, bytes: &[u8], paths: &Paths) -> (res: String)
    ensures
        res@ == join(
            paths.downloads_dir@,
            hex_lower(md5_digest(vstd::utf8::encode_utf8(url@))) + spec_guess_extension(bytes@),
        ),
{
    let digest = md5(url.as_bytes());
    let hash = hex_string(digest.as_slice());
    let name = cat(hash.as_str(), guess_extension(bytes));
    join_path(paths.downloads_dir.as_str(), name.as_str())
}

} // verus!
