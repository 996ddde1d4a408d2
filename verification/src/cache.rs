//! Keys of cached schemes: SHA-256 digests, written in lower-case hex.
use vstd::prelude::*;
use sha2::{Digest, Sha256};
use crate::color::types::{spec_byte_hex, Rgb};
use crate::config::{Contrast, Style};
use crate::text::{cat, string_of};

verus! {

/// The SHA-256 digest of `data`.
pub uninterp spec fn sha256_digest(data: Seq<u8>) -> Seq<u8>;

/// Trusted: `Sha256::digest`; the digest is named, and it is 32 bytes long
/// (`Sha256`'s output size).
#[verifier::external_body]
pub(crate) fn sha256(data: &[u8]) -> (res: Vec<u8>)
    ensures
        res@ == sha256_digest(data@),
        res@.len() == 32,
{
    Sha256::digest(data).to_vec()
}

/// Each byte as two lower-case hex digits.
pub open spec fn hex_lower(bytes: Seq<u8>) -> Seq<char>
    decreases bytes.len(),
{
    if bytes.len() == 0 {
        Seq::empty()
    } else {
        hex_lower(bytes.drop_last()) + spec_byte_hex(bytes.last())
    }
}

pub fn hex_string(bytes: &[u8]) -> (res: String)
    ensures
        res@ == hex_lower(bytes@),
{
    let mut out: Vec<char> = Vec::new();
    let mut i: usize = 0;
    while i < bytes.len()
        invariant
            i <= bytes@.len(),
            out@ == hex_lower(bytes@.take(i as int)),
        decreases bytes@.len() - i,
    {
        proof {
            assert(bytes@.take(i + 1).drop_last() =~= bytes@.take(i as int));
        }
        Rgb::push_byte_hex(&mut out, bytes[i]);
        i = i + 1;
    }
    proof {
        assert(bytes@.take(i as int) =~= bytes@);
    }
    string_of(out.as_slice())
}

/// The eight little-endian bytes of `n`, lowest first.
pub open spec fn le_bytes(n: nat, count: nat) -> Seq<u8>
    decreases count,
{
    if count == 0 {
        Seq::empty()
    } else {
        seq![(n % 256) as u8] + le_bytes(n / 256, (count - 1) as nat)
    }
}

fn le_bytes_of(n: u64) -> (res: Vec<u8>)
    ensures
        res@ == le_bytes(n as nat, 8),
{
    let mut out: Vec<u8> = Vec::new();
    let mut v = n;
    let mut i: usize = 0;
    while i < 8
        invariant
            i <= 8,
            out@ + le_bytes(v as nat, (8 - i) as nat) == le_bytes(n as nat, 8),
        decreases 8 - i,
    {
        let ghost before = out@;
        out.push((v % 256) as u8);
        proof {
            assert(le_bytes(v as nat, (8 - i) as nat) == seq![(v % 256) as u8] + le_bytes(
                (v / 256) as nat,
                (8 - i - 1) as nat,
            ));
            assert(out@ + le_bytes((v / 256) as nat, (8 - i - 1) as nat) =~= before + le_bytes(
                v as nat,
                (8 - i) as nat,
            ));
        }
        v = v / 256;
        i = i + 1;
    }
    proof {
        assert(out@ + le_bytes(v as nat, 0) =~= out@);
    }
    out
}

/// What the key digests: the style and contrast text, one byte for light
/// mode, the file size as eight little-endian bytes, and the file's bytes
/// (none where the file could not be read).
pub open spec fn key_material(harmony: Seq<u8>, is_light: bool, file_size: u64, contents: Seq<u8>) -> Seq<u8> {
    harmony + seq![if is_light { 1u8 } else { 0u8 }] + le_bytes(file_size as nat, 8) + contents
}

/// `style:contrast`, the text that distinguishes schemes of one image.
pub open spec fn harmony_text(style: Style, contrast: Contrast) -> Seq<char> {
    style.spec_name() + ":"@ + contrast.spec_name()
}

pub fn harmony_key(style: Style, contrast: Contrast) -> (res: String)
    ensures
        res@ == harmony_text(style, contrast),
{
    let head = cat(style.as_str(), ":");
    cat(head.as_str(), contrast.as_str())
}

/// The cache key of an image's scheme: the hex SHA-256 of the key material.
pub fn cache_key(harmony: &str, is_light: bool, file_size: u64, contents: &[u8]) -> (res: String)
    ensures
        res@ == hex_lower(sha256_digest(key_material(vstd::utf8::encode_utf8(harmony@), is_light, file_size, contents@))),
{
    let mut data: Vec<u8> = Vec::new();
    let h = harmony.as_bytes();
    let mut i: usize = 0;
    while i < h.len()
        invariant
            i <= h@.len(),
            data@ == h@.take(i as int),
        decreases h@.len() - i,
    {
        data.push(h[i]);
        proof {
            assert(h@.take(i + 1) =~= h@.take(i as int).push(h@[i as int]));
        }
        i = i + 1;
    }
    proof {
        assert(h@.take(i as int) =~= h@);
    }
    data.push(if is_light { 1u8 } else { 0u8 });
    let mut size = le_bytes_of(file_size);
    data.append(&mut size);
    let ghost front = data@;
    let mut j: usize = 0;
    while j < contents.len()
        invariant
            j <= contents@.len(),
            data@ == front + contents@.take(j as int),
        decreases contents@.len() - j,
    {
        data.push(contents[j]);
        proof {
            assert(contents@.take(j + 1) =~= contents@.take(j as int).push(contents@[j as int]));
        }
        j = j + 1;
    }
    proof {
        assert(contents@.take(j as int) =~= contents@);
        assert(data@ =~= key_material(vstd::utf8::encode_utf8(harmony@), is_light, file_size, contents@));
    }
    let digest = sha256(data.as_slice());
    hex_string(digest.as_slice())
}

/// `256^k`, the count of values that `k` little-endian bytes can hold.
pub open spec fn byte_range(k: nat) -> nat
    decreases k,
{
    if k == 0 {
        1
    } else {
        256 * byte_range((k - 1) as nat)
    }
}

/// Numbers below `256^k` have different little-endian bytes.
pub proof fn lemma_le_bytes_injective(n: nat, m: nat, k: nat)
    requires
        n < byte_range(k),
        m < byte_range(k),
        le_bytes(n, k) == le_bytes(m, k),
    ensures
        n == m,
    decreases k,
{
    if k > 0 {
        let a = le_bytes(n, k);
        let b = le_bytes(m, k);
        assert(a[0] == b[0]);
        assert(a.drop_first() =~= le_bytes(n / 256, (k - 1) as nat));
        assert(b.drop_first() =~= le_bytes(m / 256, (k - 1) as nat));
        let r = byte_range((k - 1) as nat);
        assert(n / 256 < r) by (nonlinear_arith)
            requires
                n < 256 * r,
        ;
        assert(m / 256 < r) by (nonlinear_arith)
            requires
                m < 256 * r,
        ;
        lemma_le_bytes_injective(n / 256, m / 256, (k - 1) as nat);
        assert(n % 256 == m % 256);
    }
}

proof fn lemma_le_bytes_len(n: nat, k: nat)
    ensures
        le_bytes(n, k).len() == k,
    decreases k,
{
    if k > 0 {
        lemma_le_bytes_len(n / 256, (k - 1) as nat);
    }
}

/// What a cache key digests begins with the harmony bytes, followed by one
/// byte for light mode (1) or dark mode (0), the file size and the file's
/// bytes. Material of harmony texts of one length is the same only for the
/// same harmony, mode, size and contents; and for one image, mode and size,
/// different harmony texts give different material, so each style and
/// contrast has its own key material.
pub proof fn lemma_key_material_parts(
    h1: Seq<u8>,
    l1: bool,
    s1: u64,
    c1: Seq<u8>,
    h2: Seq<u8>,
    l2: bool,
    s2: u64,
    c2: Seq<u8>,
)
    ensures
        key_material(h1, l1, s1, c1).len() == h1.len() + 9 + c1.len(),
        key_material(h1, l1, s1, c1).take(h1.len() as int) == h1,
        key_material(h1, l1, s1, c1)[h1.len() as int] == (if l1 { 1u8 } else { 0u8 }),
        key_material(h1, l1, s1, c1)[h1.len() + 1int] == (s1 % 256) as u8,
        key_material(h1, l1, s1, c1).skip(h1.len() + 9int) == c1,
        h1.len() == h2.len() && key_material(h1, l1, s1, c1) == key_material(h2, l2, s2, c2) ==> h1
            == h2 && l1 == l2 && s1 == s2 && c1 == c2,
        h1 != h2 && l1 == l2 && s1 == s2 && c1 == c2 ==> key_material(h1, l1, s1, c1) != key_material(
            h2,
            l2,
            s2,
            c2,
        ),
{
    lemma_le_bytes_len(s1 as nat, 8);
    lemma_le_bytes_len(s2 as nat, 8);
    let m1 = key_material(h1, l1, s1, c1);
    let m2 = key_material(h2, l2, s2, c2);
    let f1 = if l1 { 1u8 } else { 0u8 };
    let f2 = if l2 { 1u8 } else { 0u8 };
    let n = h1.len() as int;
    assert(m1.take(n) =~= h1);
    assert(m1.skip(n + 9) =~= c1);
    assert(m1.subrange(n + 1, n + 9) =~= le_bytes(s1 as nat, 8));
    if h1.len() == h2.len() && m1 == m2 {
        assert(m2.take(n) =~= h2);
        assert(m2.skip(n + 9) =~= c2);
        assert(m2.subrange(n + 1, n + 9) =~= le_bytes(s2 as nat, 8));
        assert(m1[n] == f1 && m2[n] == f2);
        assert(byte_range(8) == 0x1_0000_0000_0000_0000) by {
            reveal_with_fuel(byte_range, 9);
        }
        lemma_le_bytes_injective(s1 as nat, s2 as nat, 8);
    }
    if h1 != h2 && l1 == l2 && s1 == s2 && c1 == c2 {
        if h1.len() == h2.len() {
            if m1 == m2 {
                assert(m2.take(n) =~= h2);
            }
        } else {
            assert(m1.len() != m2.len());
        }
    }
}

/// Different `style:contrast` texts give an image different key material,
/// their UTF-8 bytes being different.
pub proof fn lemma_harmony_keys_differ(t1: Seq<char>, t2: Seq<char>, is_light: bool, file_size: u64, contents: Seq<u8>)
    requires
        t1 != t2,
    ensures
        key_material(vstd::utf8::encode_utf8(t1), is_light, file_size, contents) != key_material(
            vstd::utf8::encode_utf8(t2),
            is_light,
            file_size,
            contents,
        ),
{
    vstd::utf8::encode_utf8_decode_utf8(t1);
    vstd::utf8::encode_utf8_decode_utf8(t2);
    lemma_key_material_parts(
        vstd::utf8::encode_utf8(t1),
        is_light,
        file_size,
        contents,
        vstd::utf8::encode_utf8(t2),
        is_light,
        file_size,
        contents,
    );
}

} // verus!
