//! Seed colours of an image: sampled pixels, quantized and ranked by
//! Material Color Utilities.
use vstd::prelude::*;
use std::collections::HashMap;
use std::io::Cursor;
use ::image::ImageReader;
use mcu_material_color::quantize::QuantizerCelebi;
use mcu_material_color::score::Score;
use crate::color::types::Rgb;
use crate::error::LRatio;

verus! {

/// Side of the square that images are scaled to before sampling.
pub const SAMPLE_SIZE: u32 = 200;

/// The decoded image that the bytes of `file` encode (format guessed from
/// its first bytes), scaled with `thumbnail_exact` to `size` by `size`, as
/// RGB bytes; or the decoder's error text.
pub uninterp spec fn image_thumbnail(file: Seq<u8>, size: u32) -> Result<Seq<u8>, Seq<char>>;

pub open spec fn bytes_result(r: Result<Vec<u8>, String>) -> Result<Seq<u8>, Seq<char>> {
    match r {
        Ok(b) => Ok(b@),
        Err(e) => Err(e@),
    }
}

/// Trusted: the `image` crate's `ImageReader` over the bytes with
/// `with_guessed_format` and `decode`, then `thumbnail_exact(size, size)`,
/// `to_rgb8` and `into_raw`; an error becomes its text. Decoding and
/// resampling depend on the bytes and the size alone, so the result is
/// named. The source builds a `size` by `size` buffer, three bytes per
/// pixel.
#[verifier::external_body]
fn rgb_thumbnail(file: &[u8], size: u32) -> (res: Result<Vec<u8>, String>)
    requires
        0 < size <= SAMPLE_SIZE,
    ensures
        bytes_result(res) == image_thumbnail(file@, size),
        res matches Ok(b) ==> b@.len() == 3 * size * size,
{
    let reader = ImageReader::new(Cursor::new(file)).with_guessed_format().map_err(|e| e.to_string())?;
    let img = reader.decode().map_err(|e| e.to_string())?;
    Ok(img.thumbnail_exact(size, size).to_rgb8().into_raw())
}

/// The colour that `Score::score` falls back to when no input colour is
/// suitable.
pub const FALLBACK_ARGB: u32 = 0xff4285f4;

/// The sum of the populations of `(colour, population)` entries.
pub open spec fn population_total(entries: Seq<(u32, u32)>) -> int
    decreases entries.len(),
{
    if entries.len() == 0 {
        0
    } else {
        population_total(entries.drop_last()) + entries.last().1
    }
}

/// No colour occurs twice among the entries.
pub open spec fn distinct_colors(entries: Seq<(u32, u32)>) -> bool {
    forall|i: int, j: int|
        0 <= i < j < entries.len() ==> #[trigger] entries[i].0 != #[trigger] entries[j].0
}

/// The map that `(colour, population)` entries spell out.
pub open spec fn entries_map(entries: Seq<(u32, u32)>) -> Map<u32, u32>
    decreases entries.len(),
{
    if entries.len() == 0 {
        Map::empty()
    } else {
        entries_map(entries.drop_last()).insert(entries.last().0, entries.last().1)
    }
}

/// The colour clusters (ARGB to population) that
/// `QuantizerCelebi::quantize` makes of the pixels with at most
/// `max_colors` colours.
pub uninterp spec fn celebi_clusters(pixels: Seq<u32>, max_colors: usize) -> Map<u32, u32>;

/// Trusted: `QuantizerCelebi::quantize`, its map handed out as
/// `(colour, population)` pairs in the map's walking order. The source
/// (Wu's boxes, then weighted k-means from a fixed seed, points kept in
/// input order) computes the map from its arguments alone, so the map is
/// named. It needs `max_colors >= 1` (Wu indexes its first box) and counts
/// pixels in `u32`. Also claimed: at most `max_colors` entries, distinct
/// colours (map keys), and populations that add up to at most the pixel
/// count (a cluster whose colour repeats an earlier one is dropped). Which
/// colours come out is not described.
#[verifier::external_body]
fn quantize(pixels: &[u32], max_colors: usize) -> (res: Vec<(u32, u32)>)
    requires
        max_colors >= 1,
        pixels@.len() <= u32::MAX,
    ensures
        entries_map(res@) == celebi_clusters(pixels@, max_colors),
        res@.len() <= max_colors,
        distinct_colors(res@),
        population_total(res@) <= pixels@.len(),
{
    QuantizerCelebi::quantize(pixels, max_colors).into_iter().collect()
}

/// Whether `Score::score` lets any colour of the population through its
/// filter (chroma at least 5 and more than 1% of the population near its
/// hue); a population totalling zero lets none through. The filter looks
/// at each colour and at per-hue sums, so this depends on the map alone,
/// not on the order in which it is walked.
pub uninterp spec fn score_keeps_any(population: Map<u32, u32>) -> bool;

/// Trusted: `Score::score` on the map with these entries. Its per-hue
/// counters are `u32`, hence the bound on the total. The source returns at
/// least one and at most four colours (the default `desired`). Where its
/// filter keeps some colour, the first kept one is always chosen, so every
/// colour returned is an input colour (an HCT keeps the ARGB it was made
/// from); otherwise it returns the fallback alone, as it does when the total
/// is zero. The ranking itself (floating-point scores, with ties in the
/// map's walking order) is not described.
#[verifier::external_body]
fn score(entries: &[(u32, u32)]) -> (res: Vec<u32>)
    requires
        distinct_colors(entries@),
        population_total(entries@) <= u32::MAX,
    ensures
        1 <= res@.len() <= 4,
        score_keeps_any(entries_map(entries@)) ==> forall|i: int|
            0 <= i < res@.len() ==> entries_map(entries@).contains_key(#[trigger] res@[i]),
        !score_keeps_any(entries_map(entries@)) ==> res@ == seq![FALLBACK_ARGB],
        population_total(entries@) == 0 ==> res@ == seq![FALLBACK_ARGB],
{
    let population: HashMap<u32, u32> = entries.iter().copied().collect();
    Score::score(&population)
}

/// A ranking as `Score::score` gives it for these clusters: one to four
/// colours, all of them cluster colours where the scorer keeps any, else
/// the fallback alone.
pub open spec fn ranked_from(ranked: Seq<u32>, clusters: Map<u32, u32>) -> bool {
    &&& 1 <= ranked.len() <= 4
    &&& score_keeps_any(clusters) ==> forall|i: int|
        0 <= i < ranked.len() ==> clusters.contains_key(#[trigger] ranked[i])
    &&& !score_keeps_any(clusters) ==> ranked == seq![FALLBACK_ARGB]
}

/// `colors` are the seed colours of the pixels: a ranking of the pixels'
/// clusters (at most 128), as colours.
pub open spec fn seed_colors_of(colors: Seq<Rgb>, pixels: Seq<u32>) -> bool {
    exists|ranked: Seq<u32>|
        ranked_from(ranked, celebi_clusters(pixels, 128)) && colors == ranked.map_values(
            |a: u32| Rgb::spec_from_argb(a),
        )
}

/// Opaque ARGB words of consecutive RGB byte triples.
pub open spec fn packed(bytes: Seq<u8>) -> Seq<u32> {
    Seq::new(
        bytes.len() / 3,
        |i: int| Rgb { r: bytes[3 * i], g: bytes[3 * i + 1], b: bytes[3 * i + 2] }.spec_argb(),
    )
}

pub struct ColorExtractor;

impl ColorExtractor {
    /// The pixels of the image encoded in `file`, scaled to 200 by 200, as
    /// opaque ARGB words; a file that does not decode gives the decoder's
    /// message.
    pub fn sample_pixels(file: &[u8]) -> (res: Result<Vec<u32>, LRatio>)
        ensures
            match image_thumbnail(file@, SAMPLE_SIZE) {
                Ok(b) => res matches Ok(p) && p@ == packed(b) && p@.len() == SAMPLE_SIZE * SAMPLE_SIZE,
                Err(m) => res matches Err(LRatio::ImageDecode(e)) && e@ == m,
            },
    {
        match rgb_thumbnail(file, SAMPLE_SIZE) {
            Ok(bytes) => {
                let res = Self::pack(&bytes);
                assert(bytes@.len() / 3 == 40000);
                Ok(res)
            },
            Err(e) => Err(LRatio::ImageDecode(e)),
        }
    }

    /// Each byte triple as an opaque ARGB word.
    pub fn pack(bytes: &Vec<u8>) -> (res: Vec<u32>)
        ensures
            res@ == packed(bytes@),
    {
        let mut out: Vec<u32> = Vec::new();
        let n = bytes.len() / 3;
        let mut i: usize = 0;
        while i < n
            invariant
                n == bytes.len() / 3,
                i <= n,
                out@ == packed(bytes@).take(i as int),
            decreases n - i,
        {
            let len = bytes.len();
            assert(3 * i + 2 < len) by (nonlinear_arith)
                requires
                    i < n,
                    n == len / 3,
            ;
            let k: usize = 3 * i;
            let c = Rgb { r: bytes[k], g: bytes[k + 1], b: bytes[k + 2] };
            out.push(c.to_argb_u32());
            proof {
                assert(packed(bytes@).take(i + 1) =~= packed(bytes@).take(i as int).push(
                    c.spec_argb(),
                ));
            }
            i = i + 1;
        }
        proof {
            assert(packed(bytes@).take(n as int) =~= packed(bytes@));
        }
        out
    }

    /// The ranked colours as `Rgb`; none at all is an error.
    pub fn colors_from_ranking(ranked: &[u32]) -> (res: Result<Vec<Rgb>, LRatio>)
        ensures
            ranked@.len() == 0 ==> res matches Err(LRatio::NoColors),
            ranked@.len() > 0 ==> (res matches Ok(v) && v@ == ranked@.map_values(
                |a: u32| Rgb::spec_from_argb(a),
            )),
    {
        if ranked.len() == 0 {
            return Err(LRatio::NoColors);
        }
        let mut out: Vec<Rgb> = Vec::new();
        let mut i: usize = 0;
        while i < ranked.len()
            invariant
                i <= ranked@.len(),
                out@ == ranked@.take(i as int).map_values(|a: u32| Rgb::spec_from_argb(a)),
            decreases ranked@.len() - i,
        {
            out.push(Rgb::from_argb_u32(ranked[i]));
            proof {
                assert(ranked@.take(i + 1).map_values(|a: u32| Rgb::spec_from_argb(a)) =~= ranked@.take(
                    i as int,
                ).map_values(|a: u32| Rgb::spec_from_argb(a)).push(Rgb::spec_from_argb(ranked@[i as int])));
            }
            i = i + 1;
        }
        proof {
            assert(ranked@.take(i as int) =~= ranked@);
        }
        Ok(out)
    }

    /// The seed colours of sampled pixels, best first: no pixels is an
    /// error, otherwise the ranking of the pixels' clusters (at most 128).
    pub fn colors_from_pixels(pixels: &[u32]) -> (res: Result<Vec<Rgb>, LRatio>)
        requires
            pixels@.len() <= u32::MAX,
        ensures
            pixels@.len() == 0 ==> res matches Err(LRatio::NoColors),
            pixels@.len() > 0 ==> (res matches Ok(v) && seed_colors_of(v@, pixels@)),
    {
        if pixels.len() == 0 {
            return Err(LRatio::NoColors);
        }
        let population = quantize(pixels, 128);
        let ranked = score(&population);
        let res = Self::colors_from_ranking(ranked.as_slice());
        proof {
            assert(ranked_from(ranked@, celebi_clusters(pixels@, 128)));
        }
        res
    }

    /// The seed colours of the image encoded in `file`, best first: those
    /// of its 200 by 200 sample; a file that does not decode gives the
    /// decoder's message.
    pub fn colors_of_image(file: &[u8]) -> (res: Result<Vec<Rgb>, LRatio>)
        ensures
            match image_thumbnail(file@, SAMPLE_SIZE) {
                Ok(b) => res matches Ok(v) && seed_colors_of(v@, packed(b)),
                Err(m) => res matches Err(LRatio::ImageDecode(e)) && e@ == m,
            },
    {
        match Self::sample_pixels(file) {
            Ok(pixels) => Self::colors_from_pixels(pixels.as_slice()),
            Err(e) => Err(e),
        }
    }
}

} // verus!
