//! Choosing the image file to read colours from.
use vstd::prelude::*;
use rand::seq::IndexedRandom;
use crate::error::LRatio;
use crate::text::{chars_of, copy_string};

verus! {

/// `Path::extension` of a path: the part of its file name after the final
/// `.`, if there is one.
pub uninterp spec fn extension_of(path: Seq<char>) -> Option<Seq<char>>;

/// Trusted: `Path::extension` of the path, as text; the result is named.
/// Its documentation gives the part of the file name after the final `.`,
/// so the result holds no `.` and no `/`; which part of the path is the
/// file name is not restated here.
#[verifier::external_body]
fn path_extension(path: &str) -> (res: Option<String>)
    ensures
        crate::text::opt_text(res) == extension_of(path@),
        res matches Some(e) ==> !e@.contains('.') && !e@.contains('/'),
{
    std::path::Path::new(path).extension().and_then(|e| e.to_str()).map(|e| e.to_string())
}

/// Trusted: `IndexedRandom::choose` with the thread's generator: `None` for
/// no paths, else one of them, chosen at random.
#[verifier::external_body]
fn choose_path(paths: &Vec<String>) -> (res: Option<String>)
    ensures
        res is None <==> paths@.len() == 0,
        res matches Some(p) ==> exists|i: int| 0 <= i < paths@.len() && p@ == (#[trigger] paths@[i])@,
{
    paths.choose(&mut rand::rng()).cloned()
}

pub open spec fn ascii_lower(c: char) -> char {
    if 'A' <= c <= 'Z' {
        ((c as u32) + 32) as char
    } else {
        c
    }
}

/// Equal once ASCII letters are lower-cased.
pub open spec fn same_ignoring_ascii_case(a: Seq<char>, b: Seq<char>) -> bool {
    a.len() == b.len() && forall|i: int| 0 <= i < a.len() ==> ascii_lower(#[trigger] a[i]) == ascii_lower(b[i])
}

pub open spec fn image_extensions() -> Seq<Seq<char>> {
    seq!["jpg"@, "jpeg"@, "png"@, "webp"@, "bmp"@, "gif"@, "tiff"@, "tif"@, "avif"@]
}

pub open spec fn is_image_extension(ext: Seq<char>) -> bool {
    exists|i: int| 0 <= i < image_extensions().len() && same_ignoring_ascii_case(ext, #[trigger] image_extensions()[i])
}

fn lower(c: char) -> (res: char)
    ensures
        res == ascii_lower(c),
{
    if 'A' <= c && c <= 'Z' {
        let n: u8 = (c as u32 + 32) as u8;
        n as char
    } else {
        c
    }
}

fn equal_ignoring_case(a: &str, b: &str) -> (res: bool)
    ensures
        res == same_ignoring_ascii_case(a@, b@),
{
    let x = chars_of(a);
    let y = chars_of(b);
    if x.len() != y.len() {
        return false;
    }
    let mut i: usize = 0;
    while i < x.len()
        invariant
            x@ == a@,
            y@ == b@,
            x@.len() == y@.len(),
            i <= x@.len(),
            forall|k: int| 0 <= k < i ==> ascii_lower(#[trigger] x@[k]) == ascii_lower(y@[k]),
        decreases x@.len() - i,
    {
        if lower(x[i]) != lower(y[i]) {
            return false;
        }
        i = i + 1;
    }
    true
}

/// Whether `ext` names an image format, in any case.
pub fn is_image_extension_text(ext: &str) -> (res: bool)
    ensures
        res == is_image_extension(ext@),
{
    let names = ["jpg", "jpeg", "png", "webp", "bmp", "gif", "tiff", "tif", "avif"];
    let mut i: usize = 0;
    proof {
        assert(names@.map_values(|n: &str| n@) =~= image_extensions());
    }
    while i < 9
        invariant
            i <= 9,
            names@.len() == 9,
            names@.map_values(|n: &str| n@) == image_extensions(),
            forall|k: int| 0 <= k < i ==> !same_ignoring_ascii_case(ext@, #[trigger] image_extensions()[k]),
        decreases 9 - i,
    {
        proof {
            assert(names@.map_values(|n: &str| n@)[i as int] == names@[i as int]@);
        }
        if equal_ignoring_case(ext, names[i]) {
            return true;
        }
        i = i + 1;
    }
    false
}

/// Whether the path's extension (see `Path::extension`) names an image format.
pub fn is_image(path: &str) -> (res: bool)
    ensures
        res == match extension_of(path@) {
            Some(e) => is_image_extension(e),
            None => false,
        },
{
    match path_extension(path) {
        None => false,
        Some(ext) => is_image_extension_text(ext.as_str()),
    }
}

/// Whether the path's extension names an image format.
pub open spec fn image_path(path: Seq<char>) -> bool {
    match extension_of(path) {
        Some(e) => is_image_extension(e),
        None => false,
    }
}

/// One image file of a directory, chosen at random; `entries` are the
/// directory's paths, each with whether it is a file.
pub fn pick_from_dir(dir: &str, entries: &Vec<(String, bool)>) -> (res: Result<String, LRatio>)
    ensures
        match res {
            Ok(p) => exists|i: int|
                0 <= i < entries@.len() && (#[trigger] entries@[i]).1 && image_path(entries@[i].0@)
                    && p@ == entries@[i].0@,
            Err(e) => e matches LRatio::EmptyDir(d) && d@ == dir@,
        },
        res is Err <==> forall|i: int|
            0 <= i < entries@.len() ==> !((#[trigger] entries@[i]).1 && image_path(entries@[i].0@)),
{
    let mut images: Vec<String> = Vec::new();
    let mut i: usize = 0;
    while i < entries.len()
        invariant
            i <= entries@.len(),
            forall|k: int| 0 <= k < images@.len() ==> exists|j: int|
                0 <= j < i && (#[trigger] entries@[j]).1 && image_path(entries@[j].0@)
                    && (#[trigger] images@[k])@ == entries@[j].0@,
            images@.len() == 0 <==> forall|j: int|
                0 <= j < i ==> !((#[trigger] entries@[j]).1 && image_path(entries@[j].0@)),
        decreases entries@.len() - i,
    {
        if entries[i].1 && is_image(entries[i].0.as_str()) {
            let ghost before = images@;
            images.push(copy_string(entries[i].0.as_str()));
            proof {
                assert forall|k: int| 0 <= k < images@.len() implies exists|j: int|
                    0 <= j < i + 1 && (#[trigger] entries@[j]).1 && image_path(entries@[j].0@)
                        && (#[trigger] images@[k])@ == entries@[j].0@ by {
                    if k < before.len() {
                        assert(images@[k] == before[k]);
                    } else {
                        assert(entries@[i as int].1 && image_path(entries@[i as int].0@));
                    }
                }
            }
        }
        i = i + 1;
    }
    match choose_path(&images) {
        Some(p) => Ok(p),
        None => Err(LRatio::EmptyDir(copy_string(dir))),
    }
}

} // verus!
