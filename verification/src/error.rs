//! The errors of a run, with the message each one prints.
use vstd::prelude::*;
use crate::text::{cat, copy_string};

verus! {

/// Every way a run can fail. Paths are carried as their display text.
pub enum LRatio {
    Cli(String),
    ImageNotFound(String),
    EmptyDir(String),
    ImageDecode(String),
    NoColors,
    Io(String),
    HomeDirNotFound,
    DirectoryCreationFailed(String, String),
    NoCompositorDetected,
    Parse(String),
    Render(String),
    UndefinedVar(String),
    UndefinedArray(String),
    FilterNotFound(String),
    InvalidFilterArg(String),
    TemplateRead(String, String),
    TemplateWrite(String, String),
    InvalidColor(String),
    Scheme(String),
    CacheRead(String, String),
    CacheWrite(String, String),
    CacheCorrupted(String),
    WallpaperSet(String),
    WallpaperHook(String),
    ColorsJsonWrite(String, String),
    OutputWriteFailed(String, String, String),
    Custom(String),
}

pub open spec fn two(a: Seq<char>, b: Seq<char>, sep: Seq<char>) -> Seq<char> {
    a + sep + b
}

impl LRatio {
    /// The message printed for the error.
    pub open spec fn spec_message(&self) -> Seq<char> {
        match self {
            LRatio::Cli(s) => "Invalid args: "@ + s@,
            LRatio::ImageNotFound(p) => "Image not found: "@ + p@,
            LRatio::EmptyDir(p) => "No images in: "@ + p@,
            LRatio::ImageDecode(s) => "Decode: "@ + s@,
            LRatio::NoColors => "No colors"@,
            LRatio::Io(s) => "IO: "@ + s@,
            LRatio::HomeDirNotFound => "Home dir not found"@,
            LRatio::DirectoryCreationFailed(p, e) => "Create dir "@ + two(p@, e@, ": "@),
            LRatio::NoCompositorDetected => "No compositor detected"@,
            LRatio::Parse(s) => "Parse: "@ + s@,
            LRatio::Render(s) => "Render: "@ + s@,
            LRatio::UndefinedVar(s) => "Unknown var: "@ + s@,
            LRatio::UndefinedArray(s) => "Unknown array: "@ + s@,
            LRatio::FilterNotFound(s) => "Filter '"@ + s@ + "' not found"@,
            LRatio::InvalidFilterArg(s) => "Bad filter arg: "@ + s@,
            LRatio::TemplateRead(p, e) => "Template read: "@ + two(p@, e@, " - "@),
            LRatio::TemplateWrite(p, e) => "Template write: "@ + two(p@, e@, " - "@),
            LRatio::InvalidColor(s) => "Bad color: "@ + s@,
            LRatio::Scheme(s) => "Scheme: "@ + s@,
            LRatio::CacheRead(p, e) => "Cache read: "@ + two(p@, e@, " - "@),
            LRatio::CacheWrite(p, e) => "Cache write: "@ + two(p@, e@, " - "@),
            LRatio::CacheCorrupted(p) => "Cache corrupted: "@ + p@,
            LRatio::WallpaperSet(s) => "Wallpaper set: "@ + s@,
            LRatio::WallpaperHook(s) => "Wallpaper hook: "@ + s@,
            LRatio::ColorsJsonWrite(p, e) => "Colors.json write: "@ + two(p@, e@, " - "@),
            LRatio::OutputWriteFailed(a, b, e) => "Output write "@ + two(a@, b@, " -> "@) + ": "@
                + e@,
            LRatio::Custom(s) => s@,
        }
    }

    pub fn message(&self) -> (res: String)
        ensures
            res@ == self.spec_message(),
    {
        match self {
            LRatio::Cli(s) => cat("Invalid args: ", s.as_str()),
            LRatio::ImageNotFound(p) => cat("Image not found: ", p.as_str()),
            LRatio::EmptyDir(p) => cat("No images in: ", p.as_str()),
            LRatio::ImageDecode(s) => cat("Decode: ", s.as_str()),
            LRatio::NoColors => copy_string("No colors"),
            LRatio::Io(s) => cat("IO: ", s.as_str()),
            LRatio::HomeDirNotFound => copy_string("Home dir not found"),
            LRatio::DirectoryCreationFailed(p, e) => join("Create dir ", p.as_str(), ": ", e.as_str()),
            LRatio::NoCompositorDetected => copy_string("No compositor detected"),
            LRatio::Parse(s) => cat("Parse: ", s.as_str()),
            LRatio::Render(s) => cat("Render: ", s.as_str()),
            LRatio::UndefinedVar(s) => cat("Unknown var: ", s.as_str()),
            LRatio::UndefinedArray(s) => cat("Unknown array: ", s.as_str()),
            LRatio::FilterNotFound(s) => {
                let head = cat("Filter '", s.as_str());
                cat(head.as_str(), "' not found")
            },
            LRatio::InvalidFilterArg(s) => cat("Bad filter arg: ", s.as_str()),
            LRatio::TemplateRead(p, e) => join("Template read: ", p.as_str(), " - ", e.as_str()),
            LRatio::TemplateWrite(p, e) => join("Template write: ", p.as_str(), " - ", e.as_str()),
            LRatio::InvalidColor(s) => cat("Bad color: ", s.as_str()),
            LRatio::Scheme(s) => cat("Scheme: ", s.as_str()),
            LRatio::CacheRead(p, e) => join("Cache read: ", p.as_str(), " - ", e.as_str()),
            LRatio::CacheWrite(p, e) => join("Cache write: ", p.as_str(), " - ", e.as_str()),
            LRatio::CacheCorrupted(p) => cat("Cache corrupted: ", p.as_str()),
            LRatio::WallpaperSet(s) => cat("Wallpaper set: ", s.as_str()),
            LRatio::WallpaperHook(s) => cat("Wallpaper hook: ", s.as_str()),
            LRatio::ColorsJsonWrite(p, e) => join("Colors.json write: ", p.as_str(), " - ", e.as_str()),
            LRatio::OutputWriteFailed(a, b, e) => {
                let head = join("Output write ", a.as_str(), " -> ", b.as_str());
                let mid = cat(head.as_str(), ": ");
                cat(mid.as_str(), e.as_str())
            },
            LRatio::Custom(s) => copy_string(s.as_str()),
        }
    }
}

/// `head` `a` `sep` `b`.
fn join(head: &str, a: &str, sep: &str, b: &str) -> (res: String)
    ensures
        res@ == head@ + two(a@, b@, sep@),
{
    let x = cat(head, a);
    let y = cat(x.as_str(), sep);
    let r = cat(y.as_str(), b);
    proof {
        assert(r@ =~= head@ + two(a@, b@, sep@));
    }
    r
}

} // verus!
