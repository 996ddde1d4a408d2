//! Where rizzoo keeps its cache and configuration. Paths are handled as
//! text, joined with `/` the way `PathBuf::join` does on Unix.
use vstd::prelude::*;
use directories::ProjectDirs;
use crate::error::LRatio;
use crate::text::{cat, chars_of, copy_string};

verus! {

/// `base` joined with `part`: an absolute `part` replaces `base`; otherwise
/// a `/` separates them unless `base` is empty or already ends with one.
pub open spec fn join(base: Seq<char>, part: Seq<char>) -> Seq<char> {
    if part.len() > 0 && part[0] == '/' {
        part
    } else if base.len() == 0 || base.last() == '/' {
        base + part
    } else {
        base + seq!['/'] + part
    }
}

pub fn join_path(base: &str, part: &str) -> (res: String)
    ensures
        res@ == join(base@, part@),
{
    let b = chars_of(base);
    let p = chars_of(part);
    if p.len() > 0 && p[0] == '/' {
        copy_string(part)
    } else if b.len() == 0 || b[b.len() - 1] == '/' {
        cat(base, part)
    } else {
        let with_sep = cat(base, "/");
        proof {
            reveal_strlit("/");
        }
        cat(with_sep.as_str(), part)
    }
}

/// Trusted: `ProjectDirs::from("com", "rizzoo", "rizzoo")`, its cache and
/// configuration directories as text. They come from the environment, so
/// nothing is claimed of them.
#[verifier::external_body]
fn project_dirs() -> Option<(String, String)> {
    ProjectDirs::from("com", "rizzoo", "rizzoo").map(|p| {
        (p.cache_dir().to_string_lossy().into_owned(), p.config_dir().to_string_lossy().into_owned())
    })
}

/// The directories and files rizzoo uses.
pub struct Paths {
    pub cache_dir: String,
    pub output: String,
    pub schemes_dir: String,
    pub config_dir: String,
    pub templates_dir: String,
    pub config_toml: String,
    pub downloads_dir: String,
}

impl Paths {
    /// Everything lies in the cache or the configuration directory.
    pub open spec fn laid_out(&self) -> bool {
        &&& self.output@ == join(self.cache_dir@, "colors.json"@)
        &&& self.schemes_dir@ == join(self.cache_dir@, "schemes"@)
        &&& self.downloads_dir@ == join(self.cache_dir@, "url-images"@)
        &&& self.templates_dir@ == join(self.config_dir@, "templates"@)
        &&& self.config_toml@ == join(self.config_dir@, "config.toml"@)
    }

    /// The layout under the given cache and configuration directories.
    pub fn from_dirs(cache_dir: &str, config_dir: &str) -> (res: Paths)
        ensures
            res.cache_dir@ == cache_dir@,
            res.config_dir@ == config_dir@,
            res.laid_out(),
    {
        Paths {
            output: join_path(cache_dir, "colors.json"),
            schemes_dir: join_path(cache_dir, "schemes"),
            downloads_dir: join_path(cache_dir, "url-images"),
            cache_dir: copy_string(cache_dir),
            templates_dir: join_path(config_dir, "templates"),
            config_toml: join_path(config_dir, "config.toml"),
            config_dir: copy_string(config_dir),
        }
    }

    /// The layout under the platform's directories for rizzoo; without a
    /// home directory there are none.
    pub fn resolve() -> (res: Result<Paths, LRatio>)
        ensures
            match res {
                Ok(p) => p.laid_out(),
                Err(e) => e is HomeDirNotFound,
            },
    {
        match project_dirs() {
            Some((cache, config)) => Ok(Self::from_dirs(cache.as_str(), config.as_str())),
            None => Err(LRatio::HomeDirNotFound),
        }
    }

    /// Where the scheme cached under `hash` is stored.
    pub fn cache_colorscheme(&self, hash: &str) -> (res: String)
        ensures
            res@ == join(self.schemes_dir@, hash@ + ".json"@),
    {
        let file = cat(hash, ".json");
        join_path(self.schemes_dir.as_str(), file.as_str())
    }
}

} // verus!
