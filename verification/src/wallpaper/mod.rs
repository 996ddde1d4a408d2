//! What setting the wallpaper takes: the user's command, or a setter found
//! for the desktop.
use vstd::prelude::*;
use crate::config::WallpaperConfiguration;
use crate::text::{cat, chars_of, copy_string, string_of};

verus! {

/// `s` with every occurrence of `pat`, from left to right and without
/// overlaps, replaced by `rep`.
pub open spec fn replace_all(s: Seq<char>, pat: Seq<char>, rep: Seq<char>) -> Seq<char>
    decreases s.len(),
{
    if pat.len() == 0 || s.len() < pat.len() {
        s
    } else if s.subrange(0, pat.len() as int) == pat {
        rep + replace_all(s.subrange(pat.len() as int, s.len() as int), pat, rep)
    } else {
        seq![s[0]] + replace_all(s.subrange(1, s.len() as int), pat, rep)
    }
}

fn matches_at(s: &Vec<char>, i: usize, pat: &Vec<char>) -> (res: bool)
    requires
        i + pat.len() <= s.len(),
    ensures
        res == (s@.subrange(i as int, i + pat@.len()) == pat@),
{
    let mut k: usize = 0;
    while k < pat.len()
        invariant
            k <= pat@.len(),
            i + pat.len() <= s.len(),
            forall|j: int| 0 <= j < k ==> s@[i + j] == pat@[j],
        decreases pat@.len() - k,
    {
        if s[i + k] != pat[k] {
            proof {
                assert(s@.subrange(i as int, i + pat@.len())[k as int] != pat@[k as int]);
            }
            return false;
        }
        k = k + 1;
    }
    proof {
        assert(s@.subrange(i as int, i + pat@.len()) =~= pat@);
    }
    true
}

/// `s` with every `pat` replaced by `rep`, as `str::replace` does.
pub fn replace(s: &str, pat: &str, rep: &str) -> (res: String)
    requires
        pat@.len() > 0,
    ensures
        res@ == replace_all(s@, pat@, rep@),
{
    let cs = chars_of(s);
    let p = chars_of(pat);
    let r = chars_of(rep);
    let n = cs.len();
    let m = p.len();
    let mut out: Vec<char> = Vec::new();
    let mut i: usize = 0;
    proof {
        assert(cs@.subrange(0, n as int) =~= cs@);
        assert(out@ + replace_all(cs@, p@, r@) =~= replace_all(cs@, p@, r@));
    }
    while i < n
        invariant
            cs@ == s@,
            p@ == pat@,
            r@ == rep@,
            n == cs@.len(),
            m == p@.len(),
            m > 0,
            i <= n,
            out@ + replace_all(cs@.subrange(i as int, n as int), p@, r@) == replace_all(cs@, p@, r@),
        decreases n - i,
    {
        let ghost rest = cs@.subrange(i as int, n as int);
        if n - i >= m && matches_at(&cs, i, &p) {
            proof {
                assert(rest.subrange(0, m as int) =~= cs@.subrange(i as int, i + m));
                assert(rest.subrange(m as int, rest.len() as int) =~= cs@.subrange(i + m, n as int));
                assert(out@ + r@ + replace_all(cs@.subrange(i + m, n as int), p@, r@) =~= out@ + (r@
                    + replace_all(cs@.subrange(i + m, n as int), p@, r@)));
            }
            crate::text::push_all(&mut out, &r);
            i = i + m;
        } else {
            proof {
                if rest.len() >= m {
                    assert(rest.subrange(0, m as int) =~= cs@.subrange(i as int, i + m));
                }
                assert(rest.subrange(1, rest.len() as int) =~= cs@.subrange(i + 1, n as int));
                assert(out@.push(cs@[i as int]) + replace_all(cs@.subrange(i + 1, n as int), p@, r@)
                    =~= out@ + (seq![rest[0]] + replace_all(rest.subrange(1, rest.len() as int), p@, r@)));
            }
            out.push(cs[i]);
            i = i + 1;
        }
    }
    proof {
        assert(cs@.subrange(n as int, n as int) =~= Seq::<char>::empty());
        assert(out@ + Seq::<char>::empty() =~= out@);
    }
    string_of(out.as_slice())
}

/// Setting the wallpaper is on unless the configuration turns it off.
pub fn is_enabled(config: Option<&WallpaperConfiguration>) -> (res: bool)
    ensures
        res == match config {
            Some(c) => match c.set {
                Some(b) => b,
                None => true,
            },
            None => true,
        },
{
    match config {
        Some(c) => match c.set {
            Some(b) => b,
            None => true,
        },
        None => true,
    }
}

/// How the wallpaper gets set.
pub enum WallpaperAction {
    /// Run this shell command.
    Hook(String),
    /// Find a setter for the desktop in use.
    Detect,
}

/// The configured command with `{{ image }}` standing for the image path.
pub open spec fn spec_hook(command: Seq<char>, path: Seq<char>) -> Seq<char> {
    replace_all(command, "{{ image }}"@, path)
}

/// The configured command, with the path in place of `{{ image }}`, when
/// there is one; otherwise detection.
pub fn set(path: &str, config: Option<&WallpaperConfiguration>) -> (res: WallpaperAction)
    ensures
        match config {
            Some(c) if c.command is Some => res matches WallpaperAction::Hook(h) && h@ == spec_hook(
                c.command.unwrap()@,
                path@,
            ),
            _ => res is Detect,
        },
{
    if let Some(cfg) = config {
        if let Some(cmd) = &cfg.command {
            proof {
                reveal_strlit("{{ image }}");
            }
            return WallpaperAction::Hook(replace(cmd.as_str(), "{{ image }}", path));
        }
    }
    WallpaperAction::Detect
}

/// The wallpaper programs used on Linux desktops.
#[derive(Clone, Copy, Debug, PartialEq, Eq, Structural)]
pub enum Setter {
    Swaybg,
    Feh,
}

/// swaybg under Wayland, feh under X11, none otherwise.
pub fn linux_setter(is_wayland: bool, is_x11: bool) -> (res: Option<Setter>)
    ensures
        res == (if is_wayland {
            Some(Setter::Swaybg)
        } else if is_x11 {
            Some(Setter::Feh)
        } else {
            None
        }),
{
    if is_wayland {
        Some(Setter::Swaybg)
    } else if is_x11 {
        Some(Setter::Feh)
    } else {
        None
    }
}

/// The AppleScript that makes Finder show the image, quotes escaped.
pub open spec fn spec_finder_script(path: Seq<char>) -> Seq<char> {
    "tell application \"Finder\" to set desktop picture to POSIX file \""@ + replace_all(
        path,
        "\""@,
        "\\\""@,
    ) + "\""@
}

pub fn finder_script(path: &str) -> (res: String)
    ensures
        res@ == spec_finder_script(path@),
{
    proof {
        reveal_strlit("\"");
    }
    let escaped = replace(path, "\"", "\\\"");
    let head = cat("tell application \"Finder\" to set desktop picture to POSIX file \"", escaped.as_str());
    cat(head.as_str(), "\"")
}

} // verus!
