//! What a reload after a change uses from the last scheme.
use vstd::prelude::*;
use crate::color::types::{ColorScheme, Rgb};

verus! {

/// The colour custom colours are harmonized with: the first seed colour,
/// else the scheme's primary.
pub fn seed_of(scheme: &ColorScheme) -> (res: Rgb)
    ensures
        res == match scheme.seed_colors {
            Some(v) if v@.len() > 0 => v@[0],
            _ => scheme.roles.primary,
        },
{
    match &scheme.seed_colors {
        Some(v) => {
            if v.len() > 0 {
                v[0]
            } else {
                scheme.roles.primary
            }
        },
        None => scheme.roles.primary,
    }
}

/// No custom colours at all are passed on as none.
pub fn custom_or_none(custom: Vec<(String, Rgb)>) -> (res: Option<Vec<(String, Rgb)>>)
    ensures
        custom@.len() == 0 ==> res is None,
        custom@.len() > 0 ==> res == Some(custom),
{
    if custom.len() == 0 {
        None
    } else {
        Some(custom)
    }
}

} // verus!

verus! {

/// What the file watcher reports.
#[derive(Clone, Copy, Debug, PartialEq, Eq, Structural)]
pub enum WatchEvent {
    /// A file was only read.
    Access,
    /// A file changed.
    Change,
    /// The watcher reported an error.
    Error,
    /// Nothing happened within the polling interval.
    Timeout,
    /// The watcher went away.
    Disconnected,
}

/// What a watch loop does next.
#[derive(Clone, Copy, Debug, PartialEq, Eq, Structural)]
pub enum WatchAction {
    /// Keep waiting.
    Wait,
    /// Re-render templates and relink outputs.
    Reload,
    /// Report the error and keep waiting.
    Warn,
    /// Stop watching.
    Stop,
}

/// Reads alone change nothing; a change reloads; a lost watcher, or a
/// stop request, ends the loop.
pub fn on_event(event: WatchEvent, running: bool) -> (res: WatchAction)
    ensures
        res == (if !running || event == WatchEvent::Disconnected {
            WatchAction::Stop
        } else if event == WatchEvent::Change {
            WatchAction::Reload
        } else if event == WatchEvent::Error {
            WatchAction::Warn
        } else {
            WatchAction::Wait
        }),
{
    if !running {
        return WatchAction::Stop;
    }
    match event {
        WatchEvent::Disconnected => WatchAction::Stop,
        WatchEvent::Change => WatchAction::Reload,
        WatchEvent::Error => WatchAction::Warn,
        _ => WatchAction::Wait,
    }
}

} // verus!
