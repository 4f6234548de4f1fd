//! Decisions behind the commands that the front end sends.

use vstd::prelude::*;
use crate::health::Surface;
use crate::text::{starts_with, text_eq};

verus! {

/// Whether a URL may be handed to the system: only `http` and `https`.
pub open spec fn is_web_url(url: Seq<char>) -> bool {
    "http://"@.is_prefix_of(url) || "https://"@.is_prefix_of(url)
}

/// Why a URL was not opened.
#[derive(Clone, Copy, Debug, PartialEq, Eq, Structural)]
pub enum UrlError {
    /// The URL has another scheme than `http` or `https`.
    SchemeNotAllowed,
}

/// Checks a URL before it is opened: accepted exactly when it begins with
/// `http://` or `https://`.
pub fn open_url(url: &str) -> (checked: Result<(), UrlError>)
    ensures
        checked is Ok <==> is_web_url(url@),
        checked is Err ==> checked == Err::<(), UrlError>(UrlError::SchemeNotAllowed),
{
    if starts_with(url, "http://") || starts_with(url, "https://") {
        Ok(())
    } else {
        Err(UrlError::SchemeNotAllowed)
    }
}

/// The new pause state that a parameter update carries: the value of the
/// parameter `system.paused` when it is a boolean, else none.
pub fn update_rainscape_param(path: &str, value_as_bool: Option<bool>) -> (paused: Option<bool>)
    ensures
        paused == if path@ == "system.paused"@ {
            value_as_bool
        } else {
            None
        },
{
    if text_eq(path, "system.paused") {
        value_as_bool
    } else {
        None
    }
}

/// Which of the two surfaces have reported that they are ready to fade in.
#[derive(Clone, Copy, Debug, PartialEq, Eq, Structural)]
pub struct ReadyFlags {
    pub overlay: bool,
    pub background: bool,
}

impl ReadyFlags {
    /// No surface is ready.
    pub fn new() -> (flags: ReadyFlags)
        ensures
            flags == (ReadyFlags { overlay: false, background: false }),
    {
        ReadyFlags { overlay: false, background: false }
    }

    /// The flags with one more surface ready.
    pub open spec fn with_ready(self, surface: Surface) -> ReadyFlags {
        match surface {
            Surface::Overlay => ReadyFlags { overlay: true, background: self.background },
            Surface::Background => ReadyFlags { overlay: self.overlay, background: true },
        }
    }

    /// Records that a surface is ready and says whether the fade-in starts:
    /// it does once both are ready, and both flags are then cleared so that a
    /// reload can go through the same steps again.
    pub fn surface_ready(&mut self, surface: Surface) -> (start_fade_in: bool)
        ensures
            start_fade_in == (old(self).with_ready(surface).overlay && old(self).with_ready(
                surface,
            ).background),
            *final(self) == if start_fade_in {
                ReadyFlags { overlay: false, background: false }
            } else {
                old(self).with_ready(surface)
            },
    {
        match surface {
            Surface::Overlay => {
                self.overlay = true;
            },
            Surface::Background => {
                self.background = true;
            },
        }
        if self.overlay && self.background {
            self.overlay = false;
            self.background = false;
            true
        } else {
            false
        }
    }
}

} // verus!
