//! Classification of foreign windows into solid rectangles for collision.
//!
//! The caller enumerates the top-level windows of the window manager and
//! records, for each, the plain facts below. A fixed sequence of tests then
//! decides which windows are real content; the first test that fails rejects
//! the window.

use vstd::prelude::*;
use crate::text::{contains, has_substring, starts_with, text_eq};
pub use crate::types::Bounds;

verus! {

/// Smallest width and height of a window that counts as content.
pub const MIN_WINDOW_SIZE: u32 = 50;

/// Distance from the coordinate origin below which a window is near it.
pub const ORIGIN_BAND: i32 = 50;

/// Width from which a tall window near the origin is a phantom.
pub const PHANTOM_WIDTH: u32 = 1000;

/// Height from which a tall window near the origin is a phantom.
pub const PHANTOM_HEIGHT: u32 = 1800;

/// Number of polls between two diagnostic log lines.
pub const LOG_EVERY: u32 = 600;

/// A rectangle by its edges, in physical pixels.
#[derive(Clone, Copy, Debug, PartialEq, Eq, Structural)]
pub struct Rect {
    pub left: i32,
    pub top: i32,
    pub right: i32,
    pub bottom: i32,
}

/// What the window manager reports of one top-level window.
#[derive(Clone, Debug)]
pub struct RawWindow {
    pub visible: bool,
    /// The direct query says the window is minimized.
    pub iconic: bool,
    /// The placement query succeeded and says the window is shown minimized.
    pub placement_minimized: bool,
    /// The compositor says the window is cloaked: visible but not on screen.
    pub cloaked: bool,
    /// Whether the window is on the current virtual desktop; `None` when
    /// that could not be determined.
    pub on_current_desktop: Option<bool>,
    pub maximized: bool,
    /// The compositor's extended frame bounds, the accurate visible region.
    pub frame_bounds: Option<Rect>,
    /// The raw window rectangle, which may include invisible borders.
    pub window_rect: Option<Rect>,
    pub class_name: String,
    pub title: String,
}

/// A solid window: its bounds, title and whether it is maximized.
#[derive(Clone, Debug)]
pub struct WindowInfo {
    pub bounds: Bounds,
    pub title: String,
    pub is_maximized: bool,
}

/// The solid windows of one poll, in enumeration order.
#[derive(Clone, Debug)]
pub struct WindowData {
    pub windows: Vec<WindowInfo>,
}

/// The test that rejected a window.
#[derive(Clone, Copy, Debug, PartialEq, Eq, Structural)]
pub enum Rejection {
    NotVisible,
    Minimized,
    Cloaked,
    OtherDesktop,
    NoBounds,
    Degenerate,
    TooSmall,
    SystemClass,
    Phantom,
    Untitled,
    OwnWindow,
    DevTools,
    SystemOverlay,
}

/// The rectangle that stands for the window: the extended frame bounds, or
/// the raw window rectangle when those are not available.
pub open spec fn effective_rect(w: RawWindow) -> Option<Rect> {
    match w.frame_bounds {
        Some(r) => Some(r),
        None => w.window_rect,
    }
}

/// Whether the class name is one of the shell, system and compositor classes
/// that never hold content.
pub open spec fn is_system_class(name: Seq<char>) -> bool {
    ||| name == "CEF-OSC-WIDGET"@
    ||| name == "Progman"@
    ||| name == "WorkerW"@
    ||| name == "Shell_TrayWnd"@
    ||| name == "Shell_SecondaryTrayWnd"@
    ||| name == "NotifyIconOverflowWindow"@
    ||| name == "Windows.UI.Core.CoreWindow"@
    ||| name == "XamlExplorerHostIslandWindow"@
    ||| name == "ForegroundStaging"@
    ||| name == "MultitaskingViewFrame"@
    ||| name == "XamlWindow"@
}

/// Whether the title is one of the system overlays that no class name
/// catches.
pub open spec fn is_system_overlay(title: Seq<char>) -> bool {
    ||| title == "Windows Input Experience"@
    ||| title == "Microsoft Text Input Application"@
    ||| title == "Task Switching"@
    ||| title == "Task View"@
}

/// Whether a rectangle is a phantom: near the coordinate origin, taller than
/// wide, and large.
pub open spec fn is_phantom(r: Rect) -> bool {
    let width = r.right - r.left;
    let height = r.bottom - r.top;
    &&& -ORIGIN_BAND < r.left < ORIGIN_BAND
    &&& -ORIGIN_BAND < r.top < ORIGIN_BAND
    &&& height > width
    &&& (width >= PHANTOM_WIDTH || height >= PHANTOM_HEIGHT)
}

/// The first test that the window fails, or `None` when it passes them all.
pub open spec fn rejection_of(w: RawWindow) -> Option<Rejection> {
    if !w.visible {
        Some(Rejection::NotVisible)
    } else if w.iconic || w.placement_minimized {
        Some(Rejection::Minimized)
    } else if w.cloaked {
        Some(Rejection::Cloaked)
    } else if w.on_current_desktop == Some(false) {
        Some(Rejection::OtherDesktop)
    } else if effective_rect(w) is None {
        Some(Rejection::NoBounds)
    } else {
        let r = effective_rect(w)->0;
        if r.right - r.left <= 0 || r.bottom - r.top <= 0 {
            Some(Rejection::Degenerate)
        } else if r.right - r.left < MIN_WINDOW_SIZE || r.bottom - r.top < MIN_WINDOW_SIZE {
            Some(Rejection::TooSmall)
        } else if is_system_class(w.class_name@) {
            Some(Rejection::SystemClass)
        } else if is_phantom(r) {
            Some(Rejection::Phantom)
        } else if w.title@.len() == 0 {
            Some(Rejection::Untitled)
        } else if "RainyDesk"@.is_prefix_of(w.title@) {
            Some(Rejection::OwnWindow)
        } else if has_substring(w.title@, "DevTools"@) {
            Some(Rejection::DevTools)
        } else if is_system_overlay(w.title@) {
            Some(Rejection::SystemOverlay)
        } else {
            None
        }
    }
}

/// The solid window that an accepted window is emitted as.
pub open spec fn solid_of(w: RawWindow) -> WindowInfo {
    let r = effective_rect(w)->0;
    WindowInfo {
        bounds: Bounds {
            x: r.left,
            y: r.top,
            width: (r.right - r.left) as u32,
            height: (r.bottom - r.top) as u32,
        },
        title: w.title,
        is_maximized: w.maximized,
    }
}

/// The solid windows among `raws`, in the same order.
pub open spec fn solid_windows(raws: Seq<RawWindow>) -> Seq<WindowInfo>
    decreases raws.len(),
{
    if raws.len() == 0 {
        Seq::empty()
    } else if rejection_of(raws.last()) is None {
        solid_windows(raws.drop_last()).push(solid_of(raws.last()))
    } else {
        solid_windows(raws.drop_last())
    }
}

/// A window that is not visible, is minimized by either query, is smaller
/// than the minimum in either direction, or has no title is never solid.
pub proof fn lemma_never_solid(w: RawWindow)
    ensures
        !w.visible ==> rejection_of(w) is Some,
        w.iconic || w.placement_minimized ==> rejection_of(w) is Some,
        w.cloaked ==> rejection_of(w) is Some,
        w.title@.len() == 0 ==> rejection_of(w) is Some,
        effective_rect(w) matches Some(r) && (r.right - r.left < MIN_WINDOW_SIZE || r.bottom
            - r.top < MIN_WINDOW_SIZE) ==> rejection_of(w) is Some,
{
}

fn system_class(name: &str) -> (found: bool)
    ensures
        found == is_system_class(name@),
{
    text_eq(name, "CEF-OSC-WIDGET") || text_eq(name, "Progman") || text_eq(name, "WorkerW")
        || text_eq(name, "Shell_TrayWnd") || text_eq(name, "Shell_SecondaryTrayWnd") || text_eq(
        name,
        "NotifyIconOverflowWindow",
    ) || text_eq(name, "Windows.UI.Core.CoreWindow") || text_eq(
        name,
        "XamlExplorerHostIslandWindow",
    ) || text_eq(name, "ForegroundStaging") || text_eq(name, "MultitaskingViewFrame") || text_eq(
        name,
        "XamlWindow",
    )
}

fn system_overlay(title: &str) -> (found: bool)
    ensures
        found == is_system_overlay(title@),
{
    text_eq(title, "Windows Input Experience") || text_eq(
        title,
        "Microsoft Text Input Application",
    ) || text_eq(title, "Task Switching") || text_eq(title, "Task View")
}

/// Decides whether a window is solid.
///
/// Returns the solid window, with the bounds of its effective rectangle, its
/// title and maximized flag, when the window passes every test; otherwise the
/// first test that it fails.
pub fn classify_window(w: &RawWindow) -> (verdict: Result<WindowInfo, Rejection>)
    ensures
        match rejection_of(*w) {
            Some(reason) => verdict == Err::<WindowInfo, Rejection>(reason),
            None => verdict == Ok::<WindowInfo, Rejection>(solid_of(*w)),
        },
{
    if !w.visible {
        return Err(Rejection::NotVisible);
    }
    if w.iconic || w.placement_minimized {
        return Err(Rejection::Minimized);
    }
    if w.cloaked {
        return Err(Rejection::Cloaked);
    }
    match w.on_current_desktop {
        Some(current) => {
            if !current {
                return Err(Rejection::OtherDesktop);
            }
        },
        None => {},
    }
    let rect = match w.frame_bounds {
        Some(r) => r,
        None => match w.window_rect {
            Some(r) => r,
            None => {
                return Err(Rejection::NoBounds);
            },
        },
    };
    let width_raw: i64 = rect.right as i64 - rect.left as i64;
    let height_raw: i64 = rect.bottom as i64 - rect.top as i64;
    if width_raw <= 0 || height_raw <= 0 {
        return Err(Rejection::Degenerate);
    }
    let width = width_raw as u32;
    let height = height_raw as u32;
    if width < MIN_WINDOW_SIZE || height < MIN_WINDOW_SIZE {
        return Err(Rejection::TooSmall);
    }
    if system_class(w.class_name.as_str()) {
        return Err(Rejection::SystemClass);
    }
    let near_origin = -ORIGIN_BAND < rect.left && rect.left < ORIGIN_BAND && -ORIGIN_BAND
        < rect.top && rect.top < ORIGIN_BAND;
    let portrait = height > width && (width >= PHANTOM_WIDTH || height >= PHANTOM_HEIGHT);
    if near_origin && portrait {
        return Err(Rejection::Phantom);
    }
    let title = w.title.as_str();
    if title.is_empty() {
        return Err(Rejection::Untitled);
    }
    if starts_with(title, "RainyDesk") {
        return Err(Rejection::OwnWindow);
    }
    if contains(title, "DevTools") {
        return Err(Rejection::DevTools);
    }
    if system_overlay(title) {
        return Err(Rejection::SystemOverlay);
    }
    Ok(
        WindowInfo {
            bounds: Bounds { x: rect.left, y: rect.top, width, height },
            title: w.title.clone(),
            is_maximized: w.maximized,
        },
    )
}

/// The solid windows among the enumerated ones, in enumeration order.
pub fn get_visible_windows(raws: &Vec<RawWindow>) -> (data: WindowData)
    ensures
        data.windows@ == solid_windows(raws@),
{
    let mut windows: Vec<WindowInfo> = Vec::new();
    let mut i: usize = 0;
    while i < raws.len()
        invariant
            i <= raws.len(),
            windows@ == solid_windows(raws@.take(i as int)),
        decreases raws.len() - i,
    {
        proof {
            assert(raws@.take(i + 1).drop_last() =~= raws@.take(i as int));
            assert(raws@.take(i + 1).last() == raws@[i as int]);
        }
        match classify_window(&raws[i]) {
            Ok(info) => {
                windows.push(info);
            },
            Err(_) => {},
        }
        i = i + 1;
    }
    assert(raws@.take(raws.len() as int) =~= raws@);
    WindowData { windows }
}

/// Counts polls so that diagnostics are logged once in a while, not on every
/// poll.
#[derive(Clone, Copy, Debug, PartialEq, Eq, Structural)]
pub struct PollCounter {
    pub count: u32,
}

impl PollCounter {
    /// A counter that has seen no poll.
    pub fn new() -> (counter: PollCounter)
        ensures
            counter.count == 0,
    {
        PollCounter { count: 0 }
    }

    /// Whether the poll with the current count is one that logs.
    pub open spec fn is_log_poll(self) -> bool {
        self.count % LOG_EVERY == 0
    }

    /// Whether a window seen during the current poll is logged.
    pub fn should_log(&self) -> (log: bool)
        ensures
            log == self.is_log_poll(),
    {
        self.count % LOG_EVERY == 0
    }

    /// Ends a poll: says whether its volume is to be logged, and counts it.
    /// The count starts over after the largest 32-bit value.
    pub fn finish_poll(&mut self) -> (log: bool)
        ensures
            log == old(self).is_log_poll(),
            final(self).count == if old(self).count == u32::MAX {
                0
            } else {
                (old(self).count + 1) as u32
            },
    {
        let log = self.count % LOG_EVERY == 0;
        self.count = if self.count == u32::MAX {
            0
        } else {
            self.count + 1
        };
        log
    }
}

} // verus!
