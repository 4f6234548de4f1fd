//! Plain data shared by the geometry, window and supervision modules.

use vstd::prelude::*;

verus! {

/// Pixels reserved for the taskbar when the work area cannot be queried.
pub const FALLBACK_TASKBAR_HEIGHT: u32 = 48;

/// Refresh rate assumed when the display does not report one.
pub const DEFAULT_REFRESH_RATE: u32 = 60;

/// A rectangle in physical pixels: top-left corner and size.
#[derive(Clone, Copy, Debug, PartialEq, Eq, Structural)]
pub struct Bounds {
    pub x: i32,
    pub y: i32,
    pub width: u32,
    pub height: u32,
}

/// The distance from `low` to `high`, and 0 when `high` lies before `low`.
pub open spec fn extent(low: int, high: int) -> int {
    if high >= low {
        high - low
    } else {
        0
    }
}

impl Bounds {
    /// The rectangle between four edges. Edges in order give the width
    /// `right - left` and the height `bottom - top`; an axis whose edges are
    /// reversed is empty and gets the extent 0.
    pub fn from_edges(left: i32, top: i32, right: i32, bottom: i32) -> (bounds: Bounds)
        ensures
            bounds.x == left,
            bounds.y == top,
            bounds.width == extent(left as int, right as int),
            bounds.height == extent(top as int, bottom as int),
            left <= right ==> bounds.right() == right,
            top <= bottom ==> bounds.bottom() == bottom,
    {
        Bounds {
            x: left,
            y: top,
            width: if right >= left {
                (right as i64 - left as i64) as u32
            } else {
                0
            },
            height: if bottom >= top {
                (bottom as i64 - top as i64) as u32
            } else {
                0
            },
        }
    }

    /// The right edge, one past the last column.
    pub open spec fn right(self) -> int {
        self.x + self.width
    }

    /// The bottom edge, one past the last row.
    pub open spec fn bottom(self) -> int {
        self.y + self.height
    }

    /// Whether the physical point lies inside the rectangle.
    pub open spec fn contains_point(self, px: int, py: int) -> bool {
        self.x <= px < self.right() && self.y <= py < self.bottom()
    }

    /// Whether `inner` lies wholly inside this rectangle.
    pub open spec fn encloses(self, inner: Bounds) -> bool {
        self.x <= inner.x && inner.right() <= self.right() && self.y <= inner.y && inner.bottom()
            <= self.bottom()
    }

    /// Whether the physical point lies inside the rectangle.
    pub fn contains(&self, px: i32, py: i32) -> (inside: bool)
        ensures
            inside == self.contains_point(px as int, py as int),
    {
        self.x <= px && (px as i64) < self.x as i64 + self.width as i64 && self.y <= py && (
        py as i64) < self.y as i64 + self.height as i64
    }
}

/// One attached monitor as the operating system reports it, with the work
/// area and refresh rate already resolved.
#[derive(Clone, Copy, Debug, PartialEq, Eq, Structural)]
pub struct Monitor {
    /// Position and size in physical pixels.
    pub bounds: Bounds,
    /// The part of the monitor not covered by reserved system chrome.
    pub work_area: Bounds,
    /// Scale factor in thousandths; `1000` is 100 %.
    pub scale_permille: i32,
    /// Refresh rate in hertz.
    pub refresh_rate: u32,
}

/// The work area that stands in for a failed query: the full monitor with a
/// fixed strip taken off its height.
pub open spec fn fallback_work_area(bounds: Bounds) -> Bounds {
    Bounds {
        x: bounds.x,
        y: bounds.y,
        width: bounds.width,
        height: if bounds.height >= FALLBACK_TASKBAR_HEIGHT {
            (bounds.height - FALLBACK_TASKBAR_HEIGHT) as u32
        } else {
            0
        },
    }
}

/// The work area of a monitor: what the system reported, or, when the query
/// failed, a degraded approximation that only shortens the monitor by the
/// usual taskbar height.
pub fn get_monitor_work_area(bounds: Bounds, reported: Option<Bounds>) -> (work: Bounds)
    ensures
        work == match reported {
            Some(area) => area,
            None => fallback_work_area(bounds),
        },
        reported is None ==> bounds.encloses(work),
{
    match reported {
        Some(area) => area,
        None => Bounds {
            x: bounds.x,
            y: bounds.y,
            width: bounds.width,
            height: if bounds.height >= FALLBACK_TASKBAR_HEIGHT {
                bounds.height - FALLBACK_TASKBAR_HEIGHT
            } else {
                0
            },
        },
    }
}

/// The refresh rate of a monitor: the reported frequency when it is positive,
/// else 60 Hz.
pub fn get_monitor_refresh_rate(reported: Option<u32>) -> (hz: u32)
    ensures
        hz == match reported {
            Some(f) if f > 0 => f,
            _ => DEFAULT_REFRESH_RATE,
        },
        hz > 0,
{
    match reported {
        Some(f) => if f > 0 {
            f
        } else {
            DEFAULT_REFRESH_RATE
        },
        None => DEFAULT_REFRESH_RATE,
    }
}

impl Monitor {
    /// A monitor has a positive scale factor.
    pub open spec fn wf(self) -> bool {
        self.scale_permille > 0
    }

    /// Builds a monitor from raw system answers. A scale that is not positive
    /// is replaced by 1.0; failed queries get their fallbacks.
    pub fn new(
        bounds: Bounds,
        scale_permille: i32,
        reported_work_area: Option<Bounds>,
        reported_refresh_rate: Option<u32>,
    ) -> (monitor: Monitor)
        ensures
            monitor.wf(),
            monitor.bounds == bounds,
            monitor.scale_permille == if scale_permille > 0 {
                scale_permille
            } else {
                1000
            },
            monitor.work_area == match reported_work_area {
                Some(area) => area,
                None => fallback_work_area(bounds),
            },
            monitor.refresh_rate == match reported_refresh_rate {
                Some(f) if f > 0 => f,
                _ => DEFAULT_REFRESH_RATE,
            },
    {
        Monitor {
            bounds,
            work_area: get_monitor_work_area(bounds, reported_work_area),
            scale_permille: if scale_permille > 0 {
                scale_permille
            } else {
                1000
            },
            refresh_rate: get_monitor_refresh_rate(reported_refresh_rate),
        }
    }
}

} // verus!
