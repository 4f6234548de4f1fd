//! Placement of the control panel: a small window that must stay inside the
//! work area of the monitor it is shown on.

use vstd::prelude::*;
use crate::desktop::{get_primary_monitor_index, primary_index_of};
use crate::rounding::{
    logical_floor_of, round_div, round_div_i64, to_logical_floor, to_logical_floor_u,
};
use crate::types::{Bounds, Monitor};

verus! {

/// Default panel width in logical pixels.
pub const PANEL_WIDTH: i64 = 400;

/// Default panel height in logical pixels.
pub const PANEL_HEIGHT: i64 = 500;

/// Gap kept between the panel and the edges of the work area.
pub const PANEL_MARGIN: i64 = 8;

/// Gap used when the panel is put back in the work area's corner.
pub const RESET_MARGIN: i64 = 12;

/// Physical distance from a monitor's top within which a tray click means
/// that the taskbar is at the top.
pub const TOP_TASKBAR_BAND: i64 = 100;

/// Physical height of the taskbar that a panel below a top tray must clear.
pub const TRAY_CLEARANCE: i32 = 40;

/// Largest magnitude of a logical coordinate or length that placement
/// accepts; every value converted from a physical one is far below it.
pub const LOGICAL_LIMIT: i64 = 0x1000_0000_0000_0000;

/// A rectangle in logical pixels.
#[derive(Clone, Copy, Debug, PartialEq, Eq, Structural)]
pub struct LogicalRect {
    pub x: i64,
    pub y: i64,
    pub width: i64,
    pub height: i64,
}

/// Whether a logical value is small enough for placement arithmetic.
pub open spec fn in_logical_range(v: int) -> bool {
    -LOGICAL_LIMIT <= v <= LOGICAL_LIMIT
}

impl LogicalRect {
    /// All four fields are within the range placement accepts.
    pub open spec fn wf(self) -> bool {
        &&& in_logical_range(self.x as int)
        &&& in_logical_range(self.y as int)
        &&& in_logical_range(self.width as int)
        &&& in_logical_range(self.height as int)
    }

    /// Whether the logical point lies inside the rectangle.
    pub open spec fn contains_point(self, px: int, py: int) -> bool {
        self.x <= px < self.x + self.width && self.y <= py < self.y + self.height
    }
}

/// A physical rectangle in logical pixels, each field converted on its own
/// with the fraction dropped.
pub open spec fn logical_rect_of(b: Bounds, scale_permille: int) -> LogicalRect {
    LogicalRect {
        x: logical_floor_of(b.x as int, scale_permille) as i64,
        y: logical_floor_of(b.y as int, scale_permille) as i64,
        width: logical_floor_of(b.width as int, scale_permille) as i64,
        height: logical_floor_of(b.height as int, scale_permille) as i64,
    }
}

/// Converts a physical rectangle to logical pixels, fractions dropped.
pub fn to_logical_rect(b: Bounds, scale_permille: i32) -> (r: LogicalRect)
    requires
        scale_permille > 0,
    ensures
        r == logical_rect_of(b, scale_permille as int),
        r.x == logical_floor_of(b.x as int, scale_permille as int),
        r.y == logical_floor_of(b.y as int, scale_permille as int),
        r.width == logical_floor_of(b.width as int, scale_permille as int),
        r.height == logical_floor_of(b.height as int, scale_permille as int),
        r.wf(),
        r.width >= 0,
        r.height >= 0,
{
    LogicalRect {
        x: to_logical_floor(b.x, scale_permille),
        y: to_logical_floor(b.y, scale_permille),
        width: to_logical_floor_u(b.width, scale_permille),
        height: to_logical_floor_u(b.height, scale_permille),
    }
}

/// One coordinate of a rectangle of length `size` kept inside a work area
/// that starts at `start` and is `extent` long: never before the leading
/// margin, and shifted back from the trailing margin only as far as the
/// leading margin allows.
pub open spec fn clamp_axis(pos: int, size: int, start: int, extent: int, margin: int) -> int {
    let lowest = start + margin;
    let fitting = start + extent - size - margin;
    if pos < lowest || fitting < lowest {
        lowest
    } else if pos > fitting {
        fitting
    } else {
        pos
    }
}

/// A rectangle that leaves the margin free on both sides keeps its place; one
/// that hangs over the far margin ends exactly at it if it fits; and the
/// result never starts before the near margin.
pub proof fn lemma_clamp_axis(pos: int, size: int, start: int, extent: int, margin: int)
    ensures
        clamp_axis(pos, size, start, extent, margin) >= start + margin,
        start + margin <= pos && pos + size + margin <= start + extent ==> clamp_axis(
            pos,
            size,
            start,
            extent,
            margin,
        ) == pos,
        size + 2 * margin <= extent ==> clamp_axis(pos, size, start, extent, margin) + size
            + margin <= start + extent,
        size + 2 * margin > extent ==> clamp_axis(pos, size, start, extent, margin) == start
            + margin,
        clamp_axis(clamp_axis(pos, size, start, extent, margin), size, start, extent, margin)
            == clamp_axis(pos, size, start, extent, margin),
{
}

fn clamp_one(pos: i64, size: i64, start: i64, extent: i64, margin: i64) -> (r: i64)
    requires
        in_logical_range(pos as int),
        in_logical_range(size as int),
        in_logical_range(start as int),
        in_logical_range(extent as int),
        0 <= margin <= 0x1000,
    ensures
        r == clamp_axis(pos as int, size as int, start as int, extent as int, margin as int),
{
    let lowest = start + margin;
    let fitting = start + extent - size - margin;
    if pos < lowest || fitting < lowest {
        lowest
    } else if pos > fitting {
        fitting
    } else {
        pos
    }
}

/// Keeps a rectangle of size `w` by `h` at `(x, y)` inside the work area.
///
/// A rectangle that would cross the right or bottom margin is shifted left
/// or up just far enough; the top-left corner never goes before the work
/// area's top-left margin, and a rectangle too large for the work area is
/// pinned to that margin.
pub fn clamp_to_work_area(x: i64, y: i64, w: i64, h: i64, work: &LogicalRect) -> (pos: (
    i64,
    i64,
))
    requires
        in_logical_range(x as int),
        in_logical_range(y as int),
        in_logical_range(w as int),
        in_logical_range(h as int),
        work.wf(),
    ensures
        pos.0 == clamp_axis(
            x as int,
            w as int,
            work.x as int,
            work.width as int,
            PANEL_MARGIN as int,
        ),
        pos.1 == clamp_axis(
            y as int,
            h as int,
            work.y as int,
            work.height as int,
            PANEL_MARGIN as int,
        ),
        pos.0 >= work.x + PANEL_MARGIN,
        pos.1 >= work.y + PANEL_MARGIN,
{
    (
        clamp_one(x, w, work.x, work.width, PANEL_MARGIN),
        clamp_one(y, h, work.y, work.height, PANEL_MARGIN),
    )
}

/// The first monitor at or after `from` whose own logical rectangle contains
/// the logical point, if any.
pub open spec fn logical_monitor_from(ms: Seq<Monitor>, x: int, y: int, from: int) -> Option<int>
    decreases ms.len() - from,
{
    if from < 0 || from >= ms.len() {
        None
    } else if logical_rect_of(ms[from].bounds, ms[from].scale_permille as int).contains_point(
        x,
        y,
    ) {
        Some(from)
    } else {
        logical_monitor_from(ms, x, y, from + 1)
    }
}

/// The first monitor at or after `from` that contains the physical point, if
/// any.
pub open spec fn physical_monitor_from(ms: Seq<Monitor>, x: int, y: int, from: int) -> Option<
    int,
>
    decreases ms.len() - from,
{
    if from < 0 || from >= ms.len() {
        None
    } else if ms[from].bounds.contains_point(x, y) {
        Some(from)
    } else {
        physical_monitor_from(ms, x, y, from + 1)
    }
}

/// The work area of a monitor in its own logical pixels.
pub open spec fn logical_work_area(m: Monitor) -> LogicalRect {
    logical_rect_of(m.work_area, m.scale_permille as int)
}

/// Where a saved panel position ends up: clamped into the work area of the
/// monitor that contains it, or unchanged when no monitor contains it.
pub open spec fn clamped_panel_position(ms: Seq<Monitor>, x: int, y: int, w: int, h: int) -> (
    int,
    int,
) {
    match logical_monitor_from(ms, x, y, 0) {
        Some(i) => {
            let work = logical_work_area(ms[i]);
            (
                clamp_axis(x, w, work.x as int, work.width as int, PANEL_MARGIN as int),
                clamp_axis(y, h, work.y as int, work.height as int, PANEL_MARGIN as int),
            )
        },
        None => (x, y),
    }
}

/// Where the default-sized panel goes for a tray click at a physical point
/// that was converted with `scale_permille`: centred on the click, above it
/// (or below it when the taskbar is at the top), then clamped into `work`.
pub open spec fn anchored_position(
    tray_x: int,
    tray_y: int,
    scale_permille: int,
    work: LogicalRect,
    taskbar_at_top: bool,
) -> (int, int) {
    let lx = logical_floor_of(tray_x, scale_permille);
    let ly = logical_floor_of(tray_y, scale_permille);
    let x = lx - PANEL_WIDTH / 2;
    let y = if taskbar_at_top {
        ly + logical_floor_of(TRAY_CLEARANCE as int, scale_permille) + PANEL_MARGIN
    } else {
        ly - PANEL_HEIGHT - PANEL_MARGIN
    };
    (
        clamp_axis(x, PANEL_WIDTH as int, work.x as int, work.width as int, PANEL_MARGIN as int),
        clamp_axis(
            y,
            PANEL_HEIGHT as int,
            work.y as int,
            work.height as int,
            PANEL_MARGIN as int,
        ),
    )
}

/// The work area assumed when the tray click is on no known monitor.
pub open spec fn assumed_work_area() -> LogicalRect {
    LogicalRect { x: 0, y: 0, width: 1920, height: 1080 }
}

/// Where the panel goes for a tray click at a physical point.
pub open spec fn tray_panel_position(ms: Seq<Monitor>, tray_x: int, tray_y: int) -> (int, int) {
    match physical_monitor_from(ms, tray_x, tray_y, 0) {
        Some(i) => anchored_position(
            tray_x,
            tray_y,
            ms[i].scale_permille as int,
            logical_work_area(ms[i]),
            tray_y < ms[i].bounds.y + TOP_TASKBAR_BAND,
        ),
        None => anchored_position(tray_x, tray_y, 1000, assumed_work_area(), false),
    }
}

/// The corner position of the default-sized panel in a work area: its
/// bottom-right, one reset margin in.
pub open spec fn corner_position(work: LogicalRect) -> (int, int) {
    (
        work.x + work.width - PANEL_WIDTH - RESET_MARGIN,
        work.y + work.height - PANEL_HEIGHT - RESET_MARGIN,
    )
}

/// One physical coordinate of a resized window: pulled back when the window
/// would cross the far edge of the work area, but not past the near edge.
pub open spec fn shifted_axis(pos: int, size: int, start: int, extent: int) -> int {
    if pos + size > start + extent {
        if start + extent - size > start {
            start + extent - size
        } else {
            start
        }
    } else {
        pos
    }
}

fn find_logical_monitor(monitors: &Vec<Monitor>, x: i32, y: i32) -> (found: Option<usize>)
    requires
        forall|k: int| 0 <= k < monitors.len() ==> (#[trigger] monitors[k]).wf(),
    ensures
        match found {
            Some(i) => i < monitors.len() && logical_monitor_from(
                monitors@,
                x as int,
                y as int,
                0,
            ) == Some(i as int),
            None => logical_monitor_from(monitors@, x as int, y as int, 0) is None,
        },
{
    let mut i: usize = 0;
    while i < monitors.len()
        invariant
            i <= monitors.len(),
            forall|k: int| 0 <= k < monitors.len() ==> (#[trigger] monitors[k]).wf(),
            logical_monitor_from(monitors@, x as int, y as int, 0) == logical_monitor_from(
                monitors@,
                x as int,
                y as int,
                i as int,
            ),
        decreases monitors.len() - i,
    {
        let m = monitors[i];
        let r = to_logical_rect(m.bounds, m.scale_permille);
        if r.x <= x as i64 && (x as i64) < r.x + r.width && r.y <= y as i64 && (y as i64) < r.y
            + r.height {
            return Some(i);
        }
        i = i + 1;
    }
    None
}

fn find_physical_monitor(monitors: &Vec<Monitor>, x: i32, y: i32) -> (found: Option<usize>)
    ensures
        match found {
            Some(i) => i < monitors.len() && physical_monitor_from(
                monitors@,
                x as int,
                y as int,
                0,
            ) == Some(i as int),
            None => physical_monitor_from(monitors@, x as int, y as int, 0) is None,
        },
{
    let mut i: usize = 0;
    while i < monitors.len()
        invariant
            i <= monitors.len(),
            physical_monitor_from(monitors@, x as int, y as int, 0) == physical_monitor_from(
                monitors@,
                x as int,
                y as int,
                i as int,
            ),
        decreases monitors.len() - i,
    {
        if monitors[i].bounds.contains(x, y) {
            return Some(i);
        }
        i = i + 1;
    }
    None
}

/// Brings a saved panel position back into view: if some monitor contains the
/// position, it is clamped into that monitor's work area, so the panel does
/// not cover the taskbar; otherwise it is returned unchanged.
pub fn clamp_panel_to_work_area(
    monitors: &Vec<Monitor>,
    x: i32,
    y: i32,
    panel_w: i32,
    panel_h: i32,
) -> (pos: (i64, i64))
    requires
        forall|k: int| 0 <= k < monitors.len() ==> (#[trigger] monitors[k]).wf(),
    ensures
        pos.0 == clamped_panel_position(
            monitors@,
            x as int,
            y as int,
            panel_w as int,
            panel_h as int,
        ).0,
        pos.1 == clamped_panel_position(
            monitors@,
            x as int,
            y as int,
            panel_w as int,
            panel_h as int,
        ).1,
{
    match find_logical_monitor(monitors, x, y) {
        Some(i) => {
            let m = monitors[i];
            let work = to_logical_rect(m.work_area, m.scale_permille);
            clamp_to_work_area(x as i64, y as i64, panel_w as i64, panel_h as i64, &work)
        },
        None => (x as i64, y as i64),
    }
}

fn anchor_panel(tray_x: i32, tray_y: i32, scale_permille: i32, work: &LogicalRect, top: bool) -> (pos:
    (i64, i64))
    requires
        scale_permille > 0,
        work.wf(),
    ensures
        pos.0 == anchored_position(
            tray_x as int,
            tray_y as int,
            scale_permille as int,
            *work,
            top,
        ).0,
        pos.1 == anchored_position(
            tray_x as int,
            tray_y as int,
            scale_permille as int,
            *work,
            top,
        ).1,
{
    let lx = to_logical_floor(tray_x, scale_permille);
    let ly = to_logical_floor(tray_y, scale_permille);
    assert(-0x400_0000_0000 <= lx <= 0x400_0000_0000 && -0x400_0000_0000 <= ly
        <= 0x400_0000_0000) by {
        lemma_floor_range(tray_x as int, scale_permille as int);
        lemma_floor_range(tray_y as int, scale_permille as int);
    }
    let x = lx - PANEL_WIDTH / 2;
    let clearance = to_logical_floor(TRAY_CLEARANCE, scale_permille);
    proof {
        lemma_floor_range(TRAY_CLEARANCE as int, scale_permille as int);
    }
    let y = if top {
        ly + clearance + PANEL_MARGIN
    } else {
        ly - PANEL_HEIGHT - PANEL_MARGIN
    };
    clamp_to_work_area(x, y, PANEL_WIDTH, PANEL_HEIGHT, work)
}

/// A floor-converted 32-bit value stays within a thousand times its range.
pub proof fn lemma_floor_range(v: int, scale_permille: int)
    requires
        scale_permille > 0,
        -0x1_0000_0000 <= v <= 0x1_0000_0000,
    ensures
        -0x400_0000_0000 <= logical_floor_of(v, scale_permille) <= 0x400_0000_0000,
        v >= 0 ==> logical_floor_of(v, scale_permille) >= 0,
        v == 0 ==> logical_floor_of(v, scale_permille) == 0,
{
    let m = if v >= 0 { v * 1000 } else { -(v * 1000) };
    assert(0 <= m / scale_permille <= m) by (nonlinear_arith)
        requires
            m >= 0,
            scale_permille > 0,
    ;
}

/// Chooses where to open the panel for a tray click at a physical point.
///
/// The panel is centred on the click and placed above it, or below it when
/// the click is within the top band of its monitor; the result is clamped
/// into that monitor's work area. A click on no known monitor is treated as
/// one on a 1920 by 1080 work area at scale 1.0.
pub fn calculate_rainscaper_position(monitors: &Vec<Monitor>, tray_x: i32, tray_y: i32) -> (pos:
    (i64, i64))
    requires
        forall|k: int| 0 <= k < monitors.len() ==> (#[trigger] monitors[k]).wf(),
    ensures
        pos.0 == tray_panel_position(monitors@, tray_x as int, tray_y as int).0,
        pos.1 == tray_panel_position(monitors@, tray_x as int, tray_y as int).1,
{
    match find_physical_monitor(monitors, tray_x, tray_y) {
        Some(i) => {
            let m = monitors[i];
            let work = to_logical_rect(m.work_area, m.scale_permille);
            let top = (tray_y as i64) < m.bounds.y as i64 + TOP_TASKBAR_BAND;
            anchor_panel(tray_x, tray_y, m.scale_permille, &work, top)
        },
        None => {
            let work = LogicalRect { x: 0, y: 0, width: 1920, height: 1080 };
            anchor_panel(tray_x, tray_y, 1000, &work, false)
        },
    }
}

/// The position that puts the default-sized panel back in the bottom-right
/// corner of the primary monitor's work area; `None` exactly when no monitor
/// is attached.
pub fn reset_panel_position(monitors: &Vec<Monitor>) -> (pos: Option<(i64, i64)>)
    requires
        forall|k: int| 0 <= k < monitors.len() ==> (#[trigger] monitors[k]).wf(),
    ensures
        monitors.len() == 0 <==> pos is None,
        pos matches Some(p) ==> {
            let work = logical_work_area(monitors[primary_index_of(monitors@)]);
            p.0 == corner_position(work).0 && p.1 == corner_position(work).1
        },
{
    if monitors.len() == 0 {
        return None;
    }
    let m = monitors[get_primary_monitor_index(monitors)];
    let work = to_logical_rect(m.work_area, m.scale_permille);
    proof {
        lemma_floor_range(m.work_area.x as int, m.scale_permille as int);
        lemma_floor_range(m.work_area.y as int, m.scale_permille as int);
        lemma_floor_range(m.work_area.width as int, m.scale_permille as int);
        lemma_floor_range(m.work_area.height as int, m.scale_permille as int);
    }
    Some(
        (
            work.x + work.width - PANEL_WIDTH - RESET_MARGIN,
            work.y + work.height - PANEL_HEIGHT - RESET_MARGIN,
        ),
    )
}

/// After the panel was resized to a physical size, the position that keeps it
/// inside the work area, or `None` when it crosses neither the right nor the
/// bottom edge and stays where it is.
pub fn keep_resized_in_work_area(x: i32, y: i32, width: i32, height: i32, work: Bounds) -> (moved:
    Option<(i64, i64)>)
    ensures
        moved is Some <==> (x + width > work.right() || y + height > work.bottom()),
        moved matches Some(p) ==> {
            &&& p.0 == shifted_axis(x as int, width as int, work.x as int, work.width as int)
            &&& p.1 == shifted_axis(y as int, height as int, work.y as int, work.height as int)
        },
{
    let right = work.x as i64 + work.width as i64;
    let bottom = work.y as i64 + work.height as i64;
    let mut new_x = x as i64;
    let mut new_y = y as i64;
    let mut moved = false;
    if y as i64 + height as i64 > bottom {
        new_y = if bottom - height as i64 > work.y as i64 {
            bottom - height as i64
        } else {
            work.y as i64
        };
        moved = true;
    }
    if x as i64 + width as i64 > right {
        new_x = if right - width as i64 > work.x as i64 {
            right - width as i64
        } else {
            work.x as i64
        };
        moved = true;
    }
    if moved {
        Some((new_x, new_y))
    } else {
        None
    }
}

/// The panel's size in logical pixels: its physical outer size converted at
/// its monitor's scale, fractions dropped, or the default size when the
/// window or its monitor cannot be queried.
pub fn panel_logical_size(outer: Option<(u32, u32, i32)>) -> (size: (i64, i64))
    requires
        outer matches Some(o) ==> o.2 > 0,
    ensures
        match outer {
            Some(o) => size.0 == logical_floor_of(o.0 as int, o.2 as int) && size.1
                == logical_floor_of(o.1 as int, o.2 as int),
            None => size.0 == PANEL_WIDTH && size.1 == PANEL_HEIGHT,
        },
{
    match outer {
        Some(o) => (to_logical_floor_u(o.0, o.2), to_logical_floor_u(o.1, o.2)),
        None => (PANEL_WIDTH, PANEL_HEIGHT),
    }
}

/// Where to show the panel: a saved position, if both of its coordinates are
/// known, clamped into the work area of its monitor; else a position derived
/// from the tray click.
pub fn resolve_panel_position(
    monitors: &Vec<Monitor>,
    saved_x: Option<i32>,
    saved_y: Option<i32>,
    tray_x: i32,
    tray_y: i32,
    panel_w: i32,
    panel_h: i32,
) -> (pos: (i64, i64))
    requires
        forall|k: int| 0 <= k < monitors.len() ==> (#[trigger] monitors[k]).wf(),
    ensures
        match (saved_x, saved_y) {
            (Some(sx), Some(sy)) => {
                &&& pos.0 == clamped_panel_position(
                    monitors@,
                    sx as int,
                    sy as int,
                    panel_w as int,
                    panel_h as int,
                ).0
                &&& pos.1 == clamped_panel_position(
                    monitors@,
                    sx as int,
                    sy as int,
                    panel_w as int,
                    panel_h as int,
                ).1
            },
            _ => {
                &&& pos.0 == tray_panel_position(monitors@, tray_x as int, tray_y as int).0
                &&& pos.1 == tray_panel_position(monitors@, tray_x as int, tray_y as int).1
            },
        },
{
    match (saved_x, saved_y) {
        (Some(sx), Some(sy)) => clamp_panel_to_work_area(monitors, sx, sy, panel_w, panel_h),
        _ => calculate_rainscaper_position(monitors, tray_x, tray_y),
    }
}

/// Size of the help window when no monitor is known.
pub const DEFAULT_HELP_SIZE: (i64, i64) = (1120, 630);

/// The size of the help window on a work area of the given physical size:
/// three quarters of the logical width at 16:9, or, where that is taller
/// than 85 % of the logical height, 85 % of the height and the width that
/// goes with it at 16:9. Each step is rounded to whole logical pixels.
pub open spec fn help_size_of(work_width: int, work_height: int, scale_permille: int) -> (
    int,
    int,
) {
    let wide = round_div(3000 * work_width, 4 * scale_permille);
    let tall = round_div(9 * wide, 16);
    if tall * scale_permille > 850 * work_height {
        let capped = round_div(850 * work_height, scale_permille);
        (round_div(16 * capped, 9), capped)
    } else {
        (wide, tall)
    }
}

/// The size of the help window in logical pixels for the primary monitor's
/// work area.
pub fn calculate_help_window_size(work_width: u32, work_height: u32, scale_permille: i32) -> (size:
    (i64, i64))
    requires
        scale_permille > 0,
    ensures
        size.0 == help_size_of(work_width as int, work_height as int, scale_permille as int).0,
        size.1 == help_size_of(work_width as int, work_height as int, scale_permille as int).1,
{
    let wide = round_div_i64(3000 * (work_width as i64), 4 * (scale_permille as i64));
    let tall = round_div_i64(9 * wide, 16);
    assert(0 <= tall * scale_permille <= 0x7fff_ffff_ffff_ffff_ffff_ffff) by (nonlinear_arith)
        requires
            0 <= tall <= 0x7fff_ffff_ffff_ffff,
            0 < scale_permille <= 0x7fff_ffff,
    ;
    if (tall as i128) * (scale_permille as i128) > 850 * (work_height as i128) {
        let capped = round_div_i64(850 * (work_height as i64), scale_permille as i64);
        (round_div_i64(16 * capped, 9), capped)
    } else {
        (wide, tall)
    }
}

} // verus!
