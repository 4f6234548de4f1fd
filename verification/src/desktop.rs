//! The virtual desktop: the bounding box of all monitors in logical pixels,
//! with every monitor placed relative to the box's top-left corner.

use vstd::prelude::*;
use crate::rounding::{
    lemma_round_div_exact, lemma_round_div_monotonic, lemma_round_div_nearest, logical_of,
    to_logical, to_logical_u, to_logical_wide,
};
use crate::types::Monitor;

verus! {

/// Why no virtual desktop could be computed.
#[derive(Clone, Copy, Debug, PartialEq, Eq, Structural)]
pub enum DesktopError {
    /// No monitor is attached, so nothing can be positioned.
    NoMonitors,
}

/// One monitor inside the virtual desktop, in logical pixels relative to the
/// desktop's origin.
#[derive(Clone, Copy, Debug, PartialEq, Eq, Structural)]
pub struct MonitorRegion {
    pub index: usize,
    pub x: i64,
    pub y: i64,
    pub width: i64,
    pub height: i64,
    pub work_x: i64,
    pub work_y: i64,
    pub work_width: i64,
    pub work_height: i64,
    pub scale_permille: i32,
    pub refresh_rate: u32,
}

/// The bounding box of all monitors and each monitor's place in it.
#[derive(Clone, Debug)]
pub struct VirtualDesktop {
    /// Top-left corner of the box in logical pixels; negative when a monitor
    /// lies left of or above the primary one.
    pub origin_x: i64,
    pub origin_y: i64,
    pub width: i64,
    pub height: i64,
    pub monitors: Vec<MonitorRegion>,
    pub primary_index: usize,
    pub primary_scale_permille: i32,
}

/// Leftmost physical column of any monitor.
pub open spec fn min_left(ms: Seq<Monitor>) -> int
    decreases ms.len(),
{
    if ms.len() == 0 {
        i32::MAX as int
    } else {
        let rest = min_left(ms.drop_last());
        if ms.last().bounds.x < rest {
            ms.last().bounds.x as int
        } else {
            rest
        }
    }
}

/// Topmost physical row of any monitor.
pub open spec fn min_top(ms: Seq<Monitor>) -> int
    decreases ms.len(),
{
    if ms.len() == 0 {
        i32::MAX as int
    } else {
        let rest = min_top(ms.drop_last());
        if ms.last().bounds.y < rest {
            ms.last().bounds.y as int
        } else {
            rest
        }
    }
}

/// Rightmost physical edge of any monitor.
pub open spec fn max_right(ms: Seq<Monitor>) -> int
    decreases ms.len(),
{
    if ms.len() == 0 {
        i32::MIN as int
    } else {
        let rest = max_right(ms.drop_last());
        if ms.last().bounds.right() > rest {
            ms.last().bounds.right()
        } else {
            rest
        }
    }
}

/// Lowest physical edge of any monitor.
pub open spec fn max_bottom(ms: Seq<Monitor>) -> int
    decreases ms.len(),
{
    if ms.len() == 0 {
        i32::MIN as int
    } else {
        let rest = max_bottom(ms.drop_last());
        if ms.last().bounds.bottom() > rest {
            ms.last().bounds.bottom()
        } else {
            rest
        }
    }
}

/// The first monitor at or after `from` that contains the physical origin,
/// or 0 when there is none.
pub open spec fn first_at_origin(ms: Seq<Monitor>, from: int) -> int
    decreases ms.len() - from,
{
    if from < 0 || from >= ms.len() {
        0
    } else if ms[from].bounds.contains_point(0, 0) {
        from
    } else {
        first_at_origin(ms, from + 1)
    }
}

/// The primary monitor: the first one containing the physical origin, or the
/// first monitor of all when none does.
pub open spec fn primary_index_of(ms: Seq<Monitor>) -> int {
    first_at_origin(ms, 0)
}

/// The scale that the whole desktop is converted with: the primary monitor's.
pub open spec fn desktop_scale(ms: Seq<Monitor>) -> int {
    ms[primary_index_of(ms)].scale_permille as int
}

/// Whether `r` is monitor `i` of `ms` placed in the virtual desktop.
pub open spec fn region_matches(r: MonitorRegion, ms: Seq<Monitor>, i: int) -> bool {
    let s = desktop_scale(ms);
    let m = ms[i];
    &&& r.index == i
    &&& r.x == logical_of(m.bounds.x as int, s) - logical_of(min_left(ms), s)
    &&& r.y == logical_of(m.bounds.y as int, s) - logical_of(min_top(ms), s)
    &&& r.width == logical_of(m.bounds.width as int, s)
    &&& r.height == logical_of(m.bounds.height as int, s)
    &&& r.work_x == logical_of(m.work_area.x as int, s) - logical_of(min_left(ms), s)
    &&& r.work_y == logical_of(m.work_area.y as int, s) - logical_of(min_top(ms), s)
    &&& r.work_width == logical_of(m.work_area.width as int, s)
    &&& r.work_height == logical_of(m.work_area.height as int, s)
    &&& r.scale_permille == m.scale_permille
    &&& r.refresh_rate == m.refresh_rate
}

/// Whether `d` is the virtual desktop of the monitors `ms`.
pub open spec fn desktop_matches(d: VirtualDesktop, ms: Seq<Monitor>) -> bool {
    let s = desktop_scale(ms);
    &&& d.primary_index == primary_index_of(ms)
    &&& d.primary_scale_permille == s
    &&& d.origin_x == logical_of(min_left(ms), s)
    &&& d.origin_y == logical_of(min_top(ms), s)
    &&& d.width == logical_of(max_right(ms), s) - logical_of(min_left(ms), s)
    &&& d.height == logical_of(max_bottom(ms), s) - logical_of(min_top(ms), s)
    &&& d.monitors.len() == ms.len()
    &&& forall|i: int| 0 <= i < ms.len() ==> region_matches(#[trigger] d.monitors[i], ms, i)
}

/// Whether rounding a monitor's left edge and width separately does not
/// overshoot the rounding of its right edge, and likewise downward.
pub open spec fn rounds_within(m: Monitor, scale_permille: int) -> bool {
    &&& logical_of(m.bounds.x as int, scale_permille) + logical_of(
        m.bounds.width as int,
        scale_permille,
    ) <= logical_of(m.bounds.right(), scale_permille)
    &&& logical_of(m.bounds.y as int, scale_permille) + logical_of(
        m.bounds.height as int,
        scale_permille,
    ) <= logical_of(m.bounds.bottom(), scale_permille)
}

/// Whether monitor `i` ends inside the bounding box after conversion: its
/// left edge and width, rounded separately, do not reach past the rounded
/// right edge of the box, and likewise downward.
pub open spec fn ends_inside(ms: Seq<Monitor>, i: int) -> bool {
    let s = desktop_scale(ms);
    &&& logical_of(ms[i].bounds.x as int, s) + logical_of(ms[i].bounds.width as int, s)
        <= logical_of(max_right(ms), s)
    &&& logical_of(ms[i].bounds.y as int, s) + logical_of(ms[i].bounds.height as int, s)
        <= logical_of(max_bottom(ms), s)
}

/// The box edges bound every monitor, and each is some monitor's edge.
pub proof fn lemma_bounding_box(ms: Seq<Monitor>)
    ensures
        forall|i: int|
            0 <= i < ms.len() ==> {
                &&& min_left(ms) <= (#[trigger] ms[i]).bounds.x
                &&& min_top(ms) <= ms[i].bounds.y
                &&& ms[i].bounds.right() <= max_right(ms)
                &&& ms[i].bounds.bottom() <= max_bottom(ms)
            },
        ms.len() > 0 ==> exists|i: int| 0 <= i < ms.len() && min_left(ms) == ms[i].bounds.x,
        ms.len() > 0 ==> exists|i: int| 0 <= i < ms.len() && min_top(ms) == ms[i].bounds.y,
        ms.len() > 0 ==> exists|i: int| 0 <= i < ms.len() && max_right(ms) == ms[i].bounds.right(),
        ms.len() > 0 ==> exists|i: int|
            0 <= i < ms.len() && max_bottom(ms) == ms[i].bounds.bottom(),
        i32::MIN <= min_left(ms) <= i32::MAX,
        i32::MIN <= min_top(ms) <= i32::MAX,
        i32::MIN <= max_right(ms) <= i32::MAX + u32::MAX,
        i32::MIN <= max_bottom(ms) <= i32::MAX + u32::MAX,
    decreases ms.len(),
{
    if ms.len() > 0 {
        let head = ms.drop_last();
        lemma_bounding_box(head);
        let n = ms.len() - 1;
        assert forall|i: int| 0 <= i < ms.len() implies {
            &&& min_left(ms) <= (#[trigger] ms[i]).bounds.x
            &&& min_top(ms) <= ms[i].bounds.y
            &&& ms[i].bounds.right() <= max_right(ms)
            &&& ms[i].bounds.bottom() <= max_bottom(ms)
        } by {
            if i < n {
                assert(head[i] == ms[i]);
            }
        }
        if head.len() > 0 {
            let a = choose|i: int| 0 <= i < head.len() && min_left(head) == head[i].bounds.x;
            let b = choose|i: int| 0 <= i < head.len() && min_top(head) == head[i].bounds.y;
            let c = choose|i: int| 0 <= i < head.len() && max_right(head) == head[i].bounds.right();
            let d = choose|i: int|
                0 <= i < head.len() && max_bottom(head) == head[i].bounds.bottom();
            assert(head[a] == ms[a] && head[b] == ms[b] && head[c] == ms[c] && head[d] == ms[d]);
            let a2 = if ms[n].bounds.x < min_left(head) { n } else { a };
            let b2 = if ms[n].bounds.y < min_top(head) { n } else { b };
            let c2 = if ms[n].bounds.right() > max_right(head) { n } else { c };
            let d2 = if ms[n].bounds.bottom() > max_bottom(head) { n } else { d };
            assert(0 <= a2 < ms.len() && min_left(ms) == ms[a2].bounds.x);
            assert(0 <= b2 < ms.len() && min_top(ms) == ms[b2].bounds.y);
            assert(0 <= c2 < ms.len() && max_right(ms) == ms[c2].bounds.right());
            assert(0 <= d2 < ms.len() && max_bottom(ms) == ms[d2].bounds.bottom());
        } else {
            assert(min_left(ms) == ms[n].bounds.x);
            assert(min_top(ms) == ms[n].bounds.y);
            assert(max_right(ms) == ms[n].bounds.right());
            assert(max_bottom(ms) == ms[n].bounds.bottom());
        }
    }
}

/// The primary index is the first monitor containing the origin, and 0 when
/// no monitor contains it.
pub proof fn lemma_primary_index(ms: Seq<Monitor>, from: int)
    requires
        0 <= from,
    ensures
        first_at_origin(ms, from) == 0 || from <= first_at_origin(ms, from) < ms.len(),
        ms.len() > 0 ==> 0 <= first_at_origin(ms, from) < ms.len(),
        forall|j: int|
            from <= j < ms.len() && #[trigger] ms[j].bounds.contains_point(0, 0) ==> {
                &&& from <= first_at_origin(ms, from) <= j
                &&& ms[first_at_origin(ms, from)].bounds.contains_point(0, 0)
            },
        (forall|j: int| from <= j < ms.len() ==> !#[trigger] ms[j].bounds.contains_point(0, 0))
            ==> first_at_origin(ms, from) == 0,
    decreases ms.len() - from,
{
    if from < ms.len() && !ms[from].bounds.contains_point(0, 0) {
        lemma_primary_index(ms, from + 1);
    }
}

/// At a scale of exactly 1.0 logical and physical pixels coincide, so every
/// monitor rounds within its edges.
pub proof fn lemma_unit_scale_rounds_within(m: Monitor)
    ensures
        rounds_within(m, 1000),
        logical_of(m.bounds.x as int, 1000) == m.bounds.x,
        logical_of(m.bounds.width as int, 1000) == m.bounds.width,
{
    lemma_round_div_exact(m.bounds.x as int, 1000);
    lemma_round_div_exact(m.bounds.y as int, 1000);
    lemma_round_div_exact(m.bounds.width as int, 1000);
    lemma_round_div_exact(m.bounds.height as int, 1000);
    lemma_round_div_exact(m.bounds.right(), 1000);
    lemma_round_div_exact(m.bounds.bottom(), 1000);
}

/// A monitor whose position and size are whole numbers of logical pixels at
/// the given scale rounds within its edges.
pub proof fn lemma_aligned_rounds_within(m: Monitor, scale_permille: int)
    requires
        scale_permille > 0,
        (m.bounds.x * 1000) % scale_permille == 0,
        (m.bounds.y * 1000) % scale_permille == 0,
        (m.bounds.width * 1000) % scale_permille == 0,
        (m.bounds.height * 1000) % scale_permille == 0,
    ensures
        rounds_within(m, scale_permille),
{
    lemma_exact_sum(m.bounds.x as int, m.bounds.width as int, scale_permille);
    lemma_exact_sum(m.bounds.y as int, m.bounds.height as int, scale_permille);
}

/// Two values that are whole numbers of logical pixels convert to the sum
/// of their conversions.
proof fn lemma_exact_sum(a: int, b: int, s: int)
    requires
        s > 0,
        (a * 1000) % s == 0,
        (b * 1000) % s == 0,
    ensures
        logical_of(a, s) + logical_of(b, s) == logical_of(a + b, s),
{
    let qa = (a * 1000) / s;
    let qb = (b * 1000) / s;
    assert(a * 1000 == qa * s && b * 1000 == qb * s && (a + b) * 1000 == (qa + qb) * s)
        by (nonlinear_arith)
        requires
            s > 0,
            qa == (a * 1000) / s,
            qb == (b * 1000) / s,
            (a * 1000) % s == 0,
            (b * 1000) % s == 0,
    ;
    lemma_round_div_exact(qa, s);
    lemma_round_div_exact(qb, s);
    lemma_round_div_exact(qa + qb, s);
}

/// Every region of a virtual desktop starts at or right of and at or below
/// the desktop's origin, and has a size that is not negative. A region ends
/// inside the desktop exactly when its monitor ends inside the bounding box
/// after conversion, which every monitor does that rounds within its edges.
pub proof fn lemma_regions_inside_desktop(d: VirtualDesktop, ms: Seq<Monitor>, i: int)
    requires
        desktop_matches(d, ms),
        forall|k: int| 0 <= k < ms.len() ==> (#[trigger] ms[k]).wf(),
        0 <= i < ms.len(),
    ensures
        d.monitors[i].x >= 0,
        d.monitors[i].y >= 0,
        d.monitors[i].width >= 0,
        d.monitors[i].height >= 0,
        ends_inside(ms, i) <==> {
            &&& d.monitors[i].x + d.monitors[i].width <= d.width
            &&& d.monitors[i].y + d.monitors[i].height <= d.height
        },
        rounds_within(ms[i], desktop_scale(ms)) ==> ends_inside(ms, i),
        ms[i].bounds.encloses(ms[i].work_area) ==> {
            &&& d.monitors[i].work_x >= d.monitors[i].x
            &&& d.monitors[i].work_y >= d.monitors[i].y
        },
{
    lemma_bounding_box(ms);
    lemma_primary_index(ms, 0);
    let s = desktop_scale(ms);
    let m = ms[i];
    assert(ms[primary_index_of(ms)].wf());
    assert(region_matches(d.monitors[i], ms, i));
    lemma_round_div_monotonic(min_left(ms) * 1000, m.bounds.x * 1000, s);
    lemma_round_div_monotonic(min_top(ms) * 1000, m.bounds.y * 1000, s);
    lemma_round_div_monotonic(m.bounds.right() * 1000, max_right(ms) * 1000, s);
    lemma_round_div_monotonic(m.bounds.bottom() * 1000, max_bottom(ms) * 1000, s);
    lemma_round_div_nearest(m.bounds.width * 1000, s);
    lemma_round_div_nearest(m.bounds.height * 1000, s);
    if m.bounds.encloses(m.work_area) {
        lemma_round_div_monotonic(m.bounds.x * 1000, m.work_area.x * 1000, s);
        lemma_round_div_monotonic(m.bounds.y * 1000, m.work_area.y * 1000, s);
    }
}

/// The primary monitor: the first one that contains the origin of the
/// physical coordinate space, or the first of all when none does.
pub fn get_primary_monitor_index(monitors: &Vec<Monitor>) -> (index: usize)
    ensures
        index == primary_index_of(monitors@),
        monitors.len() > 0 ==> index < monitors.len(),
{
    proof {
        lemma_primary_index(monitors@, 0);
    }
    let mut i: usize = 0;
    while i < monitors.len()
        invariant
            i <= monitors.len(),
            first_at_origin(monitors@, 0) == first_at_origin(monitors@, i as int),
        decreases monitors.len() - i,
    {
        if monitors[i].bounds.contains(0, 0) {
            return i;
        }
        i = i + 1;
    }
    0
}

/// Computes the virtual desktop of the attached monitors.
///
/// The bounding box of all monitors is taken in physical pixels and converted
/// with the primary monitor's scale; every monitor and work area is then
/// expressed relative to the box's top-left corner, so that no region
/// starts at a negative coordinate. Fails exactly when no monitor is
/// attached.
pub fn get_virtual_desktop(monitors: &Vec<Monitor>) -> (result: Result<
    VirtualDesktop,
    DesktopError,
>)
    requires
        forall|k: int| 0 <= k < monitors.len() ==> (#[trigger] monitors[k]).wf(),
    ensures
        monitors.len() == 0 <==> result == Err::<VirtualDesktop, DesktopError>(
            DesktopError::NoMonitors,
        ),
        monitors.len() > 0 <==> result is Ok,
        result matches Ok(d) ==> {
            &&& desktop_matches(d, monitors@)
            &&& d.width >= 0
            &&& d.height >= 0
            &&& forall|i: int|
                0 <= i < d.monitors.len() ==> {
                    &&& (#[trigger] d.monitors[i]).x >= 0
                    &&& d.monitors[i].y >= 0
                    &&& d.monitors[i].width >= 0
                    &&& d.monitors[i].height >= 0
                    &&& ends_inside(monitors@, i) <==> {
                        &&& d.monitors[i].x + d.monitors[i].width <= d.width
                        &&& d.monitors[i].y + d.monitors[i].height <= d.height
                    }
                    &&& rounds_within(monitors[i], d.primary_scale_permille as int)
                        ==> ends_inside(monitors@, i)
                }
        },
{
    if monitors.len() == 0 {
        return Err(DesktopError::NoMonitors);
    }
    let ghost ms = monitors@;
    let mut x_min: i64 = i32::MAX as i64;
    let mut y_min: i64 = i32::MAX as i64;
    let mut x_max: i64 = i32::MIN as i64;
    let mut y_max: i64 = i32::MIN as i64;
    let mut k: usize = 0;
    while k < monitors.len()
        invariant
            k <= monitors.len(),
            ms == monitors@,
            x_min == min_left(ms.take(k as int)),
            y_min == min_top(ms.take(k as int)),
            x_max == max_right(ms.take(k as int)),
            y_max == max_bottom(ms.take(k as int)),
        decreases monitors.len() - k,
    {
        let b = monitors[k].bounds;
        proof {
            assert(ms.take(k + 1).drop_last() =~= ms.take(k as int));
            assert(ms.take(k + 1).last() == ms[k as int]);
            lemma_bounding_box(ms.take(k as int));
        }
        let right: i64 = b.x as i64 + b.width as i64;
        let bottom: i64 = b.y as i64 + b.height as i64;
        if (b.x as i64) < x_min {
            x_min = b.x as i64;
        }
        if (b.y as i64) < y_min {
            y_min = b.y as i64;
        }
        if right > x_max {
            x_max = right;
        }
        if bottom > y_max {
            y_max = bottom;
        }
        k = k + 1;
    }
    proof {
        assert(ms.take(ms.len() as int) =~= ms);
        lemma_bounding_box(ms);
        lemma_primary_index(ms, 0);
    }
    let primary_index = get_primary_monitor_index(monitors);
    let scale = monitors[primary_index].scale_permille;
    let origin_x = to_logical_wide(x_min, scale);
    let origin_y = to_logical_wide(y_min, scale);
    let far_x = to_logical_wide(x_max, scale);
    let far_y = to_logical_wide(y_max, scale);
    proof {
        lemma_round_div_monotonic(x_min * 1000, x_max * 1000, scale as int);
        lemma_round_div_monotonic(y_min * 1000, y_max * 1000, scale as int);
    }
    let mut regions: Vec<MonitorRegion> = Vec::new();
    let mut i: usize = 0;
    while i < monitors.len()
        invariant
            i <= monitors.len(),
            ms == monitors@,
            scale > 0,
            scale == desktop_scale(ms),
            origin_x == logical_of(min_left(ms), scale as int),
            origin_y == logical_of(min_top(ms), scale as int),
            -0x400_0000_0000 <= origin_x <= 0x800_0000_0000,
            -0x400_0000_0000 <= origin_y <= 0x800_0000_0000,
            regions.len() == i,
            forall|j: int| 0 <= j < i ==> region_matches(#[trigger] regions[j], ms, j),
        decreases monitors.len() - i,
    {
        let m = monitors[i];
        let region = MonitorRegion {
            index: i,
            x: to_logical(m.bounds.x, scale) - origin_x,
            y: to_logical(m.bounds.y, scale) - origin_y,
            width: to_logical_u(m.bounds.width, scale),
            height: to_logical_u(m.bounds.height, scale),
            work_x: to_logical(m.work_area.x, scale) - origin_x,
            work_y: to_logical(m.work_area.y, scale) - origin_y,
            work_width: to_logical_u(m.work_area.width, scale),
            work_height: to_logical_u(m.work_area.height, scale),
            scale_permille: m.scale_permille,
            refresh_rate: m.refresh_rate,
        };
        regions.push(region);
        i = i + 1;
    }
    let desktop = VirtualDesktop {
        origin_x,
        origin_y,
        width: far_x - origin_x,
        height: far_y - origin_y,
        monitors: regions,
        primary_index,
        primary_scale_permille: scale,
    };
    proof {
        assert(desktop_matches(desktop, ms));
        assert forall|i: int| 0 <= i < desktop.monitors.len() implies {
            &&& (#[trigger] desktop.monitors[i]).x >= 0
            &&& desktop.monitors[i].y >= 0
            &&& desktop.monitors[i].width >= 0
            &&& desktop.monitors[i].height >= 0
            &&& ends_inside(monitors@, i) <==> {
                &&& desktop.monitors[i].x + desktop.monitors[i].width <= desktop.width
                &&& desktop.monitors[i].y + desktop.monitors[i].height <= desktop.height
            }
            &&& rounds_within(monitors[i], desktop.primary_scale_permille as int) ==> ends_inside(
                monitors@,
                i,
            )
        } by {
            lemma_regions_inside_desktop(desktop, ms, i);
        }
    }
    Ok(desktop)
}

} // verus!
