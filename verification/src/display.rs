//! What a render surface is told about the monitor it is shown on.

use vstd::prelude::*;
use crate::text::{parse_unsigned, strip_prefix, unsigned_of};
use crate::types::{Bounds, Monitor};

verus! {

/// The monitor a surface is bound to.
#[derive(Clone, Copy, Debug, PartialEq, Eq, Structural)]
pub struct DisplayInfo {
    pub index: usize,
    pub bounds: Bounds,
    pub work_area: Bounds,
    pub scale_permille: i32,
    pub refresh_rate: u32,
}

/// Why no display information could be given.
#[derive(Clone, Copy, Debug, PartialEq, Eq, Structural)]
pub enum DisplayError {
    /// The surface is on no monitor that the system knows.
    NoMonitor,
}

/// The part of a surface label that follows its kind, when the label names
/// an overlay or a background.
pub open spec fn label_suffix(label: Seq<char>) -> Option<Seq<char>> {
    if "overlay-"@.is_prefix_of(label) {
        Some(label.skip("overlay-"@.len() as int))
    } else if "background-"@.is_prefix_of(label) {
        Some(label.skip("background-"@.len() as int))
    } else {
        None
    }
}

/// The monitor index that a surface label encodes; 0 when it encodes none.
pub open spec fn display_index_of(label: Seq<char>) -> nat {
    match label_suffix(label) {
        Some(rest) => match unsigned_of(rest) {
            Some(n) if n <= usize::MAX => n,
            _ => 0,
        },
        None => 0,
    }
}

/// The display information of a monitor under a given index.
pub open spec fn display_of(index: usize, m: Monitor) -> DisplayInfo {
    DisplayInfo {
        index,
        bounds: m.bounds,
        work_area: m.work_area,
        scale_permille: m.scale_permille,
        refresh_rate: m.refresh_rate,
    }
}

/// The monitor index that a surface label encodes: the number after
/// `overlay-` or `background-`, or 0 when the label has another form.
pub fn display_index(label: &str) -> (index: usize)
    ensures
        index == display_index_of(label@),
{
    let rest = match strip_prefix(label, "overlay-") {
        Some(r) => Some(r),
        None => strip_prefix(label, "background-"),
    };
    match rest {
        Some(r) => match parse_unsigned(r, usize::MAX as u64) {
            Some(n) => n as usize,
            None => 0,
        },
        None => 0,
    }
}

/// The display information for the surface with the given label, on the
/// monitor it is currently shown on. Fails exactly when that monitor is not
/// known.
pub fn get_display_info(label: &str, monitor: Option<Monitor>) -> (result: Result<
    DisplayInfo,
    DisplayError,
>)
    ensures
        result == match monitor {
            Some(m) => Ok::<DisplayInfo, DisplayError>(
                display_of(display_index_of(label@) as usize, m),
            ),
            None => Err::<DisplayInfo, DisplayError>(DisplayError::NoMonitor),
        },
{
    match monitor {
        Some(m) => Ok(
            DisplayInfo {
                index: display_index(label),
                bounds: m.bounds,
                work_area: m.work_area,
                scale_permille: m.scale_permille,
                refresh_rate: m.refresh_rate,
            },
        ),
        None => Err(DisplayError::NoMonitor),
    }
}

/// The display information of every monitor, in enumeration order, each
/// under its position in that order.
pub fn get_all_displays(monitors: &Vec<Monitor>) -> (displays: Vec<DisplayInfo>)
    ensures
        displays.len() == monitors.len(),
        forall|i: int|
            0 <= i < monitors.len() ==> #[trigger] displays[i] == display_of(
                i as usize,
                monitors[i],
            ),
{
    let mut displays: Vec<DisplayInfo> = Vec::new();
    let mut i: usize = 0;
    while i < monitors.len()
        invariant
            i <= monitors.len(),
            displays.len() == i,
            forall|j: int|
                0 <= j < i ==> #[trigger] displays[j] == display_of(j as usize, monitors[j]),
        decreases monitors.len() - i,
    {
        let m = monitors[i];
        displays.push(
            DisplayInfo {
                index: i,
                bounds: m.bounds,
                work_area: m.work_area,
                scale_permille: m.scale_permille,
                refresh_rate: m.refresh_rate,
            },
        );
        i = i + 1;
    }
    displays
}

} // verus!
