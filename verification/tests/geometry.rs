use rainydesk::desktop::{get_primary_monitor_index, get_virtual_desktop, DesktopError};
use rainydesk::rounding::{
    round_div_i64, to_logical, to_logical_floor, to_logical_floor_u, to_logical_u,
    to_logical_wide, to_physical, trunc_div_i64,
};
use rainydesk::types::{get_monitor_refresh_rate, get_monitor_work_area, Bounds, Monitor};

fn monitor(x: i32, y: i32, width: u32, height: u32, scale: i32) -> Monitor {
    Monitor::new(Bounds { x, y, width, height }, scale, None, None)
}

#[test]
fn rounds_half_away_from_zero() {
    assert_eq!(round_div_i64(3, 2), 2);
    assert_eq!(round_div_i64(-3, 2), -2);
    assert_eq!(round_div_i64(1, 2), 1);
    assert_eq!(round_div_i64(-1, 2), -1);
    assert_eq!(round_div_i64(1, 3), 0);
    assert_eq!(round_div_i64(2, 3), 1);
    assert_eq!(round_div_i64(-2, 3), -1);
    assert_eq!(round_div_i64(0, 7), 0);
    assert_eq!(round_div_i64(i64::MAX, 1), i64::MAX);
    assert_eq!(round_div_i64(i64::MIN, 1), i64::MIN);
    assert_eq!(round_div_i64(i64::MIN, i64::MAX), -1);
}

#[test]
fn truncates_toward_zero() {
    assert_eq!(trunc_div_i64(7, 2), 3);
    assert_eq!(trunc_div_i64(-7, 2), -3);
    assert_eq!(trunc_div_i64(i64::MIN, 1), i64::MIN);
    assert_eq!(to_logical_floor(-1921, 1250), -1536);
    assert_eq!(to_logical_floor(1921, 1250), 1536);
    assert_eq!(to_logical_floor_u(1080, 1500), 720);
    assert_eq!(to_logical_floor_u(1081, 1500), 720);
}

#[test]
fn converts_between_pixel_spaces() {
    assert_eq!(to_logical(3, 2000), 2);
    assert_eq!(to_logical(-3, 2000), -2);
    assert_eq!(to_logical(1, 2000), 1);
    assert_eq!(to_logical(-1, 2000), -1);
    assert_eq!(to_logical(1920, 1000), 1920);
    assert_eq!(to_logical_u(1920, 1250), 1536);
    assert_eq!(to_logical_u(2160, 1500), 1440);
    assert_eq!(to_logical_u(u32::MAX, 1), 4_294_967_295_000);
    assert_eq!(to_logical_wide(0x2_0000_0000, 1), 0x2_0000_0000 * 1000);
    assert_eq!(to_physical(1536, 1250), 1920);
    assert_eq!(to_physical(-1536, 1250), -1920);
    assert_eq!(to_physical(1, 1500), 2);
    assert_eq!(to_physical(-1, 1500), -2);
}

#[test]
fn round_trip_holds_at_scales_of_one_and_above() {
    for scale in [1000, 1250, 1500, 1750, 2000, 3000, 1001, 2499] {
        for v in [-2000, -7, -1, 0, 1, 2, 3, 5, 640, 1080, 1919, 1920] {
            assert_eq!(to_logical(to_physical(v, scale) as i32, scale), v as i64);
        }
    }
}

#[test]
fn round_trip_holds_for_aligned_values_below_one() {
    // At scale 0.5 the even values have a whole physical image.
    for v in [-4, -2, 0, 2, 4, 100] {
        assert_eq!(to_logical(to_physical(v, 500) as i32, 500), v as i64);
    }
    // An odd value does not survive: 1 -> 1 physical -> 2 logical.
    assert_eq!(to_physical(1, 500), 1);
    assert_eq!(to_logical(1, 500), 2);
}

#[test]
fn work_area_falls_back_to_shortened_monitor() {
    let bounds = Bounds { x: 10, y: 20, width: 1920, height: 1080 };
    let reported = Bounds { x: 10, y: 20, width: 1920, height: 1040 };
    assert_eq!(get_monitor_work_area(bounds, Some(reported)), reported);
    assert_eq!(
        get_monitor_work_area(bounds, None),
        Bounds { x: 10, y: 20, width: 1920, height: 1032 }
    );
    let flat = Bounds { x: 0, y: 0, width: 100, height: 30 };
    assert_eq!(get_monitor_work_area(flat, None), Bounds { x: 0, y: 0, width: 100, height: 0 });
}

#[test]
fn refresh_rate_defaults_to_sixty() {
    assert_eq!(get_monitor_refresh_rate(Some(144)), 144);
    assert_eq!(get_monitor_refresh_rate(Some(0)), 60);
    assert_eq!(get_monitor_refresh_rate(None), 60);
}

#[test]
fn monitor_scale_is_clamped_to_one() {
    assert_eq!(monitor(0, 0, 1, 1, 0).scale_permille, 1000);
    assert_eq!(monitor(0, 0, 1, 1, -5).scale_permille, 1000);
    assert_eq!(monitor(0, 0, 1, 1, 1250).scale_permille, 1250);
}

#[test]
fn bounds_contain_their_points() {
    let b = Bounds { x: -10, y: 5, width: 20, height: 10 };
    assert!(b.contains(-10, 5));
    assert!(b.contains(9, 14));
    assert!(!b.contains(10, 5));
    assert!(!b.contains(0, 15));
    assert!(!b.contains(-11, 5));
    let huge = Bounds { x: i32::MAX, y: i32::MAX, width: u32::MAX, height: u32::MAX };
    assert!(huge.contains(i32::MAX, i32::MAX));
}

#[test]
fn primary_is_the_monitor_at_the_origin() {
    let ms = vec![monitor(-1920, 0, 1920, 1080, 1000), monitor(0, 0, 1920, 1080, 1000)];
    assert_eq!(get_primary_monitor_index(&ms), 1);
    let none = vec![monitor(100, 100, 10, 10, 1000), monitor(200, 200, 10, 10, 1000)];
    assert_eq!(get_primary_monitor_index(&none), 0);
    assert_eq!(get_primary_monitor_index(&Vec::new()), 0);
    let two = vec![monitor(-5, -5, 10, 10, 1000), monitor(0, 0, 10, 10, 1000)];
    assert_eq!(get_primary_monitor_index(&two), 0);
}

#[test]
fn no_monitors_is_an_error() {
    assert_eq!(get_virtual_desktop(&Vec::new()).err(), Some(DesktopError::NoMonitors));
}

#[test]
fn two_monitors_side_by_side() {
    let ms = vec![monitor(0, 0, 1920, 1080, 1000), monitor(1920, 0, 1920, 1080, 1000)];
    let d = get_virtual_desktop(&ms).unwrap();
    assert_eq!((d.origin_x, d.origin_y), (0, 0));
    assert_eq!((d.width, d.height), (3840, 1080));
    assert_eq!(d.monitors.len(), 2);
    assert_eq!(d.monitors[0].x, 0);
    assert_eq!(d.monitors[1].x, 1920);
    assert_eq!(d.monitors[0].index, 0);
    assert_eq!(d.monitors[1].index, 1);
    assert_eq!(d.primary_index, 0);
    assert_eq!(d.primary_scale_permille, 1000);
    assert_eq!(d.monitors[0].work_height, 1032);
    assert_eq!(d.monitors[1].work_x, 1920);
    assert_eq!(d.monitors[1].refresh_rate, 60);
}

#[test]
fn secondary_monitor_left_of_primary() {
    let ms = vec![monitor(0, 0, 1920, 1080, 1000), monitor(-1920, 0, 1920, 1080, 1000)];
    let d = get_virtual_desktop(&ms).unwrap();
    assert_eq!(d.origin_x, -1920);
    assert_eq!(d.origin_y, 0);
    assert_eq!(d.width, 3840);
    assert_eq!(d.primary_index, 0);
    assert_eq!(d.monitors[1].x, 0);
    assert_eq!(d.monitors[0].x, 1920);
}

#[test]
fn desktop_uses_the_primary_scale_for_every_monitor() {
    let ms = vec![
        Monitor::new(
            Bounds { x: 0, y: 0, width: 3840, height: 2160 },
            1500,
            Some(Bounds { x: 0, y: 0, width: 3840, height: 2100 }),
            Some(120),
        ),
        Monitor::new(Bounds { x: 3840, y: 540, width: 1920, height: 1080 }, 1000, None, Some(0)),
    ];
    let d = get_virtual_desktop(&ms).unwrap();
    assert_eq!(d.primary_scale_permille, 1500);
    assert_eq!((d.origin_x, d.origin_y), (0, 0));
    assert_eq!((d.width, d.height), (3840, 1440));
    let a = d.monitors[0];
    assert_eq!((a.x, a.y, a.width, a.height), (0, 0, 2560, 1440));
    assert_eq!((a.work_x, a.work_y, a.work_width, a.work_height), (0, 0, 2560, 1400));
    assert_eq!((a.scale_permille, a.refresh_rate), (1500, 120));
    let b = d.monitors[1];
    assert_eq!((b.x, b.y, b.width, b.height), (2560, 360, 1280, 720));
    assert_eq!((b.work_x, b.work_y, b.work_width, b.work_height), (2560, 360, 1280, 688));
    assert_eq!((b.scale_permille, b.refresh_rate), (1000, 60));
}

#[test]
fn regions_are_never_negative() {
    let ms = vec![
        monitor(-3, -7, 11, 13, 1500),
        monitor(0, 0, 1921, 1081, 1500),
        monitor(i32::MIN, i32::MIN, u32::MAX, u32::MAX, 1750),
        monitor(i32::MAX, i32::MAX, u32::MAX, u32::MAX, 1),
    ];
    let d = get_virtual_desktop(&ms).unwrap();
    assert!(d.width >= 0 && d.height >= 0);
    for r in &d.monitors {
        assert!(r.x >= 0 && r.y >= 0 && r.width >= 0 && r.height >= 0);
        assert!(r.work_x >= r.x && r.work_y >= r.y);
    }
}

#[test]
fn regions_end_inside_the_desktop_at_unit_scale() {
    let ms = vec![
        monitor(-1280, 56, 1280, 1024, 1000),
        monitor(0, 0, 1920, 1080, 1000),
        monitor(1920, -360, 2560, 1440, 1000),
    ];
    let d = get_virtual_desktop(&ms).unwrap();
    assert_eq!((d.origin_x, d.origin_y, d.width, d.height), (-1280, -360, 5760, 1440));
    for r in &d.monitors {
        assert!(r.x + r.width <= d.width);
        assert!(r.y + r.height <= d.height);
    }
}

#[test]
fn a_region_may_overshoot_by_rounding() {
    // At scale 1.5 the edge 1 and the width 1 each round up, their sum 2 does not.
    let ms = vec![monitor(0, 0, 1, 1, 1500), monitor(1, 0, 1, 1, 1500)];
    let d = get_virtual_desktop(&ms).unwrap();
    assert_eq!(d.width, 1);
    assert_eq!(d.monitors[1].x + d.monitors[1].width, 2);
}

#[test]
fn bounds_are_built_from_edges() {
    assert_eq!(
        Bounds::from_edges(0, 0, 1920, 1040),
        Bounds { x: 0, y: 0, width: 1920, height: 1040 }
    );
    assert_eq!(
        Bounds::from_edges(-1920, 40, 0, 1080),
        Bounds { x: -1920, y: 40, width: 1920, height: 1040 }
    );
    assert_eq!(
        Bounds::from_edges(i32::MIN, i32::MIN, i32::MAX, i32::MAX),
        Bounds { x: i32::MIN, y: i32::MIN, width: u32::MAX, height: u32::MAX }
    );
    assert_eq!(Bounds::from_edges(5, 5, 5, 5), Bounds { x: 5, y: 5, width: 0, height: 0 });
}

#[test]
fn reversed_edges_give_an_empty_extent() {
    assert_eq!(Bounds::from_edges(10, 0, 9, 100), Bounds { x: 10, y: 0, width: 0, height: 100 });
    assert_eq!(Bounds::from_edges(0, 10, 100, -10), Bounds { x: 0, y: 10, width: 100, height: 0 });
    assert_eq!(
        Bounds::from_edges(i32::MAX, i32::MAX, i32::MIN, i32::MIN),
        Bounds { x: i32::MAX, y: i32::MAX, width: 0, height: 0 }
    );
}
