use rainydesk::window_detector::{
    classify_window, get_visible_windows, Bounds, PollCounter, RawWindow, Rect, Rejection,
};

fn normal() -> RawWindow {
    RawWindow {
        visible: true,
        iconic: false,
        placement_minimized: false,
        cloaked: false,
        on_current_desktop: Some(true),
        maximized: false,
        frame_bounds: Some(Rect { left: 100, top: 120, right: 900, bottom: 720 }),
        window_rect: Some(Rect { left: 93, top: 120, right: 907, bottom: 727 }),
        class_name: "Notepad".to_string(),
        title: "notes.txt - Notepad".to_string(),
    }
}

fn reason(w: &RawWindow) -> Option<Rejection> {
    classify_window(w).err()
}

#[test]
fn normal_window_is_solid_with_its_frame_bounds() {
    let info = classify_window(&normal()).unwrap();
    assert_eq!(info.bounds, Bounds { x: 100, y: 120, width: 800, height: 600 });
    assert_eq!(info.title, "notes.txt - Notepad");
    assert!(!info.is_maximized);
    let mut max = normal();
    max.maximized = true;
    assert!(classify_window(&max).unwrap().is_maximized);
}

#[test]
fn minimized_window_is_excluded() {
    let mut w = normal();
    w.iconic = true;
    assert_eq!(reason(&w), Some(Rejection::Minimized));
    let mut w = normal();
    w.placement_minimized = true;
    assert_eq!(reason(&w), Some(Rejection::Minimized));
}

#[test]
fn tiny_window_is_excluded() {
    let mut w = normal();
    w.frame_bounds = Some(Rect { left: 0, top: 0, right: 10, bottom: 10 });
    assert_eq!(reason(&w), Some(Rejection::TooSmall));
    w.frame_bounds = Some(Rect { left: 0, top: 0, right: 49, bottom: 600 });
    assert_eq!(reason(&w), Some(Rejection::TooSmall));
    w.frame_bounds = Some(Rect { left: 0, top: 0, right: 600, bottom: 49 });
    assert_eq!(reason(&w), Some(Rejection::TooSmall));
    w.frame_bounds = Some(Rect { left: 200, top: 200, right: 250, bottom: 250 });
    assert_eq!(
        classify_window(&w).unwrap().bounds,
        Bounds { x: 200, y: 200, width: 50, height: 50 }
    );
}

#[test]
fn untitled_window_is_excluded() {
    let mut w = normal();
    w.title = String::new();
    assert_eq!(reason(&w), Some(Rejection::Untitled));
}

#[test]
fn invisible_and_cloaked_windows_are_excluded() {
    let mut w = normal();
    w.visible = false;
    w.iconic = true;
    assert_eq!(reason(&w), Some(Rejection::NotVisible));
    let mut w = normal();
    w.cloaked = true;
    assert_eq!(reason(&w), Some(Rejection::Cloaked));
}

#[test]
fn window_on_another_desktop_is_excluded_but_unknown_is_kept() {
    let mut w = normal();
    w.on_current_desktop = Some(false);
    assert_eq!(reason(&w), Some(Rejection::OtherDesktop));
    w.on_current_desktop = None;
    assert!(classify_window(&w).is_ok());
}

#[test]
fn bounds_fall_back_to_the_window_rectangle() {
    let mut w = normal();
    w.frame_bounds = None;
    assert_eq!(
        classify_window(&w).unwrap().bounds,
        Bounds { x: 93, y: 120, width: 814, height: 607 }
    );
    w.window_rect = None;
    assert_eq!(reason(&w), Some(Rejection::NoBounds));
}

#[test]
fn degenerate_bounds_are_excluded() {
    let mut w = normal();
    w.frame_bounds = Some(Rect { left: 100, top: 100, right: 100, bottom: 700 });
    assert_eq!(reason(&w), Some(Rejection::Degenerate));
    w.frame_bounds = Some(Rect { left: 100, top: 100, right: 700, bottom: 50 });
    assert_eq!(reason(&w), Some(Rejection::Degenerate));
    w.frame_bounds = Some(Rect { left: i32::MAX, top: 0, right: i32::MIN, bottom: 600 });
    assert_eq!(reason(&w), Some(Rejection::Degenerate));
    w.frame_bounds = Some(Rect { left: i32::MIN, top: i32::MIN, right: i32::MAX, bottom: i32::MAX });
    assert_eq!(
        classify_window(&w).unwrap().bounds,
        Bounds { x: i32::MIN, y: i32::MIN, width: u32::MAX, height: u32::MAX }
    );
}

#[test]
fn system_classes_are_excluded() {
    for class in [
        "CEF-OSC-WIDGET",
        "Progman",
        "WorkerW",
        "Shell_TrayWnd",
        "Shell_SecondaryTrayWnd",
        "NotifyIconOverflowWindow",
        "Windows.UI.Core.CoreWindow",
        "XamlExplorerHostIslandWindow",
        "ForegroundStaging",
        "MultitaskingViewFrame",
        "XamlWindow",
    ] {
        let mut w = normal();
        w.class_name = class.to_string();
        assert_eq!(reason(&w), Some(Rejection::SystemClass));
    }
    for class in ["", "progman", "Progman ", "ApplicationFrameWindow", "XamlWindow2"] {
        let mut w = normal();
        w.class_name = class.to_string();
        assert!(classify_window(&w).is_ok());
    }
}

#[test]
fn phantom_windows_are_excluded() {
    let mut w = normal();
    w.frame_bounds = Some(Rect { left: 0, top: 0, right: 1000, bottom: 1001 });
    assert_eq!(reason(&w), Some(Rejection::Phantom));
    w.frame_bounds = Some(Rect { left: -49, top: 49, right: 51, bottom: 1849 });
    assert_eq!(reason(&w), Some(Rejection::Phantom));
    // Not near the origin.
    w.frame_bounds = Some(Rect { left: 50, top: 0, right: 1050, bottom: 1001 });
    assert!(classify_window(&w).is_ok());
    w.frame_bounds = Some(Rect { left: 0, top: -50, right: 1000, bottom: 1001 });
    assert!(classify_window(&w).is_ok());
    // Not taller than wide.
    w.frame_bounds = Some(Rect { left: 0, top: 0, right: 1000, bottom: 1000 });
    assert!(classify_window(&w).is_ok());
    // Tall but small.
    w.frame_bounds = Some(Rect { left: 0, top: 0, right: 999, bottom: 1799 });
    assert!(classify_window(&w).is_ok());
}

#[test]
fn own_and_tooling_windows_are_excluded() {
    let mut w = normal();
    w.title = "RainyDesk Rainscaper".to_string();
    assert_eq!(reason(&w), Some(Rejection::OwnWindow));
    w.title = "RainyDesk".to_string();
    assert_eq!(reason(&w), Some(Rejection::OwnWindow));
    w.title = "C:\\src\\RainyDesk - Terminal".to_string();
    assert!(classify_window(&w).is_ok());
    w.title = "DevTools - localhost".to_string();
    assert_eq!(reason(&w), Some(Rejection::DevTools));
    w.title = "Chrome DevTools".to_string();
    assert_eq!(reason(&w), Some(Rejection::DevTools));
    w.title = "devtools".to_string();
    assert!(classify_window(&w).is_ok());
}

#[test]
fn system_overlays_are_excluded() {
    for title in [
        "Windows Input Experience",
        "Microsoft Text Input Application",
        "Task Switching",
        "Task View",
    ] {
        let mut w = normal();
        w.title = title.to_string();
        assert_eq!(reason(&w), Some(Rejection::SystemOverlay));
    }
    let mut w = normal();
    w.title = "Task View 2".to_string();
    assert!(classify_window(&w).is_ok());
}

#[test]
fn earlier_tests_reject_first() {
    let mut w = normal();
    w.title = String::new();
    w.class_name = "Progman".to_string();
    assert_eq!(reason(&w), Some(Rejection::SystemClass));
    w.frame_bounds = Some(Rect { left: 0, top: 0, right: 10, bottom: 10 });
    assert_eq!(reason(&w), Some(Rejection::TooSmall));
    w.cloaked = true;
    assert_eq!(reason(&w), Some(Rejection::Cloaked));
}

#[test]
fn only_solid_windows_are_emitted_in_order() {
    let mut minimized = normal();
    minimized.iconic = true;
    let mut tiny = normal();
    tiny.frame_bounds = Some(Rect { left: 0, top: 0, right: 10, bottom: 10 });
    let mut untitled = normal();
    untitled.title = String::new();
    let mut second = normal();
    second.title = "Second".to_string();
    second.frame_bounds = Some(Rect { left: -800, top: 0, right: 0, bottom: 600 });
    let data = get_visible_windows(&vec![minimized, normal(), tiny, untitled, second]);
    assert_eq!(data.windows.len(), 2);
    assert_eq!(data.windows[0].title, "notes.txt - Notepad");
    assert_eq!(data.windows[0].bounds, Bounds { x: 100, y: 120, width: 800, height: 600 });
    assert_eq!(data.windows[1].title, "Second");
    assert_eq!(data.windows[1].bounds, Bounds { x: -800, y: 0, width: 800, height: 600 });
    assert!(get_visible_windows(&Vec::new()).windows.is_empty());
}

#[test]
fn polls_are_logged_once_in_six_hundred() {
    let mut counter = PollCounter::new();
    assert!(counter.should_log());
    assert!(counter.finish_poll());
    let mut logged = 0;
    for _ in 1..1200 {
        if counter.finish_poll() {
            logged += 1;
        }
    }
    assert_eq!(logged, 1);
    assert_eq!(counter.count, 1200);
    assert!(counter.should_log());
    let mut last = PollCounter { count: u32::MAX };
    assert!(!last.finish_poll());
    assert_eq!(last.count, 0);
}
