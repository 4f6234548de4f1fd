use rainydesk::commands::{open_url, update_rainscape_param, ReadyFlags, UrlError};
use rainydesk::display::{
    display_index, get_all_displays, get_display_info, DisplayError, DisplayInfo,
};
use rainydesk::health::Surface;
use rainydesk::logging::{
    cleanup_old_logs, is_oversized_log, is_rainydesk_log, log_file_stem, new_session_log_name,
    session_log_name,
};
use rainydesk::platform::{
    collect_system_specs, describe_system, get_accent_color_from_registry, get_gpu_name,
    get_gpu_vram_gb, get_windows_accent_color, gib_tenths, is_dark_theme, load_theme_icon,
    theme_icon_bytes,
};
use rainydesk::rainscape::{
    is_rain_file, normalize_rain_filename, read_location, save_location, startup_rainscape_name,
    Location, MigrationTally,
};
use rainydesk::tray::{
    handle_menu_event, handle_tray_click, pause_menu_text, rainscaper_menu_text, MenuAction,
    PanelAction,
};
use rainydesk::types::{Bounds, Monitor};

const WHITE_ICON: [u8; 69] = [
    137, 80, 78, 71, 13, 10, 26, 10, 0, 0, 0, 13, 73, 72, 68, 82, 0, 0, 0, 2, 0, 0, 0, 1, 8, 6, 0,
    0, 0, 244, 34, 127, 138, 0, 0, 0, 12, 73, 68, 65, 84, 120, 156, 99, 248, 15, 1, 13, 0, 35, 102,
    7, 122, 110, 140, 31, 6, 0, 0, 0, 0, 73, 69, 78, 68, 174, 66, 96, 130,
];

const BLACK_ICON: [u8; 75] = [
    137, 80, 78, 71, 13, 10, 26, 10, 0, 0, 0, 13, 73, 72, 68, 82, 0, 0, 0, 1, 0, 0, 0, 2, 8, 6, 0,
    0, 0, 153, 129, 182, 39, 0, 0, 0, 18, 73, 68, 65, 84, 120, 156, 99, 96, 96, 96, 248, 207, 192,
    37, 34, 167, 1, 0, 6, 204, 1, 100, 39, 220, 135, 219, 0, 0, 0, 0, 73, 69, 78, 68, 174, 66, 96,
    130,
];

#[test]
fn stored_names_end_in_rain() {
    assert_eq!(normalize_rain_filename("storm.rain"), "storm.rain");
    assert_eq!(normalize_rain_filename("storm.json"), "storm.rain");
    assert_eq!(normalize_rain_filename("storm"), "storm.rain");
    assert_eq!(normalize_rain_filename(""), ".rain");
    assert_eq!(normalize_rain_filename("a.json.json"), "a.rain.rain");
    assert_eq!(normalize_rain_filename("my.jsonfile.json"), "my.rainfile.rain");
    assert_eq!(normalize_rain_filename("a.json.rain"), "a.json.rain");
    assert_eq!(normalize_rain_filename("a.json.txt"), "a.json.txt.rain");
    assert_eq!(normalize_rain_filename("..json"), "..rain");
    assert_eq!(normalize_rain_filename("r\u{e9}gn.json.JSON.json"), "r\u{e9}gn.rain.JSON.rain");
    for name in ["x.json", ".json.json.json", "a.jso.json", ".j.json"] {
        assert_eq!(normalize_rain_filename(name), name.replace(".json", ".rain"));
    }
}

#[test]
fn rainscapes_are_saved_and_read_in_their_places() {
    assert_eq!(save_location("Autosave.rain"), Location::Root);
    assert_eq!(save_location("Default.rain"), Location::Root);
    assert_eq!(save_location("Storm.rain"), Location::Custom);
    assert_eq!(save_location("autosave.rain"), Location::Custom);
    assert_eq!(read_location(true, true), Some(Location::Root));
    assert_eq!(read_location(true, false), Some(Location::Root));
    assert_eq!(read_location(false, true), Some(Location::Custom));
    assert_eq!(read_location(false, false), None);
    assert_eq!(startup_rainscape_name(true), "Autosave.rain");
    assert_eq!(startup_rainscape_name(false), "Default.rain");
}

#[test]
fn rain_files_have_the_extension_rain() {
    assert!(is_rain_file("storm.rain", true));
    assert!(is_rain_file("a.b.rain", true));
    assert!(is_rain_file("..rain", true));
    assert!(!is_rain_file("storm.rain", false));
    assert!(!is_rain_file(".rain", true));
    assert!(!is_rain_file("rain", true));
    assert!(!is_rain_file("storm.RAIN", true));
    assert!(!is_rain_file("storm.rain.bak", true));
    assert!(!is_rain_file("", true));
    for name in ["storm.rain", ".rain", "x.rain", "rain", "a.rain.rain", "a."] {
        let expected = std::path::Path::new(name).extension().map(|e| e == "rain").unwrap_or(false);
        assert_eq!(is_rain_file(name, true), expected);
    }
}

#[test]
fn migration_keeps_the_old_directory_after_a_failure() {
    assert!(MigrationTally::should_copy("a.rain", true, false));
    assert!(!MigrationTally::should_copy("a.rain", true, true));
    assert!(!MigrationTally::should_copy("a.txt", true, false));
    assert!(!MigrationTally::should_copy("a.rain", false, false));
    let mut tally = MigrationTally::new();
    assert!(tally.may_remove_old());
    tally.record(true);
    tally.record(true);
    assert_eq!(tally, MigrationTally { migrated: 2, failed: 0 });
    assert!(tally.may_remove_old());
    tally.record(false);
    assert_eq!(tally, MigrationTally { migrated: 2, failed: 1 });
    assert!(!tally.may_remove_old());
}

#[test]
fn session_logs_are_named_after_their_start() {
    assert_eq!(session_log_name("2025-01-31_23-59-58"), "RainyDesk_2025-01-31_23-59-58.log");
    assert_eq!(session_log_name(""), "RainyDesk_.log");
    assert!(is_rainydesk_log("RainyDesk_2025-01-31_23-59-58.log"));
    assert!(is_rainydesk_log("RainyDesk_.log"));
    assert!(!is_rainydesk_log("RainyDesk.log"));
    assert!(!is_rainydesk_log("RainyDesk_1.log.old"));
    assert!(!is_rainydesk_log("rainydesk_1.log"));
    assert!(!is_rainydesk_log("RainyDesk_"));
}

#[test]
fn new_session_log_carries_the_local_time() {
    let name = new_session_log_name();
    assert!(is_rainydesk_log(&name));
    let stamp = &name["RainyDesk_".len()..name.len() - ".log".len()];
    let parts: Vec<&str> = stamp.split(|c| c == '-' || c == '_').collect();
    assert_eq!(parts.len(), 6);
    assert!(parts.iter().all(|p| !p.is_empty() && p.chars().all(|c| c.is_ascii_digit())));
    assert!(parts[0].parse::<i32>().unwrap() >= 2024);
    assert!((1..=12).contains(&parts[1].parse::<u32>().unwrap()));
    assert!((1..=31).contains(&parts[2].parse::<u32>().unwrap()));
    assert!(parts[3].parse::<u32>().unwrap() < 24);
    assert!(parts[4].parse::<u32>().unwrap() < 60);
    assert!(parts[5].parse::<u32>().unwrap() < 61);
}

#[test]
fn old_logs_make_room_for_the_new_one() {
    assert_eq!(cleanup_old_logs(0, 5), 0);
    assert_eq!(cleanup_old_logs(4, 5), 0);
    assert_eq!(cleanup_old_logs(5, 5), 1);
    assert_eq!(cleanup_old_logs(9, 5), 5);
    assert_eq!(cleanup_old_logs(3, 1), 3);
    assert_eq!(cleanup_old_logs(usize::MAX, 1), usize::MAX);
    assert!(is_oversized_log(Some(1_048_577), 1_048_576));
    assert!(!is_oversized_log(Some(1_048_576), 1_048_576));
    assert!(!is_oversized_log(None, 0));
}

#[test]
fn log_stem_drops_every_trailing_extension() {
    assert_eq!(log_file_stem("RainyDesk_1.log"), "RainyDesk_1");
    assert_eq!(log_file_stem("a.log.log"), "a");
    assert_eq!(log_file_stem(".log"), "");
    assert_eq!(log_file_stem("a.log.txt"), "a.log.txt");
    assert_eq!(log_file_stem("plain"), "plain");
    for name in ["x.log", "x.log.log.log", "log", "", ".log.log"] {
        assert_eq!(log_file_stem(name), name.trim_end_matches(".log"));
    }
}

#[test]
fn theme_follows_the_light_theme_setting() {
    assert!(is_dark_theme(Some(0)));
    assert!(!is_dark_theme(Some(1)));
    assert!(!is_dark_theme(Some(7)));
    assert!(is_dark_theme(None));
}

#[test]
fn accent_colour_is_rendered_as_hex() {
    assert_eq!(get_accent_color_from_registry(Some(0xffd47800)), Some("#0078d4".to_string()));
    assert_eq!(get_accent_color_from_registry(Some(0x00000000)), Some("#000000".to_string()));
    assert_eq!(get_accent_color_from_registry(Some(0xffffffff)), Some("#ffffff".to_string()));
    assert_eq!(get_accent_color_from_registry(Some(0x12abcdef)), Some("#efcdab".to_string()));
    assert_eq!(get_accent_color_from_registry(Some(0x00030201)), Some("#010203".to_string()));
    assert_eq!(get_accent_color_from_registry(None), None);
    assert_eq!(get_windows_accent_color(None), "#0078d4");
    assert_eq!(get_windows_accent_color(Some(0x0000ff)), "#ff0000");
    for value in [0u32, 1, 0x9a8b7c6d, 0x00f0_0f10, u32::MAX] {
        let expected =
            format!("#{:02x}{:02x}{:02x}", value & 0xff, (value >> 8) & 0xff, (value >> 16) & 0xff);
        assert_eq!(get_accent_color_from_registry(Some(value)), Some(expected));
    }
}

#[test]
fn adapter_name_is_the_first_line_after_the_header() {
    assert_eq!(
        get_gpu_name(Some("Name  \r\r\nNVIDIA GeForce RTX 3080  \r\r\nIntel UHD\r\r\n")),
        Some("NVIDIA GeForce RTX 3080".to_string())
    );
    assert_eq!(get_gpu_name(Some("Name\n\n   \n  Radeon \t\nOther")), Some("Radeon".to_string()));
    assert_eq!(get_gpu_name(Some("Name\nA B")), Some("A B".to_string()));
    assert_eq!(get_gpu_name(Some("\nx")), Some("x".to_string()));
    assert_eq!(get_gpu_name(Some("Name")), None);
    assert_eq!(get_gpu_name(Some("Name\n")), None);
    assert_eq!(get_gpu_name(Some("Name\n  \r\n\t")), None);
    assert_eq!(get_gpu_name(Some("")), None);
    assert_eq!(get_gpu_name(None), None);
    for text in ["Name\nA\rB \nC", "h\n \u{a0}x\u{a0} \n", "one line", "a\n\nb", "\n\n\n"] {
        let expected = text
            .lines()
            .skip(1)
            .find(|line| !line.trim().is_empty())
            .map(|line| line.trim().to_string());
        assert_eq!(get_gpu_name(Some(text)), expected);
    }
}

#[test]
fn memory_sizes_are_rounded_to_tenths() {
    assert_eq!(gib_tenths(0), 0);
    assert_eq!(gib_tenths(1 << 30), 10);
    assert_eq!(gib_tenths(8 << 30), 80);
    assert_eq!(gib_tenths(17_179_869_184 - 1), 160);
    assert_eq!(gib_tenths(12_884_901_888), 120);
    assert_eq!(gib_tenths(53_687_091), 0);
    assert_eq!(gib_tenths(53_687_092), 1);
    assert_eq!(gib_tenths(u64::MAX), 171_798_691_840);
    assert_eq!(get_gpu_vram_gb(&vec![None, Some(4 << 30), Some(10 << 30), Some(1 << 30)]), Some(100));
    assert_eq!(get_gpu_vram_gb(&vec![None, Some(0), None, None]), None);
    assert_eq!(get_gpu_vram_gb(&Vec::new()), None);
}

#[test]
fn missing_hardware_names_are_unknown() {
    let specs = describe_system(Some("  Intel(R) Core(TM) i7 \t"), 16 << 30, None, None);
    assert_eq!(specs.cpu_model, "Intel(R) Core(TM) i7");
    assert_eq!(specs.gpu_model, "Unknown");
    assert_eq!(specs.gpu_vram_tenths_gb, None);
    assert_eq!(specs.total_ram_tenths_gb, 160);
    let specs = describe_system(None, 0, Some("RTX".to_string()), Some(80));
    assert_eq!(specs.cpu_model, "Unknown");
    assert_eq!(specs.gpu_model, "RTX");
    assert_eq!(specs.gpu_vram_tenths_gb, Some(80));
    assert_eq!(specs.total_ram_tenths_gb, 0);
}

#[test]
fn system_specs_are_collected_from_this_machine() {
    let specs = collect_system_specs(Some("Test Adapter".to_string()), Some(40));
    assert_eq!(specs.gpu_model, "Test Adapter");
    assert_eq!(specs.gpu_vram_tenths_gb, Some(40));
    assert!(!specs.cpu_model.is_empty());
    assert_eq!(specs.cpu_model, specs.cpu_model.trim());
    let unknown = collect_system_specs(None, None);
    assert_eq!(unknown.gpu_model, "Unknown");
    assert_eq!(unknown.total_ram_tenths_gb, specs.total_ram_tenths_gb);
}

#[test]
fn theme_icon_is_decoded_to_rgba() {
    let white = load_theme_icon(true, &WHITE_ICON, &BLACK_ICON).unwrap();
    assert_eq!((white.width, white.height), (2, 1));
    assert_eq!(white.rgba, vec![255, 255, 255, 255, 255, 255, 255, 128]);
    let black = load_theme_icon(false, &WHITE_ICON, &BLACK_ICON).unwrap();
    assert_eq!((black.width, black.height), (1, 2));
    assert_eq!(black.rgba, vec![0, 0, 0, 255, 10, 20, 30, 40]);
    assert!(load_theme_icon(true, &[1, 2, 3], &BLACK_ICON).is_none());
    assert!(load_theme_icon(false, &WHITE_ICON, &[]).is_none());
    assert!(load_theme_icon(true, &WHITE_ICON[..40], &BLACK_ICON).is_none());
}

#[test]
fn menu_entries_map_to_actions() {
    assert_eq!(handle_menu_event("quit"), MenuAction::Quit);
    assert_eq!(handle_menu_event("pause"), MenuAction::TogglePause);
    assert_eq!(handle_menu_event("rainscaper"), MenuAction::ToggleRainscaper);
    assert_eq!(handle_menu_event("reset_position"), MenuAction::ResetPosition);
    assert_eq!(handle_menu_event("vol_mute"), MenuAction::SetVolume(0));
    assert_eq!(handle_menu_event("vol_5"), MenuAction::SetVolume(5));
    assert_eq!(handle_menu_event("vol_100"), MenuAction::SetVolume(100));
    assert_eq!(handle_menu_event("vol_-3"), MenuAction::SetVolume(-3));
    assert_eq!(handle_menu_event("vol_"), MenuAction::SetVolume(50));
    assert_eq!(handle_menu_event("vol_loud"), MenuAction::SetVolume(50));
    assert_eq!(handle_menu_event("vol_99999999999"), MenuAction::SetVolume(50));
    assert_eq!(handle_menu_event("volume"), MenuAction::Nothing);
    assert_eq!(handle_menu_event(""), MenuAction::Nothing);
    assert_eq!(handle_menu_event("Quit"), MenuAction::Nothing);
}

#[test]
fn tray_click_toggles_the_panel() {
    assert_eq!(handle_tray_click(true), PanelAction::Hide);
    assert_eq!(handle_tray_click(false), PanelAction::Show);
    assert_eq!(pause_menu_text(true), "Resume");
    assert_eq!(pause_menu_text(false), "Pause");
    assert_eq!(rainscaper_menu_text(true), "Close Rainscaper");
    assert_eq!(rainscaper_menu_text(false), "Open Rainscaper");
}

#[test]
fn only_web_urls_are_opened() {
    assert_eq!(open_url("https://example.org/a?b=c"), Ok(()));
    assert_eq!(open_url("http://example.org"), Ok(()));
    assert_eq!(open_url("http://"), Ok(()));
    assert_eq!(open_url("ftp://example.org"), Err(UrlError::SchemeNotAllowed));
    assert_eq!(open_url("file:///etc/passwd"), Err(UrlError::SchemeNotAllowed));
    assert_eq!(open_url("HTTP://example.org"), Err(UrlError::SchemeNotAllowed));
    assert_eq!(open_url(" https://example.org"), Err(UrlError::SchemeNotAllowed));
    assert_eq!(open_url("https:/example.org"), Err(UrlError::SchemeNotAllowed));
    assert_eq!(open_url(""), Err(UrlError::SchemeNotAllowed));
}

#[test]
fn pause_is_synced_from_its_parameter_only() {
    assert_eq!(update_rainscape_param("system.paused", Some(true)), Some(true));
    assert_eq!(update_rainscape_param("system.paused", Some(false)), Some(false));
    assert_eq!(update_rainscape_param("system.paused", None), None);
    assert_eq!(update_rainscape_param("system.fpsLimit", Some(true)), None);
    assert_eq!(update_rainscape_param("", Some(true)), None);
}

#[test]
fn fade_in_starts_when_both_surfaces_are_ready() {
    let mut flags = ReadyFlags::new();
    assert!(!flags.surface_ready(Surface::Overlay));
    assert!(!flags.surface_ready(Surface::Overlay));
    assert_eq!(flags, ReadyFlags { overlay: true, background: false });
    assert!(flags.surface_ready(Surface::Background));
    assert_eq!(flags, ReadyFlags { overlay: false, background: false });
    assert!(!flags.surface_ready(Surface::Background));
    assert!(flags.surface_ready(Surface::Overlay));
}

#[test]
fn display_index_comes_from_the_label() {
    assert_eq!(display_index("overlay-0"), 0);
    assert_eq!(display_index("overlay-2"), 2);
    assert_eq!(display_index("background-13"), 13);
    assert_eq!(display_index("background-+4"), 4);
    assert_eq!(display_index("overlay"), 0);
    assert_eq!(display_index("overlay-"), 0);
    assert_eq!(display_index("overlay-x"), 0);
    assert_eq!(display_index("overlay--1"), 0);
    assert_eq!(display_index("help-3"), 0);
    assert_eq!(display_index("overlay-background-3"), 0);
    assert_eq!(display_index("overlay-99999999999999999999999999"), 0);
    assert_eq!(display_index(&format!("overlay-{}", usize::MAX)), usize::MAX);
}

#[test]
fn display_info_describes_the_monitor() {
    let bounds = Bounds { x: 1920, y: 0, width: 2560, height: 1440 };
    let work = Bounds { x: 1920, y: 0, width: 2560, height: 1400 };
    let m = Monitor::new(bounds, 1500, Some(work), Some(144));
    assert_eq!(
        get_display_info("background-1", Some(m)),
        Ok(DisplayInfo { index: 1, bounds, work_area: work, scale_permille: 1500, refresh_rate: 144 })
    );
    assert_eq!(get_display_info("overlay", Some(m)).unwrap().index, 0);
    assert_eq!(get_display_info("overlay-1", None), Err(DisplayError::NoMonitor));
    let all = get_all_displays(&vec![Monitor::new(bounds, 1000, None, None), m]);
    assert_eq!(all.len(), 2);
    assert_eq!(
        all[0],
        DisplayInfo {
            index: 0,
            bounds,
            work_area: Bounds { x: 1920, y: 0, width: 2560, height: 1392 },
            scale_permille: 1000,
            refresh_rate: 60,
        }
    );
    assert_eq!(all[1].index, 1);
    assert_eq!(all[1].refresh_rate, 144);
    assert!(get_all_displays(&Vec::new()).is_empty());
}

#[test]
fn icon_bytes_follow_the_theme() {
    assert_eq!(theme_icon_bytes(true, &WHITE_ICON, &BLACK_ICON), &WHITE_ICON[..]);
    assert_eq!(theme_icon_bytes(false, &WHITE_ICON, &BLACK_ICON), &BLACK_ICON[..]);
    assert_eq!(theme_icon_bytes(true, &[], &[1]), &[0u8; 0][..]);
    assert_eq!(theme_icon_bytes(false, &[], &[1]), &[1u8][..]);
}
