use arknights_macro::tracker::CandidateWindow;
use arknights_macro::tracker::CaptureDecision;
use arknights_macro::tracker::WindowEvent;
use arknights_macro::tracker::WindowService;
use arknights_macro::window::WindowDetectionConfig;
use arknights_macro::window::WindowInfo;

fn candidate(handle: u64, title: &str, process: &str, pos: (i32, i32), size: (u32, u32)) -> CandidateWindow {
    CandidateWindow {
        info: WindowInfo {
            handle,
            position: pos,
            size,
            title: title.to_string(),
            process_id: 1234,
            is_visible: true,
            is_foreground: false,
        },
        process_name: process.to_string(),
    }
}

fn test_config() -> WindowDetectionConfig {
    WindowDetectionConfig {
        target_window_title: "Test Window".to_string(),
        target_process_name: "test.exe".to_string(),
        detection_interval_ms: 500,
        visible_only: true,
        foreground_only: false,
    }
}

#[test]
fn test_window_service_creation() {
    let service = WindowService::new();
    assert!(!service.has_window());
    assert!(service.get_window_info().is_none());
}

#[test]
fn test_window_service_with_config() {
    let config = WindowDetectionConfig {
        target_window_title: "Test Window".to_string(),
        target_process_name: "test.exe".to_string(),
        detection_interval_ms: 500,
        visible_only: false,
        foreground_only: true,
    };

    let service = WindowService::with_config(config.clone());
    assert_eq!(service.detection_config.target_window_title, "Test Window");
    assert_eq!(service.detection_config.detection_interval_ms, 500);
    assert!(!service.detection_config.visible_only);
    assert!(service.detection_config.foreground_only);
}

#[test]
fn test_coordinate_conversion() {
    let mut service = WindowService::with_config(test_config());

    assert!(service.screen_to_window_coords((100, 100)).is_none());
    assert!(service.window_to_screen_coords((50, 50)).is_none());

    let cands = vec![candidate(7, "Test Window", "test.exe", (100, 100), (800, 600))];
    let event = service.process_poll(&cands);
    assert!(matches!(event, Some(WindowEvent::WindowFound(_))));

    assert_eq!(service.screen_to_window_coords((150, 150)), Some((50, 50)));
    assert_eq!(service.window_to_screen_coords((50, 50)), Some((150, 150)));

    assert!(service.screen_to_window_coords((50, 50)).is_none());
    assert_eq!(service.window_to_screen_coords((0, 0)), Some((100, 100)));
}

#[test]
fn test_screen_to_window_offset() {
    let mut service = WindowService::with_config(test_config());
    let (wx, wy) = (250, 300);
    let (w, h) = (640, 480);
    let cands = vec![candidate(3, "Test Window", "test.exe", (wx, wy), (w, h))];
    service.process_poll(&cands);

    assert_eq!(service.screen_to_window_coords((wx + 5, wy + 5)), Some((5, 5)));
    assert_eq!(service.screen_to_window_coords((wx - 1, wy + 5)), None);
    assert_eq!(service.screen_to_window_coords((wx + w as i32, wy)), None);
    assert_eq!(service.screen_to_window_coords((wx, wy + h as i32)), None);
}

#[test]
fn test_poll_cycle_events() {
    let mut service = WindowService::with_config(test_config());

    // First poll with one matching window: Found.
    let found = vec![candidate(9, "My Test Window 1", "Test.EXE", (10, 20), (300, 200))];
    match service.process_poll(&found) {
        Some(WindowEvent::WindowFound(w)) => {
            assert_eq!(w.handle, 9);
            assert_eq!(w.position, (10, 20));
        }
        other => panic!("expected the window to be found, got {:?}", other),
    }

    // Identical geometry: nothing.
    assert!(service.process_poll(&found).is_none());

    // Changed position: exactly one Updated.
    let moved = vec![candidate(9, "My Test Window 1", "Test.EXE", (40, 20), (300, 200))];
    match service.process_poll(&moved) {
        Some(WindowEvent::WindowUpdated(w)) => assert_eq!(w.position, (40, 20)),
        other => panic!("expected an update, got {:?}", other),
    }

    // No match: exactly one Lost.
    let none: Vec<CandidateWindow> = Vec::new();
    assert!(matches!(service.process_poll(&none), Some(WindowEvent::WindowLost)));
    assert!(!service.has_window());

    // Still no match: nothing further.
    assert!(service.process_poll(&none).is_none());
}

#[test]
fn test_first_match_wins() {
    let mut service = WindowService::with_config(test_config());
    let cands = vec![
        candidate(1, "Unrelated", "other.exe", (0, 0), (10, 10)),
        candidate(2, "A Test Window", "test.exe", (5, 5), (20, 20)),
        candidate(3, "Another Test Window", "test.exe", (9, 9), (30, 30)),
    ];
    match service.process_poll(&cands) {
        Some(WindowEvent::WindowFound(w)) => assert_eq!(w.handle, 2),
        other => panic!("expected the first matching window, got {:?}", other),
    }
}

#[test]
fn test_visibility_filter() {
    let mut service = WindowService::with_config(test_config());
    let mut hidden = candidate(4, "Test Window", "test.exe", (0, 0), (10, 10));
    hidden.info.is_visible = false;
    assert!(service.process_poll(&vec![hidden]).is_none());
    assert!(!service.has_window());
}

#[test]
fn test_capture_throttling() {
    let mut service = WindowService::with_config(test_config());

    // Without a session window the capture is refused.
    assert!(matches!(
        service.begin_capture(1_000),
        Err(arknights_macro::errors::WindowError::WindowNotFound)
    ));

    // With a window the first request acquires a fresh buffer.
    let cands = vec![candidate(5, "Test Window", "test.exe", (0, 0), (100, 100))];
    service.process_poll(&cands);
    service.set_cache_duration(10);
    assert_eq!(service.begin_capture(1_000), Ok(CaptureDecision::Acquire));

    // Within the cache window the same buffer is reused.
    assert_eq!(service.begin_capture(1_005), Ok(CaptureDecision::Cached));

    // Past the cache but inside the throttle interval the request is
    // refused outright.
    assert!(matches!(
        service.begin_capture(1_020),
        Err(arknights_macro::errors::WindowError::CaptureError(_))
    ));

    // Past the throttle a new acquisition is admitted.
    assert_eq!(service.begin_capture(1_050), Ok(CaptureDecision::Acquire));

    // Clearing the cache forces the throttle decision again.
    service.clear_cache();
    assert!(service.begin_capture(1_060).is_err());
    assert_eq!(service.begin_capture(1_200), Ok(CaptureDecision::Acquire));
}

#[test]
fn test_refresh_window_info_tracks_handle() {
    let mut service = WindowService::with_config(test_config());
    let cands = vec![candidate(6, "Test Window", "test.exe", (0, 0), (100, 100))];
    service.process_poll(&cands);

    // Same handle, new geometry: updated in place.
    let moved = vec![candidate(6, "Test Window", "test.exe", (50, 50), (100, 100))];
    assert!(service.refresh_window_info(&moved).is_ok());
    assert_eq!(service.get_window_info().unwrap().position, (50, 50));

    // A different window matching instead: the session is reported closed.
    let replaced = vec![candidate(7, "Test Window", "test.exe", (0, 0), (100, 100))];
    assert!(matches!(
        service.refresh_window_info(&replaced),
        Err(arknights_macro::errors::WindowError::WindowClosed)
    ));

    // No match at all: not found.
    let none: Vec<CandidateWindow> = Vec::new();
    assert!(matches!(
        service.refresh_window_info(&none),
        Err(arknights_macro::errors::WindowError::WindowNotFound)
    ));
}

#[test]
fn test_window_contains_point() {
    let w = WindowInfo {
        handle: 1,
        position: (10, 10),
        size: (100, 50),
        title: "w".to_string(),
        process_id: 0,
        is_visible: true,
        is_foreground: false,
    };
    assert!(w.contains_point(10, 10));
    assert!(w.contains_point(109, 59));
    assert!(!w.contains_point(110, 10));
    assert!(!w.contains_point(10, 60));
    assert!(!w.contains_point(9, 10));
    assert_eq!(w.center(), (60, 35));
}
