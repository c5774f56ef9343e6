use screenshot::cli::{monitor_index, Args, CaptureMode, MonitorIdError};

fn args(window: Option<&str>, monitor: Option<usize>, primary: bool) -> Args {
    Args {
        window: window.map(|w| w.to_string()),
        monitor,
        primary,
        output_file: "screenshot.png".to_string(),
    }
}

#[test]
fn window_query_selects_window_mode() {
    match args(Some("notepad"), None, false).capture_mode() {
        CaptureMode::Window(q) => assert_eq!(q, "notepad"),
        _ => panic!("expected window mode"),
    }
}

#[test]
fn monitor_index_selects_monitor_mode() {
    assert!(matches!(args(None, Some(2), false).capture_mode(), CaptureMode::Monitor(2)));
}

#[test]
fn nothing_selects_primary() {
    assert!(matches!(args(None, None, false).capture_mode(), CaptureMode::Primary));
    assert!(matches!(args(None, None, true).capture_mode(), CaptureMode::Primary));
}

#[test]
fn monitor_id_zero_is_rejected() {
    assert_eq!(monitor_index(0, 2), Err(MonitorIdError::Zero));
    assert_eq!(monitor_index(0, 0), Err(MonitorIdError::Zero));
}

#[test]
fn monitor_id_above_count_is_rejected() {
    assert_eq!(monitor_index(3, 2), Err(MonitorIdError::OutOfRange));
    assert_eq!(monitor_index(1, 0), Err(MonitorIdError::OutOfRange));
    assert_eq!(monitor_index(usize::MAX, 2), Err(MonitorIdError::OutOfRange));
}

#[test]
fn monitor_ids_start_at_one() {
    assert_eq!(monitor_index(1, 2), Ok(0));
    assert_eq!(monitor_index(2, 2), Ok(1));
}
