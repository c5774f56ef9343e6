use screenshot::select::{lookup_outcome, parse_selection, parse_usize, selection_from, Selection, WindowLookup};
use screenshot::window::{
    find_window, is_known_blocked_window, lowered_title_contains, select_capturable_windows,
    truncate_to_first_null_char, CaptureWindowCandidate, ObservedWindow, WindowHandle, WindowInfo,
    DWM_CLOAKED_SHELL, WS_DISABLED, WS_EX_TOOLWINDOW,
};

fn info(handle: isize, title: &str, class_name: &str) -> WindowInfo {
    WindowInfo {
        handle: WindowHandle(handle),
        title: title.to_string(),
        class_name: class_name.to_string(),
    }
}

fn observed(handle: isize, title: &str, class_name: &str) -> ObservedWindow {
    ObservedWindow {
        info: info(handle, title, class_name),
        shell_window: WindowHandle(1),
        visible: true,
        root: WindowHandle(handle),
        style: 0x10CF_0000,
        ex_style: 0x100,
        cloaked: None,
    }
}

#[test]
fn truncation_stops_at_first_null() {
    let mut s = "abc\0def\0".to_string();
    truncate_to_first_null_char(&mut s);
    assert_eq!(s, "abc");
    let mut s = "no nulls".to_string();
    truncate_to_first_null_char(&mut s);
    assert_eq!(s, "no nulls");
    let mut s = "\0x".to_string();
    truncate_to_first_null_char(&mut s);
    assert_eq!(s, "");
    let mut s = "caf\u{e9} \u{2014} r\u{e9}sum\u{e9}\0\0\0".to_string();
    truncate_to_first_null_char(&mut s);
    assert_eq!(s, "caf\u{e9} \u{2014} r\u{e9}sum\u{e9}");
}

#[test]
fn window_info_decodes_fixed_buffers() {
    let mut title = [0u16; 16];
    for (i, u) in "Hi \u{e9}".encode_utf16().enumerate() {
        title[i] = u;
    }
    let mut class = [0u16; 8];
    class[0] = 'C' as u16;
    class[1] = 'W' as u16;
    let w = WindowInfo::new(WindowHandle(42), &title, &class);
    assert_eq!(w.handle, WindowHandle(42));
    assert_eq!(w.title, "Hi \u{e9}");
    assert_eq!(w.class_name, "CW");
}

#[test]
fn window_info_replaces_invalid_units() {
    let title = [0xD800u16, 'a' as u16, 0];
    let w = WindowInfo::new(WindowHandle(1), &title, &[0]);
    assert_eq!(w.title, "\u{FFFD}a");
    assert_eq!(w.class_name, "");
}

#[test]
fn title_and_class_must_both_match() {
    let w = info(5, "Task View", "Windows.UI.Core.CoreWindow");
    assert!(w.matches_title_and_class_name("Task View", "Windows.UI.Core.CoreWindow"));
    assert!(!w.matches_title_and_class_name("Task View", "Other"));
    assert!(!w.matches_title_and_class_name("Task", "Windows.UI.Core.CoreWindow"));
}

#[test]
fn known_shell_windows_are_blocked() {
    assert!(is_known_blocked_window(&info(1, "Task View", "Windows.UI.Core.CoreWindow")));
    assert!(is_known_blocked_window(&info(
        1,
        "DesktopWindowXamlSource",
        "Windows.UI.Core.CoreWindow"
    )));
    assert!(is_known_blocked_window(&info(1, "PopupHost", "Xaml_WindowedPopupClass")));
    assert!(!is_known_blocked_window(&info(1, "PopupHost", "Windows.UI.Core.CoreWindow")));
    assert!(!is_known_blocked_window(&info(1, "Untitled - Notepad", "Notepad")));
}

#[test]
fn ordinary_window_is_capturable() {
    assert!(observed(10, "Untitled - Notepad", "Notepad").is_capturable_window());
}

#[test]
fn unsuitable_windows_are_not_capturable() {
    assert!(!observed(10, "", "Notepad").is_capturable_window());
    let mut w = observed(1, "Program Manager", "Progman");
    assert!(!w.is_capturable_window());
    w = observed(10, "Hidden", "Notepad");
    w.visible = false;
    assert!(!w.is_capturable_window());
    w = observed(10, "Child", "Notepad");
    w.root = WindowHandle(11);
    assert!(!w.is_capturable_window());
    w = observed(10, "Disabled", "Notepad");
    w.style |= WS_DISABLED;
    assert!(!w.is_capturable_window());
    w = observed(10, "Tool", "Notepad");
    w.ex_style |= WS_EX_TOOLWINDOW;
    assert!(!w.is_capturable_window());
    assert!(!observed(10, "Task View", "Windows.UI.Core.CoreWindow").is_capturable_window());
}

#[test]
fn cloaked_app_windows_are_not_capturable() {
    let mut w = observed(10, "Settings", "ApplicationFrameWindow");
    assert!(w.is_capturable_window());
    w.cloaked = Some(0);
    assert!(w.is_capturable_window());
    w.cloaked = Some(DWM_CLOAKED_SHELL);
    assert!(!w.is_capturable_window());
    // cloaking only matters for app windows
    let mut w = observed(10, "Untitled - Notepad", "Notepad");
    w.cloaked = Some(DWM_CLOAKED_SHELL);
    assert!(w.is_capturable_window());
}

#[test]
fn console_window_is_left_out() {
    let all = vec![
        observed(10, "Command Prompt", "ConsoleWindowClass"),
        observed(11, "", "Hidden"),
        observed(12, "Untitled - Notepad", "Notepad"),
    ];
    let listed = select_capturable_windows(&all, Some(WindowHandle(10)));
    assert_eq!(listed.len(), 1);
    assert_eq!(listed[0].handle, WindowHandle(12));
    let listed = select_capturable_windows(&all, None);
    assert_eq!(listed.len(), 2);
    assert_eq!(listed[0].title, "Command Prompt");
    assert_eq!(listed[1].title, "Untitled - Notepad");
}

#[test]
fn window_search_ignores_case() {
    let windows = vec![
        info(1, "Untitled - Notepad", "Notepad"),
        info(2, "Calculator", "ApplicationFrameWindow"),
        info(3, "notes.txt - NOTEPAD", "Notepad"),
    ];
    let found = find_window(&windows, "NOTEPAD");
    assert_eq!(found.len(), 2);
    assert_eq!(found[0].handle, WindowHandle(1));
    assert_eq!(found[1].handle, WindowHandle(3));
    assert_eq!(find_window(&windows, "paint").len(), 0);
    assert_eq!(find_window(&windows, "").len(), 3);
}

#[test]
fn lowered_titles_are_searched_as_given() {
    assert!(lowered_title_contains("untitled - notepad", "notepad"));
    assert!(!lowered_title_contains("untitled - notepad", "Notepad"));
    assert!(lowered_title_contains("abc", ""));
    assert!(!lowered_title_contains("ab", "abc"));
    assert!(lowered_title_contains("aab", "ab"));
}

#[test]
fn lookup_depends_on_match_count() {
    assert_eq!(lookup_outcome(0), WindowLookup::NoMatch);
    assert_eq!(lookup_outcome(1), WindowLookup::Single);
    assert_eq!(lookup_outcome(2), WindowLookup::Ambiguous);
}

#[test]
fn decimal_parsing_follows_usize_from_str() {
    assert_eq!(parse_usize("12"), Some(12));
    assert_eq!(parse_usize("007"), Some(7));
    assert_eq!(parse_usize("+7"), Some(7));
    assert_eq!(parse_usize(""), None);
    assert_eq!(parse_usize("+"), None);
    assert_eq!(parse_usize("-1"), None);
    assert_eq!(parse_usize("1a"), None);
    assert_eq!(parse_usize(" 1"), None);
    assert_eq!(parse_usize(&usize::MAX.to_string()), Some(usize::MAX));
    assert_eq!(parse_usize(&format!("{}0", usize::MAX)), None);
    for s in ["0", "42", "+3", "99999", "1x", "", "++1", "18446744073709551616"] {
        assert_eq!(parse_usize(s), s.parse::<usize>().ok());
    }
}

#[test]
fn prompt_lines_select_quit_pick_or_retry() {
    assert_eq!(parse_selection("q\n", 3), Selection::Quit);
    assert_eq!(parse_selection("Q\r\n", 3), Selection::Quit);
    assert_eq!(parse_selection("1q", 3), Selection::Quit);
    assert_eq!(parse_selection(" 2 \n", 3), Selection::Pick(2));
    assert_eq!(parse_selection("0\r\n", 3), Selection::Pick(0));
    assert_eq!(parse_selection("3\n", 3), Selection::Invalid);
    assert_eq!(parse_selection("abc\n", 3), Selection::Invalid);
    assert_eq!(parse_selection("\n", 3), Selection::Invalid);
}

#[test]
fn selection_from_prepared_line() {
    assert_eq!(selection_from("q", "Q", 2), Selection::Quit);
    assert_eq!(selection_from("1", "1", 2), Selection::Pick(1));
    assert_eq!(selection_from(" 1 ", " 1 ", 2), Selection::Invalid);
}
