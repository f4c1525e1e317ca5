use tray_hotkey::filter::is_target;
use tray_hotkey::forward::{forward_plan, hotkey_response, KeyMessage, MSG_KEY_DOWN, MSG_KEY_UP, VK_BACKTICK, KEYSTROKE_FLAGS};

const SOME_WINDOW: usize = 0x10f4;

#[test]
fn null_handle_is_never_target() {
    assert!(!is_target(0, "main.rs - Visual Studio Code"));
    assert!(!is_target(0, "VS Code"));
}

#[test]
fn unrecognized_trailing_segment_is_not_target() {
    assert!(!is_target(SOME_WINDOW, "Untitled — Notepad"));
    assert!(!is_target(SOME_WINDOW, "Untitled - Notepad"));
    assert!(!is_target(SOME_WINDOW, "report.txt - Word"));
    assert!(!is_target(SOME_WINDOW, ""));
}

#[test]
fn full_editor_name_after_separator_is_target() {
    assert!(is_target(SOME_WINDOW, "main.rs - Visual Studio Code"));
    assert!(is_target(SOME_WINDOW, "main.rs - my-project - Visual Studio Code"));
}

#[test]
fn short_editor_name_after_separator_is_target() {
    assert!(is_target(SOME_WINDOW, "foo.ts - VS Code"));
}

#[test]
fn trailing_segment_is_trimmed_before_comparison() {
    assert!(is_target(SOME_WINDOW, "notes.md - VS Code "));
    assert!(is_target(SOME_WINDOW, "notes.md - \u{00A0}Visual Studio Code\t"));
}

#[test]
fn comparison_is_case_sensitive_and_exact() {
    assert!(!is_target(SOME_WINDOW, "foo.ts - vs code"));
    assert!(!is_target(SOME_WINDOW, "foo.ts - VS Code Insiders"));
    assert!(!is_target(SOME_WINDOW, "foo.ts - myVS Code"));
}

#[test]
fn whole_title_counts_when_no_separator_occurs() {
    // without a separator the trailing segment is the whole title
    assert!(is_target(SOME_WINDOW, "Visual Studio Code"));
    assert!(!is_target(SOME_WINDOW, "some Visual Studio Code story"));
}

#[test]
fn forward_plan_is_key_down_then_key_up() {
    let msgs = forward_plan(SOME_WINDOW);
    assert_eq!(msgs.len(), 2);
    assert_eq!(
        msgs[0],
        KeyMessage { window: SOME_WINDOW, message: MSG_KEY_DOWN, key: VK_BACKTICK, flags: KEYSTROKE_FLAGS }
    );
    assert_eq!(
        msgs[1],
        KeyMessage { window: SOME_WINDOW, message: MSG_KEY_UP, key: VK_BACKTICK, flags: KEYSTROKE_FLAGS }
    );
}

#[test]
fn hotkey_on_target_window_posts_exactly_one_keystroke_pair() {
    let msgs = hotkey_response(SOME_WINDOW, "foo.ts - VS Code");
    assert_eq!(msgs.len(), 2);
    assert_eq!(msgs[0].window, SOME_WINDOW);
    assert_eq!(msgs[0].message, MSG_KEY_DOWN);
    assert_eq!(msgs[0].key, VK_BACKTICK);
    assert_eq!(msgs[1].window, SOME_WINDOW);
    assert_eq!(msgs[1].message, MSG_KEY_UP);
    assert_eq!(msgs[1].key, VK_BACKTICK);
}

#[test]
fn hotkey_elsewhere_posts_nothing() {
    assert!(hotkey_response(SOME_WINDOW, "Untitled - Notepad").is_empty());
    assert!(hotkey_response(0, "foo.ts - VS Code").is_empty());
}

#[test]
fn keystroke_flags_mark_single_non_extended_press() {
    // repeat count one in the low word, scan code in the byte above it
    assert_eq!(KEYSTROKE_FLAGS & 0xFFFF, 1);
    assert_eq!(KEYSTROKE_FLAGS >> 16, 0b10);
}
