use rusty_bubbletea::cursed_renderer::{cursor_placement, frame_switches_screen, insert_rows_fit};
use rusty_bubbletea::color::RgbColor;
use rusty_bubbletea::cursed_renderer::{
    close_ops, encode_cursor_style, frame_rows, frame_wrap, insert_above_layout,
    keyboard_enhancements_flags, mode_changes, progress_bar_op, should_skip_frame, start_ops,
    view_equals, TermOp,
};
use rusty_bubbletea::cursor::{Cursor, CursorShape};
use rusty_bubbletea::keyboard::KeyboardEnhancements;
type Msg = rusty_bubbletea::model::Msg;
use rusty_bubbletea::renderer::PrintLineMsg;
use rusty_bubbletea::screen::WindowSizeMsg;
use rusty_bubbletea::standard_renderer::StandardRenderer;
use rusty_bubbletea::view::{new_progress_bar, MouseMode, ProgressBar, ProgressBarState, View};

fn no_keys() -> KeyboardEnhancements {
    KeyboardEnhancements {
        report_event_types: false,
        report_alternate_keys: false,
        report_all_keys_as_escape_codes: false,
        report_associated_text: false,
    }
}

#[test]
fn standard_renderer_paints_only_changes() {
    let mut r = StandardRenderer::new(60);
    assert_eq!(r.framerate_ms(), 16);
    assert_eq!(r.write("Hello"), b"\rHello\x1b[K\r".to_vec());
    assert_eq!(r.write("Hello"), Vec::<u8>::new());
    assert_eq!(r.write("Hello\nWorld"), b"\nWorld\x1b[K\r".to_vec());
    assert_eq!(r.write("X"), b"\x1b[1AX\x1b[K\x1b[J\r".to_vec());
}

#[test]
fn standard_renderer_frame_rates() {
    assert_eq!(StandardRenderer::new(0).framerate_ms(), 16);
    assert_eq!(StandardRenderer::new(500).framerate_ms(), 8);
    assert_eq!(StandardRenderer::new(1).framerate_ms(), 1000);
}

#[test]
fn standard_renderer_clips_to_the_window() {
    let mut r = StandardRenderer::new(60);
    r.handle_message(&Msg::WindowSize(WindowSizeMsg { width: 3, height: 10 }));
    assert_eq!(r.write("abcdef"), b"\rabc\x1b[K\r".to_vec());
    let mut r = StandardRenderer::new(60);
    r.handle_message(&Msg::WindowSize(WindowSizeMsg { width: 80, height: 2 }));
    assert_eq!(r.write("a\nb\nc"), b"\rb\x1b[K\r\nc\x1b[K\r".to_vec());
}

#[test]
fn standard_renderer_prints_queued_lines_above() {
    let mut r = StandardRenderer::new(60);
    r.handle_message(&Msg::PrintLine(PrintLineMsg { message_body: "note".into() }));
    assert_eq!(r.write("Hi"), b"note\x1b[K\r\n\rHi\x1b[K\r".to_vec());
    assert_eq!(r.write(""), b" \x1b[K\r".to_vec());
}

#[test]
fn standard_renderer_repaint_and_stop() {
    let mut r = StandardRenderer::new(60);
    assert_eq!(r.write("A"), b"\rA\x1b[K\r".to_vec());
    r.repaint();
    assert_eq!(r.write("A"), b"\rA\x1b[K\r".to_vec());
    assert_eq!(r.stop(), b"\x1b[2K\r".to_vec());
    assert_eq!(r.kill(), b"\x1b[2K\r".to_vec());
    assert_eq!(r.clear_screen(), b"\x1b[2J".to_vec());
}

#[test]
fn standard_renderer_terminal_sequences() {
    let mut r = StandardRenderer::new(60);
    assert!(!r.alt_screen());
    assert_eq!(r.enter_alt_screen(), b"\x1b[?1049h".to_vec());
    assert!(r.alt_screen());
    assert_eq!(r.enter_alt_screen(), Vec::<u8>::new());
    assert_eq!(r.write("A"), b"\x1b[1;1H\rA\x1b[K\x1b[1;1H".to_vec());
    assert_eq!(r.exit_alt_screen(), b"\x1b[?1049l".to_vec());
    assert_eq!(r.exit_alt_screen(), Vec::<u8>::new());
    assert_eq!(r.show_cursor(), b"\x1b[?25h".to_vec());
    assert_eq!(r.hide_cursor(), b"\x1b[?25l".to_vec());
    assert_eq!(r.set_window_title("T"), b"\x1b]0;T\x07".to_vec());
    assert_eq!(
        r.enable_mouse_cell_motion(),
        b"\x1b[?1000h\x1b[?1002h\x1b[?1003h\x1b[?1015h\x1b[?1006h".to_vec()
    );
    assert_eq!(r.enable_mouse_all_motion(), r.enable_mouse_cell_motion());
    assert_eq!(
        r.disable_mouse_cell_motion(),
        b"\x1b[?1006l\x1b[?1015l\x1b[?1003l\x1b[?1002l\x1b[?1000l".to_vec()
    );
    assert_eq!(r.disable_mouse_all_motion(), r.disable_mouse_cell_motion());
    r.enable_bracketed_paste();
    assert!(!r.bracketed_paste_active());
    r.enable_report_focus();
    assert!(!r.report_focus());
}

#[test]
fn kitty_flags_and_cursor_styles() {
    assert_eq!(keyboard_enhancements_flags(&no_keys()), 1);
    let all = KeyboardEnhancements {
        report_event_types: true,
        report_alternate_keys: true,
        report_all_keys_as_escape_codes: true,
        report_associated_text: true,
    };
    assert_eq!(keyboard_enhancements_flags(&all), 31);
    assert_eq!(encode_cursor_style(CursorShape::CursorBlock, true), 1);
    assert_eq!(encode_cursor_style(CursorShape::CursorBlock, false), 2);
    assert_eq!(encode_cursor_style(CursorShape::CursorUnderline, true), 3);
    assert_eq!(encode_cursor_style(CursorShape::CursorUnderline, false), 4);
    assert_eq!(encode_cursor_style(CursorShape::CursorBar, true), 5);
    assert_eq!(encode_cursor_style(CursorShape::CursorBar, false), 6);
}

#[test]
fn progress_bar_operations() {
    assert_eq!(new_progress_bar(ProgressBarState::ProgressBarDefault, 150).value, 100);
    assert_eq!(progress_bar_op(None), TermOp::ResetProgressBar);
    assert_eq!(
        progress_bar_op(Some(ProgressBar { state: ProgressBarState::ProgressBarDefault, value: 50 })),
        TermOp::SetProgressBar(50)
    );
    assert_eq!(
        progress_bar_op(Some(ProgressBar { state: ProgressBarState::ProgressBarIndeterminate, value: 5 })),
        TermOp::SetIndeterminateProgressBar
    );
}

#[test]
fn first_frame_mode_changes() {
    let v = View::new("Hello");
    let ops = mode_changes(&None, &v, false);
    assert_eq!(
        ops,
        vec![
            TermOp::SetBracketedPaste,
            TermOp::EnableModifyOtherKeys,
            TermOp::KittyKeyboard(1),
            TermOp::RequestKittyKeyboard,
        ]
    );
}

#[test]
fn same_frame_changes_nothing() {
    let mut v = View::new("Hello");
    v.alt_screen = true;
    v.mouse_mode = MouseMode::MouseModeAllMotion;
    v.window_title = "Test Window".into();
    let last = Some(v.clone());
    assert!(view_equals(&v, &v.clone()));
    assert!(mode_changes(&last, &v, false).is_empty());
    assert!(should_skip_frame(false, false, &last, &v, true));
    assert!(!should_skip_frame(true, false, &last, &v, true));
    assert!(!should_skip_frame(false, true, &last, &v, true));
    assert!(!should_skip_frame(false, false, &last, &v, false));
    assert!(!should_skip_frame(false, false, &None, &v, true));
    let w = frame_wrap(false, false, false, false, true, true, false);
    assert!(w.before.is_empty() && w.after.is_empty());
}

#[test]
fn mode_changes_between_frames() {
    let v1 = View::new("a");
    let mut v2 = View::new("a");
    v2.mouse_mode = MouseMode::MouseModeCellMotion;
    v2.report_focus = true;
    v2.foreground_color = Some(RgbColor { r: 255, g: 0, b: 0 });
    let ops = mode_changes(&Some(v1.clone()), &v2, false);
    assert_eq!(
        ops,
        vec![
            TermOp::SetFocusEvents,
            TermOp::SetMouseButtonEvents,
            TermOp::SetMouseExtSgr,
            TermOp::SetForegroundColor(RgbColor { r: 255, g: 0, b: 0 }),
        ]
    );
    let back = mode_changes(&Some(v2), &v1, false);
    assert_eq!(
        back,
        vec![
            TermOp::ResetFocusEvents,
            TermOp::ResetMouseButtonEvents,
            TermOp::ResetMouseAnyEvents,
            TermOp::ResetMouseExtSgr,
            TermOp::ResetForegroundColor,
        ]
    );
}

#[test]
fn frame_rows_and_wrap() {
    assert_eq!(frame_rows(24, false, false, 3), (3, 0));
    assert_eq!(frame_rows(24, true, false, 3), (24, 0));
    assert_eq!(frame_rows(24, true, true, 0), (0, 0));
    assert_eq!(frame_rows(2, false, false, 5), (5, 3));
    let w = frame_wrap(true, false, false, false, false, true, true);
    assert_eq!(w.before, vec![TermOp::BeginSynchronizedOutput, TermOp::TextCursor(false)]);
    assert_eq!(w.after, vec![TermOp::EndSynchronizedOutput]);
    let w = frame_wrap(false, true, true, true, true, false, true);
    assert_eq!(
        w.before,
        vec![
            TermOp::ResetModifyOtherKeys,
            TermOp::KittyKeyboard(0),
            TermOp::SetAltScreenMode,
            TermOp::TextCursor(false),
        ]
    );
    assert_eq!(w.after, vec![TermOp::TextCursor(true)]);
}

#[test]
fn start_and_close_operations() {
    assert!(start_ops(&None).is_empty());
    assert!(close_ops(&None, false).is_empty());
    assert_eq!(close_ops(&None, true), vec![TermOp::ResetUnicodeCore]);
    let mut v = View::new("x");
    v.alt_screen = true;
    v.report_focus = true;
    v.cursor = Some(Cursor::new(1, 2));
    let start = start_ops(&Some(v.clone()));
    assert_eq!(
        start,
        vec![
            TermOp::AltScreen { enable: true, write: true },
            TermOp::TextCursor(true),
            TermOp::SetBracketedPaste,
            TermOp::SetFocusEvents,
            TermOp::EnableModifyOtherKeys,
            TermOp::KittyKeyboard(1),
        ]
    );
    let close = close_ops(&Some(v), false);
    assert_eq!(
        close,
        vec![
            TermOp::ResetModifyOtherKeys,
            TermOp::KittyKeyboard(0),
            TermOp::MoveToBottom,
            TermOp::AltScreen { enable: false, write: true },
            TermOp::ResetBracketedPaste,
            TermOp::ResetFocusEvents,
        ]
    );
}

#[test]
fn insert_above_layout_counts_wrapped_rows() {
    let l = insert_above_layout(&vec![5, 25, 10], 10, 24, 3);
    assert_eq!(l.down, 20);
    assert_eq!(l.offset, 5);
    assert_eq!(l.up, 28);
    let l = insert_above_layout(&vec![3], 0, 24, 30);
    assert_eq!((l.down, l.offset, l.up), (0, 1, 24));
}

#[test]
fn cursor_placement_after_a_frame() {
    let mut v = View::new("x");
    assert_eq!(cursor_placement(&v, 79, 3, 80), Some((0, 3)));
    assert_eq!(cursor_placement(&v, 10, 3, 80), None);
    assert_eq!(cursor_placement(&v, 0, 3, 0), Some((0, 3)));
    v.alt_screen = true;
    assert_eq!(cursor_placement(&v, 79, 3, 80), None);
    v.cursor = Some(Cursor::new(4, 2));
    assert_eq!(cursor_placement(&v, 79, 3, 80), Some((4, 2)));
}

#[test]
fn screen_switches_and_insert_rows() {
    let mut v = View::new("x");
    assert!(!frame_switches_screen(&None, &v));
    v.alt_screen = true;
    assert!(frame_switches_screen(&None, &v));
    assert!(!frame_switches_screen(&Some(v.clone()), &v));
    assert!(frame_switches_screen(&Some(View::new("y")), &v));
    assert!(insert_rows_fit(&vec![5, 25], 10, 24));
    assert!(!insert_rows_fit(&vec![usize::MAX], 1, 24));
    assert!(!insert_rows_fit(&vec![1], 10, usize::MAX));
}

#[test]
fn clipping_checks_follow_character_boundaries() {
    let mut r = StandardRenderer::new(60);
    r.handle_message(&Msg::WindowSize(WindowSizeMsg { width: 1, height: 10 }));
    assert!(r.can_write("ab"));
    assert!(!r.can_write("é"));
    assert!(r.can_write("aé"));
    assert!(r.can_write(""));
    assert!(r.can_stop());
    r.write("aé");
    assert!(r.can_write("aé"));
    assert!(r.can_stop());
    r.handle_message(&Msg::WindowSize(WindowSizeMsg { width: 2, height: 10 }));
    assert!(!r.can_stop());
    assert!(!r.can_write("aé"));
}

#[test]
fn views_compare_by_what_they_render() {
    let a = View::new("same");
    let mut b = View::new("same");
    assert!(a == b);
    b.report_focus = true;
    assert!(a != b);
    b.report_focus = false;
    b.cursor = Some(Cursor::new(0, 0));
    assert!(a != b);
}
