use rusty_bubbletea::logging::{log_line, log_prefix};
use rusty_bubbletea::color::{is_dark_color, max_min, RgbColor};
use rusty_bubbletea::commands::{batch, clock_aligned_delay, interrupt, quit, sequence, suspend, InterruptMsg, QuitMsg};
use rusty_bubbletea::cursor::{request_cursor_position, RequestCursorPosMsg};
use rusty_bubbletea::environ::EnvMsg;
use rusty_bubbletea::exec::{exec_process, ExecMsg};
use rusty_bubbletea::input::translate_input_event;
use rusty_bubbletea::key::{KeyMsg, KeyType};
use rusty_bubbletea::key_sequences::{detect_bracketed_paste, detect_sequence, utf8_lossy};
use rusty_bubbletea::keyboard::{
    KeyboardEnhancementsMsg, KITTY_REPORT_ALTERNATE_KEYS, KITTY_REPORT_EVENT_TYPES,
};
use rusty_bubbletea::model::Cmd;

type Msg = rusty_bubbletea::model::Msg;
type Command = rusty_bubbletea::model::Command;
use rusty_bubbletea::mouse::{MouseAction, MouseButton, MouseMsg};
use rusty_bubbletea::paste::PasteMsg;
use rusty_bubbletea::profile::{render_profile, reported_profile, ColorProfile, RenderProfile};
use rusty_bubbletea::raw::{raw, RawMsg};
use rusty_bubbletea::renderer::{print_f, print_ln, PrintLineMsg};
use rusty_bubbletea::tea_init::init_model;
use rusty_bubbletea::termcap::capability_query;
use rusty_bubbletea::view::View;

fn emitted(c: Option<Command>) -> Msg {
    match c {
        Some(Command::Emit(m)) => m,
        other => panic!("expected an emitting command, got {:?}", other),
    }
}

struct Counter;

impl rusty_bubbletea::model::Model for Counter {
    fn update(&mut self, _msg: Msg) -> Option<Command> {
        None
    }

    fn view(&self) -> View {
        View::new("")
    }
}

#[test]
fn init_model_uses_the_default_init() {
    assert!(init_model(&Counter).is_none());
}

struct Starter;

impl rusty_bubbletea::model::Model for Starter {
    fn init(&self) -> Cmd {
        quit()
    }

    fn update(&mut self, _msg: Msg) -> Option<Command> {
        None
    }

    fn view(&self) -> View {
        View::new("")
    }
}

#[test]
fn init_model_answers_what_the_model_starts_with() {
    assert_eq!(emitted(init_model(&Starter)), Msg::Quit(QuitMsg));
}

#[test]
fn simple_commands_emit_their_message() {
    assert_eq!(emitted(quit()), Msg::Quit(QuitMsg));
    assert_eq!(emitted(interrupt()), Msg::Interrupt(InterruptMsg));
    let s: Cmd = suspend();
    assert!(s.is_some());
    assert_eq!(emitted(request_cursor_position()), Msg::RequestCursorPosition(RequestCursorPosMsg));
    assert_eq!(emitted(raw("\x1b[2J")), Msg::Raw(RawMsg("\x1b[2J".into())));
    assert_eq!(emitted(print_ln("line")), Msg::PrintLine(PrintLineMsg { message_body: "line".into() }));
    assert_eq!(emitted(print_f("fmt")), Msg::PrintLine(PrintLineMsg { message_body: "fmt".into() }));
    assert_eq!(
        emitted(exec_process("echo", &["hi"])),
        Msg::Exec(ExecMsg { cmd: "echo".into(), args: vec!["hi".into()] })
    );
}

#[test]
fn batch_and_sequence_drop_absent_commands() {
    let empty: Cmd = batch(vec![]);
    assert!(empty.is_none());
    let absent: Cmd = batch(vec![None, None]);
    assert!(absent.is_none());
    let one: Cmd = batch(vec![None, quit(), None]);
    assert_eq!(one, quit());
    let single: Cmd = sequence(vec![suspend()]);
    assert_eq!(single, suspend());
    match emitted(sequence(vec![quit(), None, suspend()])) {
        Msg::Sequence(s) => assert_eq!(s.0, vec![quit(), suspend()]),
        other => panic!("expected a sequence, got {:?}", other),
    }
}

#[test]
fn clock_aligned_delay_reaches_the_next_multiple() {
    assert_eq!(clock_aligned_delay(1_000, 0), 0);
    assert_eq!(clock_aligned_delay(1_250, 1_000), 750);
    assert_eq!(clock_aligned_delay(2_000, 1_000), 1_000);
    assert_eq!(clock_aligned_delay(7, 5), 3);
}

#[test]
fn translate_input_event_is_identity() {
    assert_eq!(translate_input_event(Msg::Quit(QuitMsg)), Msg::Quit(QuitMsg));
}

#[test]
fn key_representations() {
    assert_eq!(KeyMsg::new(KeyType::KeyEnter).to_string_rep(), "enter");
    assert_eq!(KeyMsg::new(KeyType::KeySpace).to_string_rep(), " ");
    assert_eq!(KeyMsg::new(KeyType::KeyCtrlC).to_string_rep(), "ctrl+c");
    assert_eq!(KeyMsg::new(KeyType::KeyShiftTab).to_string_rep(), "shift+tab");
    assert_eq!(KeyMsg::from_runes(&['a', 'b'], false).to_string_rep(), "ab");
    assert_eq!(KeyMsg::from_runes(&['x'], true).to_string_rep(), "alt+x");
    let k = KeyMsg::new(KeyType::KeyUp);
    assert!(k.runes.is_empty() && !k.alt);
}

#[test]
fn mouse_representation() {
    let m = MouseMsg::new(5, 10, MouseButton::MouseLeft, MouseAction::MouseActionPress);
    assert_eq!(m.to_string_rep(), "(5, 10: MouseLeft MouseActionPress)");
    assert!(!m.alt && !m.ctrl && !m.shift);
    let m = MouseMsg::new(0, 0, MouseButton::MouseWheelUp, MouseAction::MouseActionMotion);
    assert_eq!(m.to_string_rep(), "(0, 0: MouseWheelUp MouseActionMotion)");
}

#[test]
fn key_sequences() {
    assert_eq!(detect_sequence(b"\x1b[A"), Some((3, KeyMsg::new(KeyType::KeyUp))));
    assert_eq!(detect_sequence(b"\x1b[5~x"), Some((4, KeyMsg::new(KeyType::KeyPgUp))));
    assert_eq!(detect_sequence(b"\x1b[3~"), Some((4, KeyMsg::new(KeyType::KeyDelete))));
    assert_eq!(detect_sequence(b"\x1b[Z"), Some((3, KeyMsg::new(KeyType::KeyShiftTab))));
    assert_eq!(detect_sequence(b"\x1b[5"), None);
    assert_eq!(detect_sequence(b""), None);
    assert_eq!(detect_sequence(b"abc"), None);
}

#[test]
fn bracketed_paste_detection() {
    assert_eq!(
        detect_bracketed_paste(b"\x1b[200~pasted\x1b[201~rest"),
        Some((18, "pasted".to_string()))
    );
    assert_eq!(detect_bracketed_paste(b"\x1b[200~\x1b[201~"), Some((12, String::new())));
    assert_eq!(detect_bracketed_paste(b"\x1b[200~no end"), None);
    assert_eq!(detect_bracketed_paste(b"plain"), None);
    assert_eq!(
        detect_bracketed_paste(b"\x1b[200~a\xffb\x1b[201~"),
        Some((15, "a\u{fffd}b".to_string()))
    );
    assert_eq!(utf8_lossy(b"ok"), "ok");
}

#[test]
fn keyboard_enhancement_support() {
    let km = KeyboardEnhancementsMsg { flags: KITTY_REPORT_EVENT_TYPES | KITTY_REPORT_ALTERNATE_KEYS };
    assert!(km.supports_key_disambiguation());
    assert!(km.supports_event_types());
    assert!(km.supports_alternate_keys());
    assert!(!km.supports_all_keys_as_escape_codes());
    assert!(!km.supports_associated_text());
    let none = KeyboardEnhancementsMsg { flags: 0 };
    assert!(!none.supports_key_disambiguation());
}

#[test]
fn env_msg_reads_back_what_it_was_given() {
    let env = EnvMsg::new(vec![("FOO".to_string(), "BAR".to_string())]);
    assert_eq!(env.getenv("FOO"), "BAR");
    assert_eq!(env.getenv("NONEXIST"), "");
    let (val, ok) = env.lookup_env("FOO");
    assert!(ok);
    assert_eq!(val, "BAR");
    let (val, ok) = env.lookup_env("NONEXIST");
    assert!(!ok);
    assert_eq!(val, "");
    let env = EnvMsg::new(vec![("K".into(), "first".into()), ("K".into(), "last".into())]);
    assert_eq!(env.getenv("K"), "last");
}

#[test]
fn env_msg_keeps_each_key_once() {
    let env = EnvMsg::new(vec![
        ("A".into(), "1".into()),
        ("B".into(), "2".into()),
        ("A".into(), "3".into()),
    ]);
    assert_eq!(env.vars, vec![("A".to_string(), "3".to_string()), ("B".to_string(), "2".to_string())]);
}

#[test]
fn env_msg_equality_ignores_order() {
    let a = EnvMsg::new(vec![("A".into(), "1".into()), ("B".into(), "2".into())]);
    let b = EnvMsg::new(vec![("B".into(), "2".into()), ("A".into(), "1".into())]);
    let c = EnvMsg::new(vec![("B".into(), "2".into()), ("A".into(), "9".into())]);
    let d = EnvMsg::new(vec![("A".into(), "1".into())]);
    assert_eq!(a, b);
    assert_ne!(a, c);
    assert_ne!(a, d);
    assert_ne!(d, a);
}

#[test]
fn profiles_round_trip() {
    for p in [ColorProfile::TrueColor, ColorProfile::ANSI256, ColorProfile::ANSI, ColorProfile::Ascii] {
        assert_eq!(reported_profile(render_profile(p)), p);
    }
    assert_eq!(reported_profile(RenderProfile::NoTty), ColorProfile::Ascii);
    assert_eq!(reported_profile(RenderProfile::Unknown), ColorProfile::Ascii);
}

#[test]
fn colors_in_hex_and_darkness() {
    assert_eq!(RgbColor { r: 255, g: 0, b: 0 }.hex(), "#ff0000");
    assert_eq!(RgbColor { r: 1, g: 171, b: 205 }.hex(), "#01abcd");
    assert!(is_dark_color(RgbColor { r: 0, g: 0, b: 0 }));
    assert!(!is_dark_color(RgbColor { r: 255, g: 255, b: 255 }));
    assert!(is_dark_color(RgbColor { r: 127, g: 127, b: 127 }));
    assert!(!is_dark_color(RgbColor { r: 128, g: 128, b: 128 }));
    assert_eq!(max_min(3, 9, 5), (9, 3));
}

#[test]
fn capability_queries_in_upper_hex() {
    assert_eq!(capability_query("Tc"), "\x1bP+q5463\x1b\\");
    assert_eq!(capability_query(""), "\x1bP+q\x1b\\");
}

#[test]
fn paste_text() {
    let p = PasteMsg { content: "pasted".into() };
    assert_eq!(p.to_string(), "pasted");
}

#[test]
fn log_lines_keep_the_prefix_apart() {
    assert_eq!(log_prefix("test"), "test ");
    assert_eq!(log_prefix("test "), "test ");
    assert_eq!(log_prefix(""), "");
    assert_eq!(log_line("test ", "test message"), "test test message\n");
}
