use rusty_bubbletea::clipboard::{self, ClipboardMsg};
use rusty_bubbletea::color::{self, BackgroundColorMsg, CursorColorMsg, ForegroundColorMsg, RgbColor};
use rusty_bubbletea::commands::{self, BatchMsg, QuitMsg, SequenceMsg, SuspendMsg};
use rusty_bubbletea::cursor::{Cursor, CursorShape};
use rusty_bubbletea::model::Cmd;

type Msg = rusty_bubbletea::model::Msg;
type Command = rusty_bubbletea::model::Command;
use rusty_bubbletea::mouse::{MouseAction, MouseButton, MouseMsg};
use rusty_bubbletea::options::{Context, ProgramOptions};
use rusty_bubbletea::profile::ColorProfile;
use rusty_bubbletea::screen::{clear_screen, ClearScreenMsg, ModeReportMsg, WindowSizeMsg};
use rusty_bubbletea::termcap::{self, CapabilityMsg};
use rusty_bubbletea::view::{MouseMode, ProgressBar, ProgressBarState, View};
use rusty_bubbletea::xterm::{self, TerminalVersionMsg};

type Filter = Box<dyn Fn(Msg) -> Option<Msg>>;

fn emitted_msg(c: Option<Command>) -> Msg {
    match c {
        Some(Command::Emit(m)) => m,
        other => panic!("expected an emitting command, got {:?}", other),
    }
}

#[test]
fn test_commands() {
    let q: Cmd = commands::quit();
    assert!(q.is_some());

    let b: Cmd = commands::batch(vec![commands::quit()]);
    assert!(b.is_some());

    let s: Cmd = commands::sequence(vec![commands::quit()]);
    assert!(s.is_some());
}

#[test]
fn test_v2_mouse_msg() {
    let msg = MouseMsg::new(10, 20, MouseButton::MouseLeft, MouseAction::MouseActionPress);
    assert_eq!(msg.x, 10);
    assert_eq!(msg.y, 20);
    assert_eq!(msg.button, MouseButton::MouseLeft);
}

#[test]
fn test_view_properties_and_equality() {
    let mut v1 = View::new("Hello");
    assert_eq!(v1.content, "Hello");
    v1.set_content("World");
    assert_eq!(v1.content, "World");

    let v2 = View::new("World");
    assert!(v1.equals(&v2));

    v1.alt_screen = true;
    assert!(!v1.equals(&v2));

    v1.report_focus = true;
    v1.disable_bracketed_paste_mode = true;
    v1.window_title = "Title".to_string();
    v1.mouse_mode = MouseMode::MouseModeCellMotion;
    v1.progress_bar = Some(ProgressBar { state: ProgressBarState::ProgressBarDefault, value: 50 });
    assert_eq!(ProgressBarState::ProgressBarDefault.to_string(), "Default");
    assert_eq!(ProgressBarState::ProgressBarError.to_string(), "Error");
    assert_eq!(ProgressBarState::ProgressBarIndeterminate.to_string(), "Indeterminate");
    assert_eq!(ProgressBarState::ProgressBarWarning.to_string(), "Warning");
    assert_eq!(ProgressBarState::ProgressBarNone.to_string(), "None");

    let c = Cursor::new(10, 5);
    assert_eq!(c.position.x, 10);
    assert_eq!(c.position.y, 5);
    assert_eq!(c.shape, CursorShape::CursorBlock);
    assert!(c.blink);
    assert_eq!(c.color, None);
}

#[test]
fn test_options_and_context() {
    let ctx = Context::new();
    assert!(!ctx.done());
    ctx.cancel();
    assert!(ctx.done());

    let filter: Filter = Box::new(|msg: Msg| Some(msg));
    let opts: ProgramOptions<Filter, Vec<u8>, Vec<u8>> = ProgramOptions::default()
        .with_fps(30)
        .without_renderer()
        .without_signals()
        .without_signal_handler()
        .without_catch_panics()
        .with_window_size(100, 40)
        .with_color_profile(ColorProfile::TrueColor)
        .with_context(ctx.clone())
        .with_filter(filter)
        .with_environment(vec![("A".into(), "B".into())]);

    assert_eq!(opts.fps, 30);
    assert!(opts.disable_renderer);
    assert!(opts.disable_signals);
    assert!(opts.disable_signal_handler);
    assert!(opts.disable_catch_panics);
    assert_eq!(opts.width, 100);
    assert_eq!(opts.height, 40);
    assert_eq!(opts.color_profile, Some(ColorProfile::TrueColor));
    assert!(opts.context.is_some());
    assert!(opts.filter.is_some());
    assert!(opts.environ.is_some());
    assert_eq!(ProgramOptions::<Filter, Vec<u8>, Vec<u8>>::default().with_fps(0).fps, 60);
    assert_eq!(ProgramOptions::<Filter, Vec<u8>, Vec<u8>>::default().with_fps(121).fps, 120);
}

#[test]
fn test_commands_and_messages() {
    let q: Cmd = commands::quit();
    assert!(q.is_some());
    assert_eq!(emitted_msg(q), Msg::Quit(QuitMsg));

    let s: Cmd = commands::suspend();
    assert_eq!(emitted_msg(s), Msg::Suspend(SuspendMsg));

    let b: Cmd = commands::batch(vec![commands::quit(), commands::suspend()]);
    match emitted_msg(b) {
        Msg::Batch(batch) => {
            assert_eq!(batch.0.len(), 2);
            assert!(batch.describe().contains("2 commands"));
        },
        other => panic!("expected a batch, got {:?}", other),
    }

    let seq: Cmd = commands::sequence(vec![commands::quit(), commands::suspend()]);
    match emitted_msg(seq) {
        Msg::Sequence(seq_msg) => {
            assert_eq!(seq_msg.0.len(), 2);
            assert!(seq_msg.describe().contains("2 commands"));
        },
        other => panic!("expected a sequence, got {:?}", other),
    }

    let singleton: Cmd = commands::batch(vec![None, commands::quit()]);
    assert_eq!(emitted_msg(singleton), Msg::Quit(QuitMsg));
    let none: Cmd = commands::sequence(vec![None, None]);
    assert!(none.is_none());

    let rsz: Cmd = commands::request_window_size();
    assert!(rsz.is_some());

    let ev: Cmd = commands::every(1, Command::Emit(Msg::Quit(QuitMsg)));
    match ev {
        Some(Command::Delayed(d)) => {
            assert_eq!(d.interval_ms, 1);
            assert!(d.align_to_clock);
            assert_eq!(*d.next, Command::Emit(Msg::Quit(QuitMsg)));
        },
        other => panic!("expected a delayed command, got {:?}", other),
    }

    let tk: Cmd = commands::tick(1, Command::Emit(Msg::Quit(QuitMsg)));
    match tk {
        Some(Command::Delayed(d)) => {
            assert_eq!(d.interval_ms, 1);
            assert!(!d.align_to_clock);
            assert_eq!(*d.next, Command::Emit(Msg::Quit(QuitMsg)));
        },
        other => panic!("expected a delayed command, got {:?}", other),
    }

    let clr = clear_screen();
    assert_eq!(emitted_msg(clr), Msg::ClearScreen(ClearScreenMsg));

    let mode = ModeReportMsg { mode: 1, value: 2 };
    assert_eq!(mode.mode, 1);
    assert_eq!(mode.value, 2);

    let ws = WindowSizeMsg { width: 80, height: 24 };
    assert_eq!(ws.width, 80);
    assert_eq!(ws.height, 24);
}

#[test]
fn test_clipboard_and_color_commands() {
    let set_cb: Cmd = clipboard::set_clipboard("hello clip");
    assert!(set_cb.is_some());
    match emitted_msg(set_cb) {
        Msg::SetClipboard(set_msg) => assert_eq!(set_msg.0, "hello clip"),
        other => panic!("expected a clipboard write, got {:?}", other),
    }

    let read_cb: Cmd = clipboard::read_clipboard();
    assert!(read_cb.is_some());

    let set_prim: Cmd = clipboard::set_primary_clipboard("prim clip");
    assert!(set_prim.is_some());

    let read_prim: Cmd = clipboard::read_primary_clipboard();
    assert!(read_prim.is_some());

    let cb_msg = ClipboardMsg { content: "clip content".to_string(), selection: b'c' };
    assert_eq!(cb_msg.clipboard(), b'c');
    assert_eq!(cb_msg.to_string(), "clip content");

    let req_bg: Cmd = color::request_background_color();
    assert!(req_bg.is_some());
    let req_fg: Cmd = color::request_foreground_color();
    assert!(req_fg.is_some());
    let req_cur: Cmd = color::request_cursor_color();
    assert!(req_cur.is_some());

    let fg_msg = ForegroundColorMsg(RgbColor { r: 255, g: 0, b: 0 });
    assert_eq!(fg_msg.to_hex(), "#ff0000");
    assert!(!fg_msg.is_dark());

    let bg_msg = BackgroundColorMsg(RgbColor { r: 0, g: 0, b: 0 });
    assert_eq!(bg_msg.to_hex(), "#000000");
    assert!(bg_msg.is_dark());

    let cur_msg = CursorColorMsg(RgbColor { r: 255, g: 255, b: 255 });
    assert_eq!(cur_msg.to_hex(), "#ffffff");
    assert!(!cur_msg.is_dark());

    let cap_cmd: Cmd = termcap::request_capability("Tc");
    assert!(cap_cmd.is_some());
    match emitted_msg(cap_cmd) {
        Msg::RequestCapability(r) => assert_eq!(r.0, "Tc"),
        other => panic!("expected a capability request, got {:?}", other),
    }
    let cap_resp = CapabilityMsg { content: "Tc=1".to_string() };
    assert_eq!(cap_resp.to_string(), "Tc=1");

    let xterm_cmd: Cmd = xterm::request_terminal_version();
    assert!(xterm_cmd.is_some());
    let xt_resp = TerminalVersionMsg { name: "xterm 388".to_string() };
    assert_eq!(xt_resp.to_string(), "xterm 388");
}

#[test]
fn batch_and_sequence_descriptions() {
    let b: BatchMsg = BatchMsg(vec![commands::quit(), None, commands::suspend()]);
    assert_eq!(b.describe(), "BatchMsg(3 commands)");
    let s: SequenceMsg = SequenceMsg(vec![]);
    assert_eq!(s.describe(), "SequenceMsg(0 commands)");
}
