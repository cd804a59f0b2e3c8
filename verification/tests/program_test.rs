use rusty_bubbletea::program::{command_step, dispatch_of, plan_filtered, Dispatch, MsgPlan, Step};
use rusty_bubbletea::commands::{every, tick};
use std::sync::atomic::{AtomicBool, AtomicU8, Ordering};
use std::sync::mpsc::channel;
use std::sync::Arc;

use rusty_bubbletea::commands::{quit, suspend, BatchMsg, InterruptMsg, QuitMsg, RequestWindowSizeMsg, ResumeMsg, SequenceMsg, SuspendMsg};
use rusty_bubbletea::environ::EnvMsg;
use rusty_bubbletea::exec::ExecMsg;
use rusty_bubbletea::focus::FocusMsg;
use rusty_bubbletea::handle::{delivery_allowed, ProgramHandle, PROGRAM_FINISHED, PROGRAM_NEW, PROGRAM_RUNNING};
use rusty_bubbletea::model::{NoWork, Work};

type Msg = rusty_bubbletea::model::Msg;
type Command = rusty_bubbletea::model::Command;
use rusty_bubbletea::mouse::{MouseAction, MouseButton, MouseMsg};
use rusty_bubbletea::options::{Context, ProgramOptions};
use rusty_bubbletea::profile::{ColorProfile, ColorProfileMsg, RenderProfile};
use rusty_bubbletea::program::{
    check_stop, chosen_profile, configured_window_size, env_entries, env_value, frame_interval_ms,
    plan_msg, should_query_synchronized_output, startup_msgs, startup_query, terminal_name,
    text_contains, uses_raw_mode, Effect, Outcome, ProgramError, ERR_INTERRUPTED, ERR_PROGRAM_KILLED,
    ERR_PROGRAM_PANIC, ERR_TERMINAL, REQUEST_BACKGROUND_COLOR, REQUEST_CURSOR_COLOR,
    REQUEST_FOREGROUND_COLOR, REQUEST_NAME_VERSION, SYNCHRONIZED_OUTPUT_QUERY,
};
use rusty_bubbletea::raw::RawMsg;
use rusty_bubbletea::renderer::PrintLineMsg;
use rusty_bubbletea::screen::{ClearScreenMsg, WindowSizeMsg};
use rusty_bubbletea::termcap::RequestCapabilityMsg;
use rusty_bubbletea::xterm::RequestTerminalVersionMsg;

type Opts = ProgramOptions<u8, Vec<u8>, Vec<u8>>;

fn env(entries: &[&str]) -> Vec<String> {
    entries.iter().map(|e| e.to_string()).collect()
}

#[test]
fn test_program_error_display() {
    assert_eq!(ProgramError::Killed.to_string(), ERR_PROGRAM_KILLED);
    assert_eq!(ProgramError::Interrupted.to_string(), ERR_INTERRUPTED);
    assert_eq!(ProgramError::Panic.to_string(), ERR_PROGRAM_PANIC);
    assert_eq!(ProgramError::Terminal.to_string(), ERR_TERMINAL);
}

#[test]
fn error_texts_are_the_documented_ones() {
    assert_eq!(ERR_PROGRAM_KILLED, "program was killed");
    assert_eq!(ERR_INTERRUPTED, "program was interrupted");
    assert_eq!(ERR_PROGRAM_PANIC, "program experienced a panic");
    assert_eq!(ERR_TERMINAL, "terminal mode operation failed");
}

#[test]
fn env_value_takes_the_first_entry_with_the_key() {
    let e = env(&["TERM=xterm", "PATH=/bin", "TERM=screen", "NOEQ", "A=B=C", "EMPTY="]);
    assert_eq!(env_value(&e, "TERM"), Some("xterm"));
    assert_eq!(env_value(&e, "PATH"), Some("/bin"));
    assert_eq!(env_value(&e, "A"), Some("B=C"));
    assert_eq!(env_value(&e, "EMPTY"), Some(""));
    assert_eq!(env_value(&e, "NOEQ"), None);
    assert_eq!(env_value(&e, "MISSING"), None);
    assert_eq!(env_value(&e, "A=B"), None);
    assert_eq!(env_value(&e, "TER"), None);
}

#[test]
fn text_contains_finds_substrings() {
    assert!(text_contains("xterm-ghostty", "ghostty"));
    assert!(text_contains("abc", ""));
    assert!(text_contains("abc", "abc"));
    assert!(!text_contains("ab", "abc"));
    assert!(!text_contains("xterm-256color", "kitty"));
}

#[test]
fn synchronized_output_gate() {
    // No TERM_PROGRAM and no SSH session: supported.
    assert!(should_query_synchronized_output(&env(&["TERM=xterm-256color"])));
    // Apple Terminal over no SSH: not supported.
    assert!(!should_query_synchronized_output(&env(&[
        "TERM=xterm-256color",
        "TERM_PROGRAM=Apple_Terminal",
    ])));
    // Over SSH without a known terminal: not supported.
    assert!(!should_query_synchronized_output(&env(&["TERM=xterm-256color", "SSH_TTY=/dev/pts/1"])));
    // Known terminals are supported even over SSH.
    assert!(should_query_synchronized_output(&env(&["TERM=xterm-kitty", "SSH_TTY=/dev/pts/1"])));
    assert!(should_query_synchronized_output(&env(&["TERM=wezterm", "SSH_TTY=x"])));
    assert!(should_query_synchronized_output(&env(&["WT_SESSION=1", "SSH_TTY=x"])));
    // Another terminal program without SSH: supported.
    assert!(should_query_synchronized_output(&env(&["TERM_PROGRAM=iTerm.app"])));
}

#[test]
fn startup_query_needs_a_renderer() {
    let e = env(&["TERM=xterm-256color"]);
    let opts = Opts::default();
    assert_eq!(startup_query(&opts, &e), Some("\x1b[?2026$p\x1b[?2027$p"));
    assert_eq!(SYNCHRONIZED_OUTPUT_QUERY, "\x1b[?2026$p\x1b[?2027$p");
    let opts = Opts::default().without_renderer();
    assert_eq!(startup_query(&opts, &e), None);
}

#[test]
fn terminal_name_defaults_to_xterm_256color() {
    assert_eq!(terminal_name(&env(&["TERM=screen"])), "screen");
    assert_eq!(terminal_name(&env(&["TERM="])), "xterm-256color");
    assert_eq!(terminal_name(&env(&["HOME=/"])), "xterm-256color");
}

#[test]
fn env_entries_join_keys_and_values() {
    let pairs = vec![("TERM".to_string(), "xterm-256color".to_string()), ("APP_MODE".to_string(), "test".to_string())];
    let entries = env_entries(&pairs);
    assert_eq!(entries, vec!["TERM=xterm-256color".to_string(), "APP_MODE=test".to_string()]);
    assert_eq!(env_value(&entries, "APP_MODE"), Some("test"));
}

#[test]
fn configured_window_size_prefers_options() {
    let opts = Opts::default();
    assert_eq!(configured_window_size(&opts, Some((120, 50))), (120, 50));
    assert_eq!(configured_window_size(&opts, None), (80, 24));
    assert_eq!(configured_window_size(&opts, Some((0, 0))), (1, 1));
    let opts = Opts::default().with_window_size(100, 40);
    assert_eq!(configured_window_size(&opts, Some((120, 50))), (100, 40));
    let opts = Opts::default().with_window_size(0, 40);
    assert_eq!(configured_window_size(&opts, None), (80, 40));
}

#[test]
fn check_stop_reports_killed() {
    assert_eq!(check_stop(false, false), None);
    assert_eq!(check_stop(true, false), Some(ProgramError::Killed));
    assert_eq!(check_stop(false, true), Some(ProgramError::Killed));
}

#[test]
fn frame_interval_follows_the_clamped_rate() {
    assert_eq!(frame_interval_ms(60), 16);
    assert_eq!(frame_interval_ms(0), 1000);
    assert_eq!(frame_interval_ms(1), 1000);
    assert_eq!(frame_interval_ms(120), 8);
    assert_eq!(frame_interval_ms(1000), 8);
    assert_eq!(frame_interval_ms(30), 33);
}

#[test]
fn raw_mode_needs_renderer_and_input() {
    let opts = Opts::default();
    assert!(uses_raw_mode(&opts, true));
    assert!(!uses_raw_mode(&opts, false));
    let opts = Opts::default().with_input(Some(vec![1u8]));
    assert!(uses_raw_mode(&opts, false));
    let opts = Opts::default().with_input(None);
    assert!(!uses_raw_mode(&opts, true));
    let opts = Opts::default().without_renderer();
    assert!(!uses_raw_mode(&opts, true));
}

#[test]
fn chosen_profile_prefers_the_forced_one() {
    let opts = Opts::default();
    assert_eq!(chosen_profile(&opts, RenderProfile::NoTty), RenderProfile::NoTty);
    let opts = Opts::default().with_color_profile(ColorProfile::ANSI256);
    assert_eq!(chosen_profile(&opts, RenderProfile::NoTty), RenderProfile::Ansi256);
}

#[test]
fn startup_messages_in_order() {
    let msgs: Vec<Msg> = startup_msgs(100, 40, vec![("TERM".into(), "xterm".into())], RenderProfile::NoTty);
    assert_eq!(msgs.len(), 3);
    assert_eq!(msgs[0], Msg::WindowSize(WindowSizeMsg { width: 100, height: 40 }));
    match &msgs[1] {
        Msg::Env(e) => assert_eq!(e.getenv("TERM"), "xterm"),
        other => panic!("unexpected {:?}", other),
    }
    assert_eq!(msgs[2], Msg::ColorProfile(ColorProfileMsg { profile: ColorProfile::Ascii }));
}

#[test]
fn plan_quit_and_interrupt_end_the_run() {
    let p: MsgPlan = plan_msg(Msg::Quit(QuitMsg), 80, 24, true);
    assert!(p.effects.is_empty());
    assert!(p.deliver.is_none());
    assert_eq!(p.outcome, Outcome::Finish);
    let p: MsgPlan = plan_msg(Msg::Interrupt(InterruptMsg), 80, 24, true);
    assert!(p.effects.is_empty());
    assert!(p.deliver.is_none());
    assert_eq!(p.outcome, Outcome::Fail(ProgramError::Interrupted));
}

#[test]
fn plan_suspend_resume_and_exec_toggle_raw_mode() {
    let p: MsgPlan = plan_msg(Msg::Suspend(SuspendMsg), 80, 24, true);
    assert_eq!(p.effects, vec![Effect::DisableRawMode, Effect::ScheduleResume]);
    assert_eq!(p.deliver, Some(Msg::Suspend(SuspendMsg)));
    assert_eq!(p.outcome, Outcome::Continue);
    let p: MsgPlan = plan_msg(Msg::Resume(ResumeMsg), 80, 24, true);
    assert_eq!(p.effects, vec![Effect::EnableRawMode]);
    assert_eq!(p.deliver, Some(Msg::Resume(ResumeMsg)));
    let exec = ExecMsg { cmd: "echo".into(), args: vec!["hi".into()] };
    let p: MsgPlan = plan_msg(Msg::Exec(exec.clone()), 80, 24, true);
    assert_eq!(p.effects, vec![Effect::DisableRawMode, Effect::RunProcess, Effect::EnableRawMode]);
    assert_eq!(p.deliver, Some(Msg::Exec(exec)));
}

#[test]
fn plan_queries_write_to_the_terminal() {
    let p: MsgPlan = plan_msg(Msg::RequestCapability(RequestCapabilityMsg("Tc".into())), 80, 24, true);
    assert_eq!(p.effects, vec![Effect::Write("\x1bP+q5463\x1b\\".to_string())]);
    assert!(p.deliver.is_none());
    let p: MsgPlan = plan_msg(Msg::RequestTerminalVersion(RequestTerminalVersionMsg), 80, 24, true);
    assert_eq!(p.effects, vec![Effect::Write("\x1b[>q".to_string())]);
    assert_eq!(REQUEST_NAME_VERSION, "\x1b[>q");
    assert!(p.deliver.is_none());
    let p: MsgPlan = plan_msg(Msg::RequestBackgroundColor(rusty_bubbletea::color::RequestBackgroundColorMsg), 80, 24, true);
    assert_eq!(p.effects, vec![Effect::Write(REQUEST_BACKGROUND_COLOR.to_string())]);
    assert_eq!(REQUEST_BACKGROUND_COLOR, "\x1b]11;?\x07");
    assert!(p.deliver.is_some());
    let p: MsgPlan = plan_msg(Msg::RequestForegroundColor(rusty_bubbletea::color::RequestForegroundColorMsg), 80, 24, true);
    assert_eq!(p.effects, vec![Effect::Write("\x1b]10;?\x07".to_string())]);
    assert_eq!(REQUEST_FOREGROUND_COLOR, "\x1b]10;?\x07");
    let p: MsgPlan = plan_msg(Msg::RequestCursorColor(rusty_bubbletea::color::RequestCursorColorMsg), 80, 24, true);
    assert_eq!(p.effects, vec![Effect::Write("\x1b]12;?\x07".to_string())]);
    assert_eq!(REQUEST_CURSOR_COLOR, "\x1b]12;?\x07");
}

#[test]
fn plan_window_size_request_answers_the_configured_size() {
    let p: MsgPlan = plan_msg(Msg::RequestWindowSize(RequestWindowSizeMsg), 100, 40, true);
    assert_eq!(p.effects, vec![Effect::Send(Msg::WindowSize(WindowSizeMsg { width: 100, height: 40 }))]);
    assert!(p.deliver.is_none());
    let p: MsgPlan = plan_msg(Msg::WindowSize(WindowSizeMsg { width: 30, height: 10 }), 100, 40, true);
    assert_eq!(p.effects, vec![Effect::Resize { width: 30, height: 10 }]);
    assert_eq!(p.deliver, Some(Msg::WindowSize(WindowSizeMsg { width: 30, height: 10 })));
}

#[test]
fn plan_output_messages() {
    let p: MsgPlan = plan_msg(Msg::PrintLine(PrintLineMsg { message_body: "Test println".into() }), 80, 24, true);
    assert_eq!(p.effects, vec![Effect::InsertAbove("Test println".into()), Effect::RenderView]);
    assert!(p.deliver.is_none());
    let p: MsgPlan = plan_msg(Msg::Raw(RawMsg("\x1b[2J".into())), 80, 24, true);
    assert_eq!(p.effects, vec![Effect::Write("\x1b[2J".into())]);
    assert!(p.deliver.is_none());
    let p: MsgPlan = plan_msg(Msg::ClearScreen(ClearScreenMsg), 80, 24, true);
    assert_eq!(p.effects, vec![Effect::ClearScreen]);
    assert!(p.deliver.is_some());
    let p: MsgPlan = plan_msg(Msg::ColorProfile(ColorProfileMsg { profile: ColorProfile::ANSI }), 80, 24, true);
    assert_eq!(p.effects, vec![Effect::SetColorProfile(RenderProfile::Ansi)]);
    assert!(p.deliver.is_some());
    let m = MouseMsg::new(5, 10, MouseButton::MouseLeft, MouseAction::MouseActionPress);
    let p: MsgPlan = plan_msg(Msg::Mouse(m), 80, 24, true);
    assert_eq!(p.effects, vec![Effect::HandleMouse(m)]);
    assert_eq!(p.deliver, Some(Msg::Mouse(m)));
}

#[test]
fn plan_batches_and_sequences_run_their_commands() {
    let p: MsgPlan = plan_msg(Msg::Batch(BatchMsg(vec![quit(), suspend()])), 80, 24, true);
    assert_eq!(p.effects, vec![Effect::RunBatch(vec![quit(), suspend()])]);
    assert!(p.deliver.is_none());
    assert_eq!(p.outcome, Outcome::Continue);
    let p: MsgPlan = plan_msg(Msg::Sequence(SequenceMsg(vec![quit()])), 80, 24, true);
    assert_eq!(p.effects, vec![Effect::RunSequence(vec![Some(Command::Emit(Msg::Quit(QuitMsg)))])]);
    assert!(p.deliver.is_none());
}

#[test]
fn plan_other_messages_reach_the_model_unchanged() {
    let p: MsgPlan = plan_msg(Msg::Focus(FocusMsg), 80, 24, true);
    assert!(p.effects.is_empty());
    assert_eq!(p.deliver, Some(Msg::Focus(FocusMsg)));
    assert_eq!(p.outcome, Outcome::Continue);
    let env_msg = EnvMsg::new(vec![("A".into(), "B".into())]);
    let p: MsgPlan = plan_msg(Msg::Env(env_msg.clone()), 80, 24, true);
    assert!(p.effects.is_empty());
    assert_eq!(p.deliver, Some(Msg::Env(env_msg)));
}

#[test]
fn options_builders() {
    let o = Opts::default();
    assert_eq!(o.fps, 60);
    assert!(!o.input_disabled());
    assert!(o.input.is_none());
    let o = Opts::default()
        .with_fps(30)
        .without_renderer()
        .without_signals()
        .without_signal_handler()
        .without_catch_panics()
        .with_window_size(100, 40)
        .with_color_profile(ColorProfile::TrueColor)
        .with_context(Context::new())
        .with_filter(7u8)
        .with_output(vec![])
        .with_environment(vec![("A".into(), "B".into())]);
    assert_eq!(o.fps, 30);
    assert!(o.disable_renderer && o.disable_signals && o.disable_signal_handler && o.disable_catch_panics);
    assert_eq!((o.width, o.height), (100, 40));
    assert_eq!(o.color_profile, Some(ColorProfile::TrueColor));
    assert!(o.context.is_some());
    assert_eq!(o.filter, Some(7u8));
    assert!(o.output.is_some());
    assert_eq!(o.environ, Some(vec![("A".to_string(), "B".to_string())]));
    assert_eq!(Opts::default().with_fps(0).fps, 60);
    assert_eq!(Opts::default().with_fps(121).fps, 120);
    assert_eq!(Opts::default().with_fps(120).fps, 120);
    assert_eq!(Opts::default().with_fps(1).fps, 1);
    assert!(Opts::default().with_input(None).input_disabled());
    assert!(!Opts::default().with_input(Some(vec![])).input_disabled());
}

#[test]
fn context_cancel_is_shared_by_clones() {
    let ctx = Context::new();
    assert!(!ctx.done());
    let other = ctx.clone();
    other.cancel();
    assert!(ctx.done());
    assert!(!Context::default().done());
}

#[test]
fn handle_sends_until_finished_or_killed() {
    let (tx, rx) = channel::<Msg>();
    let state = Arc::new(AtomicU8::new(PROGRAM_NEW));
    let killed = Arc::new(AtomicBool::new(false));
    let h = ProgramHandle::new(tx, state.clone(), killed.clone());
    let h2 = h.clone();
    h.send(Msg::Focus(FocusMsg));
    h2.quit();
    assert_eq!(rx.try_recv().unwrap(), Msg::Focus(FocusMsg));
    assert_eq!(rx.try_recv().unwrap(), Msg::Quit(QuitMsg));
    state.store(PROGRAM_RUNNING, Ordering::SeqCst);
    assert!(!h.is_finished());
    h.kill();
    assert!(killed.load(Ordering::SeqCst));
    assert_eq!(rx.try_recv().unwrap(), Msg::Quit(QuitMsg));
    h.send(Msg::Focus(FocusMsg));
    assert!(rx.try_recv().is_err());
    state.store(PROGRAM_FINISHED, Ordering::SeqCst);
    assert!(h.is_finished());
}

#[test]
fn handle_after_finish_drops_everything() {
    let (tx, rx) = channel::<Msg>();
    let state = Arc::new(AtomicU8::new(PROGRAM_FINISHED));
    let killed = Arc::new(AtomicBool::new(false));
    let h = ProgramHandle::new(tx, state, killed.clone());
    h.send(Msg::Focus(FocusMsg));
    h.kill();
    assert!(!killed.load(Ordering::SeqCst));
    assert!(rx.try_recv().is_err());
}

#[test]
fn delivery_rules() {
    assert!(delivery_allowed(false, PROGRAM_NEW));
    assert!(delivery_allowed(false, PROGRAM_RUNNING));
    assert!(!delivery_allowed(false, PROGRAM_FINISHED));
    assert!(!delivery_allowed(true, PROGRAM_RUNNING));
}

#[test]
fn dispatch_runs_batches_in_place() {
    assert_eq!(
        dispatch_of(Msg::Batch(BatchMsg(vec![None, quit(), suspend()]))),
        Dispatch::RunBatch(vec![quit(), suspend()])
    );
    assert_eq!(
        dispatch_of(Msg::Sequence(SequenceMsg(vec![quit(), None]))),
        Dispatch::RunSequence(vec![quit()])
    );
    assert_eq!(dispatch_of(Msg::Quit(QuitMsg)), Dispatch::Send(Msg::Quit(QuitMsg)));
}

#[test]
fn command_step_waits_as_asked() {
    let c: Command = quit::<(), NoWork>().unwrap();
    assert_eq!(command_step(c, 12_345), Step::Yield(Msg::Quit(QuitMsg)));
    let focus = || Command::Emit(Msg::Focus(FocusMsg));
    let c = tick(500, focus()).unwrap();
    assert_eq!(command_step(c, 12_345), Step::After(500, focus()));
    let c = every(1_000, focus()).unwrap();
    assert_eq!(command_step(c, 12_345), Step::After(655, focus()));
    let c = every(0, focus()).unwrap();
    assert_eq!(command_step(c, 12_345), Step::After(0, focus()));
}

/// Work that answers with the time it ran at, as a window size.
#[derive(Debug, PartialEq, Eq)]
struct Stamp;

impl Work<()> for Stamp {
    fn run(self, now_ms: u64) -> Option<rusty_bubbletea::model::Msg<(), Stamp>> {
        Some(rusty_bubbletea::model::Msg::WindowSize(WindowSizeMsg { width: now_ms as usize, height: 0 }))
    }
}

#[test]
fn command_step_hands_work_over() {
    let c: rusty_bubbletea::model::Command<(), Stamp> = rusty_bubbletea::model::Command::Run(Stamp);
    match command_step(c, 7) {
        Step::Perform(w) => assert_eq!(
            w.run(7),
            Some(rusty_bubbletea::model::Msg::WindowSize(WindowSizeMsg { width: 7, height: 0 }))
        ),
        other => panic!("expected work, got {:?}", other),
    }
    let app: rusty_bubbletea::model::Msg<u32, Stamp> = rusty_bubbletea::model::Msg::App(5);
    let p = plan_msg(app, 80, 24, true);
    assert!(p.effects.is_empty());
    assert_eq!(p.deliver, Some(rusty_bubbletea::model::Msg::App(5)));
    assert_eq!(p.outcome, Outcome::Continue);
}

#[test]
fn plan_without_renderer_prints_plainly() {
    let p: MsgPlan = plan_msg(Msg::PrintLine(PrintLineMsg { message_body: "Test println".into() }), 80, 24, false);
    assert_eq!(p.effects, vec![Effect::Print("Test println\n".into())]);
    assert!(p.deliver.is_none());
    let m = MouseMsg::new(5, 10, MouseButton::MouseLeft, MouseAction::MouseActionPress);
    let p: MsgPlan = plan_msg(Msg::Mouse(m), 80, 24, false);
    assert!(p.effects.is_empty());
    assert_eq!(p.deliver, Some(Msg::Mouse(m)));
}

#[test]
fn filter_can_drop_even_a_quit() {
    let p: MsgPlan = plan_filtered(None, 80, 24, true);
    assert!(p.effects.is_empty());
    assert!(p.deliver.is_none());
    assert_eq!(p.outcome, Outcome::Continue);
    let p: MsgPlan = plan_filtered(Some(Msg::Quit(QuitMsg)), 80, 24, true);
    assert_eq!(p.outcome, Outcome::Finish);
    let p: MsgPlan = plan_filtered(Some(Msg::Focus(FocusMsg)), 80, 24, true);
    assert_eq!(p.deliver, Some(Msg::Focus(FocusMsg)));
}
