//! Messages, commands and the model interface of the Elm architecture:
//! a model receives messages, updates its state, and answers with a command
//! that the program runs to produce further messages.
use vstd::prelude::*;
use vstd::view::View as _;

use crate::clipboard::{
    ClipboardMsg, ReadClipboardMsg, ReadPrimaryClipboardMsg, SetClipboardMsg,
    SetPrimaryClipboardMsg,
};
use crate::color::{
    BackgroundColorMsg, CursorColorMsg, ForegroundColorMsg, RequestBackgroundColorMsg,
    RequestCursorColorMsg, RequestForegroundColorMsg,
};
use crate::commands::{
    BatchMsg, InterruptMsg, QuitMsg, RequestWindowSizeMsg, ResumeMsg, SequenceMsg, SuspendMsg,
};
use crate::cursor::{CursorPositionMsg, RequestCursorPosMsg};
use crate::environ::EnvMsg;
use crate::exec::ExecMsg;
use crate::focus::{BlurMsg, FocusMsg};
use crate::key::KeyMsg;
use crate::keyboard::KeyboardEnhancementsMsg;
use crate::mouse::MouseMsg;
use crate::paste::{PasteEndMsg, PasteMsg, PasteStartMsg};
use crate::profile::ColorProfileMsg;
use crate::raw::RawMsg;
use crate::renderer::PrintLineMsg;
use crate::screen::{ClearScreenMsg, ModeReportMsg, WindowSizeMsg};
use crate::termcap::{CapabilityMsg, RequestCapabilityMsg};
use crate::view::View;
use crate::xterm::{RequestTerminalVersionMsg, TerminalVersionMsg};

verus! {

/// Msg represents an action or event in the program: every message that the
/// framework produces or understands, plus the application's own messages of
/// type `M`. `W` is the work that the application's commands carry.
#[derive(Debug, PartialEq, Eq)]
pub enum Msg<M = (), W = NoWork> {
    /// The program should exit.
    Quit(QuitMsg),
    /// The program was interrupted.
    Interrupt(InterruptMsg),
    /// The program should suspend.
    Suspend(SuspendMsg),
    /// The program resumed after a suspension.
    Resume(ResumeMsg),
    /// Commands to run concurrently.
    Batch(BatchMsg<M, W>),
    /// Commands to run one after another.
    Sequence(SequenceMsg<M, W>),
    /// Request for the terminal size.
    RequestWindowSize(RequestWindowSizeMsg),
    /// Terminal size report.
    WindowSize(WindowSizeMsg),
    /// Request to clear the screen.
    ClearScreen(ClearScreenMsg),
    /// Terminal mode report.
    ModeReport(ModeReportMsg),
    /// Clipboard read result.
    Clipboard(ClipboardMsg),
    /// Request to set the system clipboard.
    SetClipboard(SetClipboardMsg),
    /// Request to read the system clipboard.
    ReadClipboard(ReadClipboardMsg),
    /// Request to set the primary clipboard.
    SetPrimaryClipboard(SetPrimaryClipboardMsg),
    /// Request to read the primary clipboard.
    ReadPrimaryClipboard(ReadPrimaryClipboardMsg),
    /// Request for the terminal background color.
    RequestBackgroundColor(RequestBackgroundColorMsg),
    /// Request for the terminal foreground color.
    RequestForegroundColor(RequestForegroundColorMsg),
    /// Request for the terminal cursor color.
    RequestCursorColor(RequestCursorColorMsg),
    /// Terminal foreground color report.
    ForegroundColor(ForegroundColorMsg),
    /// Terminal background color report.
    BackgroundColor(BackgroundColorMsg),
    /// Terminal cursor color report.
    CursorColor(CursorColorMsg),
    /// Cursor position report.
    CursorPosition(CursorPositionMsg),
    /// Request for the cursor position.
    RequestCursorPosition(RequestCursorPosMsg),
    /// Environment of the program.
    Env(EnvMsg),
    /// Request to run an external process.
    Exec(ExecMsg),
    /// The terminal gained focus.
    Focus(FocusMsg),
    /// The terminal lost focus.
    Blur(BlurMsg),
    /// Key press.
    Key(KeyMsg),
    /// Key release.
    KeyRelease(KeyMsg),
    /// Keyboard enhancement report.
    KeyboardEnhancements(KeyboardEnhancementsMsg),
    /// Mouse event.
    Mouse(MouseMsg),
    /// Pasted text.
    Paste(PasteMsg),
    /// Start of a bracketed paste.
    PasteStart(PasteStartMsg),
    /// End of a bracketed paste.
    PasteEnd(PasteEndMsg),
    /// Color profile of the terminal.
    ColorProfile(ColorProfileMsg),
    /// Raw text to send to the terminal.
    Raw(RawMsg),
    /// Line to print above the program.
    PrintLine(PrintLineMsg),
    /// Terminal capability query.
    RequestCapability(RequestCapabilityMsg),
    /// Terminal capability report.
    Capability(CapabilityMsg),
    /// Terminal version query.
    RequestTerminalVersion(RequestTerminalVersionMsg),
    /// Terminal version report.
    TerminalVersion(TerminalVersionMsg),
    /// A message of the application.
    App(M),
}

/// A timer: a command that runs when a delay ends.
#[derive(Debug, PartialEq, Eq)]
pub struct Timer<M = (), W = NoWork> {
    /// Interval in milliseconds.
    pub interval_ms: u64,
    /// Whether the delay ends on the next multiple of the interval since the
    /// Unix epoch (in sync with the system clock) rather than one interval
    /// after the command starts.
    pub align_to_clock: bool,
    /// The command run when the delay ends.
    pub next: Box<Command<M, W>>,
}

/// Command is deferred work run by the program; running it may yield a
/// message.
#[derive(Debug, PartialEq, Eq)]
pub enum Command<M = (), W = NoWork> {
    /// Yields the message as soon as it runs.
    Emit(Msg<M, W>),
    /// Runs another command when a delay ends.
    Delayed(Timer<M, W>),
    /// Runs work of the application, which may take time, read or write,
    /// and answers with a message or with none.
    Run(W),
}

/// An optional command; `None` means there is nothing to run.
pub type Cmd<M = (), W = NoWork> = Option<Command<M, W>>;

/// The command that yields `m` as soon as it runs.
pub open spec fn emit<M, W>(m: Msg<M, W>) -> Cmd<M, W> {
    Some(Command::Emit(m))
}

/// Work that the application's commands carry. Running it may take time, do
/// I/O or compute; it is given the time it runs at, in milliseconds since
/// the Unix epoch, and answers with a message or with none.
pub trait Work<M>: Sized {
    /// Runs the work.
    fn run(self, now_ms: u64) -> (answer: Option<Msg<M, Self>>);
}

/// The work of a program whose commands carry none of their own: it does
/// nothing and answers with no message.
#[derive(Debug, Clone, Copy, PartialEq, Eq)]
pub struct NoWork;

impl<M> Work<M> for NoWork {
    fn run(self, now_ms: u64) -> Option<Msg<M, NoWork>> {
        None
    }
}

/// Model contains the program state and defines how to handle messages and
/// render the view.
pub trait Model<M = (), W = NoWork> {
    /// The first command run when the program starts; none unless the
    /// model says otherwise.
    fn init(&self) -> (c: Cmd<M, W>)
        default_ensures
            c is None,
    {
        None
    }

    /// Called when a message is received from the event loop.
    fn update(&mut self, msg: Msg<M, W>) -> Cmd<M, W>;

    /// Renders the program's user interface.
    fn view(&self) -> View;

    /// Answers a mouse event that the renderer hands over, with a command;
    /// none by default.
    fn on_mouse(&self, msg: MouseMsg) -> (c: Cmd<M, W>)
        default_ensures
            c is None,
    {
        None
    }
}

} // verus!
