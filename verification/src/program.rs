//! The decisions of the program runner: its errors, how it reads its
//! environment snapshot, the terminal size it starts with, what it does with
//! each message of the event loop, and the control handle that other threads
//! use to send messages, quit or kill it.
use vstd::prelude::*;
use vstd::string::StringSliceAdditionalSpecFns;

use crate::exec::string_views;
use crate::commands::{clock_aligned_delay, clock_delay, keep_present, present};
use crate::model::{Cmd, Command, Msg, NoWork, Timer};
use crate::mouse::MouseMsg;
use crate::environ::{entry_views, merged_entries, EnvMsg};
use crate::options::{ProgramOptions, MAX_FPS};
use crate::profile::{
    render_profile, render_profile_spec, reported_profile, reported_profile_spec, ColorProfileMsg,
    RenderProfile,
};
use crate::renderer::PrintLineMsg;
use crate::screen::WindowSizeMsg;
use crate::termcap::{capability_query, capability_query_spec};
use vstd::utf8::encode_utf8;
use crate::text::{chars_of, push_char, string_from_chars};

verus! {

/// Error text of a program that recovered from a panic.
pub const ERR_PROGRAM_PANIC: &'static str = "program experienced a panic";

/// Error text of a program that was killed.
pub const ERR_PROGRAM_KILLED: &'static str = "program was killed";

/// Error text of a program that was interrupted, by a SIGINT signal or an
/// interrupt message.
pub const ERR_INTERRUPTED: &'static str = "program was interrupted";

/// Error text of a program that could not change or restore the terminal
/// mode.
pub const ERR_TERMINAL: &'static str = "terminal mode operation failed";

/// The error a program run ends with.
#[derive(Debug, Clone, Copy, PartialEq, Eq, Structural)]
pub enum ProgramError {
    /// The program was killed (context cancellation or external kill).
    Killed,
    /// The program was interrupted (SIGINT or an interrupt message).
    Interrupted,
    /// The program recovered from a panic.
    Panic,
    /// A terminal mode transition or restoration failed.
    Terminal,
}

/// The text of each program error.
pub open spec fn error_text(e: ProgramError) -> Seq<char> {
    match e {
        ProgramError::Killed => ERR_PROGRAM_KILLED@,
        ProgramError::Interrupted => ERR_INTERRUPTED@,
        ProgramError::Panic => ERR_PROGRAM_PANIC@,
        ProgramError::Terminal => ERR_TERMINAL@,
    }
}

impl ProgramError {
    /// Returns the error's text.
    pub fn to_string(&self) -> (s: String)
        ensures
            s@ == error_text(*self),
    {
        match self {
            ProgramError::Killed => ERR_PROGRAM_KILLED.to_owned(),
            ProgramError::Interrupted => ERR_INTERRUPTED.to_owned(),
            ProgramError::Panic => ERR_PROGRAM_PANIC.to_owned(),
            ProgramError::Terminal => ERR_TERMINAL.to_owned(),
        }
    }
}

/// Whether an environment entry `KEY=VALUE` has the key `key`: the key is the
/// text before the entry's first `=`.
pub open spec fn entry_has_key(entry: Seq<char>, key: Seq<char>) -> bool {
    &&& !key.contains('=')
    &&& key.len() < entry.len()
    &&& entry.subrange(0, key.len() as int) == key
    &&& entry[key.len() as int] == '='
}

/// The value of the first entry with the key `key`: the text after its first
/// `=`; `None` when no entry has that key (entries without `=` have none).
pub open spec fn env_lookup(entries: Seq<Seq<char>>, key: Seq<char>) -> Option<Seq<char>>
    decreases entries.len(),
{
    if entries.len() == 0 {
        None
    } else if entry_has_key(entries[0], key) {
        Some(entries[0].subrange(key.len() + 1int, entries[0].len() as int))
    } else {
        env_lookup(entries.drop_first(), key)
    }
}

/// Returns whether the characters `e` hold the key `k` followed by `=`,
/// where `k` holds no `=`.
fn chars_have_key(e: &Vec<char>, k: &Vec<char>) -> (r: bool)
    ensures
        r == entry_has_key(e@, k@),
{
    let mut i: usize = 0;
    while i < k.len()
        invariant
            i <= k@.len(),
            forall|j: int| 0 <= j < i ==> k@[j] != '=',
        decreases k@.len() - i,
    {
        if k[i] == '=' {
            assert(k@.contains('='));
            return false;
        }
        i = i + 1;
    }
    assert(!k@.contains('='));
    if k.len() >= e.len() {
        return false;
    }
    let mut j: usize = 0;
    while j < k.len()
        invariant
            k@.len() < e@.len(),
            j <= k@.len(),
            forall|m: int| 0 <= m < j ==> e@[m] == k@[m],
        decreases k@.len() - j,
    {
        if e[j] != k[j] {
            assert(e@.subrange(0, k@.len() as int)[j as int] != k@[j as int]);
            return false;
        }
        j = j + 1;
    }
    assert(e@.subrange(0, k@.len() as int) =~= k@);
    e[k.len()] == '='
}

/// Looks up the value of `key` in an environment snapshot of `KEY=VALUE`
/// entries: the first entry with that key decides.
pub fn env_value<'a>(env: &'a [String], key: &str) -> (r: Option<&'a str>)
    ensures
        r matches Some(v) ==> env_lookup(string_views(env@), key@) == Some(v@),
        r is None ==> env_lookup(string_views(env@), key@) is None,
{
    let ghost views = string_views(env@);
    let k = chars_of(key);
    let mut i: usize = 0;
    assert(views.subrange(0, views.len() as int) =~= views);
    while i < env.len()
        invariant
            i <= env@.len(),
            views == string_views(env@),
            k@ == key@,
            env_lookup(views, key@) == env_lookup(views.subrange(i as int, views.len() as int), key@),
        decreases env@.len() - i,
    {
        let e = chars_of(env[i].as_str());
        let ghost rest = views.subrange(i as int, views.len() as int);
        assert(rest[0] == env@[i as int]@);
        assert(rest.drop_first() =~= views.subrange(i + 1, views.len() as int));
        if chars_have_key(&e, &k) {
            let s = env[i].as_str();
            let n = s.unicode_len();
            return Some(s.substring_char(k.len() + 1, n));
        }
        i = i + 1;
    }
    assert(views.subrange(i as int, views.len() as int) =~= Seq::<Seq<char>>::empty());
    None
}

/// Whether `pat` occurs in `s`.
pub open spec fn contains_text(s: Seq<char>, pat: Seq<char>) -> bool {
    exists|i: int| 0 <= i && i + pat.len() <= s.len() && #[trigger] s.subrange(i, i + pat.len()) == pat
}

/// Returns whether `pat` occurs in `s`.
pub fn text_contains(s: &str, pat: &str) -> (r: bool)
    ensures
        r == contains_text(s@, pat@),
{
    let c = chars_of(s);
    let p = chars_of(pat);
    if p.len() > c.len() {
        assert forall|i: int| 0 <= i && i + p@.len() <= c@.len() implies #[trigger] c@.subrange(
            i,
            i + p@.len(),
        ) != p@ by {}
        return false;
    }
    if p.len() == 0 {
        assert(s@.subrange(0, 0int + pat@.len()) =~= pat@);
        return true;
    }
    let n = c.len();
    let last = n - p.len();
    let mut i: usize = 0;
    while i <= last
        invariant
            c@ == s@,
            p@ == pat@,
            n == c@.len(),
            last == n - p@.len(),
            1 <= p@.len() <= n,
            i <= last + 1,
            forall|m: int| 0 <= m < i ==> #[trigger] c@.subrange(m, m + p@.len()) != p@,
        decreases last + 1 - i,
    {
        let mut j: usize = 0;
        let mut same = true;
        while j < p.len()
            invariant
                i <= last,
                n == c@.len(),
                last == n - p@.len(),
                p@.len() <= n,
                j <= p@.len(),
                same ==> forall|m: int| 0 <= m < j ==> c@[i + m] == p@[m],
                !same ==> c@.subrange(i as int, i + p@.len()) != p@,
            decreases p@.len() - j,
        {
            if c[i + j] != p[j] {
                assert(c@.subrange(i as int, i + p@.len())[j as int] != p@[j as int]);
                same = false;
            }
            j = j + 1;
        }
        if same {
            assert(c@.subrange(i as int, i + p@.len()) =~= p@);
            return true;
        }
        i = i + 1;
    }
    assert forall|m: int| 0 <= m && m + p@.len() <= c@.len() implies #[trigger] c@.subrange(
        m,
        m + p@.len(),
    ) != p@ by {}
    false
}

/// The value of `key` in an environment snapshot, or the empty text when it
/// is not set.
pub open spec fn env_text(entries: Seq<Seq<char>>, key: Seq<char>) -> Seq<char> {
    match env_lookup(entries, key) {
        Some(v) => v,
        None => Seq::empty(),
    }
}

/// Whether the terminal is known to support synchronized output (mode
/// 2026), judged from `TERM`, `TERM_PROGRAM`, `SSH_TTY` and `WT_SESSION`.
pub open spec fn sync_output_spec(entries: Seq<Seq<char>>) -> bool {
    let term = env_text(entries, "TERM"@);
    let term_prog = env_lookup(entries, "TERM_PROGRAM"@);
    let ssh_tty = env_lookup(entries, "SSH_TTY"@) is Some;
    let wt_session = env_lookup(entries, "WT_SESSION"@) is Some;
    ||| wt_session
    ||| contains_text(term, "ghostty"@)
    ||| contains_text(term, "wezterm"@)
    ||| (term_prog is None && !ssh_tty)
    ||| (!ssh_tty && !contains_text(env_text(entries, "TERM_PROGRAM"@), "Apple"@))
    ||| contains_text(term, "alacritty"@)
    ||| contains_text(term, "kitty"@)
    ||| contains_text(term, "rio"@)
}

/// Returns the value of `key`, or the empty text when it is not set.
fn env_text_of<'a>(env: &'a [String], key: &str) -> (r: &'a str)
    ensures
        r@ == env_text(string_views(env@), key@),
{
    match env_value(env, key) {
        Some(v) => v,
        None => {
            proof {
                reveal_strlit("");
            }
            ""
        },
    }
}

/// Returns whether the terminal is known to support synchronized output,
/// so that the program asks for it.
pub fn should_query_synchronized_output(env: &[String]) -> (r: bool)
    ensures
        r == sync_output_spec(string_views(env@)),
{
    let term = env_text_of(env, "TERM");
    let ok_term_prog = env_value(env, "TERM_PROGRAM").is_some();
    let term_prog = env_text_of(env, "TERM_PROGRAM");
    let ssh_tty = env_value(env, "SSH_TTY").is_some();
    let wt_session = env_value(env, "WT_SESSION").is_some();
    wt_session || text_contains(term, "ghostty") || text_contains(term, "wezterm") || (!ok_term_prog
        && !ssh_tty) || (!ssh_tty && !text_contains(term_prog, "Apple")) || text_contains(
        term,
        "alacritty",
    ) || text_contains(term, "kitty") || text_contains(term, "rio")
}

/// The query for synchronized output and Unicode core modes (DECRQM 2026
/// and 2027).
pub const SYNCHRONIZED_OUTPUT_QUERY: &'static str = "\x1b[?2026$p\x1b[?2027$p";

/// The terminal name given to the input decoder: `TERM` when it is set and
/// not empty, else `xterm-256color`.
pub open spec fn terminal_name_spec(entries: Seq<Seq<char>>) -> Seq<char> {
    match env_lookup(entries, "TERM"@) {
        Some(t) => if t.len() > 0 {
            t
        } else {
            "xterm-256color"@
        },
        None => "xterm-256color"@,
    }
}

/// Returns the terminal name given to the input decoder.
pub fn terminal_name<'a>(env: &'a [String]) -> (r: &'a str)
    ensures
        r@ == terminal_name_spec(string_views(env@)),
{
    match env_value(env, "TERM") {
        Some(t) => {
            if t.unicode_len() > 0 {
                t
            } else {
                "xterm-256color"
            }
        },
        None => "xterm-256color",
    }
}

/// The `KEY=VALUE` entry of an environment pair.
pub open spec fn env_entry(key: Seq<char>, value: Seq<char>) -> Seq<char> {
    key + seq!['='] + value
}

/// Returns the `KEY=VALUE` entries of environment pairs, in order.
pub fn env_entries(pairs: &Vec<(String, String)>) -> (r: Vec<String>)
    ensures
        r@.len() == pairs@.len(),
        forall|i: int|
            0 <= i < pairs@.len() ==> #[trigger] r@[i]@ == env_entry(pairs@[i].0@, pairs@[i].1@),
        string_views(r@) == entries_of(entry_views(pairs@)),
{
    let mut r: Vec<String> = Vec::new();
    let mut i: usize = 0;
    while i < pairs.len()
        invariant
            i <= pairs@.len(),
            r@.len() == i,
            forall|j: int|
                0 <= j < i ==> #[trigger] r@[j]@ == env_entry(pairs@[j].0@, pairs@[j].1@),
        decreases pairs@.len() - i,
    {
        let mut chars = chars_of(pairs[i].0.as_str());
        chars.push('=');
        let mut value = chars_of(pairs[i].1.as_str());
        chars.append(&mut value);
        r.push(string_from_chars(&chars));
        i = i + 1;
    }
    assert(string_views(r@) =~= entries_of(entry_views(pairs@)));
    r
}

/// The query for the terminal's background color (OSC 11).
pub const REQUEST_BACKGROUND_COLOR: &'static str = "\x1b]11;?\x07";

/// The query for the terminal's foreground color (OSC 10).
pub const REQUEST_FOREGROUND_COLOR: &'static str = "\x1b]10;?\x07";

/// The query for the terminal's cursor color (OSC 12).
pub const REQUEST_CURSOR_COLOR: &'static str = "\x1b]12;?\x07";

/// The query for the terminal's name and version (XTVERSION).
pub const REQUEST_NAME_VERSION: &'static str = "\x1b[>q";

/// How the event loop goes on after a message.
#[derive(Debug, Clone, Copy, PartialEq, Eq, Structural)]
pub enum Outcome {
    /// Wait for the next message.
    Continue,
    /// End the run normally.
    Finish,
    /// End the run with an error.
    Fail(ProgramError),
}

/// A step that the program takes for a message, before the model sees it or
/// in its place. Steps run in order; when leaving or entering raw mode
/// fails, the run ends with a terminal error.
#[derive(Debug, PartialEq, Eq)]
pub enum Effect<M = (), W = NoWork> {
    /// Leave raw mode.
    DisableRawMode,
    /// Enter raw mode.
    EnableRawMode,
    /// Send a resume message back to the event loop from another thread.
    ScheduleResume,
    /// Clear the renderer's screen.
    ClearScreen,
    /// Write text directly to the output.
    Write(String),
    /// Send a message back to the event loop.
    Send(Msg<M, W>),
    /// Resize the renderer.
    Resize {
        /// New width in columns.
        width: usize,
        /// New height in rows.
        height: usize,
    },
    /// Run the external process of the delivered exec message and wait for
    /// it.
    RunProcess,
    /// Insert a line above the frame.
    InsertAbove(String),
    /// Write the text to the program's output as it is, without a
    /// renderer.
    Print(String),
    /// Render the model's current view.
    RenderView,
    /// Set the renderer's color profile.
    SetColorProfile(RenderProfile),
    /// Hand a mouse event to the model's mouse handler, which may answer
    /// with a command.
    HandleMouse(MouseMsg),
    /// Run the commands of a batch concurrently.
    RunBatch(Vec<Cmd<M, W>>),
    /// Run the commands of a sequence one after another.
    RunSequence(Vec<Cmd<M, W>>),
}

/// An effect with its texts and command lists taken by their views.
pub enum EffectView<M = (), W = NoWork> {
    /// Leave raw mode.
    DisableRawMode,
    /// Enter raw mode.
    EnableRawMode,
    /// Send a resume message back later.
    ScheduleResume,
    /// Clear the screen.
    ClearScreen,
    /// Write text directly.
    Write(Seq<char>),
    /// Send a message back.
    Send(Msg<M, W>),
    /// Resize the renderer.
    Resize(usize, usize),
    /// Run the delivered process.
    RunProcess,
    /// Insert a line above the frame.
    InsertAbove(Seq<char>),
    /// Write text to the output as it is.
    Print(Seq<char>),
    /// Render the view.
    RenderView,
    /// Set the color profile.
    SetColorProfile(RenderProfile),
    /// Hand a mouse event to the mouse handler.
    HandleMouse(MouseMsg),
    /// Run a batch.
    RunBatch(Seq<Cmd<M, W>>),
    /// Run a sequence.
    RunSequence(Seq<Cmd<M, W>>),
}

impl<M, W> View for Effect<M, W> {
    type V = EffectView<M, W>;

    open spec fn view(&self) -> EffectView<M, W> {
        match self {
            Effect::DisableRawMode => EffectView::DisableRawMode,
            Effect::EnableRawMode => EffectView::EnableRawMode,
            Effect::ScheduleResume => EffectView::ScheduleResume,
            Effect::ClearScreen => EffectView::ClearScreen,
            Effect::Write(s) => EffectView::Write(s@),
            Effect::Send(m) => EffectView::Send(*m),
            Effect::Resize { width, height } => EffectView::Resize(*width, *height),
            Effect::RunProcess => EffectView::RunProcess,
            Effect::InsertAbove(s) => EffectView::InsertAbove(s@),
            Effect::Print(s) => EffectView::Print(s@),
            Effect::RenderView => EffectView::RenderView,
            Effect::SetColorProfile(p) => EffectView::SetColorProfile(*p),
            Effect::HandleMouse(m) => EffectView::HandleMouse(*m),
            Effect::RunBatch(c) => EffectView::RunBatch(c@),
            Effect::RunSequence(c) => EffectView::RunSequence(c@),
        }
    }
}

/// The views of a sequence of effects.
pub open spec fn effect_views<M, W>(s: Seq<Effect<M, W>>) -> Seq<EffectView<M, W>> {
    s.map_values(|e: Effect<M, W>| e@)
}

/// What the program does with one message: the effects, in order; the
/// message handed to the model, which is then updated with it, its view
/// rendered and the command it answers run; and how the loop goes on.
pub struct MsgPlan<M = (), W = NoWork> {
    /// Effects to run first.
    pub effects: Vec<Effect<M, W>>,
    /// The message for the model, if it sees one.
    pub deliver: Option<Msg<M, W>>,
    /// How the loop goes on.
    pub outcome: Outcome,
}

/// The effects the program runs for a message, given the window size that
/// it reports on request and whether it runs a renderer.
pub open spec fn planned_effects<M, W>(m: Msg<M, W>, width: usize, height: usize, renderer: bool) -> Seq<
    EffectView<M, W>,
> {
    match m {
        Msg::Suspend(_) => seq![EffectView::DisableRawMode, EffectView::ScheduleResume],
        Msg::ClearScreen(_) => seq![EffectView::ClearScreen],
        Msg::RequestBackgroundColor(_) => seq![EffectView::Write(REQUEST_BACKGROUND_COLOR@)],
        Msg::RequestForegroundColor(_) => seq![EffectView::Write(REQUEST_FOREGROUND_COLOR@)],
        Msg::RequestCursorColor(_) => seq![EffectView::Write(REQUEST_CURSOR_COLOR@)],
        Msg::RequestCapability(c) => seq![
            EffectView::Write(capability_query_spec(encode_utf8(c.0@))),
        ],
        Msg::RequestTerminalVersion(_) => seq![EffectView::Write(REQUEST_NAME_VERSION@)],
        Msg::RequestWindowSize(_) => seq![
            EffectView::Send(Msg::WindowSize(WindowSizeMsg { width, height })),
        ],
        Msg::WindowSize(ws) => seq![EffectView::Resize(ws.width, ws.height)],
        Msg::Exec(_) => seq![
            EffectView::DisableRawMode,
            EffectView::RunProcess,
            EffectView::EnableRawMode,
        ],
        Msg::PrintLine(p) => if renderer {
            seq![EffectView::InsertAbove(p.message_body@), EffectView::RenderView]
        } else {
            seq![EffectView::Print(p.message_body@.push('\n'))]
        },
        Msg::Raw(r) => seq![EffectView::Write(r.0@)],
        Msg::ColorProfile(p) => seq![EffectView::SetColorProfile(render_profile_spec(p.profile))],
        Msg::Resume(_) => seq![EffectView::EnableRawMode],
        Msg::Batch(b) => seq![EffectView::RunBatch(b.0@)],
        Msg::Sequence(q) => seq![EffectView::RunSequence(q.0@)],
        Msg::Mouse(mm) => if renderer {
            seq![EffectView::HandleMouse(mm)]
        } else {
            Seq::empty()
        },
        _ => Seq::empty(),
    }
}

/// Whether the model sees a message: not a quit or interrupt, not a query
/// that the program answers itself, not a line to print or raw text, and
/// not a batch or sequence, whose commands run instead.
pub open spec fn planned_delivery<M, W>(m: Msg<M, W>) -> bool {
    match m {
        Msg::Quit(_) | Msg::Interrupt(_) | Msg::RequestCapability(_) | Msg::RequestTerminalVersion(_)
        | Msg::RequestWindowSize(_) | Msg::PrintLine(_) | Msg::Raw(_) | Msg::Batch(_)
        | Msg::Sequence(_) => false,
        _ => true,
    }
}

/// How the loop goes on after a message: a quit ends the run, an interrupt
/// ends it with the interrupted error, and everything else continues.
pub open spec fn planned_outcome<M, W>(m: Msg<M, W>) -> Outcome {
    match m {
        Msg::Quit(_) => Outcome::Finish,
        Msg::Interrupt(_) => Outcome::Fail(ProgramError::Interrupted),
        _ => Outcome::Continue,
    }
}

fn plan_of<M, W>(effects: Vec<Effect<M, W>>, deliver: Option<Msg<M, W>>, outcome: Outcome) -> (p:
    MsgPlan<M, W>)
    ensures
        p.effects == effects,
        p.deliver == deliver,
        p.outcome == outcome,
{
    MsgPlan { effects, deliver, outcome }
}

fn no_effects<M, W>() -> (v: Vec<Effect<M, W>>)
    ensures
        effect_views(v@) == Seq::<EffectView<M, W>>::empty(),
{
    let v: Vec<Effect<M, W>> = Vec::new();
    assert(effect_views(v@) =~= Seq::<EffectView<M, W>>::empty());
    v
}

fn effects_of<M, W>(a: Effect<M, W>) -> (v: Vec<Effect<M, W>>)
    ensures
        effect_views(v@) == seq![a@],
{
    let mut v: Vec<Effect<M, W>> = Vec::new();
    v.push(a);
    assert(effect_views(v@) =~= seq![a@]);
    v
}

fn effects_of2<M, W>(a: Effect<M, W>, b: Effect<M, W>) -> (v: Vec<Effect<M, W>>)
    ensures
        effect_views(v@) == seq![a@, b@],
{
    let mut v: Vec<Effect<M, W>> = Vec::new();
    v.push(a);
    v.push(b);
    assert(effect_views(v@) =~= seq![a@, b@]);
    v
}

fn effects_of3<M, W>(a: Effect<M, W>, b: Effect<M, W>, c: Effect<M, W>) -> (v: Vec<
    Effect<M, W>,
>)
    ensures
        effect_views(v@) == seq![a@, b@, c@],
{
    let mut v: Vec<Effect<M, W>> = Vec::new();
    v.push(a);
    v.push(b);
    v.push(c);
    assert(effect_views(v@) =~= seq![a@, b@, c@]);
    v
}

/// Whether a message changes the program's own state: quit, interrupt,
/// suspend, resume, exec.
pub open spec fn is_control_msg<M, W>(m: Msg<M, W>) -> bool {
    m is Quit || m is Interrupt || m is Suspend || m is Resume || m is Exec
}

/// Whether a message is a query that the program writes to the terminal.
pub open spec fn is_query_msg<M, W>(m: Msg<M, W>) -> bool {
    m is RequestBackgroundColor || m is RequestForegroundColor || m is RequestCursorColor
        || m is RequestCapability || m is RequestTerminalVersion || m is RequestWindowSize
}

/// Whether a message acts on the renderer or runs commands.
pub open spec fn is_output_msg<M, W>(m: Msg<M, W>) -> bool {
    m is ClearScreen || m is WindowSize || m is PrintLine || m is Raw || m is ColorProfile
        || m is Mouse || m is Batch || m is Sequence
}

/// The plan of a message: its effects, whether the model sees it, and the
/// outcome.
pub open spec fn is_plan_of<M, W>(
    p: MsgPlan<M, W>,
    msg: Msg<M, W>,
    width: usize,
    height: usize,
    renderer: bool,
) -> bool {
    &&& effect_views(p.effects@) == planned_effects(msg, width, height, renderer)
    &&& p.deliver == (if planned_delivery(msg) {
        Some(msg)
    } else {
        None
    })
    &&& p.outcome == planned_outcome(msg)
}

fn plan_control<M, W>(msg: Msg<M, W>) -> (p: MsgPlan<M, W>)
    requires
        is_control_msg(msg),
    ensures
        forall|w: usize, h: usize, r: bool| is_plan_of(p, msg, w, h, r),
{
    match msg {
        Msg::Quit(_) => plan_of(no_effects(), None, Outcome::Finish),
        Msg::Interrupt(_) => plan_of(no_effects(), None, Outcome::Fail(ProgramError::Interrupted)),
        Msg::Suspend(x) => plan_of(
            effects_of2(Effect::DisableRawMode, Effect::ScheduleResume),
            Some(Msg::Suspend(x)),
            Outcome::Continue,
        ),
        Msg::Resume(x) => plan_of(
            effects_of(Effect::EnableRawMode),
            Some(Msg::Resume(x)),
            Outcome::Continue,
        ),
        Msg::Exec(e) => plan_of(
            effects_of3(Effect::DisableRawMode, Effect::RunProcess, Effect::EnableRawMode),
            Some(Msg::Exec(e)),
            Outcome::Continue,
        ),
        other => plan_of(no_effects(), Some(other), Outcome::Continue),
    }
}

fn plan_query<M, W>(msg: Msg<M, W>, width: usize, height: usize) -> (p: MsgPlan<M, W>)
    requires
        is_query_msg(msg),
    ensures
        forall|r: bool| is_plan_of(p, msg, width, height, r),
{
    match msg {
        Msg::RequestBackgroundColor(x) => plan_of(
            effects_of(Effect::Write(REQUEST_BACKGROUND_COLOR.to_owned())),
            Some(Msg::RequestBackgroundColor(x)),
            Outcome::Continue,
        ),
        Msg::RequestForegroundColor(x) => plan_of(
            effects_of(Effect::Write(REQUEST_FOREGROUND_COLOR.to_owned())),
            Some(Msg::RequestForegroundColor(x)),
            Outcome::Continue,
        ),
        Msg::RequestCursorColor(x) => plan_of(
            effects_of(Effect::Write(REQUEST_CURSOR_COLOR.to_owned())),
            Some(Msg::RequestCursorColor(x)),
            Outcome::Continue,
        ),
        Msg::RequestCapability(c) => plan_of(
            effects_of(Effect::Write(capability_query(c.0.as_str()))),
            None,
            Outcome::Continue,
        ),
        Msg::RequestTerminalVersion(_) => plan_of(
            effects_of(Effect::Write(REQUEST_NAME_VERSION.to_owned())),
            None,
            Outcome::Continue,
        ),
        Msg::RequestWindowSize(_) => plan_of(
            effects_of(Effect::Send(Msg::WindowSize(WindowSizeMsg { width, height }))),
            None,
            Outcome::Continue,
        ),
        other => plan_of(no_effects(), Some(other), Outcome::Continue),
    }
}

/// Returns the text followed by a line end.
fn with_line_end(s: String) -> (r: String)
    ensures
        r@ == s@.push('\n'),
{
    let mut r = s;
    push_char(&mut r, '\n');
    r
}

fn plan_output<M, W>(msg: Msg<M, W>, renderer: bool) -> (p: MsgPlan<M, W>)
    requires
        is_output_msg(msg),
    ensures
        forall|w: usize, h: usize| is_plan_of(p, msg, w, h, renderer),
{
    match msg {
        Msg::ClearScreen(x) => plan_of(
            effects_of(Effect::ClearScreen),
            Some(Msg::ClearScreen(x)),
            Outcome::Continue,
        ),
        Msg::WindowSize(ws) => plan_of(
            effects_of(Effect::Resize { width: ws.width, height: ws.height }),
            Some(Msg::WindowSize(ws)),
            Outcome::Continue,
        ),
        Msg::PrintLine(pl) => {
            if renderer {
                plan_of(
                    effects_of2(Effect::InsertAbove(pl.message_body), Effect::RenderView),
                    None,
                    Outcome::Continue,
                )
            } else {
                plan_of(
                    effects_of(Effect::Print(with_line_end(pl.message_body))),
                    None,
                    Outcome::Continue,
                )
            }
        },
        Msg::Raw(r) => plan_of(effects_of(Effect::Write(r.0)), None, Outcome::Continue),
        Msg::ColorProfile(cp) => plan_of(
            effects_of(Effect::SetColorProfile(render_profile(cp.profile))),
            Some(Msg::ColorProfile(cp)),
            Outcome::Continue,
        ),
        Msg::Mouse(mm) => {
            if renderer {
                plan_of(effects_of(Effect::HandleMouse(mm)), Some(Msg::Mouse(mm)), Outcome::Continue)
            } else {
                plan_of(no_effects(), Some(Msg::Mouse(mm)), Outcome::Continue)
            }
        },
        Msg::Batch(b) => plan_of(effects_of(Effect::RunBatch(b.0)), None, Outcome::Continue),
        Msg::Sequence(q) => plan_of(effects_of(Effect::RunSequence(q.0)), None, Outcome::Continue),
        other => plan_of(no_effects(), Some(other), Outcome::Continue),
    }
}

/// Returns which group a message belongs to: 0 for control, 1 for queries,
/// 2 for output, 3 for the rest.
fn msg_group<M, W>(m: &Msg<M, W>) -> (g: u8)
    ensures
        g == 0 <==> is_control_msg(*m),
        g == 1 <==> is_query_msg(*m),
        g == 2 <==> is_output_msg(*m),
        g <= 3,
{
    match m {
        Msg::Quit(_) | Msg::Interrupt(_) | Msg::Suspend(_) | Msg::Resume(_) | Msg::Exec(_) => 0,
        Msg::RequestBackgroundColor(_) | Msg::RequestForegroundColor(_) | Msg::RequestCursorColor(_)
        | Msg::RequestCapability(_) | Msg::RequestTerminalVersion(_) | Msg::RequestWindowSize(_) => 1,
        Msg::ClearScreen(_) | Msg::WindowSize(_) | Msg::PrintLine(_) | Msg::Raw(_)
        | Msg::ColorProfile(_) | Msg::Mouse(_) | Msg::Batch(_) | Msg::Sequence(_) => 2,
        _ => 3,
    }
}

/// Decides what the program does with a message; `width` and `height` are
/// the window size it reports when asked, and `renderer` tells whether the
/// program runs a renderer: without one, printed lines go plainly to the
/// output and no one answers mouse events.
pub fn plan_msg<M, W>(msg: Msg<M, W>, width: usize, height: usize, renderer: bool) -> (p: MsgPlan<
    M,
    W,
>)
    ensures
        effect_views(p.effects@) == planned_effects(msg, width, height, renderer),
        p.deliver == (if planned_delivery(msg) {
            Some(msg)
        } else {
            None
        }),
        p.outcome == planned_outcome(msg),
{
    let g = msg_group(&msg);
    if g == 0 {
        let p = plan_control(msg);
        assert(is_plan_of(p, msg, width, height, renderer));
        p
    } else if g == 1 {
        let p = plan_query(msg, width, height);
        assert(is_plan_of(p, msg, width, height, renderer));
        p
    } else if g == 2 {
        let p = plan_output(msg, renderer);
        assert(is_plan_of(p, msg, width, height, renderer));
        p
    } else {
        plan_of(no_effects(), Some(msg), Outcome::Continue)
    }
}

/// Decides what the program does with a message after the event filter
/// answered for it: nothing at all when the filter dropped it, a quit
/// included, and otherwise the plan of the message the filter handed back.
pub fn plan_filtered<M, W>(answer: Option<Msg<M, W>>, width: usize, height: usize, renderer: bool) -> (p:
    MsgPlan<M, W>)
    ensures
        answer is None ==> p.effects@.len() == 0 && p.deliver is None && p.outcome
            == Outcome::Continue,
        answer matches Some(m) ==> is_plan_of(p, m, width, height, renderer),
{
    match answer {
        None => {
            let p = plan_of(Vec::new(), None, Outcome::Continue);
            p
        },
        Some(m) => {
            let p = plan_msg(m, width, height, renderer);
            p
        },
    }
}

/// A quit ends the run and an interrupt ends it with the interrupted error,
/// without effects and without reaching the model; every other message lets
/// the run go on.
pub proof fn law_only_quit_and_interrupt_end_the_run<M, W>(
    m: Msg<M, W>,
    width: usize,
    height: usize,
    renderer: bool,
)
    ensures
        forall|p: MsgPlan<M, W>| #[trigger]
            is_plan_of(p, m, width, height, renderer) ==> {
                &&& m is Quit ==> p.outcome == Outcome::Finish && p.deliver is None
                    && p.effects@.len() == 0
                &&& m is Interrupt ==> p.outcome == Outcome::Fail(ProgramError::Interrupted)
                    && p.deliver is None && p.effects@.len() == 0
                &&& !(m is Quit) && !(m is Interrupt) ==> p.outcome == Outcome::Continue
            },
{
    assert forall|p: MsgPlan<M, W>| #[trigger] is_plan_of(p, m, width, height, renderer) implies {
        &&& m is Quit ==> p.outcome == Outcome::Finish && p.deliver is None && p.effects@.len() == 0
        &&& m is Interrupt ==> p.outcome == Outcome::Fail(ProgramError::Interrupted)
            && p.deliver is None && p.effects@.len() == 0
        &&& !(m is Quit) && !(m is Interrupt) ==> p.outcome == Outcome::Continue
    } by {
        if m is Quit || m is Interrupt {
            assert(effect_views(p.effects@).len() == 0);
        }
    }
}

/// Whether a message is an input event or a message of the application:
/// key presses and releases, mouse events, pastes, focus changes.
pub open spec fn is_input_event<M, W>(m: Msg<M, W>) -> bool {
    m is Key || m is KeyRelease || m is Mouse || m is Paste || m is PasteStart || m is PasteEnd
        || m is Focus || m is Blur || m is App
}

/// Input events and the application's own messages reach the model
/// unchanged, and the run goes on; apart from mouse events, which the
/// renderer may also answer, the program does nothing else with them.
pub proof fn law_input_reaches_model<M, W>(m: Msg<M, W>, width: usize, height: usize, renderer: bool)
    requires
        is_input_event(m),
    ensures
        forall|p: MsgPlan<M, W>|
            #[trigger] is_plan_of(p, m, width, height, renderer) ==> p.deliver == Some(m)
                && p.outcome == Outcome::Continue && (!(m is Mouse) ==> p.effects@.len() == 0),
{
    assert forall|p: MsgPlan<M, W>| #[trigger] is_plan_of(p, m, width, height, renderer) implies p.deliver
        == Some(m) && p.outcome == Outcome::Continue && (!(m is Mouse) ==> p.effects@.len() == 0) by {
        if !(m is Mouse) {
            assert(effect_views(p.effects@).len() == 0);
        }
    }
}

/// Without a renderer, a printed line is written to the output as it is,
/// followed by a line end, and nothing else is done for it; with one, it is
/// inserted above the frame, which is drawn again.
pub proof fn law_printed_lines_without_renderer<M, W>(p: PrintLineMsg, width: usize, height: usize)
    ensures
        planned_effects(Msg::<M, W>::PrintLine(p), width, height, false) == seq![
            EffectView::<M, W>::Print(p.message_body@.push('\n')),
        ],
        planned_effects(Msg::<M, W>::PrintLine(p), width, height, true) == seq![
            EffectView::<M, W>::InsertAbove(p.message_body@),
            EffectView::<M, W>::RenderView,
        ],
        !planned_delivery(Msg::<M, W>::PrintLine(p)),
{
}

/// The initial window size: the size set in the options, with the detected
/// size (80 by 24 when none was detected) where the options leave it at
/// zero, and at least one in each direction.
pub open spec fn window_size_spec(detected: Option<(u16, u16)>, width: usize, height: usize) -> (
    usize,
    usize,
) {
    let dw: usize = match detected {
        Some(d) => d.0 as usize,
        None => 80,
    };
    let dh: usize = match detected {
        Some(d) => d.1 as usize,
        None => 24,
    };
    let w = if width == 0 {
        dw
    } else {
        width
    };
    let h = if height == 0 {
        dh
    } else {
        height
    };
    (if w < 1 {
        1
    } else {
        w
    }, if h < 1 {
        1
    } else {
        h
    })
}

/// Returns the initial window size from the options and the size detected
/// on the terminal, if any.
pub fn configured_window_size<F, R, W>(
    options: &ProgramOptions<F, R, W>,
    detected: Option<(u16, u16)>,
) -> (r: (usize, usize))
    ensures
        r == window_size_spec(detected, options.width, options.height),
        r.0 >= 1 && r.1 >= 1,
        options.width > 0 ==> r.0 == options.width,
        options.height > 0 ==> r.1 == options.height,
{
    let (dw, dh): (usize, usize) = match detected {
        Some((w, h)) => (w as usize, h as usize),
        None => (80, 24),
    };
    let w = if options.width == 0 {
        dw
    } else {
        options.width
    };
    let h = if options.height == 0 {
        dh
    } else {
        options.height
    };
    (if w < 1 {
        1
    } else {
        w
    }, if h < 1 {
        1
    } else {
        h
    })
}

/// Returns the error that ends the run before the next message: a kill
/// request or a cancelled context ends it as killed.
pub fn check_stop(killed: bool, cancelled: bool) -> (r: Option<ProgramError>)
    ensures
        r == (if killed || cancelled {
            Some(ProgramError::Killed)
        } else {
            None
        }),
{
    if killed || cancelled {
        Some(ProgramError::Killed)
    } else {
        None
    }
}

/// The time between two frames: the frame rate is taken between 1 and 120.
pub open spec fn frame_interval_spec(fps: u32) -> u64 {
    let f: u32 = if fps < 1 {
        1
    } else if fps > MAX_FPS {
        MAX_FPS
    } else {
        fps
    };
    (1000int / (f as int)) as u64
}

/// Returns the time between two frames in milliseconds.
pub fn frame_interval_ms(fps: u32) -> (r: u64)
    ensures
        r == frame_interval_spec(fps),
        8 <= r <= 1000,
{
    let f: u32 = if fps < 1 {
        1
    } else if fps > MAX_FPS {
        MAX_FPS
    } else {
        fps
    };
    let r = 1000u64 / (f as u64);
    assert(8 <= r <= 1000) by (nonlinear_arith)
        requires
            1 <= f <= 120,
            r == 1000int / (f as int),
    ;
    r
}

/// Returns whether the program puts the terminal in raw mode: with a
/// renderer and input, when the input is a reader of the options or stdin
/// is a terminal.
pub fn uses_raw_mode<F, R, W>(options: &ProgramOptions<F, R, W>, stdin_is_terminal: bool) -> (r:
    bool)
    ensures
        r == (!options.disable_renderer && !options.input_disabled && (options.input is Some
            || stdin_is_terminal)),
{
    !options.disable_renderer && !options.input_disabled() && (options.input.is_some()
        || stdin_is_terminal)
}

/// Returns the renderer's color profile: the one forced by the options, or
/// else the detected one.
pub fn chosen_profile<F, R, W>(options: &ProgramOptions<F, R, W>, detected: RenderProfile) -> (r:
    RenderProfile)
    ensures
        r == (match options.color_profile {
            Some(p) => render_profile_spec(p),
            None => detected,
        }),
{
    match options.color_profile {
        Some(p) => render_profile(p),
        None => detected,
    }
}

/// The messages the program sends itself when it starts: the window size,
/// the environment, and the color profile as the model knows it.
pub fn startup_msgs<M, W>(
    width: usize,
    height: usize,
    env: Vec<(String, String)>,
    profile: RenderProfile,
) -> (r: Vec<Msg<M, W>>)
    ensures
        r@.len() == 3,
        r@[0] == Msg::<M, W>::WindowSize(WindowSizeMsg { width, height }),
        r@[1] matches Msg::Env(e) && entry_views(e.vars@) == merged_entries(entry_views(env@)),
        r@[2] == Msg::<M, W>::ColorProfile(ColorProfileMsg { profile: reported_profile_spec(profile) }),
{
    let mut r: Vec<Msg<M, W>> = Vec::new();
    r.push(Msg::WindowSize(WindowSizeMsg { width, height }));
    r.push(Msg::Env(EnvMsg::new(env)));
    r.push(Msg::ColorProfile(ColorProfileMsg { profile: reported_profile(profile) }));
    r
}

/// Returns the query the program writes at startup, if any: synchronized
/// output is asked for with a renderer, on terminals known to support it.
pub fn startup_query<F, R, W>(options: &ProgramOptions<F, R, W>, env: &[String]) -> (r: Option<
    &'static str,
>)
    ensures
        r == (if !options.disable_renderer && sync_output_spec(string_views(env@)) {
            Some(SYNCHRONIZED_OUTPUT_QUERY)
        } else {
            None
        }),
{
    if !options.disable_renderer && should_query_synchronized_output(env) {
        Some(SYNCHRONIZED_OUTPUT_QUERY)
    } else {
        None
    }
}

/// Where the message that a command yields goes: the present commands of a
/// batch or a sequence run in place, without a trip through the event
/// loop, and every other message is sent to the event loop.
#[derive(Debug, PartialEq, Eq)]
pub enum Dispatch<M = (), W = NoWork> {
    /// Run these commands concurrently and wait for all of them.
    RunBatch(Vec<Cmd<M, W>>),
    /// Run these commands one after another.
    RunSequence(Vec<Cmd<M, W>>),
    /// Send this message to the event loop.
    Send(Msg<M, W>),
}

/// Decides where the message a command yielded goes.
pub fn dispatch_of<M, W>(msg: Msg<M, W>) -> (d: Dispatch<M, W>)
    ensures
        match msg {
            Msg::Batch(b) => d matches Dispatch::RunBatch(c) && c@ == present(b.0@),
            Msg::Sequence(q) => d matches Dispatch::RunSequence(c) && c@ == present(q.0@),
            _ => d == Dispatch::Send(msg),
        },
{
    match msg {
        Msg::Batch(b) => Dispatch::RunBatch(keep_present(b.0)),
        Msg::Sequence(q) => Dispatch::RunSequence(keep_present(q.0)),
        other => Dispatch::Send(other),
    }
}

/// What running a command comes to: a message at once, the application's
/// work to run, or a wait before another command runs.
#[derive(Debug, PartialEq, Eq)]
pub enum Step<M = (), W = NoWork> {
    /// The message the command yields.
    Yield(Msg<M, W>),
    /// The work to run; what it answers is the command's message.
    Perform(W),
    /// Wait this many milliseconds before running the command.
    After(u64, Command<M, W>),
}

/// How long a timer started at `now_ms` (milliseconds since the Unix epoch)
/// waits: its interval, or, in sync with the clock, the time to the next
/// multiple of its interval.
pub open spec fn timer_delay<M, W>(t: Timer<M, W>, now_ms: nat) -> nat {
    if t.align_to_clock {
        clock_delay(now_ms, t.interval_ms as nat)
    } else {
        t.interval_ms as nat
    }
}

/// What running a command started at `now_ms` comes to.
pub open spec fn command_step_spec<M, W>(c: Command<M, W>, now_ms: nat) -> Step<M, W> {
    match c {
        Command::Emit(m) => Step::Yield(m),
        Command::Run(w) => Step::Perform(w),
        Command::Delayed(t) => Step::After(timer_delay(t, now_ms) as u64, *t.next),
    }
}

/// Returns what running a command started at `now_ms` comes to.
pub fn command_step<M, W>(c: Command<M, W>, now_ms: u64) -> (r: Step<M, W>)
    ensures
        r == command_step_spec(c, now_ms as nat),
        c matches Command::Delayed(t) ==> r matches Step::After(d, _) && d == timer_delay(
            t,
            now_ms as nat,
        ),
{
    match c {
        Command::Emit(m) => Step::Yield(m),
        Command::Run(w) => Step::Perform(w),
        Command::Delayed(t) => {
            let delay = if t.align_to_clock {
                clock_aligned_delay(now_ms, t.interval_ms)
            } else {
                t.interval_ms
            };
            Step::After(delay, *t.next)
        },
    }
}

/// The value of the first pair with the key `key`.
pub open spec fn first_value(pairs: Seq<(Seq<char>, Seq<char>)>, key: Seq<char>) -> Option<
    Seq<char>,
>
    decreases pairs.len(),
{
    if pairs.len() == 0 {
        None
    } else if pairs[0].0 == key {
        Some(pairs[0].1)
    } else {
        first_value(pairs.drop_first(), key)
    }
}

/// The `KEY=VALUE` entries of pairs.
pub open spec fn entries_of(pairs: Seq<(Seq<char>, Seq<char>)>) -> Seq<Seq<char>> {
    pairs.map_values(|p: (Seq<char>, Seq<char>)| env_entry(p.0, p.1))
}

/// Whether no key of the pairs holds `=`.
pub open spec fn keys_without_separator(pairs: Seq<(Seq<char>, Seq<char>)>) -> bool {
    forall|i: int| 0 <= i < pairs.len() ==> !(#[trigger] pairs[i]).0.contains('=')
}

/// An entry made of a key without `=` has exactly that key, and its value
/// is the text after the separator.
proof fn lemma_entry_key(k: Seq<char>, v: Seq<char>, key: Seq<char>)
    requires
        !k.contains('='),
    ensures
        entry_has_key(env_entry(k, v), key) <==> k == key,
        k == key ==> env_entry(k, v).subrange(key.len() + 1int, env_entry(k, v).len() as int)
            == v,
{
    let e = env_entry(k, v);
    assert(e[k.len() as int] == '=');
    if entry_has_key(e, key) {
        if key.len() < k.len() {
            assert(e[key.len() as int] == k[key.len() as int]);
            assert(k.contains('='));
        } else if key.len() > k.len() {
            assert(e.subrange(0, key.len() as int)[k.len() as int] == e[k.len() as int]);
            assert(key[k.len() as int] == '=');
            assert(key.contains('='));
        } else {
            assert(k =~= e.subrange(0, k.len() as int));
        }
    }
    if k == key {
        assert(e.subrange(0, key.len() as int) =~= key);
        assert(e.subrange(key.len() + 1int, e.len() as int) =~= v);
    }
}

/// Reading a variable from the `KEY=VALUE` entries of environment pairs
/// gives the value of the first pair with that key, when no key holds `=`.
pub proof fn law_env_entries_read_back(pairs: Seq<(Seq<char>, Seq<char>)>, key: Seq<char>)
    requires
        keys_without_separator(pairs),
    ensures
        env_lookup(entries_of(pairs), key) == first_value(pairs, key),
    decreases pairs.len(),
{
    if pairs.len() > 0 {
        let e = entries_of(pairs);
        assert(!pairs[0].0.contains('='));
        lemma_entry_key(pairs[0].0, pairs[0].1, key);
        assert(e[0] == env_entry(pairs[0].0, pairs[0].1));
        assert(e.drop_first() =~= entries_of(pairs.drop_first()));
        assert forall|i: int| 0 <= i < pairs.drop_first().len() implies !(
        #[trigger] pairs.drop_first()[i]).0.contains('=') by {
            assert(pairs.drop_first()[i] == pairs[i + 1]);
        }
        law_env_entries_read_back(pairs.drop_first(), key);
    }
}

/// A timer in sync with the clock fires on the next multiple of its
/// interval since the Unix epoch, within one interval; any other timer
/// fires one interval after it starts.
pub proof fn law_timers_fire_on_schedule<M, W>(t: Timer<M, W>, now_ms: nat)
    ensures
        t.align_to_clock && t.interval_ms > 0 ==> 0 < timer_delay(t, now_ms) <= t.interval_ms,
        t.align_to_clock && t.interval_ms > 0 ==> (now_ms as int + timer_delay(t, now_ms) as int)
            % (t.interval_ms as int) == 0,
        !t.align_to_clock ==> timer_delay(t, now_ms) == t.interval_ms,
{
    if t.align_to_clock && t.interval_ms > 0 {
        let i = t.interval_ms as int;
        let r = now_ms as int % i;
        vstd::arithmetic::div_mod::lemma_fundamental_div_mod(now_ms as int, i);
        let q = now_ms as int / i;
        assert(now_ms + (i - r) == (q + 1) * i) by (nonlinear_arith)
            requires
                now_ms as int == i * q + r,
        ;
        vstd::arithmetic::div_mod::lemma_mod_multiples_basic(q + 1, i);
    }
}

} // verus!
