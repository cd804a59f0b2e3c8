//! Program options: frame rate, renderer and signal switches, the initial
//! window size, the event filter, input and output, the environment, a
//! forced color profile and an external cancellation context.
//!
//! The options are generic over the filter, the input reader and the output
//! writer, so that the program decides which kinds it accepts.
use std::sync::atomic::AtomicBool;
use std::sync::atomic::Ordering;
use std::sync::Arc;
use vstd::prelude::*;

use crate::profile::ColorProfile;

verus! {

/// A cancellation context for the program lifecycle: cloning it shares the
/// flag, and cancelling any clone cancels them all.
#[derive(Debug, Clone)]
pub struct Context {
    cancelled: Arc<AtomicBool>,
}

impl Context {
    /// Returns a new context that is not cancelled.
    pub fn new() -> Context {
        Context { cancelled: Arc::new(AtomicBool::new(false)) }
    }

    /// Returns whether the context has been cancelled. Another thread may
    /// cancel it at any time, so the answer is only known to have held when
    /// it was read.
    pub fn done(&self) -> bool {
        self.cancelled.load(Ordering::SeqCst)
    }

    /// Cancels the context and every clone of it.
    pub fn cancel(&self) {
        self.cancelled.store(true, Ordering::SeqCst);
    }
}

impl Default for Context {
    fn default() -> Self {
        Context::new()
    }
}

/// Program configuration options. `F` is the event filter, `R` the input
/// reader and `W` the output writer.
pub struct ProgramOptions<F, R, W> {
    /// Target frame rate limit.
    pub fps: u32,
    /// Disable renderer (for daemon or headless usage).
    pub disable_renderer: bool,
    /// Disable OS signal handling.
    pub disable_signals: bool,
    /// Disable the signal handler that the program sets up.
    pub disable_signal_handler: bool,
    /// Disable the panic catching that the program does by default.
    pub disable_catch_panics: bool,
    /// Initial terminal width override; zero keeps the detected width.
    pub width: usize,
    /// Initial terminal height override; zero keeps the detected height.
    pub height: usize,
    /// Optional event filter.
    pub filter: Option<F>,
    /// Input reader override. Without one the program reads stdin, unless
    /// input was disabled.
    pub input: Option<R>,
    /// Whether input was explicitly disabled, which is distinct from the
    /// default stdin input.
    pub input_disabled: bool,
    /// Output writer override; `None` means stdout.
    pub output: Option<W>,
    /// Environment variables used by the program.
    pub environ: Option<Vec<(String, String)>>,
    /// Forced color profile.
    pub color_profile: Option<ColorProfile>,
    /// External cancellation context.
    pub context: Option<Context>,
}

/// The default frame rate.
pub const DEFAULT_FPS: u32 = 60;

/// The highest frame rate.
pub const MAX_FPS: u32 = 120;

/// The frame rate kept by `with_fps`: the default for zero, at most the
/// highest frame rate.
pub open spec fn fps_setting(fps: u32) -> u32 {
    if fps == 0 {
        DEFAULT_FPS
    } else if fps > MAX_FPS {
        MAX_FPS
    } else {
        fps
    }
}

/// Whether options hold the defaults: 60 frames per second, no switch set,
/// no size override, and nothing supplied.
pub open spec fn is_default_options<F, R, W>(o: ProgramOptions<F, R, W>) -> bool {
    &&& o.fps == DEFAULT_FPS
    &&& !o.disable_renderer
    &&& !o.disable_signals
    &&& !o.disable_signal_handler
    &&& !o.disable_catch_panics
    &&& o.width == 0
    &&& o.height == 0
    &&& o.filter is None
    &&& o.input is None
    &&& !o.input_disabled
    &&& o.output is None
    &&& o.environ is None
    &&& o.color_profile is None
    &&& o.context is None
}

impl<F, R, W> Default for ProgramOptions<F, R, W> {
    fn default() -> (o: Self)
        ensures
            is_default_options(o),
    {
        ProgramOptions {
            fps: DEFAULT_FPS,
            disable_renderer: false,
            disable_signals: false,
            disable_signal_handler: false,
            disable_catch_panics: false,
            width: 0,
            height: 0,
            filter: None,
            input: None,
            input_disabled: false,
            output: None,
            environ: None,
            color_profile: None,
            context: None,
        }
    }
}

impl<F, R, W> ProgramOptions<F, R, W> {
    /// Sets a context in which to run the program, so that it can be
    /// cancelled from outside; a cancelled program ends as killed.
    pub fn with_context(self, ctx: Context) -> (r: Self)
        ensures
            r == (ProgramOptions { context: Some(ctx), ..self }),
    {
        ProgramOptions { context: Some(ctx), ..self }
    }

    /// Sets the output, which is stdout by default.
    pub fn with_output(self, output: W) -> (r: Self)
        ensures
            r == (ProgramOptions { output: Some(output), ..self }),
    {
        ProgramOptions { output: Some(output), ..self }
    }

    /// Sets the input, which is stdin by default; `None` disables input
    /// entirely.
    pub fn with_input(self, input: Option<R>) -> (r: Self)
        ensures
            r == (ProgramOptions { input_disabled: input is None, input: input, ..self }),
    {
        let disabled = input.is_none();
        ProgramOptions { input_disabled: disabled, input: input, ..self }
    }

    /// Returns whether input was explicitly disabled.
    pub fn input_disabled(&self) -> (r: bool)
        ensures
            r == self.input_disabled,
    {
        self.input_disabled
    }

    /// Sets the environment variables that the program uses, for instance
    /// those of a remote session.
    pub fn with_environment(self, env: Vec<(String, String)>) -> (r: Self)
        ensures
            r == (ProgramOptions { environ: Some(env), ..self }),
    {
        ProgramOptions { environ: Some(env), ..self }
    }

    /// Disables the signal handler that the program sets up.
    pub fn without_signal_handler(self) -> (r: Self)
        ensures
            r == (ProgramOptions { disable_signal_handler: true, ..self }),
    {
        ProgramOptions { disable_signal_handler: true, ..self }
    }

    /// Disables the panic catching that the program does by default.
    pub fn without_catch_panics(self) -> (r: Self)
        ensures
            r == (ProgramOptions { disable_catch_panics: true, ..self }),
    {
        ProgramOptions { disable_catch_panics: true, ..self }
    }

    /// Makes the program ignore OS signals.
    pub fn without_signals(self) -> (r: Self)
        ensures
            r == (ProgramOptions { disable_signals: true, ..self }),
    {
        ProgramOptions { disable_signals: true, ..self }
    }

    /// Disables the renderer: output goes plainly to the output, without
    /// rendering and redrawing. The program then plans each message without
    /// a renderer (`plan_msg` with `renderer` false), so a printed line is
    /// written to the output as it is, followed by a line end.
    pub fn without_renderer(self) -> (r: Self)
        ensures
            r == (ProgramOptions { disable_renderer: true, ..self }),
    {
        ProgramOptions { disable_renderer: true, ..self }
    }

    /// Supplies an event filter that sees each message before the program
    /// handles it, and may replace or drop it.
    pub fn with_filter(self, filter: F) -> (r: Self)
        ensures
            r == (ProgramOptions { filter: Some(filter), ..self }),
    {
        ProgramOptions { filter: Some(filter), ..self }
    }

    /// Sets the maximum frame rate: zero keeps the default of 60, and rates
    /// over 120 are capped at 120.
    pub fn with_fps(self, fps: u32) -> (r: Self)
        ensures
            r == (ProgramOptions { fps: fps_setting(fps), ..self }),
            1 <= r.fps <= MAX_FPS,
    {
        let kept = if fps == 0 {
            DEFAULT_FPS
        } else if fps > MAX_FPS {
            MAX_FPS
        } else {
            fps
        };
        ProgramOptions { fps: kept, ..self }
    }

    /// Sets the color profile that the program uses.
    pub fn with_color_profile(self, profile: ColorProfile) -> (r: Self)
        ensures
            r == (ProgramOptions { color_profile: Some(profile), ..self }),
    {
        ProgramOptions { color_profile: Some(profile), ..self }
    }

    /// Sets the initial size of the terminal window, for instance in tests
    /// or in a non-interactive environment.
    pub fn with_window_size(self, width: usize, height: usize) -> (r: Self)
        ensures
            r == (ProgramOptions { width: width, height: height, ..self }),
    {
        ProgramOptions { width: width, height: height, ..self }
    }
}

} // verus!
