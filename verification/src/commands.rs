//! Built-in commands: quitting, batching and sequencing commands, timers and
//! window-size requests.
use vstd::prelude::*;

use crate::model::{emit, Cmd, Command, Msg, NoWork, Timer};
use crate::text::{decimal, push_decimal};

verus! {

/// BatchMsg carries commands that run concurrently with no ordering
/// guarantees.
#[derive(Debug, PartialEq, Eq)]
pub struct BatchMsg<M = (), W = NoWork>(pub Vec<Cmd<M, W>>);

/// SequenceMsg carries commands that run one at a time, in order.
#[derive(Debug, PartialEq, Eq)]
pub struct SequenceMsg<M = (), W = NoWork>(pub Vec<Cmd<M, W>>);

/// QuitMsg signals the program to exit.
#[derive(Debug, Clone, Copy, PartialEq, Eq)]
pub struct QuitMsg;

/// InterruptMsg signals the program to stop as if it received an interrupt.
#[derive(Debug, Clone, Copy, PartialEq, Eq)]
pub struct InterruptMsg;

/// SuspendMsg signals the program to suspend.
#[derive(Debug, Clone, Copy, PartialEq, Eq)]
pub struct SuspendMsg;

/// ResumeMsg is sent when the program resumes after a suspension.
#[derive(Debug, Clone, Copy, PartialEq, Eq)]
pub struct ResumeMsg;

/// RequestWindowSizeMsg requests the terminal window size.
#[derive(Debug, Clone, Copy, PartialEq, Eq)]
pub struct RequestWindowSizeMsg;

/// The commands of `cmds` that are present, in their given order.
pub open spec fn present<M, W>(cmds: Seq<Cmd<M, W>>) -> Seq<Cmd<M, W>>
    decreases cmds.len(),
{
    if cmds.len() == 0 {
        Seq::empty()
    } else if cmds.last() is Some {
        present(cmds.drop_last()).push(cmds.last())
    } else {
        present(cmds.drop_last())
    }
}

/// Every command in `present(cmds)` is present.
pub proof fn lemma_present_all_some<M, W>(cmds: Seq<Cmd<M, W>>)
    ensures
        forall|i: int| 0 <= i < present(cmds).len() ==> #[trigger] present(cmds)[i] is Some,
        present(cmds).len() <= cmds.len(),
    decreases cmds.len(),
{
    if cmds.len() > 0 {
        lemma_present_all_some(cmds.drop_last());
    }
}

/// Removes the absent commands, keeping the order of the others.
pub fn keep_present<M, W>(cmds: Vec<Cmd<M, W>>) -> (res: Vec<Cmd<M, W>>)
    ensures
        res@ == present(cmds@),
{
    let ghost all = cmds@;
    let mut res: Vec<Cmd<M, W>> = Vec::new();
    for cmd in it: cmds
        invariant
            it.seq() == all,
            res@ == present(all.take(it.index() as int)),
    {
        assert(all.take(it.index() + 1).drop_last() == all.take(it.index() as int));
        if cmd.is_some() {
            res.push(cmd);
        }
    }
    assert(all.take(all.len() as int) == all);
    res
}

/// The command that `batch` and `sequence` build from the present commands
/// `valid`: nothing for none, the command itself for one, and otherwise a
/// command yielding the message that `wrap` makes of them.
pub open spec fn combined<M, W>(valid: Seq<Cmd<M, W>>, res: Cmd<M, W>, is_batch: bool) -> bool {
    &&& valid.len() == 0 ==> res is None
    &&& valid.len() == 1 ==> res == valid[0]
    &&& valid.len() > 1 ==> (if is_batch {
        res matches Some(Command::Emit(Msg::Batch(b))) && b.0@ == valid
    } else {
        res matches Some(Command::Emit(Msg::Sequence(s))) && s.0@ == valid
    })
}

/// Quit is a command that signals the program to exit.
pub fn quit<M, W>() -> (c: Cmd<M, W>)
    ensures
        c == emit(Msg::<M, W>::Quit(QuitMsg)),
{
    Some(Command::Emit(Msg::Quit(QuitMsg)))
}

/// Interrupt is a command that stops the program as if it were interrupted.
pub fn interrupt<M, W>() -> (c: Cmd<M, W>)
    ensures
        c == emit(Msg::<M, W>::Interrupt(InterruptMsg)),
{
    Some(Command::Emit(Msg::Interrupt(InterruptMsg)))
}

/// Suspend is a command that suspends the program.
pub fn suspend<M, W>() -> (c: Cmd<M, W>)
    ensures
        c == emit(Msg::<M, W>::Suspend(SuspendMsg)),
{
    Some(Command::Emit(Msg::Suspend(SuspendMsg)))
}

/// Batch performs multiple commands concurrently with no ordering
/// guarantees. Absent commands are dropped; no command left gives no
/// command, and a single command left is returned as it is.
pub fn batch<M, W>(cmds: Vec<Cmd<M, W>>) -> (res: Cmd<M, W>)
    ensures
        combined(present(cmds@), res, true),
{
    let mut valid = keep_present(cmds);
    let n = valid.len();
    if n == 0 {
        None
    } else if n == 1 {
        valid.pop().unwrap()
    } else {
        Some(Command::Emit(Msg::Batch(BatchMsg(valid))))
    }
}

/// Sequence runs the given commands one at a time, in order. Absent commands
/// are dropped; no command left gives no command, and a single command left
/// is returned as it is.
pub fn sequence<M, W>(cmds: Vec<Cmd<M, W>>) -> (res: Cmd<M, W>)
    ensures
        combined(present(cmds@), res, false),
{
    let mut valid = keep_present(cmds);
    let n = valid.len();
    if n == 0 {
        None
    } else if n == 1 {
        valid.pop().unwrap()
    } else {
        Some(Command::Emit(Msg::Sequence(SequenceMsg(valid))))
    }
}

/// The delay, in milliseconds, from `now_ms` (time since the Unix epoch) to
/// the next multiple of `interval_ms`; no delay for a zero interval.
pub open spec fn clock_delay(now_ms: nat, interval_ms: nat) -> nat {
    if interval_ms == 0 {
        0
    } else {
        (interval_ms - now_ms % interval_ms) as nat
    }
}

/// Returns how long a clock-aligned timer started at `now_ms` waits: until
/// the next multiple of the interval since the Unix epoch.
pub fn clock_aligned_delay(now_ms: u64, interval_ms: u64) -> (d: u64)
    ensures
        d == clock_delay(now_ms as nat, interval_ms as nat),
        interval_ms > 0 ==> 0 < d <= interval_ms,
        interval_ms > 0 ==> (now_ms + d) % (interval_ms as int) == 0,
{
    if interval_ms == 0 {
        0
    } else {
        let r = now_ms % interval_ms;
        proof {
            vstd::arithmetic::div_mod::lemma_fundamental_div_mod(now_ms as int, interval_ms as int);
            let q = now_ms as int / interval_ms as int;
            assert(now_ms + (interval_ms - r) == (q + 1) * interval_ms) by (nonlinear_arith)
                requires
                    now_ms as int == interval_ms as int * q + r,
            ;
            vstd::arithmetic::div_mod::lemma_mod_multiples_basic(q + 1, interval_ms as int);
        }
        interval_ms - r
    }
}

/// Every is a command that runs `next` in sync with the system clock: at
/// the next multiple of the interval since the Unix epoch. Work that `next`
/// carries is given the time it fires at.
pub fn every<M, W>(interval_ms: u64, next: Command<M, W>) -> (c: Cmd<M, W>)
    ensures
        c matches Some(Command::Delayed(d)) && d.interval_ms == interval_ms && d.align_to_clock
            && *d.next == next,
{
    Some(Command::Delayed(Timer { interval_ms, align_to_clock: true, next: Box::new(next) }))
}

/// Tick is a command that runs `next` one interval after it starts,
/// independently of the system clock. Work that `next` carries is given the
/// time it fires at.
pub fn tick<M, W>(interval_ms: u64, next: Command<M, W>) -> (c: Cmd<M, W>)
    ensures
        c matches Some(Command::Delayed(d)) && d.interval_ms == interval_ms && !d.align_to_clock
            && *d.next == next,
{
    Some(Command::Delayed(Timer { interval_ms, align_to_clock: false, next: Box::new(next) }))
}

/// RequestWindowSize is a command that queries the terminal size.
pub fn request_window_size<M, W>() -> (c: Cmd<M, W>)
    ensures
        c == emit(Msg::<M, W>::RequestWindowSize(RequestWindowSizeMsg)),
{
    Some(Command::Emit(Msg::RequestWindowSize(RequestWindowSizeMsg)))
}

/// The description of a command collection: its name and how many commands
/// it holds.
pub open spec fn count_description(name: Seq<char>, n: nat) -> Seq<char> {
    name + "("@ + decimal(n) + " commands)"@
}

impl<M, W> BatchMsg<M, W> {
    /// Describes the batch as `BatchMsg(<n> commands)`.
    pub fn describe(&self) -> (s: String)
        ensures
            s@ == count_description("BatchMsg"@, self.0@.len()),
    {
        let mut s = "BatchMsg".to_owned();
        s.append("(");
        push_decimal(&mut s, self.0.len() as u64);
        s.append(" commands)");
        s
    }
}

impl<M, W> SequenceMsg<M, W> {
    /// Describes the sequence as `SequenceMsg(<n> commands)`.
    pub fn describe(&self) -> (s: String)
        ensures
            s@ == count_description("SequenceMsg"@, self.0@.len()),
    {
        let mut s = "SequenceMsg".to_owned();
        s.append("(");
        push_decimal(&mut s, self.0.len() as u64);
        s.append(" commands)");
        s
    }
}

} // verus!
