//! The control handle of a program: other threads use it to send messages
//! to the event loop, to quit, or to kill the program.
//!
//! Messages sent before the program starts stay queued in order; messages
//! sent after it finished, or after a kill request, are dropped.
use std::sync::atomic::AtomicBool;
use std::sync::atomic::AtomicU8;
use std::sync::atomic::Ordering;
use std::sync::mpsc::Sender;
use std::sync::Arc;
use vstd::prelude::*;

use crate::commands::QuitMsg;
use crate::model::{Msg, NoWork};

verus! {

/// The sending end of a channel of the standard library.
#[verifier::external_type_specification]
#[verifier::external_body]
#[verifier::reject_recursive_types(T)]
pub struct ExSender<T>(Sender<T>);

/// `Clone` of a channel's sending end: the clone sends on the same channel.
/// Verus sees nothing inside a sender, so nothing is stated of the clone.
pub assume_specification<T>[ <Sender<T> as Clone>::clone ](s: &Sender<T>) -> Sender<T>;

/// Sends a message on the program's channel with `Sender::send`. The result
/// tells whether the receiving end still existed, which depends on another
/// thread; nothing is stated of it.
#[verifier::external_body]
fn channel_send<M, W>(tx: &Sender<Msg<M, W>>, m: Msg<M, W>) -> (delivered: bool) {
    tx.send(m).is_ok()
}

/// The state of a program that has not started.
pub const PROGRAM_NEW: u8 = 0;

/// The state of a running program.
pub const PROGRAM_RUNNING: u8 = 1;

/// The state of a program that finished its cleanup.
pub const PROGRAM_FINISHED: u8 = 2;

/// Whether a message is handed to the event loop: not after a kill request,
/// and not once the program has finished.
pub open spec fn delivery_allowed_spec(killed: bool, state: u8) -> bool {
    !killed && state != PROGRAM_FINISHED
}

/// Returns whether a message is handed to the event loop, given the kill
/// flag and the program state.
pub fn delivery_allowed(killed: bool, state: u8) -> (r: bool)
    ensures
        r == delivery_allowed_spec(killed, state),
{
    !killed && state != PROGRAM_FINISHED
}

/// Messages sent after a kill request, or once the program has finished,
/// are dropped; before that, they reach the event loop.
pub proof fn law_no_delivery_after_shutdown(killed: bool, state: u8)
    ensures
        !delivery_allowed_spec(true, state),
        !delivery_allowed_spec(killed, PROGRAM_FINISHED),
        !killed && (state == PROGRAM_NEW || state == PROGRAM_RUNNING) ==> delivery_allowed_spec(
            killed,
            state,
        ),
{
}

/// A cloneable control surface for a running program.
#[derive(Clone)]
#[verifier::reject_recursive_types(M)]
#[verifier::reject_recursive_types(W)]
pub struct ProgramHandle<M = (), W = NoWork> {
    msg_tx: Sender<Msg<M, W>>,
    state: Arc<AtomicU8>,
    killed: Arc<AtomicBool>,
}

impl<M, W> ProgramHandle<M, W> {
    /// The channel to the program's event loop.
    pub closed spec fn channel(&self) -> Sender<Msg<M, W>> {
        self.msg_tx
    }

    /// The program's shared state.
    pub closed spec fn shared_state(&self) -> Arc<AtomicU8> {
        self.state
    }

    /// The program's shared kill flag.
    pub closed spec fn kill_flag(&self) -> Arc<AtomicBool> {
        self.killed
    }

    /// Creates a handle from the program's channel, its shared state and
    /// its kill flag.
    pub fn new(msg_tx: Sender<Msg<M, W>>, state: Arc<AtomicU8>, killed: Arc<AtomicBool>) -> (h:
        ProgramHandle<M, W>)
        ensures
            h.channel() == msg_tx,
            h.shared_state() == state,
            h.kill_flag() == killed,
    {
        ProgramHandle { msg_tx, state, killed }
    }

    /// Sends a message to the program's event loop. The message is dropped
    /// after a kill request or once the program has finished; this never
    /// blocks on the model or the renderer.
    pub fn send(&self, msg: Msg<M, W>) {
        let killed = self.killed.load(Ordering::SeqCst);
        let state = self.state.load(Ordering::SeqCst);
        if delivery_allowed(killed, state) {
            let _ = channel_send(&self.msg_tx, msg);
        }
    }

    /// Requests a graceful shutdown.
    pub fn quit(&self) {
        self.send(Msg::Quit(QuitMsg));
    }

    /// Requests an immediate shutdown that ends the run as killed; nothing
    /// happens once the program has finished.
    pub fn kill(&self) {
        let state = self.state.load(Ordering::SeqCst);
        if state == PROGRAM_FINISHED {
            return;
        }
        self.killed.store(true, Ordering::SeqCst);
        let _ = channel_send(&self.msg_tx, Msg::Quit(QuitMsg));
    }

    /// Returns whether the program has finished its cleanup.
    pub fn is_finished(&self) -> bool {
        self.state.load(Ordering::SeqCst) == PROGRAM_FINISHED
    }
}

} // verus!
