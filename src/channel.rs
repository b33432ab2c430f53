use vstd::prelude::*;
use crossbeam_channel::{Receiver, Sender, TryRecvError};
use crate::command::Command;

verus! {

#[verifier::external_type_specification]
#[verifier::external_body]
#[verifier::reject_recursive_types(T)]
pub struct ExSender<T>(Sender<T>);

#[verifier::external_type_specification]
#[verifier::external_body]
#[verifier::reject_recursive_types(T)]
pub struct ExReceiver<T>(Receiver<T>);

/// What one non-blocking look into the channel found.
#[derive(Debug, PartialEq, Eq)]
pub enum Received {
    /// The oldest command that was waiting.
    Command(Command),
    /// Nothing was waiting.
    Empty,
    /// Every sender is gone: no command can ever arrive again.
    Closed,
}

/// Relies on crossbeam_channel::unbounded: a new channel without a capacity
/// bound, whose two ends are returned.
#[verifier::external_body]
pub(crate) fn open_channel() -> (Sender<Command>, Receiver<Command>) {
    crossbeam_channel::unbounded()
}

/// Relies on Sender::clone: another handle on the same channel.
#[verifier::external_body]
pub(crate) fn clone_sender(s: &Sender<Command>) -> Sender<Command> {
    s.clone()
}

/// Relies on Sender::send: on an unbounded channel it never waits; when the
/// receiving end is gone it fails and hands the message back.
#[verifier::external_body]
fn send_on(s: &Sender<Command>, c: Command) -> (r: Result<(), Command>)
    ensures
        r matches Err(back) ==> back == c,
{
    s.send(c).map_err(|e| e.into_inner())
}

/// Relies on Receiver::try_recv: takes a waiting message without blocking,
/// or reports an empty or disconnected channel. Other threads may send at any
/// moment, so nothing is known in advance of which outcome comes.
#[verifier::external_body]
pub(crate) fn try_receive(r: &Receiver<Command>) -> Received {
    match r.try_recv() {
        Ok(c) => Received::Command(c),
        Err(TryRecvError::Empty) => Received::Empty,
        Err(TryRecvError::Disconnected) => Received::Closed,
    }
}

/// The producing end of the command channel. Any number of them may exist,
/// on any thread; sending never blocks.
pub struct CommandSender {
    inner: Sender<Command>,
}

impl CommandSender {
    pub(crate) fn from_sender(inner: Sender<Command>) -> (r: Self) {
        CommandSender { inner }
    }

    /// Another producer on the same channel.
    pub fn share(&self) -> (r: Self) {
        CommandSender { inner: clone_sender(&self.inner) }
    }

    /// Enqueues `c` without waiting. Fails, handing `c` back, only when the
    /// dispatcher is gone.
    pub fn send(&self, c: Command) -> (r: Result<(), Command>)
        ensures
            r matches Err(back) ==> back == c,
    {
        send_on(&self.inner, c)
    }
}

} // verus!
