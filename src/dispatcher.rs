use vstd::prelude::*;
use crossbeam_channel::{Receiver, Sender};
use crate::channel::{clone_sender, open_channel, try_receive, CommandSender, Received};
use crate::command::Command;
use crate::notice::{after_shows, show_step, NotificationSlot};
use crate::route::{plan, route, Call};

verus! {

/// Whether the host should keep polling.
#[derive(Debug, Clone, Copy, PartialEq, Eq)]
pub enum Flow {
    Continue,
    /// The channel is closed: a lifecycle fault with no recovery.
    Stop,
}

/// What one poll tick decided: whether to keep polling, and the handler
/// invocations to perform, in order.
pub struct Tick {
    pub flow: Flow,
    pub calls: Vec<Call>,
}

/// The dispatcher's state as the proofs see it.
pub struct DispatchState {
    /// Every command applied so far, in the order applied.
    pub applied: Seq<Command>,
    /// The text of the notification on display.
    pub notice: Option<String>,
}

/// The handler invocations that apply `c` while `notice` is on display. A new
/// notification first destroys the one it replaces.
pub open spec fn effects(notice: Option<String>, c: Command) -> Seq<Call> {
    match c {
        Command::ShowNotice(_) => match notice {
            Some(old) => seq![Call::DestroyNotice(old)] + plan(c),
            None => plan(c),
        },
        _ => plan(c),
    }
}

/// The state after applying `c`.
pub open spec fn apply(s: DispatchState, c: Command) -> DispatchState {
    DispatchState {
        applied: s.applied.push(c),
        notice: match c {
            Command::ShowNotice(text) => show_step(s.notice, text),
            _ => s.notice,
        },
    }
}

/// The state after one tick that found `o`.
pub open spec fn tick_state(s: DispatchState, o: Received) -> DispatchState {
    match o {
        Received::Command(c) => apply(s, c),
        _ => s,
    }
}

/// The calls of one tick that found `o`.
pub open spec fn tick_calls(s: DispatchState, o: Received) -> Seq<Call> {
    match o {
        Received::Command(c) => effects(s.notice, c),
        _ => Seq::empty(),
    }
}

/// The flow of one tick that found `o`.
pub open spec fn tick_flow(o: Received) -> Flow {
    match o {
        Received::Closed => Flow::Stop,
        _ => Flow::Continue,
    }
}

/// The state after a run of ticks that found `os`, in order.
pub open spec fn run(s: DispatchState, os: Seq<Received>) -> DispatchState
    decreases os.len(),
{
    if os.len() == 0 {
        s
    } else {
        tick_state(run(s, os.drop_last()), os.last())
    }
}

/// The commands among `os`, in order.
pub open spec fn commands_of(os: Seq<Received>) -> Seq<Command>
    decreases os.len(),
{
    if os.len() == 0 {
        Seq::empty()
    } else {
        let rest = commands_of(os.drop_last());
        match os.last() {
            Received::Command(c) => rest.push(c),
            _ => rest,
        }
    }
}

/// Owns the consuming end of the command channel and the notification slot,
/// and turns each received command into handler invocations.
pub struct Dispatcher {
    sender: Sender<Command>,
    receiver: Receiver<Command>,
    notice: NotificationSlot,
    applied: Ghost<Seq<Command>>,
}

impl View for Dispatcher {
    type V = DispatchState;

    closed spec fn view(&self) -> DispatchState {
        DispatchState { applied: self.applied@, notice: self.notice.shown() }
    }
}

impl Dispatcher {
    /// A dispatcher on a new channel, with nothing applied and no
    /// notification on display.
    pub fn new() -> (r: Self)
        ensures
            r@.applied.len() == 0,
            r@.notice is None,
    {
        let (sender, receiver) = open_channel();
        Dispatcher { sender, receiver, notice: NotificationSlot::new(), applied: Ghost(Seq::empty()) }
    }

    /// A producer handle on this dispatcher's channel.
    pub fn sender(&self) -> (r: CommandSender) {
        CommandSender::from_sender(clone_sender(&self.sender))
    }

    /// The text of the notification on display, if any.
    pub fn notice_text(&self) -> (r: Option<String>)
        ensures
            r == self@.notice,
    {
        self.notice.text()
    }

    /// Applies what one look into the channel found: a command is routed to
    /// its handlers, an empty channel changes nothing, and a closed one stops
    /// polling.
    pub fn step(&mut self, received: Received) -> (r: Tick)
        ensures
            final(self)@ == tick_state(old(self)@, received),
            r.calls@ == tick_calls(old(self)@, received),
            r.flow == tick_flow(received),
    {
        match received {
            Received::Command(c) => {
                proof {
                    self.applied@ = self.applied@.push(c);
                }
                match c {
                    Command::ShowNotice(text) => {
                        let shown = text.clone();
                        let displaced = self.notice.show(text);
                        let mut calls: Vec<Call> = Vec::new();
                        match displaced {
                            Some(old) => calls.push(Call::DestroyNotice(old)),
                            None => {},
                        }
                        calls.push(Call::ShowNotice(shown));
                        Tick { flow: Flow::Continue, calls }
                    },
                    other => Tick { flow: Flow::Continue, calls: route(other) },
                }
            },
            Received::Empty => Tick { flow: Flow::Continue, calls: Vec::new() },
            Received::Closed => Tick { flow: Flow::Stop, calls: Vec::new() },
        }
    }

    /// One tick of the host's timer: looks into the channel once, without
    /// blocking, and applies at most one command.
    pub fn poll_once(&mut self) -> (r: Tick)
        ensures
            exists|o: Received|
                {
                    &&& final(self)@ == #[trigger] tick_state(old(self)@, o)
                    &&& r.calls@ == tick_calls(old(self)@, o)
                    &&& r.flow == tick_flow(o)
                },
            final(self)@.applied.len() <= old(self)@.applied.len() + 1,
    {
        let received = try_receive(&self.receiver);
        self.step(received)
    }
}

/// Ticks apply the commands they receive in the order received, each exactly
/// once, after everything applied before.
pub proof fn lemma_applied_in_order(s: DispatchState, os: Seq<Received>)
    ensures
        run(s, os).applied == s.applied + commands_of(os),
    decreases os.len(),
{
    if os.len() > 0 {
        lemma_applied_in_order(s, os.drop_last());
        assert(s.applied + commands_of(os.drop_last()).push(os.last()->Command_0)
            =~= (s.applied + commands_of(os.drop_last())).push(os.last()->Command_0));
    }
}

/// The texts of the notice commands among `cs`, in order.
pub open spec fn notice_texts(cs: Seq<Command>) -> Seq<String>
    decreases cs.len(),
{
    if cs.len() == 0 {
        Seq::empty()
    } else {
        let rest = notice_texts(cs.drop_last());
        match cs.last() {
            Command::ShowNotice(text) => rest.push(text),
            _ => rest,
        }
    }
}

/// Over any run of ticks, the notification on display is what the slot holds
/// after showing, in order, the text of every notice command received: so at
/// most one, and the most recent.
pub proof fn lemma_notice_follows_shows(s: DispatchState, os: Seq<Received>)
    ensures
        run(s, os).notice == after_shows(s.notice, notice_texts(commands_of(os))),
    decreases os.len(),
{
    if os.len() > 0 {
        let init = os.drop_last();
        lemma_notice_follows_shows(s, init);
        match os.last() {
            Received::Command(c) => {
                assert(commands_of(os).drop_last() == commands_of(init));
                assert(commands_of(os).last() == c);
                match c {
                    Command::ShowNotice(text) => {
                        let ts = notice_texts(commands_of(os));
                        assert(ts.drop_last() == notice_texts(commands_of(init)));
                    },
                    _ => {},
                }
            },
            _ => {},
        }
    }
}

/// A tick applies at most one command, however many are waiting.
pub proof fn lemma_one_command_per_tick(s: DispatchState, o: Received)
    ensures
        tick_state(s, o).applied.len() <= s.applied.len() + 1,
        !(o is Command) ==> tick_state(s, o) == s,
{
}

} // verus!
