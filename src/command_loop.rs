use vstd::prelude::*;

use crate::device::{device_views, DeviceView, ExtronDevice};
use crate::protocol::{
    command_of, line_outcome, probed_devices, select_command,
    select_outcome, PortProbe, SelectError, SelectErrorView,
};
use crate::registry::{lookup, names_unique, registry_of, ExtronDeviceList};

verus! {

/// A request to the command loop.
#[derive(Debug, Clone)]
pub enum Command {
    /// Report every registered device.
    ListDevices,
    /// Rebuild the registry from the hardware now attached.
    Rescan,
    /// Switch the device named `device_name` to input `input_id`.
    SelectInput { device_name: String, input_id: String },
    /// Stop serving.
    StopServer,
}

pub enum CommandView {
    ListDevices,
    Rescan,
    SelectInput { device_name: Seq<char>, input_id: Seq<char> },
    StopServer,
}

impl View for Command {
    type V = CommandView;

    open spec fn view(&self) -> CommandView {
        match self {
            Command::ListDevices => CommandView::ListDevices,
            Command::Rescan => CommandView::Rescan,
            Command::SelectInput { device_name, input_id } => CommandView::SelectInput {
                device_name: device_name@,
                input_id: input_id@,
            },
            Command::StopServer => CommandView::StopServer,
        }
    }
}

/// The answer to one command.
#[derive(Debug)]
pub enum Reply {
    /// The devices registered when the command ran.
    ListDevices(Vec<ExtronDevice>),
    /// The rescan is done.
    RescanReply,
    /// How the selection went.
    Select(Result<(), SelectError>),
    /// The stop was signalled.
    StopReply,
}

pub enum ReplyView {
    ListDevices(Seq<DeviceView>),
    RescanReply,
    Select(Result<(), SelectErrorView>),
    StopReply,
}

impl View for Reply {
    type V = ReplyView;

    open spec fn view(&self) -> ReplyView {
        match self {
            Reply::ListDevices(d) => ReplyView::ListDevices(device_views(d@)),
            Reply::RescanReply => ReplyView::RescanReply,
            Reply::Select(r) => ReplyView::Select(
                match r {
                    Ok(()) => Ok(()),
                    Err(e) => Err(e@),
                },
            ),
            Reply::StopReply => ReplyView::StopReply,
        }
    }
}

/// `reply` is of the kind that answers `cmd`.
pub open spec fn answers(reply: ReplyView, cmd: CommandView) -> bool {
    match cmd {
        CommandView::ListDevices => reply is ListDevices,
        CommandView::Rescan => reply is RescanReply,
        CommandView::SelectInput { .. } => reply is Select,
        CommandView::StopServer => reply is StopReply,
    }
}

/// What the world told the loop.
#[derive(Debug)]
pub enum Event {
    /// A command came off the queue.
    Received(Command),
    /// A discovery finished: what each candidate endpoint answered, or
    /// nothing where the endpoints could not be listed at all.
    Scanned(Option<Vec<PortProbe>>),
    /// A select transaction finished: the first line the device answered,
    /// or what went wrong on the port.
    Answered(Result<String, String>),
    /// Every sender of the queue is gone.
    QueueClosed,
}

pub enum EventView {
    Received(CommandView),
    Scanned(Option<Seq<PortProbe>>),
    Answered(Result<Seq<char>, Seq<char>>),
    QueueClosed,
}

impl View for Event {
    type V = EventView;

    open spec fn view(&self) -> EventView {
        match self {
            Event::Received(c) => EventView::Received(c@),
            Event::Scanned(s) => EventView::Scanned(
                match s {
                    Some(p) => Some(p@),
                    None => None,
                },
            ),
            Event::Answered(a) => EventView::Answered(
                match a {
                    Ok(l) => Ok(l@),
                    Err(m) => Err(m@),
                },
            ),
            Event::QueueClosed => EventView::QueueClosed,
        }
    }
}

/// What the loop asks the world to do next.
#[derive(Debug)]
pub enum Action {
    /// Run a discovery on a worker and report it with [`Event::Scanned`].
    Discover,
    /// On a worker, open the device's port, write `command` and read the first
    /// line of the answer; report it with [`Event::Answered`].
    Transact { device: ExtronDevice, command: String },
    /// Send the reply to the command being served, then take the next command.
    Respond(Reply),
    /// Take the next command.
    Listen,
    /// Signal the shutdown, send the reply to the command being served, and
    /// take no more commands.
    Shutdown(Reply),
    /// The loop is over.
    Finish,
}

pub enum ActionView {
    Discover,
    Transact { device: DeviceView, command: Seq<char> },
    Respond(ReplyView),
    Listen,
    Shutdown(ReplyView),
    Finish,
}

impl View for Action {
    type V = ActionView;

    open spec fn view(&self) -> ActionView {
        match self {
            Action::Discover => ActionView::Discover,
            Action::Transact { device, command } => ActionView::Transact {
                device: device@,
                command: command@,
            },
            Action::Respond(r) => ActionView::Respond(r@),
            Action::Listen => ActionView::Listen,
            Action::Shutdown(r) => ActionView::Shutdown(r@),
            Action::Finish => ActionView::Finish,
        }
    }
}

/// Where the loop stands.
#[derive(Debug)]
pub enum Phase {
    /// The initial discovery is running.
    Initializing,
    /// Waiting for the next command.
    Ready,
    /// A rescan's discovery is running.
    Rescanning,
    /// A select transaction for `input_id` is running.
    Selecting { input_id: String },
    /// No more commands are taken.
    Terminated,
}

pub enum PhaseView {
    Initializing,
    Ready,
    Rescanning,
    Selecting { input_id: Seq<char> },
    Terminated,
}

impl View for Phase {
    type V = PhaseView;

    open spec fn view(&self) -> PhaseView {
        match self {
            Phase::Initializing => PhaseView::Initializing,
            Phase::Ready => PhaseView::Ready,
            Phase::Rescanning => PhaseView::Rescanning,
            Phase::Selecting { input_id } => PhaseView::Selecting { input_id: input_id@ },
            Phase::Terminated => PhaseView::Terminated,
        }
    }
}

/// The loop, mathematically: its phase, its registry, every command it took
/// in the order taken, and how many of them it has answered.
pub struct LoopView {
    pub phase: PhaseView,
    pub registry: Seq<DeviceView>,
    pub log: Seq<CommandView>,
    pub replied: nat,
}

/// A hardware operation is running.
pub open spec fn busy(p: PhaseView) -> bool {
    p is Initializing || p is Rescanning || p is Selecting
}

/// The loop's invariant: names in the registry are unique; no command is
/// taken before the initial discovery; outside a hardware operation every
/// command taken has been answered, and during one exactly the last command
/// taken (the one that started it) waits for its answer.
pub open spec fn loop_inv(s: LoopView) -> bool {
    &&& names_unique(s.registry)
    &&& match s.phase {
        PhaseView::Initializing => s.log.len() == 0 && s.replied == 0,
        PhaseView::Ready | PhaseView::Terminated => s.replied == s.log.len(),
        PhaseView::Rescanning => s.replied + 1 == s.log.len() && s.log.last() is Rescan,
        PhaseView::Selecting { input_id } => s.replied + 1 == s.log.len()
            && s.log.last() is SelectInput && s.log.last()->SelectInput_input_id == input_id,
    }
}

/// The state in which the loop starts, with its initial discovery running.
pub open spec fn initial() -> LoopView {
    LoopView {
        phase: PhaseView::Initializing,
        registry: Seq::empty(),
        log: Seq::empty(),
        replied: 0,
    }
}

/// Which events a state can take: a command only when waiting for one, a
/// discovery's result only while one runs, a transaction's answer only while
/// one runs, the queue's end only when waiting for a command.
pub open spec fn accepts(s: LoopView, e: EventView) -> bool {
    match e {
        EventView::Received(_) => s.phase is Ready,
        EventView::Scanned(_) => s.phase is Initializing || s.phase is Rescanning,
        EventView::Answered(_) => s.phase is Selecting,
        EventView::QueueClosed => s.phase is Ready,
    }
}

/// The registry a discovery yields: the devices that answered, or none where
/// the endpoints could not be listed.
pub open spec fn scan_registry(scan: Option<Seq<PortProbe>>) -> Seq<DeviceView> {
    match scan {
        Some(p) => registry_of(probed_devices(p)),
        None => Seq::empty(),
    }
}

/// The loop's step: the state after `e` and the action it asks for.
pub open spec fn next(s: LoopView, e: EventView) -> (LoopView, ActionView) {
    match e {
        EventView::Received(c) => {
            let s1 = LoopView { log: s.log.push(c), ..s };
            match c {
                CommandView::ListDevices => (
                    LoopView { replied: s.replied + 1, ..s1 },
                    ActionView::Respond(ReplyView::ListDevices(s.registry)),
                ),
                CommandView::Rescan => (
                    LoopView { phase: PhaseView::Rescanning, ..s1 },
                    ActionView::Discover,
                ),
                CommandView::SelectInput { device_name, input_id } => match lookup(
                    s.registry,
                    device_name,
                ) {
                    Some(d) => (
                        LoopView { phase: PhaseView::Selecting { input_id }, ..s1 },
                        ActionView::Transact { device: d, command: command_of(input_id) },
                    ),
                    None => (
                        LoopView { replied: s.replied + 1, ..s1 },
                        ActionView::Respond(
                            ReplyView::Select(Err(SelectErrorView::DeviceNotFound)),
                        ),
                    ),
                },
                CommandView::StopServer => (
                    LoopView { phase: PhaseView::Terminated, replied: s.replied + 1, ..s1 },
                    ActionView::Shutdown(ReplyView::StopReply),
                ),
            }
        },
        EventView::Scanned(scan) => {
            let s1 = LoopView { phase: PhaseView::Ready, registry: scan_registry(scan), ..s };
            if s.phase is Initializing {
                (s1, ActionView::Listen)
            } else {
                (
                    LoopView { replied: s.replied + 1, ..s1 },
                    ActionView::Respond(ReplyView::RescanReply),
                )
            }
        },
        EventView::Answered(a) => {
            let outcome = match a {
                Ok(line) => line_outcome(line, s.phase->Selecting_input_id),
                Err(m) => Err(SelectErrorView::Io(m)),
            };
            (
                LoopView { phase: PhaseView::Ready, replied: s.replied + 1, ..s },
                ActionView::Respond(ReplyView::Select(outcome)),
            )
        },
        EventView::QueueClosed => (
            LoopView { phase: PhaseView::Terminated, ..s },
            ActionView::Finish,
        ),
    }
}

/// A hardware operation starts, or is running.
pub open spec fn is_hardware(a: ActionView) -> bool {
    a is Discover || a is Transact
}

/// The state after the events, taken in turn.
pub open spec fn run(s: LoopView, events: Seq<EventView>) -> LoopView
    decreases events.len(),
{
    if events.len() == 0 {
        s
    } else {
        next(run(s, events.drop_last()), events.last()).0
    }
}

/// The actions asked for along the events, in order.
pub open spec fn run_actions(s: LoopView, events: Seq<EventView>) -> Seq<ActionView>
    decreases events.len(),
{
    if events.len() == 0 {
        Seq::empty()
    } else {
        run_actions(s, events.drop_last()).push(next(run(s, events.drop_last()), events.last()).1)
    }
}

/// Each event is one the loop can take when it comes.
pub open spec fn all_accepted(s: LoopView, events: Seq<EventView>) -> bool
    decreases events.len(),
{
    if events.len() == 0 {
        true
    } else {
        all_accepted(s, events.drop_last()) && accepts(run(s, events.drop_last()), events.last())
    }
}

/// The replies among the actions, in order.
pub open spec fn replies_of(acts: Seq<ActionView>) -> Seq<ReplyView>
    decreases acts.len(),
{
    if acts.len() == 0 {
        Seq::empty()
    } else {
        let rest = replies_of(acts.drop_last());
        match acts.last() {
            ActionView::Respond(r) => rest.push(r),
            ActionView::Shutdown(r) => rest.push(r),
            _ => rest,
        }
    }
}

/// One step keeps the invariant; a command is taken only while no hardware
/// operation runs, and is logged after those taken before; a hardware
/// operation starts only while none runs; every reply answers the oldest
/// command not yet answered, and nothing else changes the log or the count.
pub proof fn lemma_serialized(s: LoopView, e: EventView)
    requires
        loop_inv(s),
        accepts(s, e),
    ensures
        loop_inv(next(s, e).0),
        e is Received ==> !busy(s.phase) && next(s, e).0.log == s.log.push(e->Received_0),
        !(e is Received) ==> next(s, e).0.log == s.log,
        is_hardware(next(s, e).1) ==> !busy(s.phase) && busy(next(s, e).0.phase),
        next(s, e).1 is Respond ==> next(s, e).0.replied == s.replied + 1 && answers(
            next(s, e).1->Respond_0,
            next(s, e).0.log[s.replied as int],
        ),
        next(s, e).1 is Shutdown ==> next(s, e).0.replied == s.replied + 1 && answers(
            next(s, e).1->Shutdown_0,
            next(s, e).0.log[s.replied as int],
        ),
        !(next(s, e).1 is Respond || next(s, e).1 is Shutdown) ==> next(s, e).0.replied
            == s.replied,
{
    match e {
        EventView::Received(c) => {
            if let CommandView::SelectInput { device_name, input_id } = c {
                if let Some(d) = lookup(s.registry, device_name) {
                    assert(next(s, e).0.log.last() == c);
                }
            }
        },
        EventView::Scanned(scan) => {
            crate::registry::lemma_registry_unique(probed_devices(scan->Some_0));
        },
        _ => {},
    }
}

/// Along any run of events the loop can take, the invariant holds, the log
/// only grows, and the replies, in the order given, answer the commands in
/// the order taken: the k-th reply answers the k-th command not yet answered
/// at the start.
pub proof fn lemma_replies_in_order(s: LoopView, events: Seq<EventView>)
    requires
        loop_inv(s),
        all_accepted(s, events),
    ensures
        loop_inv(run(s, events)),
        s.log.is_prefix_of(run(s, events).log),
        s.replied <= run(s, events).replied,
        replies_of(run_actions(s, events)).len() == run(s, events).replied - s.replied,
        forall|k: int|
            0 <= k < replies_of(run_actions(s, events)).len() ==> answers(
                #[trigger] replies_of(run_actions(s, events))[k],
                run(s, events).log[s.replied + k],
            ),
    decreases events.len(),
{
    if events.len() > 0 {
        let prev = events.drop_last();
        lemma_replies_in_order(s, prev);
        let r = run(s, prev);
        let e = events.last();
        lemma_serialized(r, e);
        let n = next(r, e);
        let acts = run_actions(s, events);
        assert(acts.drop_last() == run_actions(s, prev));
        assert(acts.last() == n.1);
        let old_replies = replies_of(run_actions(s, prev));
        let rs = replies_of(acts);
        assert(r.replied <= r.log.len());
        assert forall|k: int| 0 <= k < rs.len() implies answers(
            #[trigger] rs[k],
            n.0.log[s.replied + k],
        ) by {
            if k < old_replies.len() {
                assert(rs[k] == old_replies[k]);
                assert(n.0.log[s.replied + k] == r.log[s.replied + k]);
            }
        }
    }
}

/// After a rescan that found the endpoints, listing the devices yields
/// exactly the registry built from what that rescan found; while the rescan
/// runs, the registry is still the one from before.
pub proof fn lemma_list_after_rescan(s: LoopView, probes: Seq<PortProbe>)
    requires
        loop_inv(s),
        s.phase is Ready,
    ensures
        ({
            let (s1, a1) = next(s, EventView::Received(CommandView::Rescan));
            let (s2, a2) = next(s1, EventView::Scanned(Some(probes)));
            let (s3, a3) = next(s2, EventView::Received(CommandView::ListDevices));
            &&& a1 == ActionView::Discover
            &&& s1.registry == s.registry
            &&& a2 == ActionView::Respond(ReplyView::RescanReply)
            &&& s2.phase is Ready
            &&& a3 == ActionView::Respond(
                ReplyView::ListDevices(registry_of(probed_devices(probes))),
            )
        }),
{
}

/// Selecting on a name that is not registered answers that the device was not
/// found, and touches no hardware.
pub proof fn lemma_absent_name_not_found(s: LoopView, name: Seq<char>, input: Seq<char>)
    requires
        loop_inv(s),
        s.phase is Ready,
        !crate::registry::holds_name(s.registry, name),
    ensures
        next(
            s,
            EventView::Received(CommandView::SelectInput { device_name: name, input_id: input }),
        ).1 == ActionView::Respond(ReplyView::Select(Err(SelectErrorView::DeviceNotFound))),
{
}

/// Two rescans in a row that find the same hardware yield the same device
/// list.
pub proof fn lemma_rescan_idempotent(s: LoopView, probes: Seq<PortProbe>)
    requires
        loop_inv(s),
        s.phase is Ready,
    ensures
        ({
            let scan = seq![
                EventView::Received(CommandView::Rescan),
                EventView::Scanned(Some(probes)),
                EventView::Received(CommandView::ListDevices),
            ];
            let first = run(s, scan);
            let second = run(first, scan);
            &&& run_actions(s, scan).last() == run_actions(first, scan).last()
            &&& first.registry == second.registry
        }),
{
    let e0 = EventView::Received(CommandView::Rescan);
    let e1 = EventView::Scanned(Some(probes));
    let e2 = EventView::Received(CommandView::ListDevices);
    lemma_run_three(s, e0, e1, e2);
    let s1 = next(s, e0).0;
    let s2 = next(s1, e1).0;
    lemma_list_after_rescan(s, probes);
    lemma_serialized(s, e0);
    lemma_serialized(s1, e1);
    lemma_serialized(s2, e2);
    let first = run(s, seq![e0, e1, e2]);
    lemma_run_three(first, e0, e1, e2);
    lemma_list_after_rescan(first, probes);
}

/// Three events in turn.
proof fn lemma_run_three(s: LoopView, a: EventView, b: EventView, c: EventView)
    ensures
        run(s, seq![a, b, c]) == next(next(next(s, a).0, b).0, c).0,
        run_actions(s, seq![a, b, c]).last() == next(next(next(s, a).0, b).0, c).1,
{
    let evs = seq![a, b, c];
    assert(evs.drop_last() =~= seq![a, b]);
    assert(evs.drop_last().drop_last() =~= seq![a]);
    assert(evs.drop_last().drop_last().drop_last() =~= Seq::<EventView>::empty());
    assert(evs.last() == c);
    assert(evs.drop_last().last() == b);
    assert(evs.drop_last().drop_last().last() == a);
    assert(run(s, Seq::<EventView>::empty()) == s);
    assert(run(s, seq![a]) == next(s, a).0);
    assert(run(s, seq![a, b]) == next(next(s, a).0, b).0);
}

/// The single owner of the device registry. It takes one command at a time
/// and serves it fully, hardware operation included, before it takes the next.
pub struct CommandLoop {
    registry: ExtronDeviceList,
    phase: Phase,
    log: Ghost<Seq<CommandView>>,
    replied: Ghost<nat>,
}

impl View for CommandLoop {
    type V = LoopView;

    closed spec fn view(&self) -> LoopView {
        LoopView {
            phase: self.phase@,
            registry: self.registry@,
            log: self.log@,
            replied: self.replied@,
        }
    }
}

impl CommandLoop {
    pub open spec fn wf(&self) -> bool {
        loop_inv(self@)
    }

    /// A loop whose initial discovery is to run now: the action returned.
    pub fn start() -> (r: (CommandLoop, Action))
        ensures
            r.0.wf(),
            r.0@ == initial(),
            r.1@ == ActionView::Discover,
    {
        let l = CommandLoop {
            registry: ExtronDeviceList::new(),
            phase: Phase::Initializing,
            log: Ghost(Seq::empty()),
            replied: Ghost(0),
        };
        (l, Action::Discover)
    }

    /// Whether the loop can take `e` now.
    pub fn accepts(&self, e: &Event) -> (r: bool)
        ensures
            r == accepts(self@, e@),
    {
        match e {
            Event::Received(_) | Event::QueueClosed => matches!(self.phase, Phase::Ready),
            Event::Scanned(_) => {
                matches!(self.phase, Phase::Initializing) || matches!(self.phase, Phase::Rescanning)
            },
            Event::Answered(_) => matches!(self.phase, Phase::Selecting { .. }),
        }
    }

    /// Whether the loop is over.
    pub fn is_terminated(&self) -> (r: bool)
        ensures
            r == (self@.phase is Terminated),
    {
        matches!(self.phase, Phase::Terminated)
    }

    /// A copy of the devices now registered.
    pub fn devices(&self) -> (r: Vec<ExtronDevice>)
        ensures
            device_views(r@) == self@.registry,
    {
        self.registry.iter()
    }

    /// Takes `event` and says what to do next.
    pub fn step(&mut self, event: Event) -> (r: Action)
        requires
            old(self).wf(),
            accepts(old(self)@, event@),
        ensures
            final(self).wf(),
            final(self)@ == next(old(self)@, event@).0,
            r@ == next(old(self)@, event@).1,
    {
        match event {
            Event::Received(cmd) => {
                let ghost c = cmd@;
                self.log = Ghost(self.log@.push(c));
                match cmd {
                    Command::ListDevices => {
                        self.replied = Ghost(self.replied@ + 1);
                        Action::Respond(Reply::ListDevices(self.registry.iter()))
                    },
                    Command::Rescan => {
                        self.phase = Phase::Rescanning;
                        Action::Discover
                    },
                    Command::SelectInput { device_name, input_id } => {
                        match self.registry.find(device_name.as_str()) {
                            Some(d) => {
                                let command = select_command(input_id.as_str());
                                self.phase = Phase::Selecting { input_id };
                                Action::Transact { device: d, command }
                            },
                            None => {
                                self.replied = Ghost(self.replied@ + 1);
                                Action::Respond(Reply::Select(Err(SelectError::DeviceNotFound)))
                            },
                        }
                    },
                    Command::StopServer => {
                        self.replied = Ghost(self.replied@ + 1);
                        self.phase = Phase::Terminated;
                        Action::Shutdown(Reply::StopReply)
                    },
                }
            },
            Event::Scanned(scan) => {
                match scan {
                    Some(p) => self.registry.rescan(&p),
                    None => self.registry = ExtronDeviceList::new(),
                }
                if matches!(self.phase, Phase::Initializing) {
                    self.phase = Phase::Ready;
                    Action::Listen
                } else {
                    self.phase = Phase::Ready;
                    self.replied = Ghost(self.replied@ + 1);
                    Action::Respond(Reply::RescanReply)
                }
            },
            Event::Answered(answer) => {
                let input_id = match &self.phase {
                    Phase::Selecting { input_id } => input_id,
                    _ => unreached(),
                };
                let outcome = match answer {
                    Ok(line) => select_outcome(line.as_str(), input_id.as_str()),
                    Err(m) => Err(SelectError::Io(m)),
                };
                self.phase = Phase::Ready;
                self.replied = Ghost(self.replied@ + 1);
                Action::Respond(Reply::Select(outcome))
            },
            Event::QueueClosed => {
                self.phase = Phase::Terminated;
                Action::Finish
            },
        }
    }
}

} // verus!
