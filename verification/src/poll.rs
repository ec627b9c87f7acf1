//! The polling loop: the devices are asked for once, then the variables of
//! every device again and again, one snapshot per round.
//!
//! The loop is a state machine. The driver hands it what has happened and
//! does what the answer asks for: it writes and reads on the connection,
//! delivers snapshots and failures, and sleeps between two rounds.

use vstd::prelude::*;
use crate::client::{
    next, turned, ClientView, Event, EventView, Exchange, NutClient, Reply, ReplyView, Step, StepView,
};
use crate::error::{Failure, NutError};
use crate::table::{pairs_of, VariableTable};
use crate::text::texts_of;
use crate::transport::framed;

verus! {

/// The seconds that the driver sleeps between two rounds.
pub const TICK_SECONDS: u64 = 2;

/// The tables of all devices, as pairs of the name of a device and of its
/// table.
pub type Readings = Seq<(Seq<char>, Map<Seq<char>, Seq<char>>)>;

/// The index of the first pair of `readings` under `name`, or the length of
/// `readings` if there is none.
pub open spec fn position_of(readings: Readings, name: Seq<char>) -> int
    decreases readings.len(),
{
    if readings.len() == 0 || readings[0].0 == name {
        0
    } else {
        1 + position_of(readings.skip(1), name)
    }
}

/// `readings` with `table` under `name`: in the place of the table that
/// stood under that name, or else at the end.
pub open spec fn put(readings: Readings, name: Seq<char>, table: Map<Seq<char>, Seq<char>>) -> Readings {
    let at = position_of(readings, name);
    if at < readings.len() {
        readings.update(at, (name, table))
    } else {
        readings.push((name, table))
    }
}

/// The bounds of `position_of`, and what stands there.
pub proof fn position_of_in_bounds(readings: Readings, name: Seq<char>)
    ensures
        0 <= position_of(readings, name) <= readings.len(),
        position_of(readings, name) < readings.len() ==> readings[position_of(readings, name)].0 == name,
        forall|i: int| 0 <= i < position_of(readings, name) ==> (#[trigger] readings[i]).0 != name,
    decreases readings.len(),
{
    if readings.len() > 0 && readings[0].0 != name {
        position_of_in_bounds(readings.skip(1), name);
        assert forall|i: int| 0 <= i < position_of(readings, name) implies (#[trigger] readings[i]).0
            != name by {
            if i > 0 {
                assert(readings.skip(1)[i - 1] == readings[i]);
            }
        }
    }
}

/// The names of the devices of `readings`, in order.
pub open spec fn names_in(readings: Readings) -> Seq<Seq<char>> {
    Seq::new(readings.len(), |i: int| readings[i].0)
}

/// The tables of all devices at one instant.
#[derive(Debug)]
pub struct PollSnapshot {
    readings: Vec<(String, VariableTable)>,
}

impl View for PollSnapshot {
    type V = Readings;

    closed spec fn view(&self) -> Readings {
        Seq::new(self.readings@.len(), |i: int| (self.readings@[i].0@, self.readings@[i].1@))
    }
}

impl PollSnapshot {
    /// A snapshot of no device.
    pub fn new() -> (snapshot: PollSnapshot)
        ensures
            snapshot@ == Readings::empty(),
    {
        let snapshot = PollSnapshot { readings: Vec::new() };
        assert(snapshot@ =~= Readings::empty());
        snapshot
    }

    /// The number of devices.
    pub fn len(&self) -> (n: usize)
        ensures
            n == self@.len(),
    {
        self.readings.len()
    }

    /// The name of the device at `index`.
    pub fn name_at(&self, index: usize) -> (name: &String)
        requires
            index < self@.len(),
        ensures
            name@ == self@[index as int].0,
    {
        &self.readings[index].0
    }

    /// The table of the device at `index`.
    pub fn table_at(&self, index: usize) -> (table: &VariableTable)
        requires
            index < self@.len(),
        ensures
            table@ == self@[index as int].1,
    {
        &self.readings[index].1
    }

    /// The names of the devices, in the order of the snapshot.
    pub fn names(&self) -> (names: Vec<String>)
        ensures
            texts_of(names@) == names_in(self@),
    {
        let mut names: Vec<String> = Vec::new();
        let mut i: usize = 0;
        while i < self.readings.len()
            invariant
                i <= self.readings@.len(),
                self@.len() == self.readings@.len(),
                names@.len() == i,
                forall|j: int| 0 <= j < i ==> (#[trigger] names@[j])@ == self@[j].0,
            decreases self.readings@.len() - i,
        {
            names.push(self.readings[i].0.clone());
            i = i + 1;
        }
        assert(texts_of(names@) =~= names_in(self@));
        names
    }

    /// The index of the device `name`, if the snapshot holds it.
    pub fn find(&self, name: &str) -> (found: Option<usize>)
        ensures
            match found {
                Some(i) => i == position_of(self@, name@) && i < self@.len(),
                None => position_of(self@, name@) == self@.len(),
            },
    {
        let mut i: usize = 0;
        assert(self@.skip(0) == self@);
        while i < self.readings.len()
            invariant
                i <= self@.len(),
                self@.len() == self.readings@.len(),
                position_of(self@, name@) == i + position_of(self@.skip(i as int), name@),
            decreases self.readings@.len() - i,
        {
            assert(self@.skip(i as int)[0] == self@[i as int]);
            if crate::text::same_text(self.readings[i].0.as_str(), name) {
                return Some(i);
            }
            assert(self@.skip(i as int).skip(1) == self@.skip(i + 1));
            i = i + 1;
        }
        None
    }

    /// Puts `table` under `name`, in the place of the table that stood
    /// there, or else at the end.
    pub fn insert(&mut self, name: String, table: VariableTable)
        ensures
            final(self)@ == put(old(self)@, name@, table@),
    {
        let ghost before = self@;
        let ghost entry = (name@, table@);
        match self.find(name.as_str()) {
            Some(i) => {
                self.readings.set(i, (name, table));
                assert(self@ =~= before.update(i as int, entry));
            },
            None => {
                self.readings.push((name, table));
                assert(self@ =~= before.push(entry));
            },
        }
    }
}

/// Where the loop stands.
#[derive(Debug, Clone, Copy, PartialEq, Eq, Structural)]
pub enum Phase {
    /// The device list has been asked for.
    Discovering,
    /// The variables of one device have been asked for.
    Querying,
    /// A snapshot has gone out; the next round begins after the sleep.
    Sleeping,
    /// The loop has ended, by a failure or by cancellation.
    Stopped,
}

/// What the driver reports to the loop.
#[derive(Debug, Clone)]
pub enum PollEvent {
    /// What a read appended, its line end included. Empty when the peer has
    /// closed the connection.
    Line(String),
    /// A read or a write failed. Carries the cause.
    Failed(String),
    /// The sleep between two rounds is over.
    Woke,
    /// Cancellation has been signalled.
    Cancel,
}

/// An event, with its text as a sequence of characters.
pub enum PollEventView {
    Line(Seq<char>),
    Failed(Seq<char>),
    Woke,
    Cancel,
}

impl View for PollEvent {
    type V = PollEventView;

    open spec fn view(&self) -> PollEventView {
        match self {
            PollEvent::Line(raw) => PollEventView::Line(raw@),
            PollEvent::Failed(cause) => PollEventView::Failed(cause@),
            PollEvent::Woke => PollEventView::Woke,
            PollEvent::Cancel => PollEventView::Cancel,
        }
    }
}

/// What the loop asks of the driver.
#[derive(Debug)]
pub enum PollAction {
    /// Write this text, which ends in a line feed, and flush. Then read a
    /// line and report it.
    Send(String),
    /// Read another line and report it.
    Read,
    /// Deliver this snapshot. Then sleep for `TICK_SECONDS`, or until
    /// cancellation is signalled, and report which of the two it was.
    Emit(PollSnapshot),
    /// Deliver this failure. The loop has ended.
    Fail(NutError),
    /// The loop has ended. Nothing is delivered; the connection is free.
    Stop,
    /// Go on with what was asked before.
    Continue,
}

/// An action, as plain values.
pub enum ActionView {
    Send(Seq<char>),
    Read,
    Emit(Readings),
    Fail(Failure),
    Stop,
    Continue,
}

impl View for PollAction {
    type V = ActionView;

    open spec fn view(&self) -> ActionView {
        match self {
            PollAction::Send(wire) => ActionView::Send(wire@),
            PollAction::Read => ActionView::Read,
            PollAction::Emit(snapshot) => ActionView::Emit(snapshot@),
            PollAction::Fail(e) => ActionView::Fail(e@),
            PollAction::Stop => ActionView::Stop,
            PollAction::Continue => ActionView::Continue,
        }
    }
}

/// The state of the loop, as plain values.
pub struct LoopView {
    pub client: ClientView,
    pub phase: Phase,
    /// Whether cancellation has been signalled and not yet acted on.
    pub cancelled: bool,
    /// The devices, as they were listed when the loop began.
    pub devices: Seq<(Seq<char>, Seq<char>)>,
    /// The index of the device whose variables are asked for.
    pub index: int,
    /// The tables of the devices before `index`, in this round.
    pub readings: Readings,
}

/// The loop `l` at its end.
pub open spec fn halted(l: LoopView) -> LoopView {
    LoopView { phase: Phase::Stopped, ..l }
}

/// The check point before a device is asked: a loop that has been cancelled
/// stops. Otherwise the next device is asked, or, when none is left, the
/// snapshot of the round leaves the loop and the sleep begins.
pub open spec fn proceed(l: LoopView) -> (LoopView, ActionView) {
    if l.cancelled {
        (halted(l), ActionView::Stop)
    } else if 0 <= l.index < l.devices.len() {
        let device = l.devices[l.index].0;
        (
            LoopView {
                phase: Phase::Querying,
                client: turned(l.client, Exchange::VariablesBegin { device, summary: false }),
                ..l
            },
            ActionView::Send(framed("LIST VAR "@ + device)),
        )
    } else {
        (LoopView { phase: Phase::Sleeping, readings: Readings::empty(), ..l }, ActionView::Emit(l.readings))
    }
}

/// The beginning of a round: no table has been read yet.
pub open spec fn begin_round(l: LoopView) -> (LoopView, ActionView) {
    proceed(LoopView { index: 0, readings: Readings::empty(), ..l })
}

/// What a line or a failure of the connection does to a loop that waits
/// for one. The first failure ends the loop and is its only word; a round
/// that cannot be completed gives no snapshot.
pub open spec fn after_response(l: LoopView, event: EventView) -> (LoopView, ActionView) {
    let (client, step) = next(l.client, event);
    let with_client = LoopView { client, ..l };
    match step {
        StepView::Send(wire) => (with_client, ActionView::Send(wire)),
        StepView::Read => (with_client, ActionView::Read),
        StepView::Failed(failure) => (halted(with_client), ActionView::Fail(failure)),
        StepView::Done(ReplyView::Devices(devices)) => begin_round(LoopView { devices, ..with_client }),
        StepView::Done(ReplyView::Variables(table)) => proceed(
            LoopView {
                readings: put(l.readings, l.devices[l.index].0, table),
                index: l.index + 1,
                ..with_client
            },
        ),
        StepView::Done(_) => (with_client, ActionView::Continue),
    }
}

/// What an event does to the loop, and what the driver is to do next.
pub open spec fn poll_next(l: LoopView, event: PollEventView) -> (LoopView, ActionView) {
    match l.phase {
        Phase::Stopped => (l, ActionView::Stop),
        Phase::Sleeping => match event {
            PollEventView::Cancel => (halted(l), ActionView::Stop),
            PollEventView::Woke => begin_round(l),
            _ => (l, ActionView::Continue),
        },
        Phase::Discovering | Phase::Querying => match event {
            PollEventView::Cancel => (LoopView { cancelled: true, ..l }, ActionView::Continue),
            PollEventView::Woke => (l, ActionView::Continue),
            PollEventView::Line(raw) => after_response(l, EventView::Line(raw)),
            PollEventView::Failed(cause) => after_response(l, EventView::Failed(cause)),
        },
    }
}

/// Whether the client of the loop is in the exchange that the phase of the
/// loop calls for.
pub open spec fn consistent(l: LoopView) -> bool {
    match l.phase {
        Phase::Discovering => l.client.exchange is DevicesBegin || l.client.exchange is DevicesBody,
        Phase::Querying => {
            &&& 0 <= l.index < l.devices.len()
            &&& match l.client.exchange {
                Exchange::VariablesBegin { device, summary } => device == l.devices[l.index].0 && !summary,
                Exchange::VariablesBody { device, table, summary } => device == l.devices[l.index].0
                    && !summary,
                _ => false,
            }
        },
        Phase::Sleeping => l.client.exchange is Idle,
        Phase::Stopped => true,
    }
}

/// The loop at its beginning: the device list has been asked for.
pub open spec fn begun(client: ClientView) -> LoopView {
    LoopView {
        client: turned(client, Exchange::DevicesBegin),
        phase: Phase::Discovering,
        cancelled: false,
        devices: Seq::empty(),
        index: 0,
        readings: Readings::empty(),
    }
}

/// The polling loop over one client.
#[derive(Debug)]
pub struct PollingLoop {
    client: NutClient,
    phase: Phase,
    cancelled: bool,
    devices: Vec<(String, String)>,
    index: usize,
    snapshot: PollSnapshot,
}

impl View for PollingLoop {
    type V = LoopView;

    closed spec fn view(&self) -> LoopView {
        LoopView {
            client: self.client@,
            phase: self.phase,
            cancelled: self.cancelled,
            devices: pairs_of(self.devices@),
            index: self.index as int,
            readings: self.snapshot@,
        }
    }
}

impl PollingLoop {
    #[verifier::type_invariant]
    spec fn well_formed(&self) -> bool {
        consistent(self@)
    }

    /// Begins the loop on an idle client: the device list is asked for.
    pub fn start(client: NutClient) -> (r: (PollingLoop, PollAction))
        requires
            client@.exchange is Idle,
        ensures
            r.0@ == begun(client@),
            r.1@ == ActionView::Send(framed("LIST UPS"@)),
    {
        let mut client = client;
        let step = client.list_ups();
        let wire = match step {
            Step::Send(wire) => wire,
            _ => vstd::pervasive::unreached(),
        };
        let started = PollingLoop {
            client,
            phase: Phase::Discovering,
            cancelled: false,
            devices: Vec::new(),
            index: 0,
            snapshot: PollSnapshot::new(),
        };
        assert(pairs_of(Seq::<(String, String)>::empty()) =~= Seq::empty());
        (started, PollAction::Send(wire))
    }

    /// Where the loop stands.
    pub fn phase(&self) -> (phase: Phase)
        ensures
            phase == self@.phase,
    {
        self.phase
    }

    /// Whether the loop has ended.
    pub fn is_stopped(&self) -> (stopped: bool)
        ensures
            stopped == (self@.phase is Stopped),
    {
        matches!(self.phase, Phase::Stopped)
    }

    fn proceed(self) -> (r: (PollingLoop, PollAction))
        requires
            self@.client.exchange is Idle,
        ensures
            r.0@ == proceed(self@).0,
            r.1@ == proceed(self@).1,
    {
        let PollingLoop { client, phase, cancelled, devices, index, snapshot } = self;
        let mut client = client;
        if cancelled {
            (PollingLoop { client, phase: Phase::Stopped, cancelled, devices, index, snapshot }, PollAction::Stop)
        } else if index < devices.len() {
            assert(pairs_of(devices@)[index as int].0 == devices@[index as int].0@);
            let step = client.list_vars_raw(devices[index].0.as_str());
            let wire = match step {
                Step::Send(wire) => wire,
                _ => vstd::pervasive::unreached(),
            };
            (
                PollingLoop { client, phase: Phase::Querying, cancelled, devices, index, snapshot },
                PollAction::Send(wire),
            )
        } else {
            let mut emitted = PollSnapshot::new();
            let mut snapshot = snapshot;
            core::mem::swap(&mut emitted, &mut snapshot);
            (
                PollingLoop { client, phase: Phase::Sleeping, cancelled, devices, index, snapshot },
                PollAction::Emit(emitted),
            )
        }
    }

    /// Takes what the driver reports and says what it is to do next.
    pub fn step(self, event: PollEvent) -> (r: (PollingLoop, PollAction))
        ensures
            r.0@ == poll_next(self@, event@).0,
            r.1@ == poll_next(self@, event@).1,
    {
        proof {
            use_type_invariant(&self);
        }
        let ghost before = self@;
        let PollingLoop { client, phase, cancelled, devices, index, snapshot } = self;
        let response = match phase {
            Phase::Stopped => {
                return (PollingLoop { client, phase, cancelled, devices, index, snapshot }, PollAction::Stop);
            },
            Phase::Sleeping => {
                let waiting = PollingLoop { client, phase, cancelled, devices, index, snapshot };
                return match event {
                    PollEvent::Cancel => {
                        let PollingLoop { client, phase, cancelled, devices, index, snapshot } = waiting;
                        (
                            PollingLoop { client, phase: Phase::Stopped, cancelled, devices, index, snapshot },
                            PollAction::Stop,
                        )
                    },
                    PollEvent::Woke => {
                        let PollingLoop { client, phase, cancelled, devices, index, snapshot } = waiting;
                        let fresh = PollingLoop {
                            client,
                            phase,
                            cancelled,
                            devices,
                            index: 0,
                            snapshot: PollSnapshot::new(),
                        };
                        fresh.proceed()
                    },
                    _ => (waiting, PollAction::Continue),
                };
            },
            Phase::Discovering | Phase::Querying => match event {
                PollEvent::Cancel => {
                    return (
                        PollingLoop { client, phase, cancelled: true, devices, index, snapshot },
                        PollAction::Continue,
                    );
                },
                PollEvent::Woke => {
                    return (
                        PollingLoop { client, phase, cancelled, devices, index, snapshot },
                        PollAction::Continue,
                    );
                },
                PollEvent::Line(raw) => Event::Line(raw),
                PollEvent::Failed(cause) => Event::Failed(cause),
            },
        };
        let mut client = client;
        let mut snapshot = snapshot;
        let step = client.receive(response);
        match step {
            Step::Send(wire) => (
                PollingLoop { client, phase, cancelled, devices, index, snapshot },
                PollAction::Send(wire),
            ),
            Step::Read => (PollingLoop { client, phase, cancelled, devices, index, snapshot }, PollAction::Read),
            Step::Failed(e) => (
                PollingLoop { client, phase: Phase::Stopped, cancelled, devices, index, snapshot },
                PollAction::Fail(e),
            ),
            Step::Done(Reply::Devices(list)) => {
                assert(before.client.exchange is DevicesBody);
                let fresh = PollingLoop {
                    client,
                    phase: Phase::Sleeping,
                    cancelled,
                    devices: list,
                    index: 0,
                    snapshot: PollSnapshot::new(),
                };
                fresh.proceed()
            },
            Step::Done(Reply::Variables(table)) => {
                assert(before.client.exchange is VariablesBody);
                assert(before.phase is Querying);
                assert(before.devices.len() == devices@.len());
                assert(index < devices.len());
                assert(pairs_of(devices@)[index as int].0 == devices@[index as int].0@);
                snapshot.insert(devices[index].0.clone(), table);
                let advanced = PollingLoop {
                    client,
                    phase: Phase::Sleeping,
                    cancelled,
                    devices,
                    index: index + 1,
                    snapshot,
                };
                advanced.proceed()
            },
            Step::Done(_) => vstd::pervasive::unreached(),
        }
    }
}

/// A loop that has ended stays ended: whatever is reported to it, it asks
/// for nothing but to stop, and delivers nothing.
pub proof fn stopped_loop_stays_stopped(l: LoopView, event: PollEventView)
    requires
        l.phase is Stopped,
    ensures
        poll_next(l, event) == (l, ActionView::Stop),
{
}

/// No event makes the loop inconsistent.
pub proof fn consistency_is_kept(l: LoopView, event: PollEventView)
    requires
        consistent(l),
    ensures
        consistent(poll_next(l, event).0),
{
}

/// A read of nothing, which means that the peer has closed the connection,
/// ends the loop with the one failure `ConnectionClosed`: the loop is
/// stopped, and whatever is reported later, nothing more is delivered.
pub proof fn closed_connection_ends_the_loop(l: LoopView, later: PollEventView)
    requires
        consistent(l),
        l.phase is Discovering || l.phase is Querying,
    ensures
        poll_next(l, PollEventView::Line(Seq::empty())).1 == ActionView::Fail(Failure::ConnectionClosed),
        poll_next(l, PollEventView::Line(Seq::empty())).0.phase is Stopped,
        poll_next(poll_next(l, PollEventView::Line(Seq::empty())).0, later).1 == ActionView::Stop,
        poll_next(poll_next(l, PollEventView::Line(Seq::empty())).0, later).0 == poll_next(
            l,
            PollEventView::Line(Seq::empty()),
        ).0,
{
}

/// Cancellation during the sleep between two rounds stops the loop at once:
/// no failure is delivered, and whatever is reported later, no snapshot
/// follows.
pub proof fn cancellation_ends_the_sleep(l: LoopView, later: PollEventView)
    requires
        l.phase is Sleeping,
    ensures
        poll_next(l, PollEventView::Cancel) == (halted(l), ActionView::Stop),
        poll_next(halted(l), later) == (halted(l), ActionView::Stop),
{
}

/// Cancelling twice is cancelling once.
pub proof fn cancelling_again_changes_nothing(l: LoopView)
    ensures
        poll_next(poll_next(l, PollEventView::Cancel).0, PollEventView::Cancel).0 == poll_next(
            l,
            PollEventView::Cancel,
        ).0,
        !(poll_next(poll_next(l, PollEventView::Cancel).0, PollEventView::Cancel).1 is Emit),
        !(poll_next(poll_next(l, PollEventView::Cancel).0, PollEventView::Cancel).1 is Fail),
{
}

/// A loop that was cancelled while a request was under way asks for no
/// further device: when the request is answered, the loop stops and
/// delivers nothing.
pub proof fn cancelled_loop_stops_at_the_next_device(l: LoopView)
    requires
        l.cancelled,
    ensures
        proceed(l) == (halted(l), ActionView::Stop),
{
}

/// A failure is the last word of the loop: the loop that delivers one has
/// stopped.
pub proof fn failure_is_terminal(l: LoopView, event: PollEventView)
    requires
        poll_next(l, event).1 is Fail,
    ensures
        poll_next(l, event).0.phase is Stopped,
{
}

/// Cancellation delivers nothing: neither a snapshot nor a failure.
pub proof fn cancellation_delivers_nothing(l: LoopView)
    ensures
        poll_next(l, PollEventView::Cancel).1 is Stop || poll_next(l, PollEventView::Cancel).1 is Continue,
{
}

/// Whether `readings` holds a table for the device `name`.
pub open spec fn holds(readings: Readings, name: Seq<char>) -> bool {
    position_of(readings, name) < readings.len()
}

/// Whether a loop that asks a device has read the tables of all devices
/// before it in this round.
pub open spec fn covered(l: LoopView) -> bool {
    l.phase is Querying ==> forall|i: int| 0 <= i < l.index ==> holds(l.readings, #[trigger] l.devices[i].0)
}

proof fn lemma_holds(readings: Readings, name: Seq<char>)
    ensures
        holds(readings, name) <==> exists|i: int| 0 <= i < readings.len() && (#[trigger] readings[i]).0 == name,
{
    position_of_in_bounds(readings, name);
    if holds(readings, name) {
        assert(readings[position_of(readings, name)].0 == name);
    }
}

proof fn lemma_put_holds(readings: Readings, name: Seq<char>, table: Map<Seq<char>, Seq<char>>, other: Seq<char>)
    requires
        other == name || holds(readings, other),
    ensures
        holds(put(readings, name, table), other),
{
    let after = put(readings, name, table);
    let at = position_of(readings, name);
    position_of_in_bounds(readings, name);
    lemma_holds(readings, other);
    lemma_holds(after, other);
    if other == name {
        if at < readings.len() {
            assert(after[at].0 == other);
        } else {
            assert(after[readings.len() as int].0 == other);
        }
    } else {
        let i = choose|i: int| 0 <= i < readings.len() && (#[trigger] readings[i]).0 == other;
        assert(after[i].0 == other);
    }
}

/// No snapshot is partial: a snapshot that goes out holds a table for every
/// device of the list. This rests on what every round keeps: while a
/// device is asked, the tables of the devices before it have been read.
pub proof fn snapshot_covers_every_device(l: LoopView, event: PollEventView)
    requires
        consistent(l),
        covered(l),
    ensures
        covered(poll_next(l, event).0),
        poll_next(l, event).1 matches ActionView::Emit(readings) ==> forall|i: int|
            0 <= i < poll_next(l, event).0.devices.len() ==> holds(
                readings,
                #[trigger] poll_next(l, event).0.devices[i].0,
            ),
{
    let (after, action) = poll_next(l, event);
    if l.phase is Querying {
        let response = match event {
            PollEventView::Line(raw) => Some(EventView::Line(raw)),
            PollEventView::Failed(cause) => Some(EventView::Failed(cause)),
            _ => None,
        };
        if response is Some {
            let (client, step) = next(l.client, response->0);
            if let StepView::Done(ReplyView::Variables(table)) = step {
                let name = l.devices[l.index].0;
                let readings = put(l.readings, name, table);
                assert forall|i: int| 0 <= i < l.index + 1 implies holds(readings, #[trigger] l.devices[i].0) by {
                    lemma_put_holds(l.readings, name, table, l.devices[i].0);
                }
            }
        }
    }
}

} // verus!
