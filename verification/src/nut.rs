//! The controller of a connection: the connect form while there is no
//! session, the monitor while there is one.
//!
//! A connection is disconnected, connecting or connected. Disconnecting
//! takes no time of its own: the call that asks for it leaves the
//! controller disconnected.

use vstd::prelude::*;
use crate::client::NutClient;
use crate::connect;
use crate::connect::{Connect, ConnectRequest, ConnectView};
use crate::monitor;
use crate::monitor::{Monitor, MonitorView};
use crate::poll::{begun, ActionView, PollAction, PollingLoop};
use crate::transport::framed;

verus! {

/// What happens to the controller.
#[derive(Debug)]
pub enum Message {
    /// Something happened to the connect form.
    Connect(connect::Message),
    /// Something is reported to the monitor.
    Monitor(monitor::Message),
    /// The session is to end.
    Disconnect,
}

/// What the controller asks for.
#[derive(Debug)]
#[must_use]
pub enum Job {
    /// Run an attempt to connect and report how it ended.
    Dial(ConnectRequest),
    /// Run this polling loop, beginning with this action, and report its
    /// snapshots and its failure to the monitor.
    Poll(PollingLoop, PollAction),
    /// Signal cancellation to the polling loop and let go of its
    /// connection.
    Cancel,
    /// Nothing.
    Nothing,
}

/// Where a connection stands.
#[derive(Debug, Clone, Copy, PartialEq, Eq, Structural)]
pub enum ConnectionState {
    Disconnected,
    Connecting,
    Connected,
}

/// The controller, as plain values.
pub struct NutView {
    pub connect: ConnectView,
    pub monitor: Option<MonitorView>,
}

/// The controller of a connection.
#[derive(Debug)]
pub struct Nut {
    connect: Connect,
    monitor: Option<Monitor>,
}

impl View for Nut {
    type V = NutView;

    closed spec fn view(&self) -> NutView {
        NutView {
            connect: self.connect@,
            monitor: match self.monitor {
                Some(m) => Some(m@),
                None => None,
            },
        }
    }
}

/// Where the connection of a controller stands: connected while there is a
/// monitor, connecting while an attempt is under way.
pub open spec fn state_of(n: NutView) -> ConnectionState {
    if n.monitor is Some {
        ConnectionState::Connected
    } else if n.connect.connecting {
        ConnectionState::Connecting
    } else {
        ConnectionState::Disconnected
    }
}

/// Whether `message` brings the client of an attempt that the form counts.
pub open spec fn brings_client(n: NutView, message: Message) -> bool {
    message matches Message::Connect(connect::Message::ConnectResult(Ok(_))) && n.connect.connecting
}

/// Whether `message` asks for a connection while there is one.
pub open spec fn asks_again(n: NutView, message: Message) -> bool {
    message matches Message::Connect(connect::Message::Connect) && n.monitor is Some
}

/// The controller after a message. While a session runs, no other is asked
/// for. The client of an attempt opens a session with a fresh monitor. The
/// end of a session leaves no monitor.
pub open spec fn after(n: NutView, message: Message) -> NutView {
    match message {
        Message::Connect(m) => {
            if asks_again(n, message) {
                n
            } else if brings_client(n, message) {
                NutView { connect: connect::after(n.connect, m), monitor: Some(monitor::empty()) }
            } else {
                NutView { connect: connect::after(n.connect, m), ..n }
            }
        },
        Message::Monitor(m) => match n.monitor {
            Some(shown) => NutView { monitor: Some(monitor::after(shown, m)), ..n },
            None => n,
        },
        Message::Disconnect => NutView { monitor: None, ..n },
    }
}

/// Whether `job` is what the controller asks for after `message`.
pub open spec fn asked(job: Job, n: NutView, message: Message) -> bool {
    match message {
        Message::Connect(connect::Message::Connect) if n.monitor is None => job matches Job::Dial(request)
            && request.host@ == n.connect.host && request.port == n.connect.port && request.username@
            == n.connect.username && request.password@ == n.connect.password,
        Message::Connect(connect::Message::ConnectResult(Ok(client))) if n.connect.connecting => job matches Job::Poll(
            polling,
            action,
        ) && polling@ == begun(client@) && action@ == ActionView::Send(framed("LIST UPS"@)),
        Message::Disconnect if n.monitor is Some => job is Cancel,
        _ => job is Nothing,
    }
}

/// Whether the client that `message` brings, if it brings one, is idle: its
/// session is open and no exchange is outstanding.
pub open spec fn brings_idle_client(message: Message) -> bool {
    message matches Message::Connect(connect::Message::ConnectResult(Ok(client))) ==> client@.exchange is Idle
}

impl Nut {
    /// A controller without a session, with a blank connect form.
    pub fn new() -> (nut: Nut)
        ensures
            nut@ == (NutView { connect: connect::blank(), monitor: None }),
            state_of(nut@) == ConnectionState::Disconnected,
            valid(nut@),
    {
        Nut { connect: Connect::new(), monitor: None }
    }

    /// Where the connection stands.
    pub fn state(&self) -> (state: ConnectionState)
        ensures
            state == state_of(self@),
    {
        if self.monitor.is_some() {
            ConnectionState::Connected
        } else if self.connect.is_connecting() {
            ConnectionState::Connecting
        } else {
            ConnectionState::Disconnected
        }
    }

    /// The connect form.
    pub fn connect(&self) -> (form: &Connect)
        ensures
            form@ == self@.connect,
    {
        &self.connect
    }

    /// The monitor of the session, while there is one.
    pub fn monitor(&self) -> (shown: &Option<Monitor>)
        ensures
            match *shown {
                Some(m) => self@.monitor == Some(m@),
                None => self@.monitor is None,
            },
    {
        &self.monitor
    }

    /// Takes a message and says what is to be done.
    pub fn update(&mut self, message: Message) -> (job: Job)
        requires
            brings_idle_client(message),
        ensures
            final(self)@ == after(old(self)@, message),
            asked(job, old(self)@, message),
    {
        match message {
            Message::Connect(message) => {
                if self.monitor.is_some() && matches!(message, connect::Message::Connect) {
                    return Job::Nothing;
                }
                match self.connect.update(message) {
                    connect::Action::Run(request) => Job::Dial(request),
                    connect::Action::Client(client) => {
                        let (monitor, polling, action) = Monitor::new(client);
                        self.monitor = Some(monitor);
                        Job::Poll(polling, action)
                    },
                    connect::Action::Nothing => Job::Nothing,
                }
            },
            Message::Monitor(message) => {
                match &mut self.monitor {
                    Some(monitor) => match monitor.update(message) {
                        monitor::Action::Nothing => Job::Nothing,
                    },
                    None => Job::Nothing,
                }
            },
            Message::Disconnect => {
                let was_connected = self.monitor.is_some();
                self.monitor = None;
                if was_connected {
                    Job::Cancel
                } else {
                    Job::Nothing
                }
            },
        }
    }
}

/// What holds of every controller: while a session runs, no attempt is
/// under way.
pub open spec fn valid(n: NutView) -> bool {
    n.monitor is Some ==> !n.connect.connecting
}

/// No message makes a controller invalid.
pub proof fn validity_is_kept(n: NutView, message: Message)
    requires
        valid(n),
    ensures
        valid(after(n, message)),
{
}

/// Ending a session frees the controller at once: it is disconnected when
/// the call returns, the loop is told to stop, and a connection that is
/// asked for next is attempted.
pub proof fn disconnect_frees_the_controller(n: NutView, job: Job, next: Job)
    requires
        valid(n),
        state_of(n) == ConnectionState::Connected,
        asked(job, n, Message::Disconnect),
        asked(next, after(n, Message::Disconnect), Message::Connect(connect::Message::Connect)),
    ensures
        job is Cancel,
        state_of(after(n, Message::Disconnect)) == ConnectionState::Disconnected,
        next is Dial,
        state_of(after(after(n, Message::Disconnect), Message::Connect(connect::Message::Connect)))
            == ConnectionState::Connecting,
{
}

} // verus!
