//! What is known of a running session: the last snapshot, the devices to
//! choose from, the device that was chosen, and the failure that ended the
//! loop.

use vstd::prelude::*;
use crate::client::NutClient;
use crate::error::{message_of, NutError};
use crate::poll::{begun, names_in, position_of, ActionView, PollAction, PollSnapshot, PollingLoop, Readings};
use crate::table::{ascending, lists, pairs_of};
use crate::text::{text_of, texts_of};
use crate::transport::framed;

verus! {

/// What the polling loop and the user report.
#[derive(Debug)]
pub enum Message {
    /// A round is complete.
    Info(PollSnapshot),
    /// The loop has ended, with a failure if it is `Err`.
    Error(Result<(), NutError>),
    /// A device was chosen.
    Select(String),
}

/// What the monitor asks for: nothing, so far.
#[derive(Debug, Clone, Copy, PartialEq, Eq, Structural)]
#[must_use]
pub enum Action {
    Nothing,
}

/// The monitor, as plain values.
pub struct MonitorView {
    pub status: Readings,
    pub list: Seq<Seq<char>>,
    pub error: Option<Seq<char>>,
    pub selected: Option<Seq<char>>,
}

/// The state of the display of a running session.
#[derive(Debug)]
pub struct Monitor {
    status: PollSnapshot,
    list: Vec<String>,
    error: Option<String>,
    selected: Option<String>,
}

impl View for Monitor {
    type V = MonitorView;

    closed spec fn view(&self) -> MonitorView {
        MonitorView {
            status: self.status@,
            list: texts_of(self.list@),
            error: text_of(self.error),
            selected: text_of(self.selected),
        }
    }
}

/// The monitor before the first snapshot.
pub open spec fn empty() -> MonitorView {
    MonitorView { status: Readings::empty(), list: Seq::empty(), error: None, selected: None }
}

/// The monitor after a message. A snapshot takes the place of the last one,
/// and its devices are the ones to choose from.
pub open spec fn after(m: MonitorView, message: Message) -> MonitorView {
    match message {
        Message::Info(snapshot) => MonitorView { status: snapshot@, list: names_in(snapshot@), ..m },
        Message::Error(Err(e)) => MonitorView { error: Some(message_of(e@)), ..m },
        Message::Error(Ok(_)) => m,
        Message::Select(name) => MonitorView { selected: Some(name@), ..m },
    }
}

/// The table that is shown: that of the chosen device, if one is chosen
/// and the last snapshot holds it.
pub open spec fn shown_table(m: MonitorView) -> Option<Map<Seq<char>, Seq<char>>> {
    match m.selected {
        Some(name) if position_of(m.status, name) < m.status.len() => Some(
            m.status[position_of(m.status, name)].1,
        ),
        _ => None,
    }
}

impl Monitor {
    /// The monitor of a session that has just been opened, with the polling
    /// loop over its client and the first thing that the loop asks for.
    pub fn new(client: NutClient) -> (r: (Monitor, PollingLoop, PollAction))
        requires
            client@.exchange is Idle,
        ensures
            r.0@ == empty(),
            r.1@ == begun(client@),
            r.2@ == ActionView::Send(framed("LIST UPS"@)),
    {
        let (polling, action) = PollingLoop::start(client);
        let monitor = Monitor { status: PollSnapshot::new(), list: Vec::new(), error: None, selected: None };
        assert(texts_of(Seq::<String>::empty()) =~= Seq::<Seq<char>>::empty());
        (monitor, polling, action)
    }

    /// Takes a message.
    pub fn update(&mut self, message: Message) -> (action: Action)
        ensures
            final(self)@ == after(old(self)@, message),
    {
        match message {
            Message::Info(info) => {
                self.list = info.names();
                self.status = info;
            },
            Message::Error(result) => {
                if let Err(e) = result {
                    self.error = Some(e.message());
                }
            },
            Message::Select(selected) => {
                self.selected = Some(selected);
            },
        }
        Action::Nothing
    }

    /// The devices to choose from.
    pub fn list(&self) -> (list: &Vec<String>)
        ensures
            texts_of(list@) == self@.list,
    {
        &self.list
    }

    /// The device that was chosen.
    pub fn selected(&self) -> (selected: &Option<String>)
        ensures
            text_of(*selected) == self@.selected,
    {
        &self.selected
    }

    /// The message of the failure that ended the loop.
    pub fn error(&self) -> (error: &Option<String>)
        ensures
            text_of(*error) == self@.error,
    {
        &self.error
    }

    /// The rows to show: the variables of the chosen device in ascending
    /// order of their names, if a device is chosen and the last snapshot
    /// holds it.
    pub fn shown(&self) -> (rows: Option<Vec<(String, String)>>)
        ensures
            match rows {
                Some(list) => shown_table(self@) matches Some(table) && ascending(pairs_of(list@)) && lists(
                    pairs_of(list@),
                    table,
                ),
                None => shown_table(self@) is None,
            },
    {
        match &self.selected {
            Some(name) => match self.status.find(name.as_str()) {
                Some(i) => Some(self.status.table_at(i).sorted()),
                None => None,
            },
            None => None,
        }
    }
}

} // verus!
