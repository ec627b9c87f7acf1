//! The client side of the protocol, without the connection.
//!
//! A `NutClient` holds what an exchange with the daemon has come to. Each
//! of its methods answers with a `Step`: a line to write, the request to
//! read another line, the reply, or the failure. The driver that owns the
//! connection does what the step asks and hands every line that it reads to
//! `receive`. One exchange is outstanding at a time.

use vstd::prelude::*;
use crate::error::{as_authentication_failure, Expected, Failure, NutError};
use crate::response::{before_space, device_line, parse_device_line, parse_variable_line, variable_line};
use crate::table::{pairs_of, VariableTable};
use crate::text::{joined, starts_with};
use crate::transport::{acknowledges, expect_ok, framed, line_read, read_line, send_command, stripped};
use crate::ups_info::UpsInfo;

verus! {

/// What the driver reports after a read.
#[derive(Debug, Clone)]
pub enum Event {
    /// What the read appended, its line end included. Empty when the peer
    /// has closed the connection.
    Line(String),
    /// The read, or the write before it, failed. Carries the cause.
    Failed(String),
}

/// An event, with its text as a sequence of characters.
pub enum EventView {
    Line(Seq<char>),
    Failed(Seq<char>),
}

impl View for Event {
    type V = EventView;

    open spec fn view(&self) -> EventView {
        match self {
            Event::Line(raw) => EventView::Line(raw@),
            Event::Failed(cause) => EventView::Failed(cause@),
        }
    }
}

/// What a completed exchange has brought.
#[derive(Debug)]
pub enum Reply {
    /// The session is open, with or without a handshake.
    Ready,
    /// The devices, as pairs of name and description, in the order of the
    /// response.
    Devices(Vec<(String, String)>),
    /// The variables of the device that was asked for.
    Variables(VariableTable),
    /// The summary of the device that was asked for.
    Info(UpsInfo),
    /// The daemon has answered the farewell.
    LoggedOut,
}

/// A reply, as plain values. The summary is given by the name of the device
/// and by its table.
pub enum ReplyView {
    Ready,
    Devices(Seq<(Seq<char>, Seq<char>)>),
    Variables(Map<Seq<char>, Seq<char>>),
    Info(Seq<char>, Map<Seq<char>, Seq<char>>),
    LoggedOut,
}

impl Reply {
    /// Whether this reply is the one that `v` describes.
    pub open spec fn shows(&self, v: ReplyView) -> bool {
        match (*self, v) {
            (Reply::Ready, ReplyView::Ready) => true,
            (Reply::Devices(list), ReplyView::Devices(pairs)) => pairs_of(list@) == pairs,
            (Reply::Variables(table), ReplyView::Variables(m)) => table@ == m,
            (Reply::Info(info), ReplyView::Info(device, m)) => info.summarizes(device, m),
            (Reply::LoggedOut, ReplyView::LoggedOut) => true,
            _ => false,
        }
    }
}

/// What the driver is to do next.
#[derive(Debug)]
pub enum Step {
    /// Write this text, which ends in a line feed, and flush. Then read a
    /// line and hand it to `receive`.
    Send(String),
    /// Read another line and hand it to `receive`.
    Read,
    /// The exchange is complete.
    Done(Reply),
    /// The exchange has failed, and the client is closed.
    Failed(NutError),
}

/// A step, as plain values.
pub enum StepView {
    Send(Seq<char>),
    Read,
    Done(ReplyView),
    Failed(Failure),
}

impl Step {
    /// Whether this step is the one that `v` describes.
    pub open spec fn shows(&self, v: StepView) -> bool {
        match (*self, v) {
            (Step::Send(wire), StepView::Send(text)) => wire@ == text,
            (Step::Read, StepView::Read) => true,
            (Step::Done(reply), StepView::Done(r)) => reply.shows(r),
            (Step::Failed(e), StepView::Failed(f)) => e@ == f,
            _ => false,
        }
    }
}

/// What the client is waiting for.
pub enum Exchange {
    /// Nothing: the next command may go out.
    Idle,
    /// The acknowledgement of the user name.
    Username,
    /// The acknowledgement of the password.
    Password,
    /// The line that opens the device list.
    DevicesBegin,
    /// The next line of the device list, with the entries read so far.
    DevicesBody(Seq<(Seq<char>, Seq<char>)>),
    /// The line that opens the variable list of `device`.
    VariablesBegin { device: Seq<char>, summary: bool },
    /// The next line of the variable list, with the entries read so far.
    VariablesBody { device: Seq<char>, table: Map<Seq<char>, Seq<char>>, summary: bool },
    /// The answer to the farewell.
    Logout,
    /// Nothing any more: an exchange has failed or the session has ended.
    Closed,
}

/// The state of a client, as plain values.
pub struct ClientView {
    pub username: Seq<char>,
    pub password: Seq<char>,
    pub exchange: Exchange,
}

#[derive(Debug)]
enum Pending {
    Idle,
    Username,
    Password,
    DevicesBegin,
    DevicesBody(Vec<(String, String)>),
    VariablesBegin { device: String, summary: bool },
    VariablesBody { device: String, table: VariableTable, summary: bool },
    Logout,
    Closed,
}

spec fn exchange_of(p: Pending) -> Exchange {
    match p {
        Pending::Idle => Exchange::Idle,
        Pending::Username => Exchange::Username,
        Pending::Password => Exchange::Password,
        Pending::DevicesBegin => Exchange::DevicesBegin,
        Pending::DevicesBody(list) => Exchange::DevicesBody(pairs_of(list@)),
        Pending::VariablesBegin { device, summary } => Exchange::VariablesBegin { device: device@, summary },
        Pending::VariablesBody { device, table, summary } => Exchange::VariablesBody {
            device: device@,
            table: table@,
            summary,
        },
        Pending::Logout => Exchange::Logout,
        Pending::Closed => Exchange::Closed,
    }
}

/// The protocol state of one session.
#[derive(Debug)]
pub struct NutClient {
    username: String,
    password: String,
    pending: Pending,
}

impl View for NutClient {
    type V = ClientView;

    closed spec fn view(&self) -> ClientView {
        ClientView { username: self.username@, password: self.password@, exchange: exchange_of(self.pending) }
    }
}

/// The line that an event brings, or the failure that it stands for.
pub open spec fn incoming(event: EventView) -> Result<Seq<char>, Failure> {
    match event {
        EventView::Line(raw) => line_read(raw),
        EventView::Failed(cause) => Err(Failure::Network(cause)),
    }
}

/// The client `c` with another exchange.
pub open spec fn turned(c: ClientView, exchange: Exchange) -> ClientView {
    ClientView { username: c.username, password: c.password, exchange }
}

/// The end of an exchange in a failure: the client is closed.
pub open spec fn failed(c: ClientView, failure: Failure) -> (ClientView, StepView) {
    (turned(c, Exchange::Closed), StepView::Failed(failure))
}

/// The end of an exchange in a reply: the client is idle again.
pub open spec fn done(c: ClientView, reply: ReplyView) -> (ClientView, StepView) {
    (turned(c, Exchange::Idle), StepView::Done(reply))
}

/// The opening of a session: with a user name the handshake begins, without
/// one the session is ready at once.
pub open spec fn opened(username: Seq<char>, password: Seq<char>) -> (ClientView, StepView) {
    if username.len() > 0 {
        (
            ClientView { username, password, exchange: Exchange::Username },
            StepView::Send(framed("USERNAME "@ + username)),
        )
    } else {
        (ClientView { username, password, exchange: Exchange::Idle }, StepView::Done(ReplyView::Ready))
    }
}

/// What a line does to a client that waits for an acknowledgement of the
/// handshake. After the user name the password follows, if there is one.
pub open spec fn after_acknowledgement(c: ClientView, line: Seq<char>) -> (ClientView, StepView) {
    if !acknowledges(line) {
        failed(c, as_authentication_failure(Failure::ProtocolViolation(Expected::Acknowledgement, line)))
    } else if c.exchange is Username && c.password.len() > 0 {
        (turned(c, Exchange::Password), StepView::Send(framed("PASSWORD "@ + c.password)))
    } else {
        done(c, ReplyView::Ready)
    }
}

/// What a line does to a client in the exchange that it is in.
pub open spec fn after_line(c: ClientView, line: Seq<char>) -> (ClientView, StepView) {
    match c.exchange {
        Exchange::Username | Exchange::Password => after_acknowledgement(c, line),
        Exchange::DevicesBegin => {
            if "BEGIN LIST UPS"@.is_prefix_of(line) {
                (turned(c, Exchange::DevicesBody(Seq::empty())), StepView::Read)
            } else {
                failed(c, Failure::ProtocolViolation(Expected::ListOpening, line))
            }
        },
        Exchange::DevicesBody(list) => {
            if "END LIST UPS"@.is_prefix_of(line) {
                done(c, ReplyView::Devices(list))
            } else {
                match device_line(line) {
                    Ok(None) => (c, StepView::Read),
                    Ok(Some(entry)) => (turned(c, Exchange::DevicesBody(list.push(entry))), StepView::Read),
                    Err(failure) => failed(c, failure),
                }
            }
        },
        Exchange::VariablesBegin { device, summary } => {
            if "BEGIN LIST VAR"@.is_prefix_of(line) {
                (turned(c, Exchange::VariablesBody { device, table: Map::empty(), summary }), StepView::Read)
            } else {
                failed(c, Failure::ProtocolViolation(Expected::ListOpening, line))
            }
        },
        Exchange::VariablesBody { device, table, summary } => {
            if "END LIST VAR"@.is_prefix_of(line) {
                if summary {
                    done(c, ReplyView::Info(device, table))
                } else {
                    done(c, ReplyView::Variables(table))
                }
            } else {
                match variable_line(line, device) {
                    Ok(None) => (c, StepView::Read),
                    Ok(Some(entry)) => (
                        turned(c, Exchange::VariablesBody { device, table: table.insert(entry.0, entry.1), summary }),
                        StepView::Read,
                    ),
                    Err(failure) => failed(c, failure),
                }
            }
        },
        Exchange::Logout => (turned(c, Exchange::Closed), StepView::Done(ReplyView::LoggedOut)),
        Exchange::Idle | Exchange::Closed => failed(c, Failure::ProtocolViolation(Expected::Nothing, line)),
    }
}

/// What an event does to a client, and the step that follows. A failure of
/// the connection ends the exchange; during the handshake it counts as a
/// failure of the handshake.
pub open spec fn next(c: ClientView, event: EventView) -> (ClientView, StepView) {
    match incoming(event) {
        Ok(line) => after_line(c, line),
        Err(failure) => {
            if c.exchange is Username || c.exchange is Password {
                failed(c, as_authentication_failure(failure))
            } else {
                failed(c, failure)
            }
        },
    }
}

impl NutClient {
    /// Opens a session on a connection that has just been made. With a
    /// user name the handshake begins; without one nothing is sent and the
    /// session is ready.
    pub fn connect(username: String, password: String) -> (r: (NutClient, Step))
        ensures
            r.0@ == opened(username@, password@).0,
            r.1.shows(opened(username@, password@).1),
    {
        if username.as_str().is_empty() {
            (NutClient { username, password, pending: Pending::Idle }, Step::Done(Reply::Ready))
        } else {
            let wire = send_command(joined("USERNAME ", username.as_str()).as_str());
            (NutClient { username, password, pending: Pending::Username }, Step::Send(wire))
        }
    }

    /// Whether the next command may go out.
    pub fn is_idle(&self) -> (idle: bool)
        ensures
            idle == (self@.exchange is Idle),
    {
        matches!(self.pending, Pending::Idle)
    }

    /// Whether the client has been closed.
    pub fn is_closed(&self) -> (closed: bool)
        ensures
            closed == (self@.exchange is Closed),
    {
        matches!(self.pending, Pending::Closed)
    }

    /// Asks for the devices that the daemon knows.
    pub fn list_ups(&mut self) -> (step: Step)
        requires
            old(self)@.exchange is Idle,
        ensures
            final(self)@ == turned(old(self)@, Exchange::DevicesBegin),
            step.shows(StepView::Send(framed("LIST UPS"@))),
    {
        self.pending = Pending::DevicesBegin;
        Step::Send(send_command("LIST UPS"))
    }

    /// Asks for the variables of the device `ups_name`.
    pub fn list_vars_raw(&mut self, ups_name: &str) -> (step: Step)
        requires
            old(self)@.exchange is Idle,
        ensures
            final(self)@ == turned(old(self)@, Exchange::VariablesBegin { device: ups_name@, summary: false }),
            step.shows(StepView::Send(framed("LIST VAR "@ + ups_name@))),
    {
        self.pending = Pending::VariablesBegin { device: ups_name.to_owned(), summary: false };
        Step::Send(send_command(joined("LIST VAR ", ups_name).as_str()))
    }

    /// Asks for the variables of the device `ups_name`, to be summarized.
    pub fn get_ups_info(&mut self, ups_name: &str) -> (step: Step)
        requires
            old(self)@.exchange is Idle,
        ensures
            final(self)@ == turned(old(self)@, Exchange::VariablesBegin { device: ups_name@, summary: true }),
            step.shows(StepView::Send(framed("LIST VAR "@ + ups_name@))),
    {
        self.pending = Pending::VariablesBegin { device: ups_name.to_owned(), summary: true };
        Step::Send(send_command(joined("LIST VAR ", ups_name).as_str()))
    }

    /// Says farewell to the daemon.
    pub fn logout(&mut self) -> (step: Step)
        requires
            old(self)@.exchange is Idle,
        ensures
            final(self)@ == turned(old(self)@, Exchange::Logout),
            step.shows(StepView::Send(framed("LOGOUT"@))),
    {
        self.pending = Pending::Logout;
        Step::Send(send_command("LOGOUT"))
    }

    fn authenticate(&mut self, first: bool, line: &str) -> (step: Step)
        requires
            old(self)@.exchange is Closed,
        ensures
            final(self)@ == after_acknowledgement(
                turned(old(self)@, if first { Exchange::Username } else { Exchange::Password }),
                line@,
            ).0,
            step.shows(
                after_acknowledgement(
                    turned(old(self)@, if first { Exchange::Username } else { Exchange::Password }),
                    line@,
                ).1,
            ),
    {
        match expect_ok(line) {
            Err(e) => Step::Failed(e.during_authentication()),
            Ok(_) => {
                if first && !self.password.as_str().is_empty() {
                    self.pending = Pending::Password;
                    Step::Send(send_command(joined("PASSWORD ", self.password.as_str()).as_str()))
                } else {
                    self.pending = Pending::Idle;
                    Step::Done(Reply::Ready)
                }
            },
        }
    }

    /// Takes what the driver has read and says what follows.
    pub fn receive(&mut self, event: Event) -> (step: Step)
        ensures
            final(self)@ == next(old(self)@, event@).0,
            step.shows(next(old(self)@, event@).1),
    {
        let mut pending = Pending::Closed;
        core::mem::swap(&mut self.pending, &mut pending);
        let read = match event {
            Event::Line(raw) => read_line(raw.as_str()),
            Event::Failed(cause) => Err(NutError::Network(cause)),
        };
        let line = match read {
            Ok(line) => line,
            Err(e) => {
                if matches!(pending, Pending::Username | Pending::Password) {
                    return Step::Failed(e.during_authentication());
                } else {
                    return Step::Failed(e);
                }
            },
        };
        match pending {
            Pending::Username => self.authenticate(true, line.as_str()),
            Pending::Password => self.authenticate(false, line.as_str()),
            Pending::DevicesBegin => {
                if starts_with(line.as_str(), "BEGIN LIST UPS") {
                    self.pending = Pending::DevicesBody(Vec::new());
                    assert(pairs_of(Seq::<(String, String)>::empty()) =~= Seq::empty());
                    Step::Read
                } else {
                    Step::Failed(NutError::ProtocolViolation(Expected::ListOpening, line))
                }
            },
            Pending::DevicesBody(list) => {
                let mut list = list;
                if starts_with(line.as_str(), "END LIST UPS") {
                    self.pending = Pending::Idle;
                    Step::Done(Reply::Devices(list))
                } else {
                    match parse_device_line(line.as_str()) {
                        Ok(None) => {
                            self.pending = Pending::DevicesBody(list);
                            Step::Read
                        },
                        Ok(Some(entry)) => {
                            let ghost before = pairs_of(list@);
                            let ghost added = (entry.0@, entry.1@);
                            list.push(entry);
                            assert(pairs_of(list@) =~= before.push(added));
                            self.pending = Pending::DevicesBody(list);
                            Step::Read
                        },
                        Err(e) => Step::Failed(e),
                    }
                }
            },
            Pending::VariablesBegin { device, summary } => {
                if starts_with(line.as_str(), "BEGIN LIST VAR") {
                    self.pending = Pending::VariablesBody { device, table: VariableTable::new(), summary };
                    Step::Read
                } else {
                    Step::Failed(NutError::ProtocolViolation(Expected::ListOpening, line))
                }
            },
            Pending::VariablesBody { device, table, summary } => {
                let mut table = table;
                if starts_with(line.as_str(), "END LIST VAR") {
                    self.pending = Pending::Idle;
                    if summary {
                        Step::Done(Reply::Info(UpsInfo::from_var_map(device.as_str(), table)))
                    } else {
                        Step::Done(Reply::Variables(table))
                    }
                } else {
                    match parse_variable_line(line.as_str(), device.as_str()) {
                        Ok(None) => {
                            self.pending = Pending::VariablesBody { device, table, summary };
                            Step::Read
                        },
                        Ok(Some(entry)) => {
                            table.insert(entry.0, entry.1);
                            self.pending = Pending::VariablesBody { device, table, summary };
                            Step::Read
                        },
                        Err(e) => Step::Failed(e),
                    }
                }
            },
            Pending::Logout => Step::Done(Reply::LoggedOut),
            Pending::Idle => Step::Failed(NutError::ProtocolViolation(Expected::Nothing, line)),
            Pending::Closed => Step::Failed(NutError::ProtocolViolation(Expected::Nothing, line)),
        }
    }
}

/// A variable line that names another device than the one that was asked
/// for is dropped: the client goes on reading, and nothing of the line
/// enters the table.
pub proof fn foreign_variable_is_dropped(c: ClientView, raw: Seq<char>)
    requires
        c.exchange matches Exchange::VariablesBody { device, table, summary } && line_read(raw) matches Ok(line)
            && "VAR "@.is_prefix_of(line) && before_space(line.skip("VAR "@.len() as int)) != device,
    ensures
        next(c, EventView::Line(raw)) == (c, StepView::Read),
{
    reveal_strlit("VAR ");
    reveal_strlit("END LIST VAR");
    let line = line_read(raw)->Ok_0;
    assert("VAR "@[0] == line[0]);
    assert("END LIST VAR"@[0] != line[0]);
    assert(c == turned(c, c.exchange));
}

/// A device list that does not open with `BEGIN LIST UPS` is a violation of
/// the protocol: the client fails with the line that came instead and is
/// closed, and a closed client reports no devices, whatever comes next.
pub proof fn device_list_needs_its_opening(c: ClientView, raw: Seq<char>, later: EventView)
    requires
        c.exchange is DevicesBegin,
        line_read(raw) matches Ok(line) && !"BEGIN LIST UPS"@.is_prefix_of(line),
    ensures
        next(c, EventView::Line(raw)) == failed(c, Failure::ProtocolViolation(Expected::ListOpening, stripped(raw))),
        next(failed(c, Failure::ProtocolViolation(Expected::ListOpening, stripped(raw))).0, later).1 is Failed,
        next(failed(c, Failure::ProtocolViolation(Expected::ListOpening, stripped(raw))).0, later).0.exchange is Closed,
{
}

} // verus!
