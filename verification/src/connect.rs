//! The connect form: where to connect, as whom, and what became of the
//! last attempt.

use vstd::prelude::*;
use crate::client::NutClient;
use crate::error::{message_of, NutError};
use crate::number::{parse_unsigned, unsigned_of};

verus! {

/// The port of the daemon where none is given.
pub const DEFAULT_PORT: u16 = 3493;

/// What happens to the form.
#[derive(Debug)]
pub enum Message {
    /// The host was edited.
    Host(String),
    /// The port was edited. Carries the text of the field.
    Port(String),
    /// The user name was edited.
    Username(String),
    /// The password was edited.
    Password(String),
    /// A connection is asked for.
    Connect,
    /// An attempt has ended, with a client whose session is open or with
    /// the failure.
    ConnectResult(Result<NutClient, NutError>),
    /// The password is to be shown, or hidden again.
    TogglePasswordVisibility,
}

/// Where, and as whom, an attempt is to connect.
#[derive(Debug, Clone, PartialEq, Eq)]
pub struct ConnectRequest {
    pub host: String,
    pub port: u16,
    pub username: String,
    pub password: String,
}

/// What the form asks for.
#[derive(Debug)]
#[must_use]
pub enum Action {
    /// Run an attempt and report how it ended.
    Run(ConnectRequest),
    /// The session is open: this is its client.
    Client(NutClient),
    /// Nothing.
    Nothing,
}

/// The form, as plain values.
pub struct ConnectView {
    pub host: Seq<char>,
    pub port: u16,
    pub username: Seq<char>,
    pub password: Seq<char>,
    pub show_password: bool,
    pub connecting: bool,
    pub error: Option<Seq<char>>,
}

/// The connect form.
#[derive(Debug)]
pub struct Connect {
    host: String,
    port: u16,
    username: String,
    password: String,
    show_password: bool,
    connecting: bool,
    error: Option<String>,
}

impl View for Connect {
    type V = ConnectView;

    closed spec fn view(&self) -> ConnectView {
        ConnectView {
            host: self.host@,
            port: self.port,
            username: self.username@,
            password: self.password@,
            show_password: self.show_password,
            connecting: self.connecting,
            error: match self.error {
                Some(text) => Some(text@),
                None => None,
            },
        }
    }
}

/// The port that the text of the port field stands for: the number that it
/// writes, or 0 where it writes none that a port can be.
pub open spec fn port_of(text: Seq<char>) -> u16 {
    match unsigned_of(text, 65535) {
        Some(n) => n as u16,
        None => 0,
    }
}

/// The form before anything was entered.
pub open spec fn blank() -> ConnectView {
    ConnectView {
        host: Seq::empty(),
        port: DEFAULT_PORT,
        username: Seq::empty(),
        password: Seq::empty(),
        show_password: false,
        connecting: false,
        error: None,
    }
}

/// The form after a message. The end of an attempt counts only while an
/// attempt is under way; later it changes nothing.
pub open spec fn after(c: ConnectView, message: Message) -> ConnectView {
    match message {
        Message::Host(host) => ConnectView { host: host@, ..c },
        Message::Port(text) => ConnectView { port: port_of(text@), ..c },
        Message::Username(username) => ConnectView { username: username@, ..c },
        Message::Password(password) => ConnectView { password: password@, ..c },
        Message::TogglePasswordVisibility => ConnectView { show_password: !c.show_password, ..c },
        Message::Connect => ConnectView { connecting: true, error: None, ..c },
        Message::ConnectResult(result) => {
            if !c.connecting {
                c
            } else {
                match result {
                    Ok(_) => ConnectView { connecting: false, error: None, ..c },
                    Err(e) => ConnectView { connecting: false, error: Some(message_of(e@)), ..c },
                }
            }
        },
    }
}

/// Whether `action` is what the form asks for after `message`: an attempt
/// with the values of the form when a connection is asked for, the client
/// when an attempt that is under way has succeeded, and nothing otherwise.
pub open spec fn asked(action: Action, c: ConnectView, message: Message) -> bool {
    match message {
        Message::Connect => action matches Action::Run(request) && request.host@ == c.host && request.port
            == c.port && request.username@ == c.username && request.password@ == c.password,
        Message::ConnectResult(Ok(client)) if c.connecting => action matches Action::Client(handed)
            && handed == client,
        _ => action is Nothing,
    }
}

impl Connect {
    /// The form before anything was entered.
    pub fn new() -> (form: Connect)
        ensures
            form@ == blank(),
    {
        Connect {
            host: String::new(),
            port: DEFAULT_PORT,
            username: String::new(),
            password: String::new(),
            show_password: false,
            connecting: false,
            error: None,
        }
    }

    /// Whether an attempt is under way.
    pub fn is_connecting(&self) -> (connecting: bool)
        ensures
            connecting == self@.connecting,
    {
        self.connecting
    }

    /// The host as it was entered.
    pub fn host(&self) -> (host: &String)
        ensures
            host@ == self@.host,
    {
        &self.host
    }

    /// The port.
    pub fn port(&self) -> (port: u16)
        ensures
            port == self@.port,
    {
        self.port
    }

    /// The user name as it was entered.
    pub fn username(&self) -> (username: &String)
        ensures
            username@ == self@.username,
    {
        &self.username
    }

    /// The password as it was entered.
    pub fn password(&self) -> (password: &String)
        ensures
            password@ == self@.password,
    {
        &self.password
    }

    /// Whether the password is shown.
    pub fn shows_password(&self) -> (shown: bool)
        ensures
            shown == self@.show_password,
    {
        self.show_password
    }

    /// The message of the failure of the last attempt, if it failed.
    pub fn error(&self) -> (error: &Option<String>)
        ensures
            match *error {
                Some(text) => self@.error == Some(text@),
                None => self@.error is None,
            },
    {
        &self.error
    }

    /// Takes a message and says what is to be done.
    pub fn update(&mut self, message: Message) -> (action: Action)
        ensures
            final(self)@ == after(old(self)@, message),
            asked(action, old(self)@, message),
    {
        match message {
            Message::Host(host) => self.host = host,
            Message::Port(port) => {
                self.port = match parse_unsigned(port.as_str(), 65535) {
                    Some(n) => n as u16,
                    None => 0,
                };
            },
            Message::Username(username) => self.username = username,
            Message::Password(password) => self.password = password,
            Message::TogglePasswordVisibility => self.show_password = !self.show_password,
            Message::Connect => {
                let request = ConnectRequest {
                    host: self.host.clone(),
                    port: self.port,
                    username: self.username.clone(),
                    password: self.password.clone(),
                };
                self.error = None;
                self.connecting = true;
                return Action::Run(request);
            },
            Message::ConnectResult(result) => {
                if self.connecting {
                    self.connecting = false;
                    match result {
                        Ok(client) => {
                            self.error = None;
                            return Action::Client(client);
                        },
                        Err(e) => {
                            self.error = Some(e.message());
                        },
                    }
                }
            },
        }
        Action::Nothing
    }
}

} // verus!
