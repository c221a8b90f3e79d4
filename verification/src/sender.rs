//! The options of one run and the sender that carries them.

use crate::ids::{server_name_of, UserId};
use crate::recipient::Recipient;
use vstd::prelude::*;
use vstd::string::StringExecFns;

verus! {

/// What one run of the sender is told to do.
pub struct SendOptions {
    /// The sender's Matrix user ID.
    pub from: UserId,
    /// The sender's account password for login.
    pub password: String,
    /// The recipient: a user ID or a room ID.
    pub to: Recipient,
    /// A recovery key to verify the sender's device, if any.
    pub recovery_key: Option<String>,
    /// The plain text message body.
    pub message: String,
}

/// The contents of a sender, as text.
pub struct SenderView {
    pub from: Seq<char>,
    pub password: Seq<char>,
    pub to_user: bool,
    pub to: Seq<char>,
    pub message: Seq<char>,
    pub recovery_key: Option<Seq<char>>,
    pub homeserver_url: Option<Seq<char>>,
}

/// An optional text seen as a character sequence.
pub open spec fn opt_text(o: Option<String>) -> Option<Seq<char>> {
    match o {
        Some(s) => Some(s@),
        None => None,
    }
}

/// Builder for sending a Matrix message.
pub struct MessageSender {
    from: UserId,
    password: String,
    to: Recipient,
    message: String,
    recovery_key: Option<String>,
    homeserver_url: Option<String>,
}

impl View for MessageSender {
    type V = SenderView;

    closed spec fn view(&self) -> SenderView {
        SenderView {
            from: self.from@,
            password: self.password@,
            to_user: self.to is User,
            to: self.to.id_view(),
            message: self.message@,
            recovery_key: opt_text(self.recovery_key),
            homeserver_url: opt_text(self.homeserver_url),
        }
    }
}

/// Where the client finds its homeserver.
#[derive(Debug, PartialEq, Eq)]
pub enum Homeserver {
    /// The homeserver URL given explicitly.
    Url(String),
    /// The server name, to be resolved by the Matrix well-known protocol.
    ServerName(String),
}

/// Where the client finds its homeserver, as text.
pub enum HomeserverView {
    Url(Seq<char>),
    ServerName(Seq<char>),
}

impl View for Homeserver {
    type V = HomeserverView;

    open spec fn view(&self) -> HomeserverView {
        match self {
            Homeserver::Url(u) => HomeserverView::Url(u@),
            Homeserver::ServerName(n) => HomeserverView::ServerName(n@),
        }
    }
}

/// Where the client of a sender is to find its homeserver.
pub open spec fn homeserver_of(s: SenderView) -> HomeserverView {
    match s.homeserver_url {
        Some(u) => HomeserverView::Url(u),
        None => HomeserverView::ServerName(server_name_of(s.from)),
    }
}

impl MessageSender {
    /// Creates a new sender from the options; the homeserver is discovered unless overridden.
    pub fn new(opts: SendOptions) -> (r: Self)
        ensures
            r@ == (SenderView {
                from: opts.from@,
                password: opts.password@,
                to_user: opts.to is User,
                to: opts.to.id_view(),
                message: opts.message@,
                recovery_key: opt_text(opts.recovery_key),
                homeserver_url: None,
            }),
    {
        MessageSender {
            from: opts.from,
            password: opts.password,
            to: opts.to,
            message: opts.message,
            recovery_key: opts.recovery_key,
            homeserver_url: None,
        }
    }

    /// Overrides the homeserver URL instead of discovering it.
    pub fn with_homeserver(self, url: &str) -> (r: Self)
        ensures
            r@ == (SenderView { homeserver_url: Some(url@), ..self@ }),
    {
        MessageSender { homeserver_url: Some(String::from_str(url)), ..self }
    }

    /// Where the client is to find its homeserver: the URL given, or else the server name of
    /// the sender's user ID.
    pub fn homeserver(&self) -> (h: Homeserver)
        ensures
            h@ == homeserver_of(self@),
    {
        match &self.homeserver_url {
            Some(url) => Homeserver::Url(url.clone()),
            None => Homeserver::ServerName(self.from.server_name()),
        }
    }

    /// The sender's user ID.
    pub fn from(&self) -> (r: &UserId)
        ensures
            r@ == self@.from,
    {
        &self.from
    }

    /// The password for login.
    pub fn password(&self) -> (r: &String)
        ensures
            r@ == self@.password,
    {
        &self.password
    }

    /// The recipient.
    pub fn to(&self) -> (r: &Recipient)
        ensures
            r.id_view() == self@.to,
            r is User <==> self@.to_user,
    {
        &self.to
    }

    /// The message body.
    pub fn message(&self) -> (r: &String)
        ensures
            r@ == self@.message,
    {
        &self.message
    }

    /// The recovery key, if any.
    pub fn recovery_key(&self) -> (r: &Option<String>)
        ensures
            opt_text(*r) == self@.recovery_key,
    {
        &self.recovery_key
    }
}

} // verus!
