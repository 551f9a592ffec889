//! The gateway session: the token that is set once per connection, and the
//! life cycle of the connection itself.

use vstd::prelude::*;
use vstd::string::*;
use crate::event::{frame_of, decode_frame, Business, BusinessView, DecodeError, Event, EventView, MessageEvent, MessageView};
use crate::text::{decimal, push_decimal};

verus! {

/// What the program is configured with.
#[derive(Debug, Clone, PartialEq, Eq)]
pub struct Settings {
    pub host: String,
    pub verify_key: String,
    pub account: u64,
    /// The one group whose files are fetched and whose images count.
    pub allow_group: u64,
}

/// A token was offered to a session that already holds one.
#[derive(Debug, Clone, Copy, PartialEq, Eq)]
pub struct DuplicateHandshake;

/// The token of the current connection: unset at first, set at most once.
#[derive(Debug)]
pub struct Session {
    token: Option<String>,
}

/// The token of a session after `offered` was offered to it: the first offer
/// stays.
pub open spec fn after_offer(held: Option<Seq<char>>, offered: Seq<char>) -> Option<Seq<char>> {
    match held {
        Some(t) => held,
        None => Some(offered),
    }
}

impl View for Session {
    type V = Option<Seq<char>>;

    closed spec fn view(&self) -> Option<Seq<char>> {
        match self.token {
            Some(t) => Some(t@),
            None => None,
        }
    }
}

impl Session {
    /// A session without a token.
    pub fn new() -> (s: Session)
        ensures
            s@ is None,
    {
        Session { token: None }
    }

    /// Offers a token. The first offer is taken; any later one is refused
    /// and leaves the session as it was.
    pub fn set(&mut self, token: String) -> (r: Result<(), DuplicateHandshake>)
        ensures
            final(self)@ == after_offer(old(self)@, token@),
            r is Ok == old(self)@ is None,
            r is Err ==> *final(self) == *old(self),
    {
        if self.token.is_some() {
            Err(DuplicateHandshake)
        } else {
            self.token = Some(token);
            Ok(())
        }
    }

    /// The token, if one was set.
    pub fn token(&self) -> (r: Option<&String>)
        ensures
            r.is_some() == self@.is_some(),
            r matches Some(t) ==> self@ == Some(t@),
    {
        match &self.token {
            Some(t) => Some(t),
            None => None,
        }
    }

    /// Whether a token was set.
    pub fn is_set(&self) -> (r: bool)
        ensures
            r == self@.is_some(),
    {
        self.token.is_some()
    }
}

/// Once a token is held, no offer changes it: of two offers the first stays.
pub proof fn law_first_offer_stays(held: Option<Seq<char>>, first: Seq<char>, second: Seq<char>)
    ensures
        after_offer(after_offer(held, first), second) == after_offer(held, first),
        held is Some ==> after_offer(held, first) == held,
        held is None ==> after_offer(after_offer(held, first), second) == Some(first),
{
}

/// Where the connection stands.
#[derive(Debug, Clone, Copy, PartialEq, Eq)]
pub enum Phase {
    Disconnected,
    Connecting,
    /// The socket is open; the gateway has not greeted yet.
    Connected,
    /// The gateway's token is held.
    Authenticated,
}

/// What happened, for the log.
#[derive(Debug, Clone, Copy, PartialEq, Eq)]
pub enum Note {
    Connected,
    Authenticated,
    /// A second greeting on one connection; the token is unchanged.
    DuplicateHandshake,
    /// An event that is observed and not acted on.
    Ignored,
    /// A frame that is no event; it is dropped.
    Undecodable(DecodeError),
    /// Something arrived that the current phase does not expect.
    OutOfTurn,
}

/// What the program is to do next.
#[derive(Debug, Clone, PartialEq, Eq)]
pub enum Action {
    /// Open the gateway socket at this address.
    Connect(String),
    /// Hand the message to a unit of its own, and go on.
    Collect(MessageEvent),
    /// Go on with what is under way.
    Continue(Note),
}

pub enum ActionView {
    Connect(Seq<char>),
    Collect(MessageView),
    Continue(Note),
}

impl View for Action {
    type V = ActionView;

    open spec fn view(&self) -> ActionView {
        match *self {
            Action::Connect(url) => ActionView::Connect(url@),
            Action::Collect(m) => ActionView::Collect(m@),
            Action::Continue(n) => ActionView::Continue(n),
        }
    }
}

/// The address of the gateway's event stream.
pub open spec fn gateway_address(host: Seq<char>, verify_key: Seq<char>, account: u64) -> Seq<
    char,
> {
    "ws://"@ + host + "/all?verifyKey="@ + verify_key + "&qq="@ + decimal(account as nat)
}

/// Builds the address of the gateway's event stream.
pub fn gateway_url(host: &str, verify_key: &str, account: u64) -> (url: String)
    ensures
        url@ == gateway_address(host@, verify_key@, account),
{
    let mut url = String::new();
    url.append("ws://");
    proof {
        assert(url@ =~= "ws://"@);
    }
    url.append(host);
    url.append("/all?verifyKey=");
    url.append(verify_key);
    url.append("&qq=");
    push_decimal(&mut url, account);
    url
}

/// The state after a decoded frame, and what to do about it. Frames count
/// only while the socket is open. A greeting sets the token if none is held
/// and is a duplicate otherwise; a message of a friend or a group is handed
/// on; an undecodable frame is dropped; everything else is ignored.
pub open spec fn dispatched(
    phase: Phase,
    token: Option<Seq<char>>,
    decoded: Result<EventView, DecodeError>,
) -> (Phase, Option<Seq<char>>, ActionView) {
    if !(phase is Connected || phase is Authenticated) {
        (phase, token, ActionView::Continue(Note::OutOfTurn))
    } else {
        match decoded {
            Err(e) => (phase, token, ActionView::Continue(Note::Undecodable(e))),
            Ok(EventView::Handshake(offered)) => if token is None {
                (Phase::Authenticated, Some(offered), ActionView::Continue(Note::Authenticated))
            } else {
                (phase, token, ActionView::Continue(Note::DuplicateHandshake))
            },
            Ok(EventView::Business(BusinessView::FriendMessage(m))) => (
                phase,
                token,
                ActionView::Collect(m),
            ),
            Ok(EventView::Business(BusinessView::GroupMessage(m))) => (
                phase,
                token,
                ActionView::Collect(m),
            ),
            Ok(EventView::Business(_)) => (phase, token, ActionView::Continue(Note::Ignored)),
        }
    }
}

/// The view of a decoding result.
pub open spec fn decoded_view(decoded: Result<Event, DecodeError>) -> Result<
    EventView,
    DecodeError,
> {
    match decoded {
        Ok(e) => Ok(e@),
        Err(e) => Err(e),
    }
}

/// The owner of the gateway connection. It never ends: whenever the
/// connection fails, it asks for the next attempt at once.
#[derive(Debug)]
pub struct SessionManager {
    settings: Settings,
    phase: Phase,
    session: Session,
}

impl SessionManager {
    /// The settings that the manager was made with.
    pub closed spec fn settings(self) -> Settings {
        self.settings
    }

    /// Where the connection stands.
    pub closed spec fn phase(self) -> Phase {
        self.phase
    }

    /// The token of the current connection.
    pub closed spec fn token(self) -> Option<Seq<char>> {
        self.session@
    }

    /// The address that the manager connects to.
    pub open spec fn address(self) -> Seq<char> {
        gateway_address(self.settings().host@, self.settings().verify_key@, self.settings().account)
    }

    /// A token is held exactly in the phase `Authenticated`.
    pub open spec fn wf(self) -> bool {
        self.token() is Some <==> self.phase() is Authenticated
    }

    /// A manager that has not connected yet.
    pub fn new(settings: Settings) -> (m: SessionManager)
        ensures
            m.settings() == settings,
            m.phase() is Disconnected,
            m.token() is None,
            m.wf(),
    {
        SessionManager { settings, phase: Phase::Disconnected, session: Session::new() }
    }

    /// Starts a connection attempt: whatever the phase was, the manager is
    /// connecting afterwards, holds no token, and asks for the socket to be
    /// opened.
    pub fn connect(&mut self) -> (action: Action)
        ensures
            final(self).settings() == old(self).settings(),
            final(self).phase() is Connecting,
            final(self).token() is None,
            final(self).wf(),
            action@ == ActionView::Connect(old(self).address()),
    {
        self.phase = Phase::Connecting;
        self.session = Session::new();
        Action::Connect(
            gateway_url(
                self.settings.host.as_str(),
                self.settings.verify_key.as_str(),
                self.settings.account,
            ),
        )
    }

    /// The socket is open. Only an attempt under way can succeed: in any
    /// other phase nothing changes.
    pub fn connected(&mut self) -> (action: Action)
        ensures
            final(self).settings() == old(self).settings(),
            final(self).token() == old(self).token(),
            old(self).phase() is Connecting ==> final(self).phase() is Connected && action@
                == ActionView::Continue(Note::Connected),
            !(old(self).phase() is Connecting) ==> final(self).phase() == old(self).phase()
                && action@ == ActionView::Continue(Note::OutOfTurn),
            old(self).wf() ==> final(self).wf(),
    {
        match self.phase {
            Phase::Connecting => {
                self.phase = Phase::Connected;
                Action::Continue(Note::Connected)
            },
            _ => Action::Continue(Note::OutOfTurn),
        }
    }

    /// The attempt to connect failed, or the open socket failed. The
    /// connection is gone and with it the token; the next attempt starts at
    /// once.
    pub fn failed(&mut self) -> (action: Action)
        ensures
            final(self).settings() == old(self).settings(),
            final(self).phase() is Connecting,
            final(self).token() is None,
            final(self).wf(),
            action@ == ActionView::Connect(old(self).address()),
    {
        self.phase = Phase::Disconnected;
        self.connect()
    }

    /// Takes a decoded frame.
    pub fn dispatch(&mut self, decoded: Result<Event, DecodeError>) -> (action: Action)
        ensures
            final(self).settings() == old(self).settings(),
            (final(self).phase(), final(self).token(), action@) == dispatched(
                old(self).phase(),
                old(self).token(),
                decoded_view(decoded),
            ),
            old(self).wf() ==> final(self).wf(),
    {
        match self.phase {
            Phase::Connected | Phase::Authenticated => {},
            _ => {
                return Action::Continue(Note::OutOfTurn);
            },
        }
        match decoded {
            Err(e) => Action::Continue(Note::Undecodable(e)),
            Ok(Event::Handshake(offered)) => {
                match self.session.set(offered) {
                    Ok(()) => {
                        self.phase = Phase::Authenticated;
                        Action::Continue(Note::Authenticated)
                    },
                    Err(_) => Action::Continue(Note::DuplicateHandshake),
                }
            },
            Ok(Event::Business(Business::FriendMessage(m))) => Action::Collect(m),
            Ok(Event::Business(Business::GroupMessage(m))) => Action::Collect(m),
            Ok(Event::Business(_)) => Action::Continue(Note::Ignored),
        }
    }

    /// Takes the text of a frame: decodes it and dispatches the result.
    pub fn frame(&mut self, text: &str) -> (action: Action)
        ensures
            final(self).settings() == old(self).settings(),
            (final(self).phase(), final(self).token(), action@) == dispatched(
                old(self).phase(),
                old(self).token(),
                frame_of(text@),
            ),
            old(self).wf() ==> final(self).wf(),
    {
        let decoded = decode_frame(text);
        self.dispatch(decoded)
    }

    /// Where the connection stands.
    pub fn current_phase(&self) -> (p: Phase)
        ensures
            p == self.phase(),
    {
        self.phase
    }

    /// The token of the current connection, if the gateway has greeted.
    pub fn current_token(&self) -> (r: Option<&String>)
        ensures
            r.is_some() == self.token().is_some(),
            r matches Some(t) ==> self.token() == Some(t@),
    {
        self.session.token()
    }

    /// The session of the current connection.
    pub fn session(&self) -> (s: &Session)
        ensures
            s@ == self.token(),
    {
        &self.session
    }

    /// The settings.
    pub fn current_settings(&self) -> (s: &Settings)
        ensures
            *s == self.settings(),
    {
        &self.settings
    }
}

} // verus!
