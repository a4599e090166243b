//! One streaming connection, from the opening of the socket to its end:
//! what to send in which order, and what to make of each frame that arrives.
//!
//! The socket itself is not here. `MisskeyWebsocket` is told what happened
//! to the last request and answers with the next one.

use crate::misskey::notes::{Note, NoteView};
use crate::misskey::users::{User, UserView};
use vstd::prelude::*;
use vstd::string::*;

verus! {

/// The kinds of event that the two subscribed channels carry.
#[derive(Clone, Copy, Debug, PartialEq, Eq, Structural)]
pub enum EventBodyType {
    Note,
    Notification,
    Mention,
    Reply,
    Renote,
    Follow,
    Followed,
    Unfollow,
    MessagingMessage,
    ReadAllNotifications,
    UnreadNotification,
    UnreadMention,
    ReadAllUnreadMentions,
    UnreadSpecifiedNote,
    ReadAllUnreadSpecifiedNotes,
    UnreadMessagingMessage,
    ReadAllMessagingMessages,
}

/// The shape of the payload that comes with a kind of event.
#[derive(Clone, Copy, Debug, PartialEq, Eq, Structural)]
pub enum Schema {
    /// A post.
    Note,
    /// A user.
    User,
    /// The kind is not acted upon, and its payload is not read.
    Unread,
}

impl EventBodyType {
    /// The shape of the payload of this kind: a post for `Note` and
    /// `Mention`, a user for `Followed`; the other kinds are not read.
    pub open spec fn schema_spec(self) -> Schema {
        match self {
            EventBodyType::Note | EventBodyType::Mention => Schema::Note,
            EventBodyType::Followed => Schema::User,
            _ => Schema::Unread,
        }
    }

    /// The shape of the payload of this kind.
    pub fn schema(&self) -> (schema: Schema)
        ensures
            schema == self.schema_spec(),
    {
        match self {
            EventBodyType::Note | EventBodyType::Mention => Schema::Note,
            EventBodyType::Followed => Schema::User,
            _ => Schema::Unread,
        }
    }
}

/// What was read of an event's payload.
#[derive(Debug, PartialEq, Eq)]
pub enum Payload {
    Note(Note),
    User(User),
    /// The payload was not read, or does not have the shape of its kind.
    Undecoded,
}

/// `Payload` as sequences of characters.
pub enum PayloadView {
    Note(NoteView),
    User(UserView),
    Undecoded,
}

impl View for Payload {
    type V = PayloadView;

    open spec fn view(&self) -> PayloadView {
        match self {
            Payload::Note(note) => PayloadView::Note(note@),
            Payload::User(user) => PayloadView::User(user@),
            Payload::Undecoded => PayloadView::Undecoded,
        }
    }
}

/// One event of a channel: its kind and its payload.
#[derive(Debug, PartialEq, Eq)]
pub struct EventBody {
    pub event_type: EventBodyType,
    pub body: Payload,
}

/// `EventBody` as sequences of characters.
pub struct EventBodyView {
    pub event_type: EventBodyType,
    pub body: PayloadView,
}

impl View for EventBody {
    type V = EventBodyView;

    open spec fn view(&self) -> EventBodyView {
        EventBodyView { event_type: self.event_type, body: self.body@ }
    }
}

/// The request to be sent the events of one channel.
#[derive(Debug, PartialEq, Eq)]
pub struct Subscription {
    /// The name of the channel.
    pub channel: String,
    /// The id under which its events are to arrive.
    pub id: String,
}

impl View for Subscription {
    type V = (Seq<char>, Seq<char>);

    /// The channel's name and the id.
    open spec fn view(&self) -> (Seq<char>, Seq<char>) {
        (self.channel@, self.id@)
    }
}

/// The channel of mentions and follows.
pub const MAIN_CHANNEL: &'static str = "main";

/// The id under which the events of the main channel arrive.
pub const MAIN_CHANNEL_ID: &'static str = "main_channel";

/// The channel of the posts on the home timeline.
pub const HOME_CHANNEL: &'static str = "homeTimeline";

/// The id under which the events of the home timeline arrive.
pub const HOME_CHANNEL_ID: &'static str = "home_channel";

/// The subscriptions of a session, in the order in which they are sent: the
/// main channel, then the home timeline.
pub open spec fn subscriptions_spec() -> Seq<(Seq<char>, Seq<char>)> {
    seq![(MAIN_CHANNEL@, MAIN_CHANNEL_ID@), (HOME_CHANNEL@, HOME_CHANNEL_ID@)]
}

/// The subscriptions of `batch`, in order.
pub open spec fn batch_view(batch: Seq<Subscription>) -> Seq<(Seq<char>, Seq<char>)> {
    Seq::new(batch.len(), |i: int| batch[i]@)
}

/// The subscriptions of a session, in the order in which they are sent.
pub fn subscriptions() -> (batch: Vec<Subscription>)
    ensures
        batch_view(batch@) == subscriptions_spec(),
{
    let mut batch: Vec<Subscription> = Vec::new();
    batch.push(Subscription { channel: MAIN_CHANNEL.to_owned(), id: MAIN_CHANNEL_ID.to_owned() });
    batch.push(Subscription { channel: HOME_CHANNEL.to_owned(), id: HOME_CHANNEL_ID.to_owned() });
    assert(batch_view(batch@) =~= subscriptions_spec());
    batch
}

/// The address of the streaming endpoint of `host` for the credential
/// `token`.
pub open spec fn streaming_address_spec(host: Seq<char>, token: Seq<char>) -> Seq<char> {
    "wss://"@ + host + "/streaming?i="@ + token
}

/// The address of the streaming endpoint of `host` for the credential
/// `token`.
pub fn streaming_address(host: &str, token: &str) -> (address: String)
    ensures
        address@ == streaming_address_spec(host@, token@),
{
    let mut address = String::from_str("wss://");
    address.append(host);
    address.append("/streaming?i=");
    address.append(token);
    address
}

/// Why a session ended.
#[derive(Clone, Copy, Debug, PartialEq, Eq, Structural)]
pub enum ConnectionError {
    /// The socket could not be opened.
    Connect,
    /// The subscriptions could not be sent.
    Subscribe,
    /// A heartbeat could not be answered.
    Pong,
    /// The stream came to its end.
    Terminated,
    /// The next frame could not be read.
    Receive,
}

impl ConnectionError {
    /// What to write into the log for this error.
    pub fn message(&self) -> (text: &'static str)
        ensures
            text@ == match self {
                ConnectionError::Connect => "Failed to connect to ws"@,
                ConnectionError::Subscribe => "Failed to send to ws"@,
                ConnectionError::Pong => "Failed to send pong"@,
                ConnectionError::Terminated => "Connection terminated"@,
                ConnectionError::Receive => "Failed to get the next value"@,
            },
    {
        match self {
            ConnectionError::Connect => "Failed to connect to ws",
            ConnectionError::Subscribe => "Failed to send to ws",
            ConnectionError::Pong => "Failed to send pong",
            ConnectionError::Terminated => "Connection terminated",
            ConnectionError::Receive => "Failed to get the next value",
        }
    }
}

/// A frame as it arrives.
#[derive(Debug, PartialEq, Eq)]
pub enum Frame {
    /// A heartbeat, with the bytes to send back.
    Ping(Vec<u8>),
    /// A text frame: the event it carries, or `None` where it is no
    /// envelope of a channel event.
    Text(Option<EventBody>),
    /// Any other frame.
    Other,
}

/// What happened to the last request of a session.
#[derive(Debug, PartialEq, Eq)]
pub enum Arrival {
    /// The socket is open.
    Opened,
    /// What was to be sent is sent.
    Sent,
    /// A frame was read.
    Frame(Frame),
    /// The stream has no further frame.
    Ended,
    /// The request failed.
    Failed,
}

/// What a session asks for next.
#[derive(Debug, PartialEq, Eq)]
pub enum Request {
    /// Open the socket at this address. Answered by `Opened` or `Failed`.
    Open(String),
    /// Send these subscriptions in this order and flush them together,
    /// before anything is read. Answered by `Sent` or `Failed`.
    Subscribe(Vec<Subscription>),
    /// Read the next frame. Answered by `Frame`, `Ended` or `Failed`.
    Receive,
    /// Answer a heartbeat with these bytes. Answered by `Sent` or `Failed`.
    Pong(Vec<u8>),
    /// Hand this event on; the next frame is read when the next event is
    /// wanted.
    Deliver(EventBody),
    /// The session is over.
    Close(ConnectionError),
}

/// `Request` as sequences.
pub enum RequestView {
    Open(Seq<char>),
    Subscribe(Seq<(Seq<char>, Seq<char>)>),
    Receive,
    Pong(Seq<u8>),
    Deliver(EventBodyView),
    Close(ConnectionError),
}

impl View for Request {
    type V = RequestView;

    open spec fn view(&self) -> RequestView {
        match self {
            Request::Open(address) => RequestView::Open(address@),
            Request::Subscribe(batch) => RequestView::Subscribe(batch_view(batch@)),
            Request::Receive => RequestView::Receive,
            Request::Pong(bytes) => RequestView::Pong(bytes@),
            Request::Deliver(event) => RequestView::Deliver(event@),
            Request::Close(error) => RequestView::Close(*error),
        }
    }
}

/// `Arrival` as sequences.
pub enum ArrivalView {
    Opened,
    Sent,
    Ping(Seq<u8>),
    Event(EventBodyView),
    Unreadable,
    Other,
    Ended,
    Failed,
}

impl View for Arrival {
    type V = ArrivalView;

    open spec fn view(&self) -> ArrivalView {
        match self {
            Arrival::Opened => ArrivalView::Opened,
            Arrival::Sent => ArrivalView::Sent,
            Arrival::Frame(Frame::Ping(bytes)) => ArrivalView::Ping(bytes@),
            Arrival::Frame(Frame::Text(Some(event))) => ArrivalView::Event(event@),
            Arrival::Frame(Frame::Text(None)) => ArrivalView::Unreadable,
            Arrival::Frame(Frame::Other) => ArrivalView::Other,
            Arrival::Ended => ArrivalView::Ended,
            Arrival::Failed => ArrivalView::Failed,
        }
    }
}

/// How far a session has come.
#[derive(Clone, Copy, Debug, PartialEq, Eq, Structural)]
pub enum Phase {
    /// The socket is being opened.
    Opening,
    /// The subscriptions are being sent.
    Subscribing,
    /// Frames are read.
    Streaming,
    /// A heartbeat is being answered.
    Answering,
    /// The session is over.
    Closed,
}

/// What a session in `phase` does on `arrival`: the phase it is in
/// afterwards and what it asks for.
///
/// Once open it subscribes; once subscribed it reads. A heartbeat is
/// answered and reading goes on; a frame that carries an event delivers it;
/// any other frame is passed over and reading goes on. The end of the
/// stream, a failure, and anything that does not answer the last request end
/// the session, and an ended session stays ended.
pub open spec fn session_step(phase: Phase, arrival: ArrivalView) -> (Phase, RequestView) {
    match (phase, arrival) {
        (Phase::Opening, ArrivalView::Opened) => (
            Phase::Subscribing,
            RequestView::Subscribe(subscriptions_spec()),
        ),
        (Phase::Opening, _) => (Phase::Closed, RequestView::Close(ConnectionError::Connect)),
        (Phase::Subscribing, ArrivalView::Sent) => (Phase::Streaming, RequestView::Receive),
        (Phase::Subscribing, _) => (Phase::Closed, RequestView::Close(ConnectionError::Subscribe)),
        (Phase::Streaming, ArrivalView::Ping(bytes)) => (Phase::Answering, RequestView::Pong(bytes)),
        (Phase::Streaming, ArrivalView::Event(event)) => (
            Phase::Streaming,
            RequestView::Deliver(event),
        ),
        (Phase::Streaming, ArrivalView::Unreadable) => (Phase::Streaming, RequestView::Receive),
        (Phase::Streaming, ArrivalView::Other) => (Phase::Streaming, RequestView::Receive),
        (Phase::Streaming, ArrivalView::Ended) => (
            Phase::Closed,
            RequestView::Close(ConnectionError::Terminated),
        ),
        (Phase::Streaming, _) => (Phase::Closed, RequestView::Close(ConnectionError::Receive)),
        (Phase::Answering, ArrivalView::Sent) => (Phase::Streaming, RequestView::Receive),
        (Phase::Answering, _) => (Phase::Closed, RequestView::Close(ConnectionError::Pong)),
        (Phase::Closed, _) => (Phase::Closed, RequestView::Close(ConnectionError::Terminated)),
    }
}

/// The course of one streaming connection.
#[derive(Debug, PartialEq, Eq)]
pub struct MisskeyWebsocket {
    phase: Phase,
}

impl MisskeyWebsocket {
    /// How far the session has come.
    pub closed spec fn phase_spec(&self) -> Phase {
        self.phase
    }

    /// How far the session has come.
    pub fn phase(&self) -> (phase: Phase)
        ensures
            phase == self.phase_spec(),
    {
        self.phase
    }

    /// A session with `host` under the credential `token`, and its first
    /// request: to open the socket at the streaming address.
    pub fn new(host: &str, token: &str) -> (started: (Self, Request))
        ensures
            started.0.phase_spec() == Phase::Opening,
            started.1@ == RequestView::Open(streaming_address_spec(host@, token@)),
    {
        (MisskeyWebsocket { phase: Phase::Opening }, Request::Open(streaming_address(host, token)))
    }

    /// Takes what happened to the last request and gives the next one.
    pub fn next(&mut self, arrival: Arrival) -> (request: Request)
        ensures
            (final(self).phase_spec(), request@) == session_step(old(self).phase_spec(), arrival@),
    {
        match self.phase {
            Phase::Opening => match arrival {
                Arrival::Opened => {
                    self.phase = Phase::Subscribing;
                    Request::Subscribe(subscriptions())
                },
                _ => {
                    self.phase = Phase::Closed;
                    Request::Close(ConnectionError::Connect)
                },
            },
            Phase::Subscribing => match arrival {
                Arrival::Sent => {
                    self.phase = Phase::Streaming;
                    Request::Receive
                },
                _ => {
                    self.phase = Phase::Closed;
                    Request::Close(ConnectionError::Subscribe)
                },
            },
            Phase::Streaming => match arrival {
                Arrival::Frame(Frame::Ping(bytes)) => {
                    self.phase = Phase::Answering;
                    Request::Pong(bytes)
                },
                Arrival::Frame(Frame::Text(Some(event))) => Request::Deliver(event),
                Arrival::Frame(Frame::Text(None)) => Request::Receive,
                Arrival::Frame(Frame::Other) => Request::Receive,
                Arrival::Ended => {
                    self.phase = Phase::Closed;
                    Request::Close(ConnectionError::Terminated)
                },
                _ => {
                    self.phase = Phase::Closed;
                    Request::Close(ConnectionError::Receive)
                },
            },
            Phase::Answering => match arrival {
                Arrival::Sent => {
                    self.phase = Phase::Streaming;
                    Request::Receive
                },
                _ => {
                    self.phase = Phase::Closed;
                    Request::Close(ConnectionError::Pong)
                },
            },
            Phase::Closed => Request::Close(ConnectionError::Terminated),
        }
    }
}

/// A frame that cannot be read does not end the stream: the session stays
/// where it is and reads the next frame. The same holds of a frame that is
/// neither text nor heartbeat.
pub proof fn lemma_unreadable_frames_are_passed_over()
    ensures
        session_step(Phase::Streaming, ArrivalView::Unreadable) == (
            Phase::Streaming,
            RequestView::Receive,
        ),
        session_step(Phase::Streaming, ArrivalView::Other) == (
            Phase::Streaming,
            RequestView::Receive,
        ),
{
}

/// An event is delivered as it came, whatever its kind and its payload, and
/// the session goes on streaming.
pub proof fn lemma_events_are_delivered(event: EventBodyView)
    ensures
        session_step(Phase::Streaming, ArrivalView::Event(event)) == (
            Phase::Streaming,
            RequestView::Deliver(event),
        ),
{
}

/// Nothing is read before the subscriptions are sent: a session asks to
/// read only while it streams, and it comes to stream only from the sending
/// of the subscriptions or of a heartbeat's answer.
pub proof fn lemma_subscriptions_come_first(phase: Phase, arrival: ArrivalView)
    ensures
        session_step(phase, arrival).1 == RequestView::Receive ==> session_step(phase, arrival).0
            == Phase::Streaming,
        session_step(phase, arrival).0 == Phase::Streaming ==> phase == Phase::Streaming || (
        arrival == ArrivalView::Sent && (phase == Phase::Subscribing || phase
            == Phase::Answering)),
        session_step(phase, arrival).0 == Phase::Subscribing ==> phase == Phase::Opening
            && session_step(phase, arrival).1 == RequestView::Subscribe(subscriptions_spec()),
        session_step(phase, arrival).0 == Phase::Answering ==> phase == Phase::Streaming,
{
}

} // verus!
