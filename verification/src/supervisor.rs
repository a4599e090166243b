//! The life of the bot around its sessions: connect, announce, receive, and
//! after any failure wait and begin again.

use crate::misskey::notes::{CreateNote, CreateNoteView};
use crate::websocket::{EventBody, EventBodyView};
use vstd::prelude::*;

verus! {

/// How long the bot waits after a failure before it connects again, in
/// seconds.
pub const BACKOFF_SECONDS: u64 = 30;

/// What the bot posts when a session has begun.
pub const WAKING_UP: &'static str = "うーん、うとうとしちゃってたみたい……？";

/// Where the bot stands.
#[derive(Clone, Copy, Debug, PartialEq, Eq, Structural)]
pub enum Standing {
    /// A session is being opened and subscribed.
    Connecting,
    /// The bot announces that it is awake.
    Announcing,
    /// The bot waits for the next event.
    Receiving,
    /// The bot waits before it connects again.
    Waiting,
}

/// What happened to the last thing the bot was to do.
#[derive(Debug, PartialEq, Eq)]
pub enum Report {
    /// The session is open and subscribed.
    Connected,
    /// The announcement is posted.
    Announced,
    /// An event arrived.
    Arrived(EventBody),
    /// The wait is over.
    Rested,
    /// It failed.
    Failed,
}

/// `Report` as sequences of characters.
pub enum ReportView {
    Connected,
    Announced,
    Arrived(EventBodyView),
    Rested,
    Failed,
}

impl View for Report {
    type V = ReportView;

    open spec fn view(&self) -> ReportView {
        match self {
            Report::Connected => ReportView::Connected,
            Report::Announced => ReportView::Announced,
            Report::Arrived(event) => ReportView::Arrived(event@),
            Report::Rested => ReportView::Rested,
            Report::Failed => ReportView::Failed,
        }
    }
}

/// What the bot is to do next.
#[derive(Debug, PartialEq, Eq)]
pub enum Order {
    /// Open a session and subscribe. Answered by `Connected` or `Failed`.
    Connect,
    /// Post the announcement. Answered by `Announced` or `Failed`.
    Announce(CreateNote),
    /// Wait for the next event. Answered by `Arrived` or `Failed`.
    Receive,
    /// Hand the event to its answer without waiting for it, and wait for the
    /// next event. Answered by `Arrived` or `Failed`.
    Dispatch(EventBody),
    /// Wait for this many seconds. Answered by `Rested`.
    Rest(u64),
}

/// `Order` as sequences of characters.
pub enum OrderView {
    Connect,
    Announce(CreateNoteView),
    Receive,
    Dispatch(EventBodyView),
    Rest(u64),
}

impl View for Order {
    type V = OrderView;

    open spec fn view(&self) -> OrderView {
        match self {
            Order::Connect => OrderView::Connect,
            Order::Announce(note) => OrderView::Announce(note@),
            Order::Receive => OrderView::Receive,
            Order::Dispatch(event) => OrderView::Dispatch(event@),
            Order::Rest(seconds) => OrderView::Rest(*seconds),
        }
    }
}

/// What the bot does on `report` where it stands at `standing`: where it
/// stands afterwards, and what it is to do.
///
/// Once connected it announces itself; once that is posted it receives; each
/// event that arrives is dispatched, and the bot goes on receiving. When the
/// wait is over it connects. A failure, and any report that does not answer
/// the last order, makes it wait `BACKOFF_SECONDS`.
pub open spec fn supervise(standing: Standing, report: ReportView) -> (Standing, OrderView) {
    match (standing, report) {
        (Standing::Connecting, ReportView::Connected) => (
            Standing::Announcing,
            OrderView::Announce(CreateNoteView::plain(WAKING_UP@)),
        ),
        (Standing::Announcing, ReportView::Announced) => (Standing::Receiving, OrderView::Receive),
        (Standing::Receiving, ReportView::Arrived(event)) => (
            Standing::Receiving,
            OrderView::Dispatch(event),
        ),
        (Standing::Waiting, ReportView::Rested) => (Standing::Connecting, OrderView::Connect),
        _ => (Standing::Waiting, OrderView::Rest(BACKOFF_SECONDS)),
    }
}

/// The bot's standing, from its start on.
#[derive(Debug, PartialEq, Eq)]
pub struct Supervisor {
    pub standing: Standing,
}

impl Supervisor {
    /// The bot at its start, and its first order: to connect.
    pub fn new() -> (started: (Supervisor, Order))
        ensures
            started.0.standing == Standing::Connecting,
            started.1@ == OrderView::Connect,
    {
        (Supervisor { standing: Standing::Connecting }, Order::Connect)
    }

    /// Takes what happened to the last order and gives the next one.
    pub fn step(&mut self, report: Report) -> (order: Order)
        ensures
            (final(self).standing, order@) == supervise(old(self).standing, report@),
    {
        match (self.standing, report) {
            (Standing::Connecting, Report::Connected) => {
                self.standing = Standing::Announcing;
                Order::Announce(CreateNote::new(WAKING_UP))
            },
            (Standing::Announcing, Report::Announced) => {
                self.standing = Standing::Receiving;
                Order::Receive
            },
            (Standing::Receiving, Report::Arrived(event)) => Order::Dispatch(event),
            (Standing::Waiting, Report::Rested) => {
                self.standing = Standing::Connecting;
                Order::Connect
            },
            _ => {
                self.standing = Standing::Waiting;
                Order::Rest(BACKOFF_SECONDS)
            },
        }
    }
}

/// No event ends the receiving: whatever arrives is dispatched, and the bot
/// goes on receiving.
pub proof fn lemma_every_event_is_dispatched(event: EventBodyView)
    ensures
        supervise(Standing::Receiving, ReportView::Arrived(event)) == (
            Standing::Receiving,
            OrderView::Dispatch(event),
        ),
{
}

/// After a failure the bot waits `BACKOFF_SECONDS` wherever it stood, and
/// connects only when the wait is over. It announces itself only when a
/// session has just been connected, and receives only after the
/// announcement is posted.
pub proof fn lemma_failures_are_waited_out(standing: Standing, report: ReportView)
    ensures
        supervise(standing, ReportView::Failed) == (
            Standing::Waiting,
            OrderView::Rest(BACKOFF_SECONDS),
        ),
        supervise(standing, report).1 == OrderView::Connect ==> standing == Standing::Waiting
            && report == ReportView::Rested,
        supervise(standing, report).1 is Announce ==> standing == Standing::Connecting && report
            == ReportView::Connected,
        supervise(standing, report).1 == OrderView::Receive ==> standing == Standing::Announcing
            && report == ReportView::Announced,
{
}

} // verus!
