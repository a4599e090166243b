use sango::misskey::notes::CreateNote;
use sango::supervisor::{Order, Report, Standing, Supervisor, BACKOFF_SECONDS, WAKING_UP};
use sango::websocket::{EventBody, EventBodyType, Payload};

fn event(kind: EventBodyType) -> EventBody {
    EventBody { event_type: kind, body: Payload::Undecoded }
}

#[test]
fn reconnect_scenario() {
    let (mut bot, first) = Supervisor::new();
    let mut orders = vec![first];
    for report in [
        Report::Failed,
        Report::Rested,
        Report::Failed,
        Report::Rested,
        Report::Connected,
        Report::Announced,
    ] {
        orders.push(bot.step(report));
    }
    assert_eq!(
        orders,
        vec![
            Order::Connect,
            Order::Rest(30),
            Order::Connect,
            Order::Rest(30),
            Order::Connect,
            Order::Announce(CreateNote::new("うーん、うとうとしちゃってたみたい……？")),
            Order::Receive,
        ]
    );
    let announcements = orders.iter().filter(|o| matches!(o, Order::Announce(_))).count();
    assert_eq!(announcements, 1);
    assert_eq!(bot.standing, Standing::Receiving);
    assert_eq!(BACKOFF_SECONDS, 30);
    assert_eq!(WAKING_UP, "うーん、うとうとしちゃってたみたい……？");
}

#[test]
fn announcement_that_fails_is_waited_out_like_a_connect() {
    let (mut bot, _) = Supervisor::new();
    bot.step(Report::Connected);
    assert_eq!(bot.standing, Standing::Announcing);
    assert_eq!(bot.step(Report::Failed), Order::Rest(30));
    assert_eq!(bot.standing, Standing::Waiting);
    assert_eq!(bot.step(Report::Rested), Order::Connect);
    assert!(matches!(bot.step(Report::Connected), Order::Announce(_)));
}

#[test]
fn every_event_is_dispatched_and_receiving_goes_on() {
    let (mut bot, _) = Supervisor::new();
    bot.step(Report::Connected);
    bot.step(Report::Announced);
    for kind in [EventBodyType::Note, EventBodyType::Mention, EventBodyType::Renote, EventBodyType::Followed] {
        assert_eq!(bot.step(Report::Arrived(event(kind))), Order::Dispatch(event(kind)));
        assert_eq!(bot.standing, Standing::Receiving);
    }
}

#[test]
fn stream_that_ends_is_waited_out_and_announced_again() {
    let (mut bot, _) = Supervisor::new();
    bot.step(Report::Connected);
    bot.step(Report::Announced);
    assert_eq!(bot.step(Report::Failed), Order::Rest(30));
    assert_eq!(bot.step(Report::Rested), Order::Connect);
    assert_eq!(bot.step(Report::Connected), Order::Announce(CreateNote::new(WAKING_UP)));
    assert_eq!(bot.step(Report::Announced), Order::Receive);
}

#[test]
fn report_out_of_turn_is_waited_out() {
    let (mut bot, _) = Supervisor::new();
    assert_eq!(bot.step(Report::Announced), Order::Rest(30));
    assert_eq!(bot.step(Report::Connected), Order::Rest(30));
    assert_eq!(bot.step(Report::Arrived(event(EventBodyType::Note))), Order::Rest(30));
    assert_eq!(bot.standing, Standing::Waiting);
    assert_eq!(bot.step(Report::Rested), Order::Connect);
    assert_eq!(bot.step(Report::Rested), Order::Rest(30));
}
