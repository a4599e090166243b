//! Who answers an event, and how: the chains of units, what opens each
//! unit, and the course of the answer once a unit has been chosen.

use crate::chance::Draws;
use crate::clock::TimeOfDay;
use crate::handler::followed::{is_welcomed, welcomes};
use crate::handler::mention::{mention_choice, HandleMention, MentionUnit};
use crate::handler::note::{note_choice, HandleNote, NoteUnit};
use crate::misskey::following::{CreateFollowing, DeleteFollowing};
use crate::misskey::notes::{CreateNote, CreateNoteView, Note, NoteView};
use crate::misskey::users::{ShowUser, ShowUserView, User, UserDetailed, UserView};
use crate::text::{chars_of, contains_chars, contains_phrase, parts_view};
use crate::websocket::{EventBody, EventBodyType, EventBodyView, Payload, PayloadView};
use vstd::prelude::*;

pub mod followed;
pub mod mention;
pub mod note;
pub mod task;

verus! {

/// Who the bot is, and who may give it orders.
#[derive(Debug, PartialEq, Eq)]
pub struct Context {
    /// The id of the bot's own account.
    pub self_id: String,
    /// The id of the account that administers the bot.
    pub admin_id: String,
}

/// `Context` as sequences of characters.
pub struct ContextView {
    pub self_id: Seq<char>,
    pub admin_id: Seq<char>,
}

impl View for Context {
    type V = ContextView;

    open spec fn view(&self) -> ContextView {
        ContextView { self_id: self.self_id@, admin_id: self.admin_id@ }
    }
}

/// One of `phrases` stands in `text`.
pub open spec fn mentions_any(text: Seq<char>, phrases: Seq<Seq<char>>) -> bool {
    exists|i: int| 0 <= i < phrases.len() && contains_phrase(text, #[trigger] phrases[i])
}

/// Whether one of `phrases` stands in `text`.
pub fn any_keyword(text: &str, phrases: &Vec<&'static str>) -> (found: bool)
    ensures
        found == mentions_any(text@, parts_view(phrases@)),
{
    let chars = chars_of(text);
    let mut i: usize = 0;
    while i < phrases.len()
        invariant
            i <= phrases@.len(),
            chars@ == text@,
            forall|j: int|
                0 <= j < i ==> !contains_phrase(text@, #[trigger] parts_view(phrases@)[j]),
        decreases phrases@.len() - i,
    {
        let phrase = chars_of(phrases[i]);
        if contains_chars(chars.as_slice(), phrase.as_slice()) {
            assert(contains_phrase(text@, parts_view(phrases@)[i as int]));
            return true;
        }
        i += 1;
    }
    false
}

/// A unit that may answer a post: the phrases it listens for, what else has
/// to hold, and whether both together let the post in.
pub trait Handler {
    /// The phrases the unit listens for.
    spec fn keywords_spec(&self) -> Seq<Seq<char>>;

    /// What has to hold of the post beside a phrase. `draws` holds the coins
    /// of the units that flip one.
    spec fn cond_spec(&self, note: NoteView, draws: Draws) -> bool;

    /// Whether the unit answers the post.
    spec fn gate_spec(&self, note: NoteView, ctx: ContextView, draws: Draws) -> bool;

    /// The phrases the unit listens for.
    fn keywords(&self) -> (phrases: Vec<&'static str>)
        ensures
            parts_view(phrases@) == self.keywords_spec(),
    ;

    /// Whether what has to hold beside a phrase holds of `note`.
    fn cond(&self, note: &Note, draws: &Draws) -> (met: bool)
        ensures
            met == self.cond_spec(note@, *draws),
    ;

    /// Whether the unit answers `note`.
    fn gate(&self, note: &Note, ctx: &Context, draws: &Draws) -> (open: bool)
        ensures
            open == self.gate_spec(note@, ctx@, *draws),
    ;
}

/// How a unit is opened that has no way of its own: one of its phrases
/// stands in the text of the post, and its condition holds.
pub open spec fn phrase_gate_spec(text: Seq<char>, keywords: Seq<Seq<char>>, cond: bool) -> bool {
    mentions_any(text, keywords) && cond
}

/// The place in `chain` of the first unit that answers the post, if one
/// does.
pub open spec fn first_open<H: Handler>(
    chain: Seq<H>,
    note: NoteView,
    ctx: ContextView,
    draws: Draws,
) -> Option<int>
    decreases chain.len(),
{
    if chain.len() == 0 {
        None
    } else {
        match first_open(chain.drop_last(), note, ctx, draws) {
            Some(i) => Some(i),
            None => if chain.last().gate_spec(note, ctx, draws) {
                Some(chain.len() - 1)
            } else {
                None
            },
        }
    }
}

/// The unit that `first_open` finds is the first in the order of the chain
/// whose gate is open: no unit before it answers the post, and where it
/// finds none, none does.
pub proof fn lemma_first_open<H: Handler>(
    chain: Seq<H>,
    note: NoteView,
    ctx: ContextView,
    draws: Draws,
)
    ensures
        match first_open(chain, note, ctx, draws) {
            Some(i) => {
                &&& 0 <= i < chain.len()
                &&& chain[i].gate_spec(note, ctx, draws)
                &&& forall|j: int| 0 <= j < i ==> !(#[trigger] chain[j]).gate_spec(note, ctx, draws)
            },
            None => forall|j: int|
                0 <= j < chain.len() ==> !(#[trigger] chain[j]).gate_spec(note, ctx, draws),
        },
    decreases chain.len(),
{
    if chain.len() > 0 {
        let front = chain.drop_last();
        lemma_first_open(front, note, ctx, draws);
        match first_open(front, note, ctx, draws) {
            Some(i) => {
                assert(front[i] == chain[i]);
                assert forall|j: int| 0 <= j < i implies !(#[trigger] chain[j]).gate_spec(
                    note,
                    ctx,
                    draws,
                ) by {
                    assert(front[j] == chain[j]);
                }
            },
            None => {
                assert forall|j: int| 0 <= j < chain.len() - 1 implies !(
                #[trigger] chain[j]).gate_spec(note, ctx, draws) by {
                    assert(front[j] == chain[j]);
                }
            },
        }
    }
}

/// Goes through `chain` in order and stops at the first unit whose gate is
/// open. The units behind it are not asked.
pub fn first_match<H: Handler>(chain: &Vec<H>, note: &Note, ctx: &Context, draws: &Draws) -> (hit:
    Option<usize>)
    ensures
        match hit {
            Some(i) => i < chain@.len() && first_open(chain@, note@, ctx@, *draws) == Some(
                i as int,
            ),
            None => first_open(chain@, note@, ctx@, *draws) is None,
        },
{
    let mut i: usize = 0;
    assert(chain@.take(0) =~= Seq::empty());
    while i < chain.len()
        invariant
            i <= chain@.len(),
            first_open(chain@.take(i as int), note@, ctx@, *draws) is None,
        decreases chain@.len() - i,
    {
        let ghost seen = chain@.take(i + 1);
        proof {
            assert(seen.drop_last() =~= chain@.take(i as int));
            assert(seen.last() == chain@[i as int]);
        }
        if chain[i].gate(note, ctx, draws) {
            proof {
                lemma_first_open_prefix(chain@, i + 1, note@, ctx@, *draws);
            }
            return Some(i);
        }
        i += 1;
    }
    assert(chain@.take(i as int) =~= chain@);
    None
}

/// A unit found among the first `n` of a chain is the one found in the whole
/// chain.
proof fn lemma_first_open_prefix<H: Handler>(
    chain: Seq<H>,
    n: int,
    note: NoteView,
    ctx: ContextView,
    draws: Draws,
)
    requires
        0 <= n <= chain.len(),
        first_open(chain.take(n), note, ctx, draws) is Some,
    ensures
        first_open(chain, note, ctx, draws) == first_open(chain.take(n), note, ctx, draws),
    decreases chain.len() - n,
{
    if n < chain.len() {
        let longer = chain.take(n + 1);
        assert(longer.drop_last() =~= chain.take(n));
        lemma_first_open_prefix(chain, n + 1, note, ctx, draws);
    } else {
        assert(chain.take(n) =~= chain);
    }
}

/// What has to be done next for the answer to an event.
#[derive(Debug, PartialEq, Eq)]
pub enum Effect {
    /// Ask what the bot and a user are to each other. Answered by
    /// `Outcome::Relationship`.
    ShowUser(ShowUser),
    /// Follow a user.
    CreateFollowing(CreateFollowing),
    /// Stop following a user.
    DeleteFollowing(DeleteFollowing),
    /// Write a post.
    CreateNote(CreateNote),
    /// Wait for this many seconds.
    Sleep(u64),
    /// Measure the speed of the line. Answered by `Outcome::Measured`.
    Measure,
    /// Write the nicknames to durable storage.
    Persist,
    /// Nothing is left to do.
    Finished,
}

/// `Effect` as sequences of characters.
pub enum EffectView {
    ShowUser(ShowUserView),
    CreateFollowing(Seq<char>),
    DeleteFollowing(Seq<char>),
    CreateNote(CreateNoteView),
    Sleep(u64),
    Measure,
    Persist,
    Finished,
}

impl View for Effect {
    type V = EffectView;

    open spec fn view(&self) -> EffectView {
        match self {
            Effect::ShowUser(request) => EffectView::ShowUser(request@),
            Effect::CreateFollowing(request) => EffectView::CreateFollowing(request@),
            Effect::DeleteFollowing(request) => EffectView::DeleteFollowing(request@),
            Effect::CreateNote(request) => EffectView::CreateNote(request@),
            Effect::Sleep(seconds) => EffectView::Sleep(*seconds),
            Effect::Measure => EffectView::Measure,
            Effect::Persist => EffectView::Persist,
            Effect::Finished => EffectView::Finished,
        }
    }
}

/// The effects of `script`, in order.
pub open spec fn script_view(script: Seq<Effect>) -> Seq<EffectView> {
    Seq::new(script.len(), |i: int| script[i]@)
}

/// The speed of the line as it was measured, each number written out with
/// two decimals.
#[derive(Debug, PartialEq, Eq)]
pub struct Measurement {
    /// The latency in milliseconds.
    pub ping: String,
    /// The speed downwards in megabits per second.
    pub down: String,
    /// The speed upwards in megabits per second.
    pub up: String,
}

/// `Measurement` as sequences of characters.
pub struct MeasurementView {
    pub ping: Seq<char>,
    pub down: Seq<char>,
    pub up: Seq<char>,
}

impl View for Measurement {
    type V = MeasurementView;

    open spec fn view(&self) -> MeasurementView {
        MeasurementView { ping: self.ping@, down: self.down@, up: self.up@ }
    }
}

/// What became of the last effect.
#[derive(Debug, PartialEq, Eq)]
pub enum Outcome {
    /// Nothing has been done yet.
    Begin,
    /// It was done, and there is nothing to report.
    Completed,
    /// What the bot and the user are to each other.
    Relationship(UserDetailed),
    /// The speed of the line.
    Measured(Measurement),
    /// It failed.
    Failed,
}

/// `Outcome` as sequences of characters.
pub enum OutcomeView {
    Begin,
    Completed,
    Relationship(UserDetailed),
    Measured(MeasurementView),
    Failed,
}

impl View for Outcome {
    type V = OutcomeView;

    open spec fn view(&self) -> OutcomeView {
        match self {
            Outcome::Begin => OutcomeView::Begin,
            Outcome::Completed => OutcomeView::Completed,
            Outcome::Relationship(relation) => OutcomeView::Relationship(*relation),
            Outcome::Measured(measurement) => OutcomeView::Measured(measurement@),
            Outcome::Failed => OutcomeView::Failed,
        }
    }
}

/// What chance and the clock gave for one answer.
#[derive(Debug, PartialEq, Eq)]
pub struct Fortune {
    /// The line that was picked, for a unit that picks among several.
    pub line: String,
    /// The time of day, for a unit that tells the time.
    pub now: TimeOfDay,
}

/// `Fortune` with the line as a sequence of characters.
pub struct FortuneView {
    pub line: Seq<char>,
    pub now: TimeOfDay,
}

impl View for Fortune {
    type V = FortuneView;

    open spec fn view(&self) -> FortuneView {
        FortuneView { line: self.line@, now: self.now }
    }
}

/// The script that answers `note` with `response` in its thread: one post,
/// or nothing where there is nothing to say.
pub open spec fn reply_script(note: NoteView, response: Seq<char>) -> Seq<EffectView> {
    if response.len() == 0 {
        Seq::empty()
    } else {
        seq![EffectView::CreateNote(note.reply(response))]
    }
}

/// The script that answers `note` with `response` in its thread.
pub fn reply_with(note: &Note, response: &str) -> (script: Vec<Effect>)
    ensures
        script_view(script@) == reply_script(note@, response@),
{
    let mut script: Vec<Effect> = Vec::new();
    if !response.is_empty() {
        script.push(Effect::CreateNote(note.reply(response)));
    }
    assert(script_view(script@) =~= reply_script(note@, response@));
    script
}

/// An event that the bot acts upon.
#[derive(Debug, PartialEq, Eq)]
pub enum DomainEvent {
    /// A post on the home timeline.
    Note(Note),
    /// A post that mentions the bot.
    Mention(Note),
    /// A user has started to follow the bot.
    Followed(User),
}

/// `DomainEvent` as sequences of characters.
pub enum DomainEventView {
    Note(NoteView),
    Mention(NoteView),
    Followed(UserView),
}

impl View for DomainEvent {
    type V = DomainEventView;

    open spec fn view(&self) -> DomainEventView {
        match self {
            DomainEvent::Note(note) => DomainEventView::Note(note@),
            DomainEvent::Mention(note) => DomainEventView::Mention(note@),
            DomainEvent::Followed(user) => DomainEventView::Followed(user@),
        }
    }
}

/// An event of a kind that is acted upon came with a payload that does not
/// have the shape of its kind. The event is dropped, and nothing else
/// follows from it.
#[derive(Clone, Copy, Debug, PartialEq, Eq, Structural)]
pub struct IgnorableError {
    /// The kind of the event.
    pub kind: EventBodyType,
}

/// What an event of a channel is to the bot: a post for the kinds `Note`
/// and `Mention`, a new follower for `Followed`, each only with a payload of
/// its shape and an error without one; nothing for any other kind, whatever
/// its payload.
pub open spec fn classify_spec(event: EventBodyView) -> Result<
    Option<DomainEventView>,
    IgnorableError,
> {
    match event.event_type {
        EventBodyType::Note => match event.body {
            PayloadView::Note(note) => Ok(Some(DomainEventView::Note(note))),
            _ => Err(IgnorableError { kind: event.event_type }),
        },
        EventBodyType::Mention => match event.body {
            PayloadView::Note(note) => Ok(Some(DomainEventView::Mention(note))),
            _ => Err(IgnorableError { kind: event.event_type }),
        },
        EventBodyType::Followed => match event.body {
            PayloadView::User(user) => Ok(Some(DomainEventView::Followed(user))),
            _ => Err(IgnorableError { kind: event.event_type }),
        },
        _ => Ok(None),
    }
}

/// `classified` as sequences of characters.
pub open spec fn classified_view(classified: Result<Option<DomainEvent>, IgnorableError>) -> Result<
    Option<DomainEventView>,
    IgnorableError,
> {
    match classified {
        Ok(Some(event)) => Ok(Some(event@)),
        Ok(None) => Ok(None),
        Err(error) => Err(error),
    }
}

/// Says what an event of a channel is to the bot.
pub fn classify(event: EventBody) -> (classified: Result<Option<DomainEvent>, IgnorableError>)
    ensures
        classified_view(classified) == classify_spec(event@),
{
    let kind = event.event_type;
    match kind {
        EventBodyType::Note => match event.body {
            Payload::Note(note) => Ok(Some(DomainEvent::Note(note))),
            _ => Err(IgnorableError { kind }),
        },
        EventBodyType::Mention => match event.body {
            Payload::Note(note) => Ok(Some(DomainEvent::Mention(note))),
            _ => Err(IgnorableError { kind }),
        },
        EventBodyType::Followed => match event.body {
            Payload::User(user) => Ok(Some(DomainEvent::Followed(user))),
            _ => Err(IgnorableError { kind }),
        },
        _ => Ok(None),
    }
}

/// Who answers an event, and what to.
#[derive(Debug, PartialEq, Eq)]
pub enum Job {
    /// Nobody answers.
    Idle,
    /// The new follower is welcomed.
    Welcome(User),
    /// A unit of the chain for mentions answers the post.
    Mention(MentionUnit, Note),
    /// A unit of the chain for the home timeline answers the post.
    Note(NoteUnit, Note),
}

/// `Job` as sequences of characters.
pub enum JobView {
    Idle,
    Welcome(UserView),
    Mention(MentionUnit, NoteView),
    Note(NoteUnit, NoteView),
}

impl View for Job {
    type V = JobView;

    open spec fn view(&self) -> JobView {
        match self {
            Job::Idle => JobView::Idle,
            Job::Welcome(user) => JobView::Welcome(user@),
            Job::Mention(unit, note) => JobView::Mention(*unit, note@),
            Job::Note(unit, note) => JobView::Note(*unit, note@),
        }
    }
}

/// Who answers `event`: for a post the unit that its chain chooses, for a
/// new follower the welcome, and nobody where the chain chooses none or the
/// follower is not welcomed.
pub open spec fn assign_spec(event: DomainEventView, ctx: ContextView, draws: Draws) -> JobView {
    match event {
        DomainEventView::Note(note) => match note_choice(note, ctx, draws) {
            Some(unit) => JobView::Note(unit, note),
            None => JobView::Idle,
        },
        DomainEventView::Mention(note) => match mention_choice(note, ctx, draws) {
            Some(unit) => JobView::Mention(unit, note),
            None => JobView::Idle,
        },
        DomainEventView::Followed(user) => if is_welcomed(user, ctx) {
            JobView::Welcome(user)
        } else {
            JobView::Idle
        },
    }
}

/// Says who answers `event`.
pub fn assign(event: DomainEvent, ctx: &Context, draws: &Draws) -> (job: Job)
    ensures
        job@ == assign_spec(event@, ctx@, *draws),
{
    match event {
        DomainEvent::Note(note) => match HandleNote::select(&note, ctx, draws) {
            Some(unit) => Job::Note(unit, note),
            None => Job::Idle,
        },
        DomainEvent::Mention(note) => match HandleMention::select(&note, ctx, draws) {
            Some(unit) => Job::Mention(unit, note),
            None => Job::Idle,
        },
        DomainEvent::Followed(user) => if welcomes(&user, ctx) {
            Job::Welcome(user)
        } else {
            Job::Idle
        },
    }
}

/// Who answers an event of a channel: whoever answers what the event is to
/// the bot, and nobody where it is nothing to the bot or its payload does
/// not have the shape of its kind.
pub open spec fn dispatch_spec(event: EventBodyView, ctx: ContextView, draws: Draws) -> JobView {
    match classify_spec(event) {
        Ok(Some(domain)) => assign_spec(domain, ctx, draws),
        _ => JobView::Idle,
    }
}

/// Says who answers an event of a channel, with `draws` as the coins of the
/// units that flip one. No event makes it fail.
pub fn dispatch(event: EventBody, ctx: &Context, draws: &Draws) -> (job: Job)
    ensures
        job@ == dispatch_spec(event@, ctx@, *draws),
{
    match classify(event) {
        Ok(Some(domain)) => assign(domain, ctx, draws),
        _ => Job::Idle,
    }
}

/// Says who answers an event of a channel, and flips the coins itself.
pub fn handle(event: EventBody, ctx: &Context) -> (job: Job)
    ensures
        exists|draws: Draws| job@ == dispatch_spec(event@, ctx@, draws),
{
    let draws = Draws::sample();
    dispatch(event, ctx, &draws)
}

impl DomainEventView {
    /// The user the event comes from: the author of the post, or the new
    /// follower.
    pub open spec fn author(self) -> UserView {
        match self {
            DomainEventView::Note(note) => note.user,
            DomainEventView::Mention(note) => note.user,
            DomainEventView::Followed(user) => user,
        }
    }
}

/// An event whose author is flagged as automated, or is the bot itself, is
/// answered by nobody: no unit of either chain is asked, and no welcome is
/// given.
pub proof fn lemma_automated_and_own_events_get_no_answer(
    event: DomainEventView,
    ctx: ContextView,
    draws: Draws,
)
    requires
        event.author().is_bot || event.author().id == ctx.self_id,
    ensures
        assign_spec(event, ctx, draws) == JobView::Idle,
{
}

/// A post that mentions the bot is answered by no unit of the chain for the
/// home timeline. Whatever the post, an event of the home timeline is never
/// handed to the chain for mentions, and a mention never to the chain for
/// the home timeline: one post is answered by one chain at most.
pub proof fn lemma_mentions_are_answered_once(note: NoteView, ctx: ContextView, draws: Draws)
    ensures
        note.mentions.contains(ctx.self_id) ==> assign_spec(
            DomainEventView::Note(note),
            ctx,
            draws,
        ) == JobView::Idle,
        !(assign_spec(DomainEventView::Note(note), ctx, draws) is Mention),
        !(assign_spec(DomainEventView::Mention(note), ctx, draws) is Note),
{
}

/// The unit that answers a mention is the first in the order of its chain
/// whose phrases and condition both hold of the post; no unit before it
/// would answer, and where nobody answers a post that was let in, no unit
/// would.
pub proof fn lemma_mention_choice_is_first(note: NoteView, ctx: ContextView, draws: Draws)
    ensures
        match mention_choice(note, ctx, draws) {
            Some(unit) => exists|i: int|
                {
                    &&& 0 <= i < MentionUnit::order().len()
                    &&& #[trigger] MentionUnit::order()[i] == unit
                    &&& unit.gate_spec(note, ctx, draws)
                    &&& forall|j: int|
                        0 <= j < i ==> !(#[trigger] MentionUnit::order()[j]).gate_spec(
                            note,
                            ctx,
                            draws,
                        )
                },
            None => HandleMention.gate_spec(note, ctx, draws) ==> forall|j: int|
                0 <= j < MentionUnit::order().len() ==> !(#[trigger] MentionUnit::order()[j]).gate_spec(
                    note,
                    ctx,
                    draws,
                ),
        },
{
    lemma_first_open(MentionUnit::order(), note, ctx, draws);
}

/// The unit that answers a post of the home timeline is the first in the
/// order of its chain whose phrases and condition both hold of the post; no
/// unit before it would answer, and where nobody answers a post that was let
/// in, no unit would.
pub proof fn lemma_note_choice_is_first(note: NoteView, ctx: ContextView, draws: Draws)
    ensures
        match note_choice(note, ctx, draws) {
            Some(unit) => exists|i: int|
                {
                    &&& 0 <= i < NoteUnit::order().len()
                    &&& #[trigger] NoteUnit::order()[i] == unit
                    &&& unit.gate_spec(note, ctx, draws)
                    &&& forall|j: int|
                        0 <= j < i ==> !(#[trigger] NoteUnit::order()[j]).gate_spec(
                            note,
                            ctx,
                            draws,
                        )
                },
            None => HandleNote.gate_spec(note, ctx, draws) ==> forall|j: int|
                0 <= j < NoteUnit::order().len() ==> !(#[trigger] NoteUnit::order()[j]).gate_spec(
                    note,
                    ctx,
                    draws,
                ),
        },
{
    lemma_first_open(NoteUnit::order(), note, ctx, draws);
}

/// The kinds of event that the bot acts upon.
pub open spec fn is_acted_upon(kind: EventBodyType) -> bool {
    kind == EventBodyType::Note || kind == EventBodyType::Mention || kind == EventBodyType::Followed
}

/// An event of a kind that the bot does not act upon is nothing to it,
/// whatever its payload: it is no error, and nobody answers it.
pub proof fn lemma_other_kinds_are_passed_over(event: EventBodyView, ctx: ContextView, draws: Draws)
    requires
        !is_acted_upon(event.event_type),
    ensures
        classify_spec(event) == Ok::<Option<DomainEventView>, IgnorableError>(None),
        dispatch_spec(event, ctx, draws) == JobView::Idle,
{
}

/// An event of a kind that the bot acts upon whose payload does not have
/// the shape of its kind is an error that names the kind, and nobody
/// answers it.
pub proof fn lemma_misshapen_payload_is_dropped(event: EventBodyView, ctx: ContextView, draws: Draws)
    requires
        is_acted_upon(event.event_type),
        match event.event_type {
            EventBodyType::Followed => !(event.body is User),
            _ => !(event.body is Note),
        },
    ensures
        classify_spec(event) == Err::<Option<DomainEventView>, IgnorableError>(
            IgnorableError { kind: event.event_type },
        ),
        dispatch_spec(event, ctx, draws) == JobView::Idle,
{
}

} // verus!
