//! The course of one answer: a script of effects that is worked off one by
//! one, and goes on or ends with what became of each.

use crate::chance::choose_line;
use crate::clock::{local_time, TimeOfDay};
use crate::handler::followed::{on_follow, on_follow_spec};
use crate::handler::mention::{farewell_text, HandleUnFollow, MentionUnit, DELAY_SECONDS};
use crate::handler::{reply_script, reply_with, script_view};
use crate::text::parts_view;
use crate::handler::{Context, ContextView, Effect, EffectView, Fortune, FortuneView};
use crate::handler::{Job, JobView, Outcome, OutcomeView};
use crate::handler::MeasurementView;
use crate::misskey::notes::NoteView;
use crate::misskey::users::{ShowUser, UserDetailed};
use crate::savedata::SaveData;
use vstd::prelude::*;

verus! {

/// How far an answer has come.
#[derive(Clone, Copy, Debug, PartialEq, Eq, Structural)]
pub enum Stage {
    /// Nothing has been done yet.
    Ready,
    /// An effect is under way.
    Running,
    /// Nothing is left to do.
    Finished,
}

/// What the effect under way is answered by.
#[derive(Clone, Copy, Debug, PartialEq, Eq, Structural)]
pub enum Awaited {
    /// `Outcome::Completed`.
    Completion,
    /// `Outcome::Relationship`.
    Relationship,
    /// `Outcome::Measured`.
    Measurement,
    /// `Outcome::Completed` or `Outcome::Failed`: the script goes on either
    /// way.
    Attempt,
}

/// The answer to one event.
#[derive(Debug, PartialEq, Eq)]
pub struct Task {
    pub job: Job,
    pub stage: Stage,
    pub awaited: Awaited,
    /// What is left to do once the effect under way is done, in order.
    pub script: Vec<Effect>,
}

/// `Task` as sequences of characters.
pub struct TaskView {
    pub job: JobView,
    pub stage: Stage,
    pub awaited: Awaited,
    pub script: Seq<EffectView>,
}

impl View for Task {
    type V = TaskView;

    open spec fn view(&self) -> TaskView {
        TaskView {
            job: self.job@,
            stage: self.stage,
            awaited: self.awaited,
            script: script_view(self.script@),
        }
    }
}

impl JobView {
    /// The lines among which the job's unit picks one.
    pub open spec fn lines(self) -> Seq<Seq<char>> {
        match self {
            JobView::Mention(unit, _) => unit.lines_spec(),
            JobView::Note(unit, _) => unit.lines_spec(),
            _ => Seq::empty(),
        }
    }

    /// Whether the job's unit tells the time.
    pub open spec fn wants_clock(self) -> bool {
        match self {
            JobView::Mention(unit, _) => unit.wants_clock_spec(),
            _ => false,
        }
    }

    /// What chance and the clock may give this job: a time on the dial, and
    /// one of the lines where there are lines.
    pub open spec fn admits(self, fortune: FortuneView) -> bool {
        &&& fortune.now.is_on_the_dial()
        &&& self.lines().len() > 0 ==> self.lines().contains(fortune.line)
    }

    /// What is set out to do for the job, and the nicknames that are known
    /// afterwards.
    pub open spec fn opening(
        self,
        ctx: ContextView,
        nicknames: Map<Seq<char>, Seq<char>>,
        fortune: FortuneView,
    ) -> (Seq<EffectView>, Map<Seq<char>, Seq<char>>) {
        match self {
            JobView::Idle => (Seq::empty(), nicknames),
            JobView::Welcome(user) => (on_follow_spec(user, ctx), nicknames),
            JobView::Mention(unit, note) => unit.opening_spec(note, ctx, nicknames, fortune),
            JobView::Note(unit, note) => (
                reply_script(note, unit.response_spec(note, nicknames, fortune.line)),
                nicknames,
            ),
        }
    }

    /// What the job goes on with once it is known what the bot and the
    /// author are to each other.
    pub open spec fn on_relationship(
        self,
        nicknames: Map<Seq<char>, Seq<char>>,
        relation: UserDetailed,
    ) -> Seq<EffectView> {
        match self {
            JobView::Mention(unit, note) => unit.on_relationship_spec(note, nicknames, relation),
            _ => Seq::empty(),
        }
    }

    /// Whether the job goes on with its script when the first post after
    /// the answer cannot be written.
    pub open spec fn bears_failure(self, relation: UserDetailed) -> bool {
        match self {
            JobView::Mention(unit, _) => unit.bears_failure_spec(relation),
            _ => false,
        }
    }

    /// What the job goes on with once the speed of the line is measured.
    pub open spec fn on_measured(self, measurement: MeasurementView) -> Seq<EffectView> {
        match self {
            JobView::Mention(unit, note) => unit.on_measured_spec(note, measurement),
            _ => Seq::empty(),
        }
    }
}

/// What `effect` is answered by.
pub open spec fn awaited_after(effect: EffectView) -> Awaited {
    match effect {
        EffectView::ShowUser(_) => Awaited::Relationship,
        EffectView::Measure => Awaited::Measurement,
        _ => Awaited::Completion,
    }
}

impl TaskView {
    /// The task ends: nothing is left of its script.
    pub open spec fn finish(self) -> (TaskView, EffectView) {
        (
            TaskView {
                stage: Stage::Finished,
                awaited: Awaited::Completion,
                script: Seq::empty(),
                ..self
            },
            EffectView::Finished,
        )
    }

    /// The task goes on with the first effect of its script, and ends where
    /// the script is empty.
    pub open spec fn proceed(self) -> (TaskView, EffectView) {
        if self.script.len() == 0 {
            self.finish()
        } else {
            (
                TaskView {
                    stage: Stage::Running,
                    awaited: awaited_after(self.script[0]),
                    script: self.script.drop_first(),
                    ..self
                },
                self.script[0],
            )
        }
    }

    /// What the task does on `outcome`: the task and the nicknames
    /// afterwards, and the next effect.
    ///
    /// A task that has not begun takes `Begin`, sets out on the script of
    /// its job and goes on with it. A task under way takes the outcome that
    /// answers its last effect: on `Completed` it goes on with its script;
    /// on `Relationship` and `Measured` it first puts what follows from the
    /// answer before the rest of the script. Where the job bears the failure
    /// of the first post after a `Relationship`, the task goes on with its
    /// script whether that post was written or not. Any other failure ends
    /// the task, and so does an outcome that does not answer the last
    /// effect. A task that has ended stays ended. Only the setting out
    /// changes the nicknames.
    pub open spec fn advance(
        self,
        outcome: OutcomeView,
        ctx: ContextView,
        nicknames: Map<Seq<char>, Seq<char>>,
        fortune: FortuneView,
    ) -> (TaskView, Map<Seq<char>, Seq<char>>, EffectView) {
        match (self.stage, self.awaited, outcome) {
            (Stage::Ready, _, OutcomeView::Begin) => {
                let (script, after) = self.job.opening(ctx, nicknames, fortune);
                let (task, effect) = (TaskView { script, ..self }).proceed();
                (task, after, effect)
            },
            (Stage::Running, Awaited::Completion, OutcomeView::Completed) => {
                let (task, effect) = self.proceed();
                (task, nicknames, effect)
            },
            (Stage::Running, Awaited::Attempt, OutcomeView::Completed) => {
                let (task, effect) = self.proceed();
                (task, nicknames, effect)
            },
            (Stage::Running, Awaited::Attempt, OutcomeView::Failed) => {
                let (task, effect) = self.proceed();
                (task, nicknames, effect)
            },
            (Stage::Running, Awaited::Relationship, OutcomeView::Relationship(relation)) => {
                let script = self.job.on_relationship(nicknames, relation) + self.script;
                let (task, effect) = (TaskView { script, ..self }).proceed();
                (
                    if self.job.bears_failure(relation) && task.stage == Stage::Running {
                        TaskView { awaited: Awaited::Attempt, ..task }
                    } else {
                        task
                    },
                    nicknames,
                    effect,
                )
            },
            (Stage::Running, Awaited::Measurement, OutcomeView::Measured(measurement)) => {
                let script = self.job.on_measured(measurement) + self.script;
                let (task, effect) = (TaskView { script, ..self }).proceed();
                (task, nicknames, effect)
            },
            _ => {
                let (task, effect) = self.finish();
                (task, nicknames, effect)
            },
        }
    }
}

impl Job {
    /// The lines among which the job's unit picks one.
    pub fn lines(&self) -> (lines: Vec<&'static str>)
        ensures
            parts_view(lines@) == self@.lines(),
    {
        match self {
            Job::Mention(unit, _) => unit.lines(),
            Job::Note(unit, _) => unit.lines(),
            _ => {
                let lines: Vec<&'static str> = Vec::new();
                assert(parts_view(lines@) =~= Seq::empty());
                lines
            },
        }
    }

    /// Whether the job's unit tells the time.
    pub fn wants_clock(&self) -> (wanted: bool)
        ensures
            wanted == self@.wants_clock(),
    {
        match self {
            Job::Mention(unit, _) => unit.wants_clock(),
            _ => false,
        }
    }

    /// What is set out to do for the job. Nicknames are stored in and
    /// removed from `store`.
    pub fn opening(&self, ctx: &Context, store: &mut SaveData, fortune: &Fortune) -> (script: Vec<
        Effect,
    >)
        ensures
            (script_view(script@), final(store)@) == self@.opening(ctx@, old(store)@, fortune@),
    {
        match self {
            Job::Idle => {
                let script: Vec<Effect> = Vec::new();
                assert(script_view(script@) =~= Seq::empty());
                script
            },
            Job::Welcome(user) => on_follow(user, ctx),
            Job::Mention(unit, note) => unit.opening(note, ctx, store, fortune),
            Job::Note(unit, note) => {
                let response = unit.respond(note, store, fortune.line.as_str());
                reply_with(note, response.as_str())
            },
        }
    }
}

impl Task {
    /// The answer of `job`, with nothing done yet.
    pub fn new(job: Job) -> (task: Task)
        ensures
            task@ == (TaskView {
                job: job@,
                stage: Stage::Ready,
                awaited: Awaited::Completion,
                script: Seq::empty(),
            }),
    {
        let task = Task {
            job,
            stage: Stage::Ready,
            awaited: Awaited::Completion,
            script: Vec::new(),
        };
        assert(script_view(task.script@) =~= Seq::empty());
        task
    }

    /// Whether nothing is left to do.
    pub fn is_finished(&self) -> (finished: bool)
        ensures
            finished == (self@.stage == Stage::Finished),
    {
        self.stage == Stage::Finished
    }

    fn finish(&mut self) -> (effect: Effect)
        ensures
            (final(self)@, effect@) == old(self)@.finish(),
    {
        self.stage = Stage::Finished;
        self.awaited = Awaited::Completion;
        self.script = Vec::new();
        assert(script_view(self.script@) =~= Seq::empty());
        Effect::Finished
    }

    fn proceed(&mut self) -> (effect: Effect)
        ensures
            (final(self)@, effect@) == old(self)@.proceed(),
    {
        if self.script.len() == 0 {
            assert(script_view(self.script@).len() == 0);
            self.finish()
        } else {
            let ghost before = script_view(self.script@);
            let effect = self.script.remove(0);
            assert(effect@ == before[0]);
            assert(script_view(self.script@) =~= before.drop_first());
            self.stage = Stage::Running;
            self.awaited = match &effect {
                Effect::ShowUser(_) => Awaited::Relationship,
                Effect::Measure => Awaited::Measurement,
                _ => Awaited::Completion,
            };
            effect
        }
    }

    /// Puts `first` before the rest of the script.
    fn put_before(&mut self, first: Vec<Effect>)
        ensures
            final(self)@ == (TaskView {
                script: script_view(first@) + old(self)@.script,
                ..old(self)@
            }),
    {
        let mut script = first;
        let ghost head = script_view(script@);
        let ghost tail = script_view(self.script@);
        script.append(&mut self.script);
        assert(script_view(script@) =~= head + tail);
        self.script = script;
    }

    /// Takes what became of the last effect and gives the next one, with
    /// `fortune` as what chance and the clock gave.
    pub fn advance(
        &mut self,
        outcome: Outcome,
        ctx: &Context,
        store: &mut SaveData,
        fortune: &Fortune,
    ) -> (effect: Effect)
        ensures
            (final(self)@, final(store)@, effect@) == old(self)@.advance(
                outcome@,
                ctx@,
                old(store)@,
                fortune@,
            ),
    {
        match (self.stage, self.awaited, outcome) {
            (Stage::Ready, _, Outcome::Begin) => {
                let script = self.job.opening(ctx, store, fortune);
                self.script = script;
                self.proceed()
            },
            (Stage::Running, Awaited::Completion, Outcome::Completed) => self.proceed(),
            (Stage::Running, Awaited::Attempt, Outcome::Completed) => self.proceed(),
            (Stage::Running, Awaited::Attempt, Outcome::Failed) => self.proceed(),
            (Stage::Running, Awaited::Relationship, Outcome::Relationship(relation)) => {
                let first = match &self.job {
                    Job::Mention(unit, note) => unit.on_relationship(note, store, relation),
                    _ => {
                        let none: Vec<Effect> = Vec::new();
                        assert(script_view(none@) =~= Seq::empty());
                        none
                    },
                };
                let borne = match &self.job {
                    Job::Mention(unit, _) => unit.bears_failure(relation),
                    _ => false,
                };
                self.put_before(first);
                let effect = self.proceed();
                if borne && self.stage == Stage::Running {
                    self.awaited = Awaited::Attempt;
                }
                effect
            },
            (Stage::Running, Awaited::Measurement, Outcome::Measured(measurement)) => {
                let first = match &self.job {
                    Job::Mention(unit, note) => unit.on_measured(note, &measurement),
                    _ => {
                        let none: Vec<Effect> = Vec::new();
                        assert(script_view(none@) =~= Seq::empty());
                        none
                    },
                };
                self.put_before(first);
                self.proceed()
            },
            _ => self.finish(),
        }
    }

    /// What chance and the clock give for the next step: for a task that has
    /// not begun a line and the time, as far as its unit wants them, and
    /// nothing for any other.
    pub fn draw(&self) -> (fortune: Fortune)
        ensures
            self@.stage == Stage::Ready ==> self@.job.admits(fortune@),
    {
        let midnight = TimeOfDay { hour: 0, minute: 0, second: 0 };
        if self.stage != Stage::Ready {
            return Fortune { line: String::new(), now: midnight };
        }
        let lines = self.job.lines();
        let line = match choose_line(&lines) {
            Some(line) => line.to_owned(),
            None => String::new(),
        };
        let now = if self.job.wants_clock() {
            local_time()
        } else {
            midnight
        };
        proof {
            if lines@.len() > 0 {
                let i = choose|i: int| 0 <= i < lines@.len() && lines@[i]@ == line@;
                assert(parts_view(lines@)[i] == line@);
            }
        }
        Fortune { line, now }
    }

    /// Takes what became of the last effect and gives the next one. Where
    /// the task sets out, chance picks the line and the clock is read.
    pub fn step(&mut self, outcome: Outcome, ctx: &Context, store: &mut SaveData) -> (effect: Effect)
        ensures
            exists|fortune: FortuneView|
                (old(self)@.stage == Stage::Ready ==> old(self)@.job.admits(fortune)) && (
                    final(self)@,
                    final(store)@,
                    effect@,
                ) == old(self)@.advance(outcome@, ctx@, old(store)@, fortune),
    {
        let fortune = self.draw();
        self.advance(outcome, ctx, store, &fortune)
    }
}

/// Where nobody answers, nothing is done: the task ends at its first step,
/// without an effect and without a change to the nicknames.
pub proof fn lemma_idle_task_does_nothing(
    task: TaskView,
    outcome: OutcomeView,
    ctx: ContextView,
    nicknames: Map<Seq<char>, Seq<char>>,
    fortune: FortuneView,
)
    requires
        task.job == JobView::Idle,
        task.stage == Stage::Ready,
    ensures
        task.advance(outcome, ctx, nicknames, fortune).2 == EffectView::Finished,
        task.advance(outcome, ctx, nicknames, fortune).1 == nicknames,
        task.advance(outcome, ctx, nicknames, fortune).0.stage == Stage::Finished,
{
}

/// A failure ends the answer at once, whatever was left to do, unless the
/// task is under way with a post whose failure it bears. A task that has
/// ended stays ended. No effect follows, and the nicknames stay as they are.
pub proof fn lemma_failure_ends_the_task(
    task: TaskView,
    outcome: OutcomeView,
    ctx: ContextView,
    nicknames: Map<Seq<char>, Seq<char>>,
    fortune: FortuneView,
)
    requires
        task.stage == Stage::Finished || (outcome == OutcomeView::Failed && !(task.stage
            == Stage::Running && task.awaited == Awaited::Attempt)),
    ensures
        task.advance(outcome, ctx, nicknames, fortune).2 == EffectView::Finished,
        task.advance(outcome, ctx, nicknames, fortune).1 == nicknames,
        task.advance(outcome, ctx, nicknames, fortune).0.stage == Stage::Finished,
        task.advance(outcome, ctx, nicknames, fortune).0.script.len() == 0,
{
}

/// A task bears a failure only for the farewell of `UnFollow`: it comes to
/// await an attempt only on the answer that the bot follows the author,
/// given to a job of that unit.
pub proof fn lemma_only_the_farewell_may_fail(
    task: TaskView,
    outcome: OutcomeView,
    ctx: ContextView,
    nicknames: Map<Seq<char>, Seq<char>>,
    fortune: FortuneView,
)
    requires
        task.awaited != Awaited::Attempt,
        task.advance(outcome, ctx, nicknames, fortune).0.awaited == Awaited::Attempt,
    ensures
        task.job matches JobView::Mention(unit, _) && unit == MentionUnit::UnFollow,
        outcome matches OutcomeView::Relationship(relation) && relation.is_following,
        task.stage == Stage::Running && task.awaited == Awaited::Relationship,
{
}

/// The unfollow does not hang on the farewell. Where the bot follows the
/// author, `UnFollow` asks for the relationship, says farewell, and then,
/// whether the farewell was posted or failed, waits `DELAY_SECONDS` and
/// stops following the author, once; after that the task is at its end.
pub proof fn lemma_unfollow_does_not_hang_on_the_farewell(
    note: NoteView,
    ctx: ContextView,
    nicknames: Map<Seq<char>, Seq<char>>,
    fortune: FortuneView,
    relation: UserDetailed,
    farewell: OutcomeView,
    last: OutcomeView,
)
    requires
        relation.is_following,
        farewell == OutcomeView::Completed || farewell == OutcomeView::Failed,
        last == OutcomeView::Completed || last == OutcomeView::Failed,
    ensures
        ({
            let ready = TaskView {
                job: JobView::Mention(MentionUnit::UnFollow, note),
                stage: Stage::Ready,
                awaited: Awaited::Completion,
                script: Seq::empty(),
            };
            let (asking, n0, asked) = ready.advance(OutcomeView::Begin, ctx, nicknames, fortune);
            let (parting, n1, said) = asking.advance(
                OutcomeView::Relationship(relation),
                ctx,
                n0,
                fortune,
            );
            let (waiting, n2, wait) = parting.advance(farewell, ctx, n1, fortune);
            let (leaving, n3, leave) = waiting.advance(OutcomeView::Completed, ctx, n2, fortune);
            let (done, n4, end) = leaving.advance(last, ctx, n3, fortune);
            &&& asked == EffectView::ShowUser(ShowUser::for_user(note.user_id))
            &&& said == EffectView::CreateNote(note.reply(farewell_text(note.user.mention())))
            &&& wait == EffectView::Sleep(DELAY_SECONDS)
            &&& leave == EffectView::DeleteFollowing(note.user_id)
            &&& end == EffectView::Finished
            &&& done.stage == Stage::Finished
            &&& n4 == nicknames
        }),
{
    let ready = TaskView {
        job: JobView::Mention(MentionUnit::UnFollow, note),
        stage: Stage::Ready,
        awaited: Awaited::Completion,
        script: Seq::empty(),
    };
    let opening = seq![EffectView::ShowUser(ShowUser::for_user(note.user_id))];
    assert(ready.job.opening(ctx, nicknames, fortune).0 == opening);
    assert(opening.drop_first() =~= Seq::empty());
    let (asking, n0, asked) = ready.advance(OutcomeView::Begin, ctx, nicknames, fortune);
    assert(asking.script.len() == 0);
    let steps = HandleUnFollow::action_spec(note, relation);
    assert(steps + asking.script =~= steps);
    let rest = seq![EffectView::Sleep(DELAY_SECONDS), EffectView::DeleteFollowing(note.user_id)];
    assert(steps.drop_first() =~= rest);
    let (parting, n1, said) = asking.advance(OutcomeView::Relationship(relation), ctx, n0, fortune);
    assert(parting.script == rest);
    assert(parting.awaited == Awaited::Attempt);
    let (waiting, n2, wait) = parting.advance(farewell, ctx, n1, fortune);
    assert(rest.drop_first() =~= seq![EffectView::DeleteFollowing(note.user_id)]);
    let (leaving, n3, leave) = waiting.advance(OutcomeView::Completed, ctx, n2, fortune);
    assert(seq![EffectView::DeleteFollowing(note.user_id)].drop_first() =~= Seq::empty());
    assert(leaving.script.len() == 0);
}

} // verus!
