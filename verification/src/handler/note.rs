//! The units that answer posts on the home timeline, in the order in which
//! they are asked.

use crate::chance::Draws;
use crate::handler::{any_keyword, first_match, first_open, phrase_gate_spec};
use crate::handler::{Context, ContextView, Handler};
use crate::misskey::notes::{Note, NoteView};
use crate::savedata::{display_name, SaveData};
use crate::text::{chars_of, contains, contains_phrase, ends_with_phrase, has_text, same_text};
use crate::text::{parts_view, trimmed_end, trimmed_ends_with};
use vstd::prelude::*;
use vstd::string::*;

verus! {

/// A phrase that `Pain` listens for.
pub const PAIN_PHRASE_A: &'static str = "つらい";

/// A phrase that `Pain` listens for.
pub const PAIN_PHRASE_B: &'static str = "つらすぎ";

/// What `Pain` answers.
pub const PAIN_REPLY: &'static str = "つらいときは、甘えてもいいんだよ？";

/// A phrase that `Tired` listens for.
pub const TIRED_PHRASE_A: &'static str = "疲れた";

/// A phrase that `Tired` listens for.
pub const TIRED_PHRASE_B: &'static str = "つかれた";

/// A phrase that `Tired` listens for.
pub const TIRED_PHRASE_C: &'static str = "疲れてる";

/// A phrase that `Tired` listens for.
pub const TIRED_PHRASE_D: &'static str = "つかれてる";

/// A phrase that `Tired` listens for.
pub const TIRED_PHRASE_E: &'static str = "疲れている";

/// A phrase that `Tired` listens for.
pub const TIRED_PHRASE_F: &'static str = "つかれている";

/// What `Tired` answers.
pub const TIRED_REPLY: &'static str = "ひとやすみ、する？ それとも、わたしが癒してあげよっか？";

/// A phrase that `GoWork` listens for.
pub const GO_WORK_PHRASE: &'static str = "出勤";

/// One of the lines of `GoWork`.
pub const GO_WORK_LINE_A: &'static str = "お仕事、頑張ってきてね。わたし、帰ってくるの、待ってるから……";

/// One of the lines of `GoWork`.
pub const GO_WORK_LINE_B: &'static str = "お仕事は大事だけど、あんまり無理はしないでね？";

/// One of the lines of `GoWork`.
pub const GO_WORK_LINE_C: &'static str = "お仕事とわたし、どっちが大事なんだろう……。まぁ、わたしにはロイちゃんがいるから、いい……のかな？\n……あっ、ち、違う！ これは違くて…！ なんでもないから……！";

/// A phrase that `LeaveWork` listens for.
pub const LEAVE_WORK_PHRASE: &'static str = "退勤";

/// What `LeaveWork` answers.
pub const LEAVE_WORK_REPLY: &'static str = "お仕事終わったの？ お疲れさま～。 ……わたしの癒し、必要かな？ 必要なら、いつでも言ってね";

/// A phrase that `Nullpo` listens for.
pub const NULLPO_PHRASE: &'static str = "ぬるぽ";

/// What `Nullpo` answers.
pub const NULLPO_REPLY: &'static str = "ガッ";

/// A phrase that `Call` listens for.
pub const CALL_PHRASE: &'static str = "さんごちゃん";

/// A phrase that `Sleepy` listens for.
pub const SLEEPY_PHRASE_A: &'static str = "眠い";

/// A phrase that `Sleepy` listens for.
pub const SLEEPY_PHRASE_B: &'static str = "眠たい";

/// A phrase that `Sleepy` listens for.
pub const SLEEPY_PHRASE_C: &'static str = "ねむ";

/// What `Sleepy` answers.
pub const SLEEPY_REPLY: &'static str = "なるほど、眠いんだね。……我慢はよくないよ？ 欲には素直にならないと";

/// A phrase that `GoodMorning` listens for.
pub const GOOD_MORNING_PHRASE: &'static str = "おはよ";

/// One of the lines of `GoodMorning`.
pub const GOOD_MORNING_LINE_A: &'static str = "よく眠れたよ～。元気いーっぱい";

/// One of the lines of `GoodMorning`.
pub const GOOD_MORNING_LINE_B: &'static str = "あんまり寝れなかったかな……。まぁ、なんとかなるでしょ～";

/// A phrase that `GoodNight` listens for.
pub const GOOD_NIGHT_PHRASE: &'static str = "おやすみ";

/// One of the lines of `GoodNight`.
pub const GOOD_NIGHT_LINE_A: &'static str = "また朝に会おうね、おやすみ";

/// One of the lines of `GoodNight`.
pub const GOOD_NIGHT_LINE_B: &'static str = "おやすみって言ったんだから、夜更かししようなんて考えないでね？";

/// One of the lines of `GoodNight`.
pub const GOOD_NIGHT_LINE_C: &'static str = "寝ちゃうんだ……。ふーん……";

/// A phrase that `LateMorning` listens for.
pub const LATE_MORNING_PHRASE: &'static str = "おそよ";

/// What `LateMorning` answers.
pub const LATE_MORNING_REPLY: &'static str = "遅いよ、ねぼすけさん。なんで寝坊したのか、ちゃんと説明して？";

/// A phrase that `Meow` listens for.
pub const MEOW_PHRASE: &'static str = "にゃーん";

/// What `Meow` answers.
pub const MEOW_REPLY: &'static str = "にゃーん。……えへへ、わたしも混ぜて？";

/// A phrase that `SleepAgain` listens for.
pub const SLEEP_AGAIN_PHRASE: &'static str = "二度寝";

/// One of the lines of `SleepAgain`.
pub const SLEEP_AGAIN_LINE_A: &'static str = "二度寝をするのは悪いことではないけど、ほどほどにしておいてね？";

/// One of the lines of `SleepAgain`.
pub const SLEEP_AGAIN_LINE_B: &'static str = "30分後にアラームを設定。……よし、準備おっけー。じゃあ、わたしも二度寝しちゃおうかな……";

/// The stem that `Sleepy` looks at twice.
pub const SLEEPY_STEM: &'static str = "ねむ";

/// What turns the stem of `Sleepy` into its opposite.
pub const SLEEPY_DENIAL: &'static str = "くない";

/// What makes a good night none.
pub const GOOD_NIGHT_EXCEPTION: &'static str = "すきー";

/// How `GoodMorning` starts, before its line.
pub const GOOD_MORNING_OPENING: &'static str = "おはよ、よく眠れた？ わたしは";

/// How `Call` starts, before the name.
pub const CALL_OPENING: &'static str = "呼んだ？ ";

/// What follows a name.
pub const HONORIFIC: &'static str = "さん";

/// A unit of the chain for posts on the home timeline.
#[derive(Clone, Copy, Debug, PartialEq, Eq, Structural)]
pub enum NoteUnit {
    /// Comfort for someone who has a hard time.
    Pain,
    /// An offer of rest for someone who is tired.
    Tired,
    /// A send-off for someone who goes to work.
    GoWork,
    /// A welcome for someone who comes from work.
    LeaveWork,
    /// The classic answer to a null pointer, now and then.
    Nullpo,
    /// An answer to being called by name, now and then.
    Call,
    /// Advice for someone who is sleepy.
    Sleepy,
    /// A good morning.
    GoodMorning,
    /// A good night.
    GoodNight,
    /// A reproach for someone who overslept.
    LateMorning,
    /// A meow back, now and then.
    Meow,
    /// A word on going back to sleep.
    SleepAgain,
}

impl NoteUnit {
    /// The units in the order in which they are asked.
    pub open spec fn order() -> Seq<NoteUnit> {
        seq![
            NoteUnit::Pain,
            NoteUnit::Tired,
            NoteUnit::GoWork,
            NoteUnit::LeaveWork,
            NoteUnit::Nullpo,
            NoteUnit::Call,
            NoteUnit::Sleepy,
            NoteUnit::GoodMorning,
            NoteUnit::GoodNight,
            NoteUnit::LateMorning,
            NoteUnit::Meow,
            NoteUnit::SleepAgain,
        ]
    }

    /// The units in the order in which they are asked.
    pub fn chain() -> (chain: Vec<NoteUnit>)
        ensures
            chain@ == Self::order(),
    {
        let chain = vec![
            NoteUnit::Pain,
            NoteUnit::Tired,
            NoteUnit::GoWork,
            NoteUnit::LeaveWork,
            NoteUnit::Nullpo,
            NoteUnit::Call,
            NoteUnit::Sleepy,
            NoteUnit::GoodMorning,
            NoteUnit::GoodNight,
            NoteUnit::LateMorning,
            NoteUnit::Meow,
            NoteUnit::SleepAgain,
        ];
        assert(chain@ =~= Self::order());
        chain
    }

    /// The lines among which the unit picks one, for a unit that has
    /// several.
    pub open spec fn lines_spec(self) -> Seq<Seq<char>> {
        match self {
            NoteUnit::GoWork => seq![GO_WORK_LINE_A@, GO_WORK_LINE_B@, GO_WORK_LINE_C@],
            NoteUnit::GoodMorning => seq![GOOD_MORNING_LINE_A@, GOOD_MORNING_LINE_B@],
            NoteUnit::GoodNight => seq![GOOD_NIGHT_LINE_A@, GOOD_NIGHT_LINE_B@, GOOD_NIGHT_LINE_C@],
            NoteUnit::SleepAgain => seq![SLEEP_AGAIN_LINE_A@, SLEEP_AGAIN_LINE_B@],
            _ => Seq::empty(),
        }
    }

    /// The lines among which the unit picks one.
    pub fn lines(&self) -> (lines: Vec<&'static str>)
        ensures
            parts_view(lines@) == self.lines_spec(),
    {
        let lines = match self {
            NoteUnit::GoWork => vec![GO_WORK_LINE_A, GO_WORK_LINE_B, GO_WORK_LINE_C],
            NoteUnit::GoodMorning => vec![GOOD_MORNING_LINE_A, GOOD_MORNING_LINE_B],
            NoteUnit::GoodNight => vec![GOOD_NIGHT_LINE_A, GOOD_NIGHT_LINE_B, GOOD_NIGHT_LINE_C],
            NoteUnit::SleepAgain => vec![SLEEP_AGAIN_LINE_A, SLEEP_AGAIN_LINE_B],
            _ => Vec::new(),
        };
        assert(parts_view(lines@) =~= self.lines_spec());
        lines
    }

    /// What the unit says to `note`, where `line` is the line it picked and
    /// `nicknames` holds the nicknames that are known.
    pub open spec fn response_spec(
        self,
        note: NoteView,
        nicknames: Map<Seq<char>, Seq<char>>,
        line: Seq<char>,
    ) -> Seq<char> {
        match self {
            NoteUnit::Pain => PAIN_REPLY@,
            NoteUnit::Tired => TIRED_REPLY@,
            NoteUnit::GoWork => line,
            NoteUnit::LeaveWork => LEAVE_WORK_REPLY@,
            NoteUnit::Nullpo => NULLPO_REPLY@,
            NoteUnit::Call => CALL_OPENING@ + display_name(nicknames, note.user) + HONORIFIC@,
            NoteUnit::Sleepy => SLEEPY_REPLY@,
            NoteUnit::GoodMorning => GOOD_MORNING_OPENING@ + line,
            NoteUnit::GoodNight => line,
            NoteUnit::LateMorning => LATE_MORNING_REPLY@,
            NoteUnit::Meow => MEOW_REPLY@,
            NoteUnit::SleepAgain => line,
        }
    }

    /// What the unit says to `note`, with `line` as the line it picked.
    pub fn respond(&self, note: &Note, store: &SaveData, line: &str) -> (response: String)
        ensures
            response@ == self.response_spec(note@, store@, line@),
    {
        match self {
            NoteUnit::Pain => PAIN_REPLY.to_owned(),
            NoteUnit::Tired => TIRED_REPLY.to_owned(),
            NoteUnit::GoWork => line.to_owned(),
            NoteUnit::LeaveWork => LEAVE_WORK_REPLY.to_owned(),
            NoteUnit::Nullpo => NULLPO_REPLY.to_owned(),
            NoteUnit::Call => {
                let name = store.get_displayname(&note.user);
                let mut response = CALL_OPENING.to_owned();
                response.append(name.as_str());
                response.append(HONORIFIC);
                response
            },
            NoteUnit::Sleepy => SLEEPY_REPLY.to_owned(),
            NoteUnit::GoodMorning => {
                let mut response = GOOD_MORNING_OPENING.to_owned();
                response.append(line);
                response
            },
            NoteUnit::GoodNight => line.to_owned(),
            NoteUnit::LateMorning => LATE_MORNING_REPLY.to_owned(),
            NoteUnit::Meow => MEOW_REPLY.to_owned(),
            NoteUnit::SleepAgain => line.to_owned(),
        }
    }
}

impl Handler for NoteUnit {
    open spec fn keywords_spec(&self) -> Seq<Seq<char>> {
        match self {
            NoteUnit::Pain => seq![PAIN_PHRASE_A@, PAIN_PHRASE_B@],
            NoteUnit::Tired => seq![
                TIRED_PHRASE_A@,
                TIRED_PHRASE_B@,
                TIRED_PHRASE_C@,
                TIRED_PHRASE_D@,
                TIRED_PHRASE_E@,
                TIRED_PHRASE_F@,
            ],
            NoteUnit::GoWork => seq![GO_WORK_PHRASE@],
            NoteUnit::LeaveWork => seq![LEAVE_WORK_PHRASE@],
            NoteUnit::Nullpo => seq![NULLPO_PHRASE@],
            NoteUnit::Call => seq![CALL_PHRASE@],
            NoteUnit::Sleepy => seq![SLEEPY_PHRASE_A@, SLEEPY_PHRASE_B@, SLEEPY_PHRASE_C@],
            NoteUnit::GoodMorning => seq![GOOD_MORNING_PHRASE@],
            NoteUnit::GoodNight => seq![GOOD_NIGHT_PHRASE@],
            NoteUnit::LateMorning => seq![LATE_MORNING_PHRASE@],
            NoteUnit::Meow => seq![MEOW_PHRASE@],
            NoteUnit::SleepAgain => seq![SLEEP_AGAIN_PHRASE@],
        }
    }

    /// `Nullpo`, `Call` and `Meow` ask their coin. `Call` wants something
    /// to follow the name. `Sleepy`, the greetings and `SleepAgain` answer
    /// only a post that starts a thread; `Sleepy` and `GoodNight` each have
    /// one exception more.
    open spec fn cond_spec(&self, note: NoteView, draws: Draws) -> bool {
        match self {
            NoteUnit::Nullpo => draws.nullpo,
            NoteUnit::Call => !ends_with_phrase(trimmed_end(note.text), CALL_PHRASE@) && draws.call,
            NoteUnit::Sleepy => if contains_phrase(note.text, SLEEPY_STEM@) {
                note.reply_id is None && !contains_phrase(note.text, SLEEPY_DENIAL@)
            } else {
                note.reply_id is None
            },
            NoteUnit::GoodMorning => note.reply_id is None,
            NoteUnit::GoodNight => note.reply_id is None && !contains_phrase(
                note.text,
                GOOD_NIGHT_EXCEPTION@,
            ),
            NoteUnit::LateMorning => note.reply_id is None,
            NoteUnit::Meow => note.reply_id is None && draws.meow,
            NoteUnit::SleepAgain => note.reply_id is None,
            _ => true,
        }
    }

    open spec fn gate_spec(&self, note: NoteView, ctx: ContextView, draws: Draws) -> bool {
        phrase_gate_spec(note.text, self.keywords_spec(), self.cond_spec(note, draws))
    }

    fn keywords(&self) -> (phrases: Vec<&'static str>) {
        let phrases = match self {
            NoteUnit::Pain => vec![PAIN_PHRASE_A, PAIN_PHRASE_B],
            NoteUnit::Tired => vec![
                TIRED_PHRASE_A,
                TIRED_PHRASE_B,
                TIRED_PHRASE_C,
                TIRED_PHRASE_D,
                TIRED_PHRASE_E,
                TIRED_PHRASE_F,
            ],
            NoteUnit::GoWork => vec![GO_WORK_PHRASE],
            NoteUnit::LeaveWork => vec![LEAVE_WORK_PHRASE],
            NoteUnit::Nullpo => vec![NULLPO_PHRASE],
            NoteUnit::Call => vec![CALL_PHRASE],
            NoteUnit::Sleepy => vec![SLEEPY_PHRASE_A, SLEEPY_PHRASE_B, SLEEPY_PHRASE_C],
            NoteUnit::GoodMorning => vec![GOOD_MORNING_PHRASE],
            NoteUnit::GoodNight => vec![GOOD_NIGHT_PHRASE],
            NoteUnit::LateMorning => vec![LATE_MORNING_PHRASE],
            NoteUnit::Meow => vec![MEOW_PHRASE],
            NoteUnit::SleepAgain => vec![SLEEP_AGAIN_PHRASE],
        };
        assert(parts_view(phrases@) =~= self.keywords_spec());
        phrases
    }

    fn cond(&self, note: &Note, draws: &Draws) -> (met: bool) {
        match self {
            NoteUnit::Nullpo => draws.nullpo,
            NoteUnit::Call => {
                let text = chars_of(note.text.as_str());
                let name = chars_of(CALL_PHRASE);
                !trimmed_ends_with(text.as_slice(), name.as_slice()) && draws.call
            },
            NoteUnit::Sleepy => {
                if contains(note.text.as_str(), SLEEPY_STEM) {
                    note.reply_id.is_none() && !contains(note.text.as_str(), SLEEPY_DENIAL)
                } else {
                    note.reply_id.is_none()
                }
            },
            NoteUnit::GoodMorning => note.reply_id.is_none(),
            NoteUnit::GoodNight => note.reply_id.is_none() && !contains(
                note.text.as_str(),
                GOOD_NIGHT_EXCEPTION,
            ),
            NoteUnit::LateMorning => note.reply_id.is_none(),
            NoteUnit::Meow => note.reply_id.is_none() && draws.meow,
            NoteUnit::SleepAgain => note.reply_id.is_none(),
            _ => true,
        }
    }

    fn gate(&self, note: &Note, ctx: &Context, draws: &Draws) -> (open: bool) {
        let phrases = self.keywords();
        any_keyword(note.text.as_str(), &phrases) && self.cond(note, draws)
    }
}

/// The chain for posts on the home timeline, as one unit.
#[derive(Clone, Copy, Debug, PartialEq, Eq, Structural)]
pub struct HandleNote;

/// The unit of the chain that answers a post on the home timeline, if the
/// post is let in and one of them does.
pub open spec fn note_choice(note: NoteView, ctx: ContextView, draws: Draws) -> Option<NoteUnit> {
    if HandleNote.gate_spec(note, ctx, draws) {
        match first_open(NoteUnit::order(), note, ctx, draws) {
            Some(i) => Some(NoteUnit::order()[i]),
            None => None,
        }
    } else {
        None
    }
}

impl Handler for HandleNote {
    open spec fn keywords_spec(&self) -> Seq<Seq<char>> {
        Seq::empty()
    }

    open spec fn cond_spec(&self, note: NoteView, draws: Draws) -> bool {
        true
    }

    /// A post is let in unless its author is flagged as automated or is the
    /// bot itself, or the post mentions the bot: such a post arrives once
    /// more as a mention, and is answered there.
    open spec fn gate_spec(&self, note: NoteView, ctx: ContextView, draws: Draws) -> bool {
        &&& !note.user.is_bot
        &&& note.user.id != ctx.self_id
        &&& !note.mentions.contains(ctx.self_id)
    }

    fn keywords(&self) -> (phrases: Vec<&'static str>) {
        let phrases: Vec<&'static str> = Vec::new();
        assert(parts_view(phrases@) =~= self.keywords_spec());
        phrases
    }

    fn cond(&self, note: &Note, draws: &Draws) -> (met: bool) {
        true
    }

    fn gate(&self, note: &Note, ctx: &Context, draws: &Draws) -> (open: bool) {
        !note.user.is_bot && !same_text(note.user.id.as_str(), ctx.self_id.as_str()) && !has_text(
            &note.mentions,
            ctx.self_id.as_str(),
        )
    }
}

impl HandleNote {
    /// The unit that answers `note`: none for a post that is not let in,
    /// else the first unit in the order of the chain whose gate is open.
    pub fn select(note: &Note, ctx: &Context, draws: &Draws) -> (unit: Option<NoteUnit>)
        ensures
            unit == note_choice(note@, ctx@, *draws),
    {
        if !HandleNote.gate(note, ctx, draws) {
            return None;
        }
        let chain = NoteUnit::chain();
        match first_match(&chain, note, ctx, draws) {
            Some(i) => Some(chain[i]),
            None => None,
        }
    }
}

} // verus!
