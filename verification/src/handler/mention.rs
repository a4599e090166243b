//! The units that answer posts which mention the bot, in the order in
//! which they are asked, and the course that each answer takes.

use crate::chance::Draws;
use crate::clock::TimeOfDay;
use crate::handler::{any_keyword, first_match, first_open, phrase_gate_spec};
use crate::handler::{reply_script, reply_with, script_view};
use crate::handler::{Context, ContextView, Effect, EffectView, Fortune, FortuneView, Handler};
use crate::handler::{Measurement, MeasurementView};
use crate::misskey::following::{CreateFollowing, DeleteFollowing};
use crate::misskey::notes::{CreateNote, CreateNoteView, Note, NoteView};
use crate::misskey::users::{ShowUser, UserDetailed, UserView};
use crate::nickname::{candidate, extract_nickname, sanitized, verdict};
use crate::nickname::{NicknameResult, NicknameVerdict, MAX_NICKNAME_LENGTH};
use crate::savedata::{display_name, SaveData};
use crate::text::{all_white_space, decimal, decimal_string, glue, glued, parts_view, same_text};
use vstd::prelude::*;

verus! {

/// A phrase that `Follow` listens for.
pub const FOLLOW_PHRASE: &'static str = "フォローして";

/// A phrase that `UnFollow` listens for.
pub const UN_FOLLOW_PHRASE: &'static str = "フォロー解除して";

/// A phrase that `AiScream1` listens for.
pub const AI_SCREAM1_PHRASE_A: &'static str = "さんごちゃーん";

/// A phrase that `AiScream1` listens for.
pub const AI_SCREAM1_PHRASE_B: &'static str = "さんごちゃ〜ん";

/// What `AiScream1` answers.
pub const AI_SCREAM1_REPLY: &'static str = "は〜い";

/// A phrase that `AiScream2` listens for.
pub const AI_SCREAM2_PHRASE: &'static str = "何が好き？";

/// What `AiScream2` answers.
pub const AI_SCREAM2_REPLY: &'static str = "チョココーヒー よりもあ・な・た♪";

/// A phrase that `Speedtest` listens for.
pub const SPEEDTEST_PHRASE: &'static str = "回線速度計測";

/// A phrase that `Todo` listens for.
pub const TODO_PHRASE: &'static str = "todo";

/// What `Todo` answers.
pub const TODO_REPLY: &'static str = "これやった？";

/// A phrase that `Meet` listens for.
pub const MEET_PHRASE: &'static str = "はじめまして";

/// What `Meet` answers.
pub const MEET_REPLY: &'static str = "はじめまして、わたしを見つけてくれてありがとう。これからよろしくね";

/// A phrase that `Hello` listens for.
pub const HELLO_PHRASE: &'static str = "こんにちは";

/// What `Hello` answers.
pub const HELLO_REPLY: &'static str = "こんにちは、どうしたの？";

/// A phrase that `Intro` listens for.
pub const INTRO_PHRASE_A: &'static str = "自己紹介";

/// A phrase that `Intro` listens for.
pub const INTRO_PHRASE_B: &'static str = "あなたは？";

/// What `Intro` answers.
pub const INTRO_REPLY: &'static str = "わたしは「3.5Mbps.net」の看板娘、さんご……のクローンです。……めんどうだから、わたしのことも「さんご」でいいよ。\nあなたのことも、教えて欲しいな";

/// A phrase that `Pat` listens for.
pub const PAT_PHRASE_A: &'static str = "よしよし";

/// A phrase that `Pat` listens for.
pub const PAT_PHRASE_B: &'static str = "なでなで";

/// What `Pat` answers.
pub const PAT_REPLY: &'static str = "わたしの頭なんか撫でて、楽しい？ えっと、あなたが喜んでくれるなら、いいんだけど……";

/// A phrase that `Meow` listens for.
pub const MEOW_PHRASE: &'static str = "にゃーん";

/// What `Meow` answers.
pub const MEOW_REPLY: &'static str = "にゃ〜ん";

/// A phrase that `Time` listens for.
pub const TIME_PHRASE_A: &'static str = "今何時";

/// A phrase that `Time` listens for.
pub const TIME_PHRASE_B: &'static str = "いまなんじ";

/// A phrase that `Insult` listens for.
pub const INSULT_PHRASE: &'static str = "罵って";

/// A phrase that `Chikuwa` listens for.
pub const CHIKUWA_PHRASE: &'static str = "ちくわ大明神";

/// What `Chikuwa` answers.
pub const CHIKUWA_REPLY: &'static str = "…なに？";

/// A phrase that `Ping` listens for.
pub const PING_PHRASE: &'static str = "ping";

/// What `Ping` answers.
pub const PING_REPLY: &'static str = "pong？";

/// A phrase that `SetNickname` listens for.
pub const SET_NICKNAME_PHRASE_A: &'static str = "って呼んで";

/// A phrase that `SetNickname` listens for.
pub const SET_NICKNAME_PHRASE_B: &'static str = "と呼んで";

/// A phrase that `ForgetNickname` listens for.
pub const FORGET_NICKNAME_PHRASE_A: &'static str = "呼び名を忘れて";

/// A phrase that `ForgetNickname` listens for.
pub const FORGET_NICKNAME_PHRASE_B: &'static str = "あだ名を消して";

/// What stands between a mention and a name.
pub const SPACE: &'static str = " ";

/// What `Follow` says behind the name of someone it follows already.
pub const FOLLOW_ALREADY: &'static str = "さん、もうフォローしてるよー";

/// What `Follow` says behind the mention of someone it follows back.
pub const FOLLOW_BACK_OPENING: &'static str = " フォローバックしたよ、";

/// What `Follow` says behind the name of someone it follows back.
pub const FOLLOW_BACK_CLOSING: &'static str = "さん。これからよろしくね";

/// What `Follow` says to someone who does not follow the bot.
pub const FOLLOW_STRANGER: &'static str = "……だれ？";

/// What `UnFollow` says behind the mention of someone it followed.
pub const UNFOLLOW_FAREWELL: &'static str = " さよなら、になっちゃうのかな……";

/// What `UnFollow` says behind the mention of someone it never followed.
pub const UNFOLLOW_NEVER: &'static str = " もともとフォローしてないよー";

/// What `AiScream2` posts a while after its answer.
pub const AI_SCREAM2_AFTERTHOUGHT: &'static str = "さっきのなに……？";

/// What `Speedtest` says to anyone but the administrator.
pub const SPEEDTEST_REFUSAL: &'static str = "この機能は使える人が限られてるんだ。ゴメンね";

/// What `Speedtest` says before it measures.
pub const SPEEDTEST_STARTING: &'static str = "了解。じゃあ計測してくるね";

/// What stands before the speed downwards.
pub const SPEEDTEST_RESULT_DOWN: &'static str = "計測かんりょー。下り";

/// What stands between the speed downwards and the speed upwards.
pub const SPEEDTEST_RESULT_UP: &'static str = "Mbps、上り";

/// What stands between the speed upwards and the latency.
pub const SPEEDTEST_RESULT_PING: &'static str = "Mbps、ping値";

/// What stands behind the latency.
pub const SPEEDTEST_RESULT_CLOSING: &'static str = "msだったよ。……これは速いって言えるのかな？";

/// What stands before the time.
pub const TIME_OPENING: &'static str = "いまは ";

/// What stands between hour, minute and second.
pub const TIME_SEPARATOR: &'static str = ":";

/// What stands behind the time.
pub const TIME_CLOSING: &'static str = " だよ。どうしたの……？ 時計を見る元気もない感じかな？";

/// One of the lines of `Insult`.
pub const INSULT_LINE_A: &'static str = "変なお願いをするもんだね……";

/// One of the lines of `Insult`.
pub const INSULT_LINE_B: &'static str = "えっと……、ど、どんな風に罵ってほしいとか、ある？";

/// What stands before the largest length of a nickname.
pub const NICKNAME_TOO_LONG_OPENING: &'static str = "えぇっと、その名前はちょっと長いかも……\n";

/// What stands behind the largest length of a nickname.
pub const NICKNAME_TOO_LONG_CLOSING: &'static str = "文字以内にしてほしいな";

/// What `SetNickname` says to a nickname that cannot be made safe.
pub const NICKNAME_INVALID: &'static str = "えぇっと、その名前はちょっと……だめかも……";

/// What stands before the name that the author is called by from now on.
pub const RENAMED_OPENING: &'static str = "わかった。これからは";

/// What stands between the two places of that name.
pub const RENAMED_MIDDLE: &'static str = "さんって呼ぶね\nこれからもよろしくね、";

/// What stands behind that name.
pub const RENAMED_CLOSING: &'static str = "さん";

/// What `ForgetNickname` says where no nickname is stored.
pub const NOTHING_TO_FORGET: &'static str = "もともと特別な呼び名は登録されていないみたいだよ";

/// How long `AiScream1` and `AiScream2` wait before they answer, in seconds.
pub const PAUSE_SECONDS: u64 = 1;

/// How long `AiScream2` waits for its afterthought and `UnFollow` before it
/// stops following, in seconds.
pub const DELAY_SECONDS: u64 = 10;

/// How long `Todo` waits before it asks, in seconds: three hours.
pub const TODO_SECONDS: u64 = 10800;

/// A unit of the chain for posts that mention the bot.
#[derive(Clone, Copy, Debug, PartialEq, Eq, Structural)]
pub enum MentionUnit {
    /// Follows back who asks for it.
    Follow,
    /// Stops following who asks for it.
    UnFollow,
    /// Answers a long-drawn call, after a moment.
    AiScream1,
    /// Sings a line, and wonders about it later.
    AiScream2,
    /// Measures the speed of the line for the administrator.
    Speedtest,
    /// Asks after a while whether it was done.
    Todo,
    /// Greets a new acquaintance.
    Meet,
    /// Says hello.
    Hello,
    /// Introduces itself.
    Intro,
    /// Lets itself be patted.
    Pat,
    /// Meows back.
    Meow,
    /// Tells the time.
    Time,
    /// Is asked for an insult.
    Insult,
    /// Does not know what to make of it.
    Chikuwa,
    /// Answers a ping.
    Ping,
    /// Takes a nickname for the author.
    SetNickname,
    /// Forgets the author's nickname.
    ForgetNickname,
}

/// What `Follow` says to someone it follows already.
pub open spec fn already_following_text(mention: Seq<char>, name: Seq<char>) -> Seq<char> {
    glued(seq![mention, SPACE@, name, FOLLOW_ALREADY@])
}

/// What `Follow` says to someone it has just followed back.
pub open spec fn followed_back_text(mention: Seq<char>, name: Seq<char>) -> Seq<char> {
    glued(seq![mention, FOLLOW_BACK_OPENING@, name, FOLLOW_BACK_CLOSING@])
}

/// What `UnFollow` says to someone it is about to stop following.
pub open spec fn farewell_text(mention: Seq<char>) -> Seq<char> {
    glued(seq![mention, UNFOLLOW_FAREWELL@])
}

/// What `UnFollow` says to someone it never followed.
pub open spec fn never_followed_text(mention: Seq<char>) -> Seq<char> {
    glued(seq![mention, UNFOLLOW_NEVER@])
}

/// What `Speedtest` says of a measurement.
pub open spec fn measured_text(measurement: MeasurementView) -> Seq<char> {
    glued(
        seq![
            SPEEDTEST_RESULT_DOWN@,
            measurement.down,
            SPEEDTEST_RESULT_UP@,
            measurement.up,
            SPEEDTEST_RESULT_PING@,
            measurement.ping,
            SPEEDTEST_RESULT_CLOSING@,
        ],
    )
}

/// What `Time` says at the time `now`: hour, minute and second in base ten
/// without leading zeros.
pub open spec fn time_text(now: TimeOfDay) -> Seq<char> {
    glued(
        seq![
            TIME_OPENING@,
            decimal(now.hour as nat),
            TIME_SEPARATOR@,
            decimal(now.minute as nat),
            TIME_SEPARATOR@,
            decimal(now.second as nat),
            TIME_CLOSING@,
        ],
    )
}

/// What `SetNickname` says to a nickname that is too long.
pub open spec fn too_long_text() -> Seq<char> {
    glued(
        seq![
            NICKNAME_TOO_LONG_OPENING@,
            decimal(MAX_NICKNAME_LENGTH as nat),
            NICKNAME_TOO_LONG_CLOSING@,
        ],
    )
}

/// What `SetNickname` and `ForgetNickname` say of the name that the author
/// is called by from now on.
pub open spec fn renamed_text(name: Seq<char>) -> Seq<char> {
    glued(seq![RENAMED_OPENING@, name, RENAMED_MIDDLE@, name, RENAMED_CLOSING@])
}

/// What a unit says, and whether the nicknames have to be written out
/// before it is said.
#[derive(Debug, PartialEq, Eq)]
pub struct Response {
    /// What is said; nothing is posted where it is empty.
    pub text: String,
    /// Whether the nicknames are written out first.
    pub persist: bool,
}

/// `Response` with the text as a sequence of characters.
pub struct ResponseView {
    pub text: Seq<char>,
    pub persist: bool,
}

impl View for Response {
    type V = ResponseView;

    open spec fn view(&self) -> ResponseView {
        ResponseView { text: self.text@, persist: self.persist }
    }
}

/// The script that gives `response` as an answer to `note`: the nicknames
/// are written out where the response asks for it, and then the text is
/// posted in the thread.
pub open spec fn announced(note: NoteView, response: ResponseView) -> Seq<EffectView> {
    if response.persist {
        seq![EffectView::Persist] + reply_script(note, response.text)
    } else {
        reply_script(note, response.text)
    }
}

/// The script that gives `response` as an answer to `note`.
pub fn announce(note: &Note, response: &Response) -> (script: Vec<Effect>)
    ensures
        script_view(script@) == announced(note@, response@),
{
    let mut tail = reply_with(note, response.text.as_str());
    if response.persist {
        let mut script = vec![Effect::Persist];
        script.append(&mut tail);
        assert(script_view(script@) =~= announced(note@, response@));
        script
    } else {
        tail
    }
}

/// The unit that follows back who asks for it.
#[derive(Clone, Copy, Debug, PartialEq, Eq, Structural)]
pub struct HandleFollow;

impl HandleFollow {
    /// The author is followed back: the bot does not follow the author yet,
    /// and the author follows the bot.
    pub open spec fn follows_back(relation: UserDetailed) -> bool {
        !relation.is_following && relation.is_followed
    }

    /// What the unit says: to someone it follows already, that it does, by
    /// the name the author is called by; to someone it follows back, that it
    /// did, by the display name or the user name; and that it does not know
    /// anyone else. The first two start with the author's mention tag.
    pub open spec fn respond_spec(
        note: NoteView,
        nicknames: Map<Seq<char>, Seq<char>>,
        relation: UserDetailed,
    ) -> Seq<char> {
        if relation.is_following {
            already_following_text(note.user.mention(), display_name(nicknames, note.user))
        } else if relation.is_followed {
            followed_back_text(note.user.mention(), note.user.plain_name())
        } else {
            FOLLOW_STRANGER@
        }
    }

    /// What the unit says to the author of `note`.
    pub fn respond(note: &Note, store: &SaveData, relation: UserDetailed) -> (response: String)
        ensures
            response@ == Self::respond_spec(note@, store@, relation),
    {
        if relation.is_following {
            let mention = note.user.mention();
            let name = store.get_displayname(&note.user);
            already_following_line(mention.as_str(), name.as_str())
        } else if relation.is_followed {
            let mention = note.user.mention();
            let name = note.user.plain_name();
            followed_back_line(mention.as_str(), name.as_str())
        } else {
            FOLLOW_STRANGER.to_owned()
        }
    }

    /// What the unit does once it knows what the bot and the author are to
    /// each other: it follows the author where the author is followed back,
    /// and then says what it has to say. It follows nobody else, and never
    /// stops following anyone.
    pub open spec fn action_spec(
        note: NoteView,
        nicknames: Map<Seq<char>, Seq<char>>,
        relation: UserDetailed,
    ) -> Seq<EffectView> {
        if Self::follows_back(relation) {
            seq![EffectView::CreateFollowing(note.user_id)] + reply_script(
                note,
                Self::respond_spec(note, nicknames, relation),
            )
        } else {
            reply_script(note, Self::respond_spec(note, nicknames, relation))
        }
    }

    /// What the unit does once it knows what the bot and the author are to
    /// each other.
    pub fn action(note: &Note, store: &SaveData, relation: UserDetailed) -> (script: Vec<Effect>)
        ensures
            script_view(script@) == Self::action_spec(note@, store@, relation),
    {
        let response = Self::respond(note, store, relation);
        let mut tail = reply_with(note, response.as_str());
        if !relation.is_following && relation.is_followed {
            let mut script = vec![
                Effect::CreateFollowing(CreateFollowing::new(note.user_id.as_str())),
            ];
            script.append(&mut tail);
            assert(script_view(script@) =~= Self::action_spec(note@, store@, relation));
            script
        } else {
            tail
        }
    }
}

/// The unit that stops following who asks for it.
#[derive(Clone, Copy, Debug, PartialEq, Eq, Structural)]
pub struct HandleUnFollow;

impl HandleUnFollow {
    /// Whether the unit goes on when its first post cannot be written: it
    /// does where it has to stop following, for that does not hang on the
    /// farewell.
    pub open spec fn goes_on_regardless(relation: UserDetailed) -> bool {
        relation.is_following
    }

    /// What the unit does once it knows what the bot and the author are to
    /// each other: where the bot follows the author it says farewell, waits
    /// `DELAY_SECONDS`, and stops following the author; to someone it never
    /// followed it only says so.
    pub open spec fn action_spec(note: NoteView, relation: UserDetailed) -> Seq<EffectView> {
        if relation.is_following {
            seq![
                EffectView::CreateNote(note.reply(farewell_text(note.user.mention()))),
                EffectView::Sleep(DELAY_SECONDS),
                EffectView::DeleteFollowing(note.user_id),
            ]
        } else {
            seq![EffectView::CreateNote(note.reply(never_followed_text(note.user.mention())))]
        }
    }

    /// What the unit does once it knows what the bot and the author are to
    /// each other.
    pub fn action(note: &Note, relation: UserDetailed) -> (script: Vec<Effect>)
        ensures
            script_view(script@) == Self::action_spec(note@, relation),
    {
        let mention = note.user.mention();
        let script = if relation.is_following {
            let text = farewell_line(mention.as_str());
            vec![
                Effect::CreateNote(note.reply(text.as_str())),
                Effect::Sleep(DELAY_SECONDS),
                Effect::DeleteFollowing(DeleteFollowing::new(note.user_id.as_str())),
            ]
        } else {
            let text = never_followed_line(mention.as_str());
            vec![Effect::CreateNote(note.reply(text.as_str()))]
        };
        assert(script_view(script@) =~= Self::action_spec(note@, relation));
        script
    }
}

/// The unit that takes a nickname for the author.
#[derive(Clone, Copy, Debug, PartialEq, Eq, Structural)]
pub struct HandleSetNickname;

impl HandleSetNickname {
    /// What the unit says: nothing to a post that asks for no nickname;
    /// that the name is too long, with the largest length, to a candidate of
    /// more than `MAX_NICKNAME_LENGTH` characters; that the name will not
    /// do to a candidate of which only white space is left; and else the
    /// name the author is called by from now on, in its safe form. Only in
    /// the last case the nicknames are written out.
    pub open spec fn respond_spec(note: NoteView) -> ResponseView {
        match verdict(candidate(note.text)) {
            NicknameVerdict::NotFound => ResponseView { text: Seq::empty(), persist: false },
            NicknameVerdict::TooLong => ResponseView { text: too_long_text(), persist: false },
            NicknameVerdict::Invalid => ResponseView { text: NICKNAME_INVALID@, persist: false },
            NicknameVerdict::Accepted(nick) => ResponseView {
                text: renamed_text(nick),
                persist: true,
            },
        }
    }

    /// The nicknames that are known afterwards: the safe form of an
    /// accepted candidate is stored under the id of the author, and nothing
    /// changes otherwise.
    pub open spec fn stored_spec(note: NoteView, nicknames: Map<Seq<char>, Seq<char>>) -> Map<
        Seq<char>,
        Seq<char>,
    > {
        match verdict(candidate(note.text)) {
            NicknameVerdict::Accepted(nick) => nicknames.insert(note.user_id, nick),
            _ => nicknames,
        }
    }

    /// Takes the nickname out of `note`, stores it in `store` where it is
    /// accepted, and says what the unit says.
    pub fn respond(note: &Note, store: &mut SaveData) -> (response: Response)
        ensures
            response@ == Self::respond_spec(note@),
            final(store)@ == Self::stored_spec(note@, old(store)@),
    {
        match extract_nickname(note.text.as_str()) {
            NicknameResult::NotFound => Response { text: String::new(), persist: false },
            NicknameResult::TooLong => Response { text: too_long_line(), persist: false },
            NicknameResult::Invalid => Response { text: NICKNAME_INVALID.to_owned(), persist: false },
            NicknameResult::Accepted(nick) => {
                store.store_nickname(note.user_id.as_str(), nick.as_str());
                Response { text: renamed(nick.as_str()), persist: true }
            },
        }
    }
}

/// The unit that forgets the author's nickname.
#[derive(Clone, Copy, Debug, PartialEq, Eq, Structural)]
pub struct HandleForgetNickname;

impl HandleForgetNickname {
    /// What the unit says: where a nickname was stored for the author, the
    /// name the author is called by from now on, which is the display name
    /// or the user name; and else that there was nothing to forget. The
    /// nicknames are written out either way.
    pub open spec fn respond_spec(note: NoteView, nicknames: Map<Seq<char>, Seq<char>>) -> ResponseView {
        ResponseView {
            text: if nicknames.contains_key(note.user_id) {
                renamed_text(note.user.plain_name())
            } else {
                NOTHING_TO_FORGET@
            },
            persist: true,
        }
    }

    /// The nicknames that are known afterwards: all but the author's.
    pub open spec fn stored_spec(note: NoteView, nicknames: Map<Seq<char>, Seq<char>>) -> Map<
        Seq<char>,
        Seq<char>,
    > {
        nicknames.remove(note.user_id)
    }

    /// Removes the nickname of the author of `note` from `store`, and says
    /// what the unit says.
    pub fn respond(note: &Note, store: &mut SaveData) -> (response: Response)
        ensures
            response@ == Self::respond_spec(note@, old(store)@),
            final(store)@ == Self::stored_spec(note@, old(store)@),
    {
        let removed = store.forget_nickname(note.user_id.as_str());
        let text = if removed {
            let name = note.user.plain_name();
            renamed(name.as_str())
        } else {
            NOTHING_TO_FORGET.to_owned()
        };
        Response { text, persist: true }
    }
}

impl MentionUnit {
    /// The units in the order in which they are asked.
    pub open spec fn order() -> Seq<MentionUnit> {
        seq![
            MentionUnit::Follow,
            MentionUnit::UnFollow,
            MentionUnit::AiScream1,
            MentionUnit::AiScream2,
            MentionUnit::Speedtest,
            MentionUnit::Todo,
            MentionUnit::Meet,
            MentionUnit::Hello,
            MentionUnit::Intro,
            MentionUnit::Pat,
            MentionUnit::Meow,
            MentionUnit::Time,
            MentionUnit::Insult,
            MentionUnit::Chikuwa,
            MentionUnit::Ping,
            MentionUnit::SetNickname,
            MentionUnit::ForgetNickname,
        ]
    }

    /// The units in the order in which they are asked.
    pub fn chain() -> (chain: Vec<MentionUnit>)
        ensures
            chain@ == Self::order(),
    {
        let chain = vec![
            MentionUnit::Follow,
            MentionUnit::UnFollow,
            MentionUnit::AiScream1,
            MentionUnit::AiScream2,
            MentionUnit::Speedtest,
            MentionUnit::Todo,
            MentionUnit::Meet,
            MentionUnit::Hello,
            MentionUnit::Intro,
            MentionUnit::Pat,
            MentionUnit::Meow,
            MentionUnit::Time,
            MentionUnit::Insult,
            MentionUnit::Chikuwa,
            MentionUnit::Ping,
            MentionUnit::SetNickname,
            MentionUnit::ForgetNickname,
        ];
        assert(chain@ =~= Self::order());
        chain
    }

    /// The lines among which the unit picks one, for a unit that has
    /// several.
    pub open spec fn lines_spec(self) -> Seq<Seq<char>> {
        match self {
            MentionUnit::Insult => seq![INSULT_LINE_A@, INSULT_LINE_B@],
            _ => Seq::empty(),
        }
    }

    /// The lines among which the unit picks one.
    pub fn lines(&self) -> (lines: Vec<&'static str>)
        ensures
            parts_view(lines@) == self.lines_spec(),
    {
        let lines = match self {
            MentionUnit::Insult => vec![INSULT_LINE_A, INSULT_LINE_B],
            _ => Vec::new(),
        };
        assert(parts_view(lines@) =~= self.lines_spec());
        lines
    }

    /// Whether the unit tells the time.
    pub open spec fn wants_clock_spec(self) -> bool {
        self == MentionUnit::Time
    }

    /// Whether the unit tells the time.
    pub fn wants_clock(&self) -> (wanted: bool)
        ensures
            wanted == self.wants_clock_spec(),
    {
        match self {
            MentionUnit::Time => true,
            _ => false,
        }
    }

    /// What the unit sets out to do for `note`, and the nicknames that are
    /// known afterwards.
    ///
    /// `Follow` and `UnFollow` first ask what the bot and the author are to
    /// each other. `AiScream1`, `AiScream2` and `Todo` wait before they
    /// speak. `Speedtest` turns away anyone but the administrator, and for
    /// the administrator announces the measurement and makes it.
    /// `SetNickname` says nothing to a post that asks for no nickname,
    /// turns down a candidate that is too long or cannot be made safe, and
    /// else stores the nickname, has it written out, and confirms it.
    /// `ForgetNickname` removes the nickname, has the store written out, and
    /// says what the author is called now. The other units answer in one
    /// post.
    pub open spec fn opening_spec(
        self,
        note: NoteView,
        ctx: ContextView,
        nicknames: Map<Seq<char>, Seq<char>>,
        fortune: FortuneView,
    ) -> (Seq<EffectView>, Map<Seq<char>, Seq<char>>) {
        match self {
            MentionUnit::Follow | MentionUnit::UnFollow => (
                seq![EffectView::ShowUser(ShowUser::for_user(note.user_id))],
                nicknames,
            ),
            MentionUnit::AiScream1 => (
                seq![EffectView::Sleep(PAUSE_SECONDS)] + reply_script(note, AI_SCREAM1_REPLY@),
                nicknames,
            ),
            MentionUnit::AiScream2 => (
                seq![
                    EffectView::Sleep(PAUSE_SECONDS),
                    EffectView::CreateNote(note.reply(AI_SCREAM2_REPLY@)),
                    EffectView::Sleep(DELAY_SECONDS),
                    EffectView::CreateNote(CreateNoteView::plain(AI_SCREAM2_AFTERTHOUGHT@)),
                ],
                nicknames,
            ),
            MentionUnit::Speedtest => if note.user_id != ctx.admin_id {
                (reply_script(note, SPEEDTEST_REFUSAL@), nicknames)
            } else {
                (
                    seq![
                        EffectView::CreateNote(note.reply(SPEEDTEST_STARTING@)),
                        EffectView::Measure,
                    ],
                    nicknames,
                )
            },
            MentionUnit::Todo => (
                seq![EffectView::Sleep(TODO_SECONDS)] + reply_script(note, TODO_REPLY@),
                nicknames,
            ),
            MentionUnit::Meet => (reply_script(note, MEET_REPLY@), nicknames),
            MentionUnit::Hello => (reply_script(note, HELLO_REPLY@), nicknames),
            MentionUnit::Intro => (reply_script(note, INTRO_REPLY@), nicknames),
            MentionUnit::Pat => (reply_script(note, PAT_REPLY@), nicknames),
            MentionUnit::Meow => (reply_script(note, MEOW_REPLY@), nicknames),
            MentionUnit::Chikuwa => (reply_script(note, CHIKUWA_REPLY@), nicknames),
            MentionUnit::Ping => (reply_script(note, PING_REPLY@), nicknames),
            MentionUnit::Time => (reply_script(note, time_text(fortune.now)), nicknames),
            MentionUnit::Insult => (reply_script(note, fortune.line), nicknames),
            MentionUnit::SetNickname => (
                announced(note, HandleSetNickname::respond_spec(note)),
                HandleSetNickname::stored_spec(note, nicknames),
            ),
            MentionUnit::ForgetNickname => (
                announced(note, HandleForgetNickname::respond_spec(note, nicknames)),
                HandleForgetNickname::stored_spec(note, nicknames),
            ),
        }
    }

    /// What the unit sets out to do for `note`. Nicknames are stored in and
    /// removed from `store`.
    pub fn opening(&self, note: &Note, ctx: &Context, store: &mut SaveData, fortune: &Fortune) -> (script:
        Vec<Effect>)
        ensures
            (script_view(script@), final(store)@) == self.opening_spec(
                note@,
                ctx@,
                old(store)@,
                fortune@,
            ),
    {
        let ghost expected = self.opening_spec(note@, ctx@, old(store)@, fortune@).0;
        let script = match self {
            MentionUnit::Follow | MentionUnit::UnFollow => {
                vec![Effect::ShowUser(ShowUser::by_user_id(note.user_id.as_str()))]
            },
            MentionUnit::AiScream1 => {
                let mut script = vec![Effect::Sleep(PAUSE_SECONDS)];
                let mut tail = reply_with(note, AI_SCREAM1_REPLY);
                script.append(&mut tail);
                script
            },
            MentionUnit::AiScream2 => {
                vec![
                    Effect::Sleep(PAUSE_SECONDS),
                    Effect::CreateNote(note.reply(AI_SCREAM2_REPLY)),
                    Effect::Sleep(DELAY_SECONDS),
                    Effect::CreateNote(CreateNote::new(AI_SCREAM2_AFTERTHOUGHT)),
                ]
            },
            MentionUnit::Speedtest => {
                if !same_text(note.user_id.as_str(), ctx.admin_id.as_str()) {
                    reply_with(note, SPEEDTEST_REFUSAL)
                } else {
                    vec![Effect::CreateNote(note.reply(SPEEDTEST_STARTING)), Effect::Measure]
                }
            },
            MentionUnit::Todo => {
                let mut script = vec![Effect::Sleep(TODO_SECONDS)];
                let mut tail = reply_with(note, TODO_REPLY);
                script.append(&mut tail);
                script
            },
            MentionUnit::Meet => reply_with(note, MEET_REPLY),
            MentionUnit::Hello => reply_with(note, HELLO_REPLY),
            MentionUnit::Intro => reply_with(note, INTRO_REPLY),
            MentionUnit::Pat => reply_with(note, PAT_REPLY),
            MentionUnit::Meow => reply_with(note, MEOW_REPLY),
            MentionUnit::Chikuwa => reply_with(note, CHIKUWA_REPLY),
            MentionUnit::Ping => reply_with(note, PING_REPLY),
            MentionUnit::Time => {
                let text = time_line(fortune.now);
                reply_with(note, text.as_str())
            },
            MentionUnit::Insult => reply_with(note, fortune.line.as_str()),
            MentionUnit::SetNickname => {
                let response = HandleSetNickname::respond(note, store);
                announce(note, &response)
            },
            MentionUnit::ForgetNickname => {
                let response = HandleForgetNickname::respond(note, store);
                announce(note, &response)
            },
        };
        assert(script_view(script@) =~= expected);
        script
    }

    /// What the unit goes on to do once it knows what the bot and the
    /// author are to each other.
    ///
    /// `Follow` and `UnFollow` do what `HandleFollow` and `HandleUnFollow`
    /// say. No other unit asks.
    pub open spec fn on_relationship_spec(
        self,
        note: NoteView,
        nicknames: Map<Seq<char>, Seq<char>>,
        relation: UserDetailed,
    ) -> Seq<EffectView> {
        match self {
            MentionUnit::Follow => HandleFollow::action_spec(note, nicknames, relation),
            MentionUnit::UnFollow => HandleUnFollow::action_spec(note, relation),
            _ => Seq::empty(),
        }
    }

    /// What the unit goes on to do once it knows what the bot and the
    /// author are to each other.
    pub fn on_relationship(&self, note: &Note, store: &SaveData, relation: UserDetailed) -> (script:
        Vec<Effect>)
        ensures
            script_view(script@) == self.on_relationship_spec(note@, store@, relation),
    {
        let ghost expected = self.on_relationship_spec(note@, store@, relation);
        let script = match self {
            MentionUnit::Follow => HandleFollow::action(note, store, relation),
            MentionUnit::UnFollow => HandleUnFollow::action(note, relation),
            _ => Vec::new(),
        };
        assert(script_view(script@) =~= expected);
        script
    }

    /// Whether the unit goes on with its script when the first post after
    /// the answer cannot be written. Only `UnFollow` does, where it has to
    /// stop following.
    pub open spec fn bears_failure_spec(self, relation: UserDetailed) -> bool {
        self == MentionUnit::UnFollow && HandleUnFollow::goes_on_regardless(relation)
    }

    /// Whether the unit goes on with its script when the first post after
    /// the answer cannot be written.
    pub fn bears_failure(&self, relation: UserDetailed) -> (borne: bool)
        ensures
            borne == self.bears_failure_spec(relation),
    {
        match self {
            MentionUnit::UnFollow => relation.is_following,
            _ => false,
        }
    }

    /// What the unit goes on to do once the speed of the line is measured:
    /// `Speedtest` reports it, and no other unit measures.
    pub open spec fn on_measured_spec(self, note: NoteView, measurement: MeasurementView) -> Seq<
        EffectView,
    > {
        match self {
            MentionUnit::Speedtest => reply_script(note, measured_text(measurement)),
            _ => Seq::empty(),
        }
    }

    /// What the unit goes on to do once the speed of the line is measured.
    pub fn on_measured(&self, note: &Note, measurement: &Measurement) -> (script: Vec<Effect>)
        ensures
            script_view(script@) == self.on_measured_spec(note@, measurement@),
    {
        let ghost expected = self.on_measured_spec(note@, measurement@);
        let script = match self {
            MentionUnit::Speedtest => {
                let text = measured_line(measurement);
                reply_with(note, text.as_str())
            },
            _ => Vec::new(),
        };
        assert(script_view(script@) =~= expected);
        script
    }
}

/// The text of `already_following_text`.
fn already_following_line(mention: &str, name: &str) -> (text: String)
    ensures
        text@ == already_following_text(mention@, name@),
{
    let parts = vec![mention, SPACE, name, FOLLOW_ALREADY];
    assert(parts_view(parts@) =~= seq![mention@, SPACE@, name@, FOLLOW_ALREADY@]);
    glue(&parts)
}

/// The text of `followed_back_text`.
fn followed_back_line(mention: &str, name: &str) -> (text: String)
    ensures
        text@ == followed_back_text(mention@, name@),
{
    let parts = vec![mention, FOLLOW_BACK_OPENING, name, FOLLOW_BACK_CLOSING];
    assert(parts_view(parts@) =~= seq![
        mention@,
        FOLLOW_BACK_OPENING@,
        name@,
        FOLLOW_BACK_CLOSING@,
    ]);
    glue(&parts)
}

/// The text of `farewell_text`.
fn farewell_line(mention: &str) -> (text: String)
    ensures
        text@ == farewell_text(mention@),
{
    let parts = vec![mention, UNFOLLOW_FAREWELL];
    assert(parts_view(parts@) =~= seq![mention@, UNFOLLOW_FAREWELL@]);
    glue(&parts)
}

/// The text of `never_followed_text`.
fn never_followed_line(mention: &str) -> (text: String)
    ensures
        text@ == never_followed_text(mention@),
{
    let parts = vec![mention, UNFOLLOW_NEVER];
    assert(parts_view(parts@) =~= seq![mention@, UNFOLLOW_NEVER@]);
    glue(&parts)
}

/// The text of `measured_text`.
fn measured_line(measurement: &Measurement) -> (text: String)
    ensures
        text@ == measured_text(measurement@),
{
    let parts = vec![
        SPEEDTEST_RESULT_DOWN,
        measurement.down.as_str(),
        SPEEDTEST_RESULT_UP,
        measurement.up.as_str(),
        SPEEDTEST_RESULT_PING,
        measurement.ping.as_str(),
        SPEEDTEST_RESULT_CLOSING,
    ];
    assert(parts_view(parts@) =~= seq![
        SPEEDTEST_RESULT_DOWN@,
        measurement.down@,
        SPEEDTEST_RESULT_UP@,
        measurement.up@,
        SPEEDTEST_RESULT_PING@,
        measurement.ping@,
        SPEEDTEST_RESULT_CLOSING@,
    ]);
    glue(&parts)
}

/// The text of `time_text`.
fn time_line(now: TimeOfDay) -> (text: String)
    ensures
        text@ == time_text(now),
{
    let hour = decimal_string(now.hour);
    let minute = decimal_string(now.minute);
    let second = decimal_string(now.second);
    let parts = vec![
        TIME_OPENING,
        hour.as_str(),
        TIME_SEPARATOR,
        minute.as_str(),
        TIME_SEPARATOR,
        second.as_str(),
        TIME_CLOSING,
    ];
    assert(parts_view(parts@) =~= seq![
        TIME_OPENING@,
        hour@,
        TIME_SEPARATOR@,
        minute@,
        TIME_SEPARATOR@,
        second@,
        TIME_CLOSING@,
    ]);
    glue(&parts)
}

/// The text of `too_long_text`.
fn too_long_line() -> (text: String)
    ensures
        text@ == too_long_text(),
{
    let limit = decimal_string(MAX_NICKNAME_LENGTH as u32);
    let parts = vec![NICKNAME_TOO_LONG_OPENING, limit.as_str(), NICKNAME_TOO_LONG_CLOSING];
    assert(parts_view(parts@) =~= seq![
        NICKNAME_TOO_LONG_OPENING@,
        limit@,
        NICKNAME_TOO_LONG_CLOSING@,
    ]);
    glue(&parts)
}

/// The text of `renamed_text`.
fn renamed(name: &str) -> (text: String)
    ensures
        text@ == renamed_text(name@),
{
    let parts = vec![RENAMED_OPENING, name, RENAMED_MIDDLE, name, RENAMED_CLOSING];
    assert(parts_view(parts@) =~= seq![
        RENAMED_OPENING@,
        name@,
        RENAMED_MIDDLE@,
        name@,
        RENAMED_CLOSING@,
    ]);
    glue(&parts)
}

impl Handler for MentionUnit {
    open spec fn keywords_spec(&self) -> Seq<Seq<char>> {
        match self {
            MentionUnit::Follow => seq![FOLLOW_PHRASE@],
            MentionUnit::UnFollow => seq![UN_FOLLOW_PHRASE@],
            MentionUnit::AiScream1 => seq![AI_SCREAM1_PHRASE_A@, AI_SCREAM1_PHRASE_B@],
            MentionUnit::AiScream2 => seq![AI_SCREAM2_PHRASE@],
            MentionUnit::Speedtest => seq![SPEEDTEST_PHRASE@],
            MentionUnit::Todo => seq![TODO_PHRASE@],
            MentionUnit::Meet => seq![MEET_PHRASE@],
            MentionUnit::Hello => seq![HELLO_PHRASE@],
            MentionUnit::Intro => seq![INTRO_PHRASE_A@, INTRO_PHRASE_B@],
            MentionUnit::Pat => seq![PAT_PHRASE_A@, PAT_PHRASE_B@],
            MentionUnit::Meow => seq![MEOW_PHRASE@],
            MentionUnit::Time => seq![TIME_PHRASE_A@, TIME_PHRASE_B@],
            MentionUnit::Insult => seq![INSULT_PHRASE@],
            MentionUnit::Chikuwa => seq![CHIKUWA_PHRASE@],
            MentionUnit::Ping => seq![PING_PHRASE@],
            MentionUnit::SetNickname => seq![SET_NICKNAME_PHRASE_A@, SET_NICKNAME_PHRASE_B@],
            MentionUnit::ForgetNickname => seq![FORGET_NICKNAME_PHRASE_A@, FORGET_NICKNAME_PHRASE_B@],
        }
    }

    open spec fn cond_spec(&self, note: NoteView, draws: Draws) -> bool {
        true
    }

    open spec fn gate_spec(&self, note: NoteView, ctx: ContextView, draws: Draws) -> bool {
        phrase_gate_spec(note.text, self.keywords_spec(), self.cond_spec(note, draws))
    }

    fn keywords(&self) -> (phrases: Vec<&'static str>) {
        let phrases = match self {
            MentionUnit::Follow => vec![FOLLOW_PHRASE],
            MentionUnit::UnFollow => vec![UN_FOLLOW_PHRASE],
            MentionUnit::AiScream1 => vec![AI_SCREAM1_PHRASE_A, AI_SCREAM1_PHRASE_B],
            MentionUnit::AiScream2 => vec![AI_SCREAM2_PHRASE],
            MentionUnit::Speedtest => vec![SPEEDTEST_PHRASE],
            MentionUnit::Todo => vec![TODO_PHRASE],
            MentionUnit::Meet => vec![MEET_PHRASE],
            MentionUnit::Hello => vec![HELLO_PHRASE],
            MentionUnit::Intro => vec![INTRO_PHRASE_A, INTRO_PHRASE_B],
            MentionUnit::Pat => vec![PAT_PHRASE_A, PAT_PHRASE_B],
            MentionUnit::Meow => vec![MEOW_PHRASE],
            MentionUnit::Time => vec![TIME_PHRASE_A, TIME_PHRASE_B],
            MentionUnit::Insult => vec![INSULT_PHRASE],
            MentionUnit::Chikuwa => vec![CHIKUWA_PHRASE],
            MentionUnit::Ping => vec![PING_PHRASE],
            MentionUnit::SetNickname => vec![SET_NICKNAME_PHRASE_A, SET_NICKNAME_PHRASE_B],
            MentionUnit::ForgetNickname => vec![FORGET_NICKNAME_PHRASE_A, FORGET_NICKNAME_PHRASE_B],
        };
        assert(parts_view(phrases@) =~= self.keywords_spec());
        phrases
    }

    fn cond(&self, note: &Note, draws: &Draws) -> (met: bool) {
        true
    }

    fn gate(&self, note: &Note, ctx: &Context, draws: &Draws) -> (open: bool) {
        let phrases = self.keywords();
        any_keyword(note.text.as_str(), &phrases) && self.cond(note, draws)
    }
}

/// The chain for posts that mention the bot, as one unit.
#[derive(Clone, Copy, Debug, PartialEq, Eq, Structural)]
pub struct HandleMention;

/// The unit of the chain that answers a post which mentions the bot, if the
/// post is let in and one of them does.
pub open spec fn mention_choice(note: NoteView, ctx: ContextView, draws: Draws) -> Option<
    MentionUnit,
> {
    if HandleMention.gate_spec(note, ctx, draws) {
        match first_open(MentionUnit::order(), note, ctx, draws) {
            Some(i) => Some(MentionUnit::order()[i]),
            None => None,
        }
    } else {
        None
    }
}

impl Handler for HandleMention {
    open spec fn keywords_spec(&self) -> Seq<Seq<char>> {
        Seq::empty()
    }

    open spec fn cond_spec(&self, note: NoteView, draws: Draws) -> bool {
        true
    }

    /// A mention is let in unless its author is flagged as automated or is
    /// the bot itself.
    open spec fn gate_spec(&self, note: NoteView, ctx: ContextView, draws: Draws) -> bool {
        !note.user.is_bot && note.user.id != ctx.self_id
    }

    fn keywords(&self) -> (phrases: Vec<&'static str>) {
        let phrases: Vec<&'static str> = Vec::new();
        assert(parts_view(phrases@) =~= self.keywords_spec());
        phrases
    }

    fn cond(&self, note: &Note, draws: &Draws) -> (met: bool) {
        true
    }

    fn gate(&self, note: &Note, ctx: &Context, draws: &Draws) -> (open: bool) {
        !note.user.is_bot && !same_text(note.user.id.as_str(), ctx.self_id.as_str())
    }
}

impl HandleMention {
    /// The unit that answers `note`: none for a mention that is not let in,
    /// else the first unit in the order of the chain whose gate is open.
    pub fn select(note: &Note, ctx: &Context, draws: &Draws) -> (unit: Option<MentionUnit>)
        ensures
            unit == mention_choice(note@, ctx@, *draws),
    {
        if !HandleMention.gate(note, ctx, draws) {
            return None;
        }
        let chain = MentionUnit::chain();
        match first_match(&chain, note, ctx, draws) {
            Some(i) => Some(chain[i]),
            None => None,
        }
    }
}

/// A nickname is stored only when its candidate is accepted, and then in
/// its safe form under the id of the author, and confirmed in that form. A
/// candidate that is too long, or of which only white space is left, is
/// answered with one post that turns it down: nothing is stored and nothing
/// is written out.
pub proof fn lemma_only_accepted_nicknames_are_stored(
    note: NoteView,
    ctx: ContextView,
    nicknames: Map<Seq<char>, Seq<char>>,
    fortune: FortuneView,
)
    ensures
        ({
            let (script, after) = MentionUnit::SetNickname.opening_spec(
                note,
                ctx,
                nicknames,
                fortune,
            );
            match verdict(candidate(note.text)) {
                NicknameVerdict::Accepted(nick) => {
                    &&& after == nicknames.insert(note.user_id, nick)
                    &&& script == seq![EffectView::Persist] + reply_script(
                        note,
                        renamed_text(nick),
                    )
                    &&& candidate(note.text) matches Some(name)
                    &&& name.len() <= MAX_NICKNAME_LENGTH
                    &&& nick == sanitized(name)
                    &&& !all_white_space(nick)
                },
                NicknameVerdict::TooLong => {
                    &&& after == nicknames
                    &&& script == reply_script(note, too_long_text())
                    &&& !script.contains(EffectView::Persist)
                },
                NicknameVerdict::Invalid => {
                    &&& after == nicknames
                    &&& script == reply_script(note, NICKNAME_INVALID@)
                    &&& !script.contains(EffectView::Persist)
                },
                NicknameVerdict::NotFound => after == nicknames && script.len() == 0,
            }
        }),
{
}

/// Once a nickname is forgotten, the author is called by the display name
/// or the user name again: no nickname is known for the author's id, the
/// other nicknames are as they were, and the answer names the author by the
/// display name or the user name, never by the nickname.
pub proof fn lemma_forgotten_nickname_is_gone(
    note: NoteView,
    ctx: ContextView,
    nicknames: Map<Seq<char>, Seq<char>>,
    fortune: FortuneView,
)
    ensures
        ({
            let (script, after) = MentionUnit::ForgetNickname.opening_spec(
                note,
                ctx,
                nicknames,
                fortune,
            );
            &&& !after.contains_key(note.user_id)
            &&& forall|id: Seq<char>|
                id != note.user_id ==> (after.contains_key(id) <==> nicknames.contains_key(id))
                    && (nicknames.contains_key(id) ==> after[id] == nicknames[id])
            &&& forall|user: UserView|
                user.id == note.user_id ==> display_name(after, user) == user.plain_name()
            &&& script == seq![EffectView::Persist] + reply_script(
                note,
                if nicknames.contains_key(note.user_id) {
                    renamed_text(note.user.plain_name())
                } else {
                    NOTHING_TO_FORGET@
                },
            )
        }),
{
}

/// The author is followed exactly when the bot does not follow the author
/// yet and the author follows the bot: then the request to follow the
/// author comes first, once, and the answer that it was done comes after
/// it. No request to follow is made otherwise, and none to stop following
/// is ever made.
pub proof fn lemma_follow_back_is_made_when_due(
    note: NoteView,
    nicknames: Map<Seq<char>, Seq<char>>,
    relation: UserDetailed,
)
    ensures
        ({
            let script = MentionUnit::Follow.on_relationship_spec(note, nicknames, relation);
            let said = reply_script(note, HandleFollow::respond_spec(note, nicknames, relation));
            &&& !relation.is_following && relation.is_followed ==> {
                &&& script == seq![EffectView::CreateFollowing(note.user_id)] + said
                &&& HandleFollow::respond_spec(note, nicknames, relation) == followed_back_text(
                    note.user.mention(),
                    note.user.plain_name(),
                )
            }
            &&& !(!relation.is_following && relation.is_followed) ==> script == said
            &&& forall|i: int|
                0 <= i < said.len() ==> !(#[trigger] said[i] is CreateFollowing) && !(said[i]
                    is DeleteFollowing)
            &&& forall|i: int| 0 <= i < script.len() ==> !(#[trigger] script[i] is DeleteFollowing)
        }),
{
}

} // verus!
