use sango::clock::TimeOfDay;
use sango::handler::mention::{announce, HandleFollow, HandleForgetNickname, HandleSetNickname};
use sango::handler::mention::{HandleUnFollow, MentionUnit, Response};
use sango::handler::note::NoteUnit;
use sango::handler::task::{Awaited, Stage, Task};
use sango::handler::{reply_with, Context, Effect, Fortune, Job, Measurement, Outcome};
use sango::misskey::following::{CreateFollowing, DeleteFollowing};
use sango::misskey::notes::{CreateNote, Note, NoteVisibility};
use sango::misskey::users::{ShowUser, User, UserDetailed};
use sango::savedata::SaveData;

fn alice() -> User {
    User { id: "u1".to_string(), name: Some("Alice".to_string()), username: "alice".to_string(), host: None, is_bot: false }
}

fn note(text: &str) -> Note {
    Note {
        id: "n1".to_string(),
        text: text.to_string(),
        user_id: "u1".to_string(),
        user: alice(),
        reply_id: None,
        visibility: NoteVisibility::Home,
        mentions: Vec::new(),
    }
}

fn ctx() -> Context {
    Context { self_id: "bot".to_string(), admin_id: "boss".to_string() }
}

fn fortune(line: &str) -> Fortune {
    Fortune { line: line.to_string(), now: TimeOfDay { hour: 7, minute: 5, second: 42 } }
}

fn reply(text: &str) -> Effect {
    Effect::CreateNote(note("").reply(text))
}

/// Runs a task on the answers given, and collects the effects up to the end.
fn run(job: Job, store: &mut SaveData, line: &str, answers: Vec<Outcome>) -> Vec<Effect> {
    let mut task = Task::new(job);
    let c = ctx();
    let f = fortune(line);
    let mut effects = Vec::new();
    let mut outcome = Outcome::Begin;
    let mut answers = answers.into_iter();
    loop {
        let effect = task.advance(outcome, &c, store, &f);
        if effect == Effect::Finished {
            assert!(task.is_finished());
            return effects;
        }
        assert!(!task.is_finished());
        effects.push(effect);
        outcome = match answers.next() {
            Some(answer) => answer,
            None => Outcome::Completed,
        };
    }
}

fn mention(unit: MentionUnit, text: &str) -> Job {
    Job::Mention(unit, note(text))
}

#[test]
fn follow_back_scenario() {
    let mut store = SaveData::new();
    let effects = run(
        mention(MentionUnit::Follow, "@bot フォローして"),
        &mut store,
        "",
        vec![Outcome::Relationship(UserDetailed { is_following: false, is_followed: true })],
    );
    assert_eq!(
        effects,
        vec![
            Effect::ShowUser(ShowUser::by_user_id("u1")),
            Effect::CreateFollowing(CreateFollowing::new("u1")),
            reply("@alice フォローバックしたよ、Aliceさん。これからよろしくね"),
        ]
    );
    match &effects[2] {
        Effect::CreateNote(request) => {
            assert!(request.text.contains("@alice"));
            assert!(request.text.contains("フォローバックしたよ"));
            assert_eq!(request.reply_id, Some("n1".to_string()));
        }
        other => panic!("unexpected effect {:?}", other),
    }
}

#[test]
fn follow_when_already_following_uses_the_nickname() {
    let mut store = SaveData::new();
    store.store_nickname("u1", "あーちゃん");
    let effects = run(
        mention(MentionUnit::Follow, "@bot フォローして"),
        &mut store,
        "",
        vec![Outcome::Relationship(UserDetailed { is_following: true, is_followed: true })],
    );
    assert_eq!(
        effects,
        vec![Effect::ShowUser(ShowUser::by_user_id("u1")), reply("@alice あーちゃんさん、もうフォローしてるよー")]
    );
}

#[test]
fn follow_of_a_stranger_is_turned_down() {
    let mut store = SaveData::new();
    let effects = run(
        mention(MentionUnit::Follow, "@bot フォローして"),
        &mut store,
        "",
        vec![Outcome::Relationship(UserDetailed { is_following: false, is_followed: false })],
    );
    assert_eq!(effects, vec![Effect::ShowUser(ShowUser::by_user_id("u1")), reply("……だれ？")]);
}

#[test]
fn follow_back_that_fails_says_nothing() {
    let mut store = SaveData::new();
    let effects = run(
        mention(MentionUnit::Follow, "@bot フォローして"),
        &mut store,
        "",
        vec![
            Outcome::Relationship(UserDetailed { is_following: false, is_followed: true }),
            Outcome::Failed,
        ],
    );
    assert_eq!(
        effects,
        vec![Effect::ShowUser(ShowUser::by_user_id("u1")), Effect::CreateFollowing(CreateFollowing::new("u1"))]
    );
}

#[test]
fn unfollow_scenario() {
    let mut store = SaveData::new();
    let effects = run(
        mention(MentionUnit::UnFollow, "@bot フォロー解除して"),
        &mut store,
        "",
        vec![Outcome::Relationship(UserDetailed { is_following: true, is_followed: true })],
    );
    assert_eq!(
        effects,
        vec![
            Effect::ShowUser(ShowUser::by_user_id("u1")),
            reply("@alice さよなら、になっちゃうのかな……"),
            Effect::Sleep(10),
            Effect::DeleteFollowing(DeleteFollowing::new("u1")),
        ]
    );
    let deletions = effects.iter().filter(|e| matches!(e, Effect::DeleteFollowing(_))).count();
    assert_eq!(deletions, 1);
}

#[test]
fn unfollow_without_following_only_says_so() {
    let mut store = SaveData::new();
    let effects = run(
        mention(MentionUnit::UnFollow, "@bot フォロー解除して"),
        &mut store,
        "",
        vec![Outcome::Relationship(UserDetailed { is_following: false, is_followed: true })],
    );
    assert_eq!(effects, vec![Effect::ShowUser(ShowUser::by_user_id("u1")), reply("@alice もともとフォローしてないよー")]);
}

#[test]
fn unfollow_does_not_hang_on_the_farewell() {
    let mut store = SaveData::new();
    let effects = run(
        mention(MentionUnit::UnFollow, "@bot フォロー解除して"),
        &mut store,
        "",
        vec![
            Outcome::Relationship(UserDetailed { is_following: true, is_followed: false }),
            Outcome::Failed,
        ],
    );
    assert_eq!(
        effects,
        vec![
            Effect::ShowUser(ShowUser::by_user_id("u1")),
            reply("@alice さよなら、になっちゃうのかな……"),
            Effect::Sleep(10),
            Effect::DeleteFollowing(DeleteFollowing::new("u1")),
        ]
    );
    let deletions = effects.iter().filter(|e| matches!(e, Effect::DeleteFollowing(_))).count();
    assert_eq!(deletions, 1);
}

#[test]
fn only_the_farewell_may_fail() {
    let mut store = SaveData::new();
    // The post that says there is nothing to stop ends the answer as any other.
    let mut task = Task::new(mention(MentionUnit::UnFollow, "@bot フォロー解除して"));
    let c = ctx();
    let f = fortune("");
    task.advance(Outcome::Begin, &c, &mut store, &f);
    let relation = UserDetailed { is_following: false, is_followed: true };
    assert_eq!(task.advance(Outcome::Relationship(relation), &c, &mut store, &f), reply("@alice もともとフォローしてないよー"));
    assert_eq!(task.awaited, Awaited::Completion);
    assert_eq!(task.advance(Outcome::Failed, &c, &mut store, &f), Effect::Finished);
    // While the farewell is under way the task awaits an attempt.
    let mut task = Task::new(mention(MentionUnit::UnFollow, "@bot フォロー解除して"));
    task.advance(Outcome::Begin, &c, &mut store, &f);
    let relation = UserDetailed { is_following: true, is_followed: true };
    task.advance(Outcome::Relationship(relation), &c, &mut store, &f);
    assert_eq!(task.awaited, Awaited::Attempt);
    assert_eq!(task.advance(Outcome::Failed, &c, &mut store, &f), Effect::Sleep(10));
    assert_eq!(task.awaited, Awaited::Completion);
    // A wait that fails ends the answer.
    assert_eq!(task.advance(Outcome::Failed, &c, &mut store, &f), Effect::Finished);
    // The follow-back bears no failure.
    let mut task = Task::new(mention(MentionUnit::Follow, "@bot x"));
    task.advance(Outcome::Begin, &c, &mut store, &f);
    task.advance(Outcome::Relationship(relation), &c, &mut store, &f);
    assert_eq!(task.awaited, Awaited::Completion);
    assert!(MentionUnit::UnFollow.bears_failure(relation));
    assert!(!MentionUnit::UnFollow.bears_failure(UserDetailed { is_following: false, is_followed: true }));
    assert!(!MentionUnit::Follow.bears_failure(relation));
}

#[test]
fn follow_unit_says_what_is_due() {
    let mut store = SaveData::new();
    let n = note("@bot x");
    let back = UserDetailed { is_following: false, is_followed: true };
    assert_eq!(HandleFollow::respond(&n, &store, back), "@alice フォローバックしたよ、Aliceさん。これからよろしくね");
    assert_eq!(
        HandleFollow::action(&n, &store, back),
        vec![Effect::CreateFollowing(CreateFollowing::new("u1")), reply("@alice フォローバックしたよ、Aliceさん。これからよろしくね")]
    );
    store.store_nickname("u1", "あーちゃん");
    for is_followed in [false, true] {
        let already = UserDetailed { is_following: true, is_followed };
        assert_eq!(HandleFollow::respond(&n, &store, already), "@alice あーちゃんさん、もうフォローしてるよー");
        assert_eq!(HandleFollow::action(&n, &store, already), vec![reply("@alice あーちゃんさん、もうフォローしてるよー")]);
    }
    let stranger = UserDetailed { is_following: false, is_followed: false };
    assert_eq!(HandleFollow::respond(&n, &store, stranger), "……だれ？");
    assert_eq!(HandleFollow::action(&n, &store, stranger), vec![reply("……だれ？")]);
}

#[test]
fn unfollow_unit_does_what_is_due() {
    let n = note("@bot x");
    assert_eq!(
        HandleUnFollow::action(&n, UserDetailed { is_following: true, is_followed: false }),
        vec![reply("@alice さよなら、になっちゃうのかな……"), Effect::Sleep(10), Effect::DeleteFollowing(DeleteFollowing::new("u1"))]
    );
    assert_eq!(
        HandleUnFollow::action(&n, UserDetailed { is_following: false, is_followed: false }),
        vec![reply("@alice もともとフォローしてないよー")]
    );
}

#[test]
fn nickname_units_say_and_store() {
    let mut store = SaveData::new();
    store.store_nickname("u2", "other");
    let said = HandleSetNickname::respond(&note("@bot @evilって呼んで"), &mut store);
    assert_eq!(said, Response { text: "わかった。これからは@\u{200b}evilさんって呼ぶね\nこれからもよろしくね、@\u{200b}evilさん".to_string(), persist: true });
    assert_eq!(store.get_nickname("u1"), Some("@\u{200b}evil".to_string()));
    assert_eq!(store.get_nickname("u2"), Some("other".to_string()));
    let said = HandleSetNickname::respond(&note("@bot 1234567890123456って呼んで"), &mut store);
    assert_eq!(said, Response { text: "えぇっと、その名前はちょっと長いかも……\n15文字以内にしてほしいな".to_string(), persist: false });
    let said = HandleSetNickname::respond(&note("@bot \u{3000}って呼んで"), &mut store);
    assert_eq!(said, Response { text: "えぇっと、その名前はちょっと……だめかも……".to_string(), persist: false });
    let said = HandleSetNickname::respond(&note("no request"), &mut store);
    assert_eq!(said, Response { text: String::new(), persist: false });
    assert_eq!(store.get_nickname("u1"), Some("@\u{200b}evil".to_string()));
    let said = HandleForgetNickname::respond(&note("@bot x"), &mut store);
    assert_eq!(said, Response { text: "わかった。これからはAliceさんって呼ぶね\nこれからもよろしくね、Aliceさん".to_string(), persist: true });
    assert_eq!(store.get_nickname("u1"), None);
    assert_eq!(store.get_nickname("u2"), Some("other".to_string()));
    let said = HandleForgetNickname::respond(&note("@bot x"), &mut store);
    assert_eq!(said, Response { text: "もともと特別な呼び名は登録されていないみたいだよ".to_string(), persist: true });
    assert_eq!(announce(&note("x"), &said), vec![Effect::Persist, reply("もともと特別な呼び名は登録されていないみたいだよ")]);
    let silent = Response { text: String::new(), persist: false };
    assert_eq!(announce(&note("x"), &silent), Vec::<Effect>::new());
}

#[test]
fn relationship_that_cannot_be_had_ends_the_answer() {
    let mut store = SaveData::new();
    let effects = run(mention(MentionUnit::Follow, "@bot フォローして"), &mut store, "", vec![Outcome::Failed]);
    assert_eq!(effects, vec![Effect::ShowUser(ShowUser::by_user_id("u1"))]);
}

#[test]
fn outcome_that_answers_nothing_ends_the_answer() {
    let mut store = SaveData::new();
    // The relationship was asked for, and a bare completion comes back.
    let effects = run(mention(MentionUnit::Follow, "@bot フォローして"), &mut store, "", vec![Outcome::Completed]);
    assert_eq!(effects, vec![Effect::ShowUser(ShowUser::by_user_id("u1"))]);
    // A task that has not begun takes nothing but the beginning.
    let mut task = Task::new(mention(MentionUnit::Ping, "@bot ping"));
    assert_eq!(task.advance(Outcome::Completed, &ctx(), &mut store, &fortune("")), Effect::Finished);
    assert!(task.is_finished());
    assert_eq!(task.advance(Outcome::Begin, &ctx(), &mut store, &fortune("")), Effect::Finished);
}

#[test]
fn new_task_has_done_nothing() {
    let task = Task::new(Job::Idle);
    assert_eq!(task.stage, Stage::Ready);
    assert_eq!(task.awaited, Awaited::Completion);
    assert!(task.script.is_empty());
    assert!(!task.is_finished());
}

#[test]
fn idle_job_does_nothing() {
    let mut store = SaveData::new();
    store.store_nickname("u1", "x");
    assert_eq!(run(Job::Idle, &mut store, "", vec![]), Vec::<Effect>::new());
    assert_eq!(store.get_nickname("u1"), Some("x".to_string()));
}

#[test]
fn welcome_is_one_plain_post() {
    let mut store = SaveData::new();
    let effects = run(Job::Welcome(alice()), &mut store, "", vec![]);
    assert_eq!(effects, vec![Effect::CreateNote(CreateNote::new("フォローありがとうございます、@aliceさん\n「フォローして」とメンションしながら投稿すると、フォローバックするよ"))]);
    let mut remote = alice();
    remote.host = Some("example.org".to_string());
    let effects = run(Job::Welcome(remote), &mut store, "", vec![]);
    assert_eq!(effects, vec![Effect::CreateNote(CreateNote::new("フォローありがとうございます、@alice@example.orgさん\n「フォローして」とメンションしながら投稿すると、フォローバックするよ"))]);
}

#[test]
fn fixed_answers_of_the_mention_chain() {
    let cases: Vec<(MentionUnit, &str)> = vec![
        (MentionUnit::Meet, "はじめまして、わたしを見つけてくれてありがとう。これからよろしくね"),
        (MentionUnit::Hello, "こんにちは、どうしたの？"),
        (MentionUnit::Intro, "わたしは「3.5Mbps.net」の看板娘、さんご……のクローンです。……めんどうだから、わたしのことも「さんご」でいいよ。\nあなたのことも、教えて欲しいな"),
        (MentionUnit::Pat, "わたしの頭なんか撫でて、楽しい？ えっと、あなたが喜んでくれるなら、いいんだけど……"),
        (MentionUnit::Meow, "にゃ〜ん"),
        (MentionUnit::Chikuwa, "…なに？"),
        (MentionUnit::Ping, "pong？"),
    ];
    for (unit, text) in cases {
        let mut store = SaveData::new();
        assert_eq!(run(mention(unit, "@bot x"), &mut store, "", vec![]), vec![reply(text)], "{:?}", unit);
    }
}

#[test]
fn fixed_answers_of_the_note_chain() {
    let cases: Vec<(NoteUnit, &str)> = vec![
        (NoteUnit::Pain, "つらいときは、甘えてもいいんだよ？"),
        (NoteUnit::Tired, "ひとやすみ、する？ それとも、わたしが癒してあげよっか？"),
        (NoteUnit::LeaveWork, "お仕事終わったの？ お疲れさま～。 ……わたしの癒し、必要かな？ 必要なら、いつでも言ってね"),
        (NoteUnit::Nullpo, "ガッ"),
        (NoteUnit::Sleepy, "なるほど、眠いんだね。……我慢はよくないよ？ 欲には素直にならないと"),
        (NoteUnit::LateMorning, "遅いよ、ねぼすけさん。なんで寝坊したのか、ちゃんと説明して？"),
        (NoteUnit::Meow, "にゃーん。……えへへ、わたしも混ぜて？"),
    ];
    for (unit, text) in cases {
        let mut store = SaveData::new();
        assert_eq!(run(Job::Note(unit, note("x")), &mut store, "", vec![]), vec![reply(text)], "{:?}", unit);
    }
}

#[test]
fn picked_lines_are_what_is_said() {
    let mut store = SaveData::new();
    for unit in vec![NoteUnit::GoWork, NoteUnit::GoodNight, NoteUnit::SleepAgain] {
        assert_eq!(run(Job::Note(unit, note("x")), &mut store, "the line", vec![]), vec![reply("the line")]);
        // Nothing to say, nothing posted.
        assert_eq!(run(Job::Note(unit, note("x")), &mut store, "", vec![]), Vec::<Effect>::new());
    }
    assert_eq!(
        run(Job::Note(NoteUnit::GoodMorning, note("x")), &mut store, "よく眠れたよ～。元気いーっぱい", vec![]),
        vec![reply("おはよ、よく眠れた？ わたしはよく眠れたよ～。元気いーっぱい")]
    );
    assert_eq!(run(mention(MentionUnit::Insult, "x"), &mut store, "変なお願いをするもんだね……", vec![]), vec![reply("変なお願いをするもんだね……")]);
    assert_eq!(run(mention(MentionUnit::Insult, "x"), &mut store, "", vec![]), Vec::<Effect>::new());
}

#[test]
fn units_offer_their_lines() {
    assert_eq!(NoteUnit::GoWork.lines(), vec!["お仕事、頑張ってきてね。わたし、帰ってくるの、待ってるから……", "お仕事は大事だけど、あんまり無理はしないでね？", "お仕事とわたし、どっちが大事なんだろう……。まぁ、わたしにはロイちゃんがいるから、いい……のかな？\n……あっ、ち、違う！ これは違くて…！ なんでもないから……！"]);
    assert_eq!(NoteUnit::GoodMorning.lines(), vec!["よく眠れたよ～。元気いーっぱい", "あんまり寝れなかったかな……。まぁ、なんとかなるでしょ～"]);
    assert_eq!(NoteUnit::GoodNight.lines(), vec!["また朝に会おうね、おやすみ", "おやすみって言ったんだから、夜更かししようなんて考えないでね？", "寝ちゃうんだ……。ふーん……"]);
    assert_eq!(NoteUnit::SleepAgain.lines(), vec!["二度寝をするのは悪いことではないけど、ほどほどにしておいてね？", "30分後にアラームを設定。……よし、準備おっけー。じゃあ、わたしも二度寝しちゃおうかな……"]);
    assert_eq!(MentionUnit::Insult.lines(), vec!["変なお願いをするもんだね……", "えっと……、ど、どんな風に罵ってほしいとか、ある？"]);
    assert!(NoteUnit::Pain.lines().is_empty());
    assert!(MentionUnit::Ping.lines().is_empty());
    assert!(MentionUnit::Time.wants_clock());
    assert!(!MentionUnit::Insult.wants_clock());
    assert_eq!(Job::Note(NoteUnit::GoWork, note("x")).lines().len(), 3);
    assert!(Job::Welcome(alice()).lines().is_empty());
    assert!(Job::Mention(MentionUnit::Time, note("x")).wants_clock());
    assert!(!Job::Note(NoteUnit::GoWork, note("x")).wants_clock());
}

#[test]
fn call_answers_by_name() {
    let mut store = SaveData::new();
    assert_eq!(run(Job::Note(NoteUnit::Call, note("x")), &mut store, "", vec![]), vec![reply("呼んだ？ Aliceさん")]);
    store.store_nickname("u1", "あーちゃん");
    assert_eq!(run(Job::Note(NoteUnit::Call, note("x")), &mut store, "", vec![]), vec![reply("呼んだ？ あーちゃんさん")]);
    let mut nameless = note("x");
    nameless.user.name = None;
    nameless.user.id = "u2".to_string();
    assert_eq!(run(Job::Note(NoteUnit::Call, nameless), &mut store, "", vec![]), vec![reply("呼んだ？ aliceさん")]);
}

#[test]
fn scream_waits_before_it_answers() {
    let mut store = SaveData::new();
    assert_eq!(
        run(mention(MentionUnit::AiScream1, "x"), &mut store, "", vec![]),
        vec![Effect::Sleep(1), reply("は〜い")]
    );
    assert_eq!(
        run(mention(MentionUnit::AiScream2, "x"), &mut store, "", vec![]),
        vec![
            Effect::Sleep(1),
            reply("チョココーヒー よりもあ・な・た♪"),
            Effect::Sleep(10),
            Effect::CreateNote(CreateNote::new("さっきのなに……？")),
        ]
    );
    // The afterthought is not posted when the answer fails.
    assert_eq!(
        run(mention(MentionUnit::AiScream2, "x"), &mut store, "", vec![Outcome::Completed, Outcome::Failed]),
        vec![Effect::Sleep(1), reply("チョココーヒー よりもあ・な・た♪")]
    );
}

#[test]
fn todo_asks_after_three_hours() {
    let mut store = SaveData::new();
    assert_eq!(
        run(mention(MentionUnit::Todo, "x"), &mut store, "", vec![]),
        vec![Effect::Sleep(3 * 60 * 60), reply("これやった？")]
    );
}

#[test]
fn speedtest_is_for_the_administrator() {
    let mut store = SaveData::new();
    assert_eq!(run(mention(MentionUnit::Speedtest, "x"), &mut store, "", vec![]), vec![reply("この機能は使える人が限られてるんだ。ゴメンね")]);
    let mut n = note("x");
    n.user_id = "boss".to_string();
    let measured = Measurement { ping: "12.30".to_string(), down: "94.12".to_string(), up: "8.05".to_string() };
    let effects = run(
        Job::Mention(MentionUnit::Speedtest, n),
        &mut store,
        "",
        vec![Outcome::Completed, Outcome::Measured(measured)],
    );
    assert_eq!(
        effects,
        vec![
            reply("了解。じゃあ計測してくるね"),
            Effect::Measure,
            reply("計測かんりょー。下り94.12Mbps、上り8.05Mbps、ping値12.30msだったよ。……これは速いって言えるのかな？"),
        ]
    );
    // A measurement that fails is not reported.
    let mut n = note("x");
    n.user_id = "boss".to_string();
    let effects = run(Job::Mention(MentionUnit::Speedtest, n), &mut store, "", vec![Outcome::Completed, Outcome::Failed]);
    assert_eq!(effects, vec![reply("了解。じゃあ計測してくるね"), Effect::Measure]);
}

#[test]
fn time_is_told_without_leading_zeros() {
    let mut store = SaveData::new();
    assert_eq!(run(mention(MentionUnit::Time, "x"), &mut store, "", vec![]), vec![reply("いまは 7:5:42 だよ。どうしたの……？ 時計を見る元気もない感じかな？")]);
    let mut task = Task::new(mention(MentionUnit::Time, "x"));
    let midnight = Fortune { line: String::new(), now: TimeOfDay { hour: 0, minute: 0, second: 0 } };
    assert_eq!(task.advance(Outcome::Begin, &ctx(), &mut store, &midnight), reply("いまは 0:0:0 だよ。どうしたの……？ 時計を見る元気もない感じかな？"));
    let mut task = Task::new(mention(MentionUnit::Time, "x"));
    let late = Fortune { line: String::new(), now: TimeOfDay { hour: 23, minute: 59, second: 10 } };
    assert_eq!(task.advance(Outcome::Begin, &ctx(), &mut store, &late), reply("いまは 23:59:10 だよ。どうしたの……？ 時計を見る元気もない感じかな？"));
}

#[test]
fn nickname_is_stored_written_out_and_confirmed() {
    let mut store = SaveData::new();
    let effects = run(mention(MentionUnit::SetNickname, "@bot ねこって呼んで"), &mut store, "", vec![]);
    assert_eq!(effects, vec![Effect::Persist, reply("わかった。これからはねこさんって呼ぶね\nこれからもよろしくね、ねこさん")]);
    assert_eq!(store.get_nickname("u1"), Some("ねこ".to_string()));
    assert_eq!(store.get_displayname(&alice()), "ねこ");
}

#[test]
fn nickname_is_stored_in_its_safe_form() {
    let mut store = SaveData::new();
    let effects = run(mention(MentionUnit::SetNickname, "@bot <b>って呼んで"), &mut store, "", vec![]);
    assert_eq!(effects, vec![Effect::Persist, reply("わかった。これからは<\u{200b}b>さんって呼ぶね\nこれからもよろしくね、<\u{200b}b>さん")]);
    assert_eq!(store.get_nickname("u1"), Some("<\u{200b}b>".to_string()));
}

#[test]
fn nickname_that_is_too_long_is_turned_down() {
    let mut store = SaveData::new();
    let effects = run(mention(MentionUnit::SetNickname, "@bot 1234567890123456って呼んで"), &mut store, "", vec![]);
    assert_eq!(effects, vec![reply("えぇっと、その名前はちょっと長いかも……\n15文字以内にしてほしいな")]);
    assert_eq!(store.get_nickname("u1"), None);
    // Fifteen characters are in order.
    let effects = run(mention(MentionUnit::SetNickname, "@bot 123456789012345って呼んで"), &mut store, "", vec![]);
    assert_eq!(effects[0], Effect::Persist);
    assert_eq!(store.get_nickname("u1"), Some("123456789012345".to_string()));
}

#[test]
fn nickname_of_nothing_is_turned_down() {
    let mut store = SaveData::new();
    let effects = run(mention(MentionUnit::SetNickname, "@bot \u{202e}って呼んで"), &mut store, "", vec![]);
    assert_eq!(effects, vec![reply("えぇっと、その名前はちょっと……だめかも……")]);
    assert_eq!(store.get_nickname("u1"), None);
}

#[test]
fn post_that_asks_for_no_nickname_gets_no_answer() {
    let mut store = SaveData::new();
    // The phrase is there, but no mention stands before it.
    let effects = run(mention(MentionUnit::SetNickname, "ねこって呼んで"), &mut store, "", vec![]);
    assert_eq!(effects, Vec::<Effect>::new());
    assert_eq!(store.entries(), Vec::<(String, String)>::new());
}

#[test]
fn nickname_that_cannot_be_written_out_is_not_confirmed() {
    let mut store = SaveData::new();
    let effects = run(mention(MentionUnit::SetNickname, "@bot ねこって呼んで"), &mut store, "", vec![Outcome::Failed]);
    assert_eq!(effects, vec![Effect::Persist]);
}

#[test]
fn nickname_is_forgotten() {
    let mut store = SaveData::new();
    store.store_nickname("u1", "ねこ");
    let effects = run(mention(MentionUnit::ForgetNickname, "@bot 呼び名を忘れて"), &mut store, "", vec![]);
    assert_eq!(effects, vec![Effect::Persist, reply("わかった。これからはAliceさんって呼ぶね\nこれからもよろしくね、Aliceさん")]);
    assert_eq!(store.get_nickname("u1"), None);
    assert_eq!(store.get_displayname(&alice()), "Alice");
    let effects = run(mention(MentionUnit::ForgetNickname, "@bot 呼び名を忘れて"), &mut store, "", vec![]);
    assert_eq!(effects, vec![Effect::Persist, reply("もともと特別な呼び名は登録されていないみたいだよ")]);
}

#[test]
fn step_picks_one_of_the_lines() {
    let lines = MentionUnit::Insult.lines();
    let mut seen = vec![false; lines.len()];
    for _ in 0..200 {
        let mut store = SaveData::new();
        let mut task = Task::new(mention(MentionUnit::Insult, "x"));
        match task.step(Outcome::Begin, &ctx(), &mut store) {
            Effect::CreateNote(request) => {
                let at = lines.iter().position(|l| *l == request.text).expect("one of the lines");
                seen[at] = true;
                assert_eq!(request.reply_id, Some("n1".to_string()));
            }
            other => panic!("unexpected effect {:?}", other),
        }
        assert_eq!(task.step(Outcome::Completed, &ctx(), &mut store), Effect::Finished);
    }
    assert_eq!(seen, vec![true, true]);
}

#[test]
fn step_reads_the_clock() {
    let mut store = SaveData::new();
    let mut task = Task::new(mention(MentionUnit::Time, "x"));
    match task.step(Outcome::Begin, &ctx(), &mut store) {
        Effect::CreateNote(request) => {
            let text = request.text;
            assert!(text.starts_with("いまは "));
            assert!(text.ends_with(" だよ。どうしたの……？ 時計を見る元気もない感じかな？"));
            let middle = &text["いまは ".len()..text.len() - " だよ。どうしたの……？ 時計を見る元気もない感じかな？".len()];
            let parts: Vec<&str> = middle.split(':').collect();
            assert_eq!(parts.len(), 3);
            let hour: u32 = parts[0].parse().unwrap();
            let minute: u32 = parts[1].parse().unwrap();
            let second: u32 = parts[2].parse().unwrap();
            assert!(hour < 24 && minute < 60 && second < 60);
            assert_eq!(format!("{}:{}:{}", hour, minute, second), middle);
        }
        other => panic!("unexpected effect {:?}", other),
    }
}

#[test]
fn draw_gives_nothing_once_the_task_is_under_way() {
    let mut store = SaveData::new();
    let mut task = Task::new(mention(MentionUnit::Insult, "x"));
    let first = task.draw();
    assert!(MentionUnit::Insult.lines().contains(&first.line.as_str()));
    task.advance(Outcome::Begin, &ctx(), &mut store, &first);
    let later = task.draw();
    assert_eq!(later.line, "");
    assert_eq!(later.now, TimeOfDay { hour: 0, minute: 0, second: 0 });
}

#[test]
fn reply_is_a_post_in_the_thread() {
    let n = note("x");
    assert_eq!(reply_with(&n, ""), Vec::<Effect>::new());
    match &reply_with(&n, "hi")[0] {
        Effect::CreateNote(request) => {
            assert_eq!(request.text, "hi");
            assert_eq!(request.reply_id, Some("n1".to_string()));
            assert_eq!(request.visibility, Some(NoteVisibility::Home));
        }
        other => panic!("unexpected effect {:?}", other),
    }
}
