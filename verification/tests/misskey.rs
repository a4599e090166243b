use sango::config::Config;
use sango::misskey::following::{CreateFollowing, DeleteFollowing};
use sango::misskey::notes::{CreateNote, CreatePoll, Note, NoteVisibility};
use sango::misskey::users::{ShowUser, User, UserDetailed, UserOnlineStatus};
use sango::misskey::{ApiRequest, MisskeyClient};

fn user() -> User {
    User { id: "u1".to_string(), name: None, username: "alice".to_string(), host: None, is_bot: false }
}

#[test]
fn mention_of_a_local_user() {
    assert_eq!(user().mention(), "@alice");
}

#[test]
fn mention_of_a_remote_user() {
    let mut u = user();
    u.host = Some("example.org".to_string());
    assert_eq!(u.mention(), "@alice@example.org");
}

#[test]
fn plain_name_prefers_the_display_name() {
    let mut u = user();
    assert_eq!(u.plain_name(), "alice");
    u.name = Some("Alice A.".to_string());
    assert_eq!(u.plain_name(), "Alice A.");
}

#[test]
fn show_user_by_id() {
    let request = ShowUser::by_user_id("u1");
    assert_eq!(
        request,
        ShowUser { user_id: Some("u1".to_string()), user_ids: Vec::new(), username: None, host: None }
    );
    assert_eq!(ShowUser::default().user_id, None);
}

#[test]
fn following_requests_name_the_user() {
    assert_eq!(CreateFollowing::new("u1").user_id, "u1");
    assert_eq!(DeleteFollowing::new("u2").user_id, "u2");
    assert_eq!(CreateFollowing::new("u1").clone(), CreateFollowing::new("u1"));
    assert_eq!(DeleteFollowing::new("u1").clone(), DeleteFollowing::new("u1"));
}

#[test]
fn new_note_says_its_text_and_nothing_else() {
    let request = CreateNote::new("hello");
    assert_eq!(request.text, "hello");
    assert_eq!(request.visibility, None);
    assert_eq!(request.reply_id, None);
    assert_eq!(request.renote_id, None);
    assert_eq!(request.channel_id, None);
    assert_eq!(request.cw, None);
    assert_eq!(request.poll, None);
    assert!(request.visible_user_ids.is_empty());
    assert!(request.file_ids.is_empty());
    assert!(request.media_ids.is_empty());
    assert_eq!(CreateNote::default(), CreateNote::new(""));
}

#[test]
fn text_replaces_the_text_and_keeps_the_rest() {
    let mut request = CreateNote::new("hello");
    request.visibility = Some(NoteVisibility::Followers);
    request.reply_id = Some("n1".to_string());
    request.cw = Some("cw".to_string());
    request.file_ids = vec!["f1".to_string(), "f2".to_string()];
    request.local_only = Some(true);
    request.scheduled_at = Some(7);
    request.poll = Some(CreatePoll {
        choices: vec!["a".to_string(), "b".to_string()],
        multiple: Some(false),
        expires_at: None,
        expired_after: Some(60),
    });
    let changed = request.text("bye");
    assert_eq!(changed.text, "bye");
    let mut expected = request.clone();
    expected.text = "bye".to_string();
    assert_eq!(changed, expected);
    assert_eq!(request.text, "hello");
    assert_eq!(CreatePoll::default().choices, Vec::<String>::new());
}

#[test]
fn reply_stays_in_the_thread_and_keeps_the_visibility() {
    let note = Note {
        id: "n1".to_string(),
        text: "hi".to_string(),
        user_id: "u1".to_string(),
        user: user(),
        reply_id: Some("n0".to_string()),
        visibility: NoteVisibility::Followers,
        mentions: vec!["bot".to_string()],
    };
    let mut expected = CreateNote::new("answer");
    expected.reply_id = Some("n1".to_string());
    expected.visibility = Some(NoteVisibility::Followers);
    assert_eq!(note.reply("answer"), expected);
}

#[test]
fn endpoints_have_their_paths() {
    assert_eq!(CreateNote::ENDPOINT, "/api/notes/create");
    assert_eq!(ShowUser::ENDPOINT, "/api/users/show");
    assert_eq!(CreateFollowing::ENDPOINT, "/api/following/create");
    assert_eq!(DeleteFollowing::ENDPOINT, "/api/following/delete");
}

#[test]
fn client_knows_its_addresses() {
    let client = MisskeyClient::new("example.org", "SECRET");
    assert_eq!(client.host, "example.org");
    assert_eq!(client.token, "SECRET");
    assert_eq!(client.address_of::<CreateNote>(), "https://example.org/api/notes/create");
    assert_eq!(client.address_of::<ShowUser>(), "https://example.org/api/users/show");
    assert_eq!(client.address_of::<CreateFollowing>(), "https://example.org/api/following/create");
    assert_eq!(client.address_of::<DeleteFollowing>(), "https://example.org/api/following/delete");
    assert_eq!(client.self_address(), "https://example.org/api/i");
}

#[test]
fn plain_values_compare() {
    assert_eq!(
        UserDetailed { is_following: true, is_followed: false },
        UserDetailed { is_following: true, is_followed: false }
    );
    assert_ne!(UserOnlineStatus::Online, UserOnlineStatus::Offline);
    let config = Config { token: "t".to_string(), host: "h".to_string(), admin: "a".to_string() };
    assert_eq!(config.admin, "a");
}
