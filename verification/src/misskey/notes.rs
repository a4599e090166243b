//! Posts: the ones the bot reads, and the request to write one.

use crate::misskey::users::{User, UserView};
use crate::misskey::ApiRequest;
use crate::text::{copy_opt_text, copy_texts};
use vstd::prelude::*;

verus! {

/// Who may see a post.
#[derive(Clone, Copy, Debug, PartialEq, Eq, Structural)]
pub enum NoteVisibility {
    Public,
    Home,
    Followers,
    Specified,
}

/// A poll to go with a new post.
#[derive(Debug, PartialEq, Eq)]
pub struct CreatePoll {
    pub choices: Vec<String>,
    pub multiple: Option<bool>,
    pub expires_at: Option<i32>,
    pub expired_after: Option<u32>,
}

/// `CreatePoll` with its choices as sequences of characters.
pub struct CreatePollView {
    pub choices: Seq<Seq<char>>,
    pub multiple: Option<bool>,
    pub expires_at: Option<i32>,
    pub expired_after: Option<u32>,
}

impl View for CreatePoll {
    type V = CreatePollView;

    open spec fn view(&self) -> CreatePollView {
        CreatePollView {
            choices: self.choices.deep_view(),
            multiple: self.multiple,
            expires_at: self.expires_at,
            expired_after: self.expired_after,
        }
    }
}

impl Clone for CreatePoll {
    fn clone(&self) -> (copy: Self)
        ensures
            copy@ == self@,
    {
        CreatePoll {
            choices: copy_texts(&self.choices),
            multiple: self.multiple,
            expires_at: self.expires_at,
            expired_after: self.expired_after,
        }
    }
}

impl Default for CreatePoll {
    fn default() -> (poll: Self)
        ensures
            poll@ == (CreatePollView {
                choices: Seq::empty(),
                multiple: None,
                expires_at: None,
                expired_after: None,
            }),
    {
        let poll = CreatePoll {
            choices: Vec::new(),
            multiple: None,
            expires_at: None,
            expired_after: None,
        };
        assert(poll.choices.deep_view() =~= Seq::empty());
        poll
    }
}

/// The request to write a post. A field left `None` or empty is left to the
/// server.
#[derive(Debug, PartialEq, Eq)]
pub struct CreateNote {
    pub visibility: Option<NoteVisibility>,
    pub visible_user_ids: Vec<String>,
    pub cw: Option<String>,
    pub local_only: Option<bool>,
    pub no_extract_mentions: Option<bool>,
    pub no_extract_hashtags: Option<bool>,
    pub no_extract_emojis: Option<bool>,
    /// The post that this one answers.
    pub reply_id: Option<String>,
    pub renote_id: Option<String>,
    pub channel_id: Option<String>,
    pub text: String,
    pub file_ids: Vec<String>,
    pub media_ids: Vec<String>,
    pub poll: Option<CreatePoll>,
    pub scheduled_at: Option<i32>,
}

/// `CreateNote` as sequences of characters.
pub struct CreateNoteView {
    pub visibility: Option<NoteVisibility>,
    pub visible_user_ids: Seq<Seq<char>>,
    pub cw: Option<Seq<char>>,
    pub local_only: Option<bool>,
    pub no_extract_mentions: Option<bool>,
    pub no_extract_hashtags: Option<bool>,
    pub no_extract_emojis: Option<bool>,
    pub reply_id: Option<Seq<char>>,
    pub renote_id: Option<Seq<char>>,
    pub channel_id: Option<Seq<char>>,
    pub text: Seq<char>,
    pub file_ids: Seq<Seq<char>>,
    pub media_ids: Seq<Seq<char>>,
    pub poll: Option<CreatePollView>,
    pub scheduled_at: Option<i32>,
}

impl View for CreateNote {
    type V = CreateNoteView;

    open spec fn view(&self) -> CreateNoteView {
        CreateNoteView {
            visibility: self.visibility,
            visible_user_ids: self.visible_user_ids.deep_view(),
            cw: self.cw.deep_view(),
            local_only: self.local_only,
            no_extract_mentions: self.no_extract_mentions,
            no_extract_hashtags: self.no_extract_hashtags,
            no_extract_emojis: self.no_extract_emojis,
            reply_id: self.reply_id.deep_view(),
            renote_id: self.renote_id.deep_view(),
            channel_id: self.channel_id.deep_view(),
            text: self.text@,
            file_ids: self.file_ids.deep_view(),
            media_ids: self.media_ids.deep_view(),
            poll: match self.poll {
                Some(poll) => Some(poll@),
                None => None,
            },
            scheduled_at: self.scheduled_at,
        }
    }
}

impl CreateNoteView {
    /// The post that says `text` and leaves everything else to the server.
    pub open spec fn plain(text: Seq<char>) -> CreateNoteView {
        CreateNoteView {
            visibility: None,
            visible_user_ids: Seq::empty(),
            cw: None,
            local_only: None,
            no_extract_mentions: None,
            no_extract_hashtags: None,
            no_extract_emojis: None,
            reply_id: None,
            renote_id: None,
            channel_id: None,
            text,
            file_ids: Seq::empty(),
            media_ids: Seq::empty(),
            poll: None,
            scheduled_at: None,
        }
    }

    /// The same post with `text` in place of what it said.
    pub open spec fn with_text(self, text: Seq<char>) -> CreateNoteView {
        CreateNoteView { text, ..self }
    }
}

impl CreateNote {
    /// The request for a post that says `text`.
    pub fn new(text: &str) -> (request: Self)
        ensures
            request@ == CreateNoteView::plain(text@),
    {
        let request = CreateNote {
            visibility: None,
            visible_user_ids: Vec::new(),
            cw: None,
            local_only: None,
            no_extract_mentions: None,
            no_extract_hashtags: None,
            no_extract_emojis: None,
            reply_id: None,
            renote_id: None,
            channel_id: None,
            text: text.to_owned(),
            file_ids: Vec::new(),
            media_ids: Vec::new(),
            poll: None,
            scheduled_at: None,
        };
        assert(request.visible_user_ids.deep_view() =~= Seq::empty());
        assert(request.file_ids.deep_view() =~= Seq::empty());
        assert(request.media_ids.deep_view() =~= Seq::empty());
        request
    }

    /// The same request with `text` in place of what it said.
    pub fn text(&self, text: &str) -> (request: Self)
        ensures
            request@ == self@.with_text(text@),
    {
        CreateNote {
            visibility: self.visibility,
            visible_user_ids: copy_texts(&self.visible_user_ids),
            cw: copy_opt_text(&self.cw),
            local_only: self.local_only,
            no_extract_mentions: self.no_extract_mentions,
            no_extract_hashtags: self.no_extract_hashtags,
            no_extract_emojis: self.no_extract_emojis,
            reply_id: copy_opt_text(&self.reply_id),
            renote_id: copy_opt_text(&self.renote_id),
            channel_id: copy_opt_text(&self.channel_id),
            text: text.to_owned(),
            file_ids: copy_texts(&self.file_ids),
            media_ids: copy_texts(&self.media_ids),
            poll: match &self.poll {
                Some(poll) => Some(poll.clone()),
                None => None,
            },
            scheduled_at: self.scheduled_at,
        }
    }
}

impl Clone for CreateNote {
    fn clone(&self) -> (copy: Self)
        ensures
            copy@ == self@,
    {
        self.text(self.text.as_str())
    }
}

impl Default for CreateNote {
    fn default() -> (request: Self)
        ensures
            request@ == CreateNoteView::plain(Seq::empty()),
    {
        let nothing = String::new();
        CreateNote::new(nothing.as_str())
    }
}

impl ApiRequest for CreateNote {
    const ENDPOINT: &'static str = "/api/notes/create";

    type Return = ();
}

/// A post as it arrives in an event.
#[derive(Debug, PartialEq, Eq)]
pub struct Note {
    pub id: String,
    pub text: String,
    /// The id of the author.
    pub user_id: String,
    /// The author.
    pub user: User,
    /// The post that this one answers; `None` for a post that starts a thread.
    pub reply_id: Option<String>,
    pub visibility: NoteVisibility,
    /// The ids of the users mentioned in the post, in no particular order.
    pub mentions: Vec<String>,
}

/// `Note` as sequences of characters.
pub struct NoteView {
    pub id: Seq<char>,
    pub text: Seq<char>,
    pub user_id: Seq<char>,
    pub user: UserView,
    pub reply_id: Option<Seq<char>>,
    pub visibility: NoteVisibility,
    pub mentions: Seq<Seq<char>>,
}

impl View for Note {
    type V = NoteView;

    open spec fn view(&self) -> NoteView {
        NoteView {
            id: self.id@,
            text: self.text@,
            user_id: self.user_id@,
            user: self.user@,
            reply_id: self.reply_id.deep_view(),
            visibility: self.visibility,
            mentions: self.mentions.deep_view(),
        }
    }
}

impl NoteView {
    /// The answer to this post that says `text`: a post in the same thread,
    /// seen by whom this post is seen.
    pub open spec fn reply(self, text: Seq<char>) -> CreateNoteView {
        CreateNoteView {
            visibility: Some(self.visibility),
            reply_id: Some(self.id),
            ..CreateNoteView::plain(text)
        }
    }
}

impl Note {
    /// The request for an answer to this post that says `text`.
    pub fn reply(&self, text: &str) -> (request: CreateNote)
        ensures
            request@ == self@.reply(text@),
    {
        let mut request = CreateNote::new(text);
        request.visibility = Some(self.visibility);
        request.reply_id = Some(self.id.clone());
        request
    }
}

} // verus!
