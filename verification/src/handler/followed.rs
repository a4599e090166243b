//! The welcome for a user who starts to follow the bot.

use crate::handler::{script_view, Context, ContextView, Effect, EffectView};
use crate::misskey::notes::{CreateNote, CreateNoteView};
use crate::misskey::users::{User, UserView};
use crate::text::{glue, glued, parts_view, same_text};
use vstd::prelude::*;

verus! {

/// What stands before the mention of the new follower.
pub const WELCOME_OPENING: &'static str = "フォローありがとうございます、";

/// What stands behind the mention of the new follower.
pub const WELCOME_CLOSING: &'static str = "さん\n「フォローして」とメンションしながら投稿すると、フォローバックするよ";

/// The welcome for the user whose mention tag is `mention`.
pub open spec fn welcome_text(mention: Seq<char>) -> Seq<char> {
    glued(seq![WELCOME_OPENING@, mention, WELCOME_CLOSING@])
}

/// A new follower is welcomed unless the account is flagged as automated or
/// is the bot itself.
pub open spec fn is_welcomed(user: UserView, ctx: ContextView) -> bool {
    !user.is_bot && user.id != ctx.self_id
}

/// What is done for a new follower: one post that welcomes the user by the
/// mention tag and is no answer to any post; nothing for a user who is not
/// welcomed.
pub open spec fn on_follow_spec(user: UserView, ctx: ContextView) -> Seq<EffectView> {
    if is_welcomed(user, ctx) {
        seq![EffectView::CreateNote(CreateNoteView::plain(welcome_text(user.mention())))]
    } else {
        Seq::empty()
    }
}

/// Whether `user` is welcomed as a new follower.
pub fn welcomes(user: &User, ctx: &Context) -> (welcomed: bool)
    ensures
        welcomed == is_welcomed(user@, ctx@),
{
    !user.is_bot && !same_text(user.id.as_str(), ctx.self_id.as_str())
}

/// What is done for the new follower `user`.
pub fn on_follow(user: &User, ctx: &Context) -> (script: Vec<Effect>)
    ensures
        script_view(script@) == on_follow_spec(user@, ctx@),
{
    let mut script: Vec<Effect> = Vec::new();
    if welcomes(user, ctx) {
        let mention = user.mention();
        let parts = vec![WELCOME_OPENING, mention.as_str(), WELCOME_CLOSING];
        assert(parts_view(parts@) =~= seq![WELCOME_OPENING@, mention@, WELCOME_CLOSING@]);
        let text = glue(&parts);
        script.push(Effect::CreateNote(CreateNote::new(text.as_str())));
    }
    assert(script_view(script@) =~= on_follow_spec(user@, ctx@));
    script
}

} // verus!
