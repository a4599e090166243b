//! Nicknames that users ask to be called by: taking the candidate out of a
//! message, bounding its length, and making it harmless to repeat in a post.

use crate::text::{all_white_space, chars_of, contains_phrase, is_blank, occurs_at, string_of};
use vstd::prelude::*;
use vstd::string::*;

verus! {

/// The largest number of characters a nickname may have, counted before it is
/// made safe.
pub const MAX_NICKNAME_LENGTH: usize = 15;

/// The character put behind a character that would start markup. It has no
/// width and is no white space.
pub const ZERO_WIDTH_SPACE: char = '\u{200b}';

/// The characters that start markup on their own: a tag, a function, a
/// hashtag, a mention, bold or italic text.
pub open spec fn is_markup_trigger(c: char) -> bool {
    c == '<' || c == '$' || c == '#' || c == '@' || c == '*'
}

/// The code points that set or change the direction of text.
pub open spec fn is_directional_control(c: char) -> bool {
    let n = c as u32;
    ||| n == 0x061c
    ||| n == 0x200e
    ||| n == 0x200f
    ||| 0x202a <= n <= 0x202e
    ||| 0x2066 <= n <= 0x2069
}

/// What separates a scheme from the rest of a link.
pub open spec fn scheme_mark() -> Seq<char> {
    seq![':', '/', '/']
}

/// What separates a link's label from its target.
pub open spec fn label_mark() -> Seq<char> {
    seq![']', '(']
}

/// `text` read from left to right, with a zero-width space put inside every
/// scheme mark and label mark and behind every markup trigger.
pub open spec fn guarded(text: Seq<char>) -> Seq<char>
    decreases text.len(),
{
    if text.len() == 0 {
        text
    } else if occurs_at(text, scheme_mark(), 0) {
        seq![':', ZERO_WIDTH_SPACE, '/', '/'] + guarded(text.skip(3))
    } else if occurs_at(text, label_mark(), 0) {
        seq![']', ZERO_WIDTH_SPACE, '('] + guarded(text.skip(2))
    } else if is_markup_trigger(text[0]) {
        seq![text[0], ZERO_WIDTH_SPACE] + guarded(text.skip(1))
    } else {
        seq![text[0]] + guarded(text.skip(1))
    }
}

/// `text` without its directional controls.
pub open spec fn undirected(text: Seq<char>) -> Seq<char>
    decreases text.len(),
{
    if text.len() == 0 {
        text
    } else if is_directional_control(text[0]) {
        undirected(text.skip(1))
    } else {
        seq![text[0]] + undirected(text.skip(1))
    }
}

/// The safe form of `name`: freed of directional controls first, then
/// guarded, so that no control can keep the parts of a mark apart while the
/// name is guarded.
pub open spec fn sanitized(name: Seq<char>) -> Seq<char> {
    guarded(undirected(name))
}

/// The nickname kept for `name`: its safe form, unless nothing but white
/// space is left of it.
pub open spec fn kept_nickname(name: Seq<char>) -> Option<Seq<char>> {
    if all_white_space(sanitized(name)) {
        None
    } else {
        Some(sanitized(name))
    }
}

fn is_trigger(c: char) -> (hit: bool)
    ensures
        hit == is_markup_trigger(c),
{
    c == '<' || c == '$' || c == '#' || c == '@' || c == '*'
}

fn is_directional(c: char) -> (hit: bool)
    ensures
        hit == is_directional_control(c),
{
    let n: u32 = c as u32;
    n == 0x061c || n == 0x200e || n == 0x200f || (0x202a <= n && n <= 0x202e) || (0x2066 <= n && n
        <= 0x2069)
}

fn guard(text: &[char]) -> (out: Vec<char>)
    ensures
        out@ == guarded(text@),
{
    let mut out: Vec<char> = Vec::new();
    let len: usize = text.len();
    let mut i: usize = 0;
    assert(text@.skip(0) =~= text@);
    while i < len
        invariant
            i <= len == text@.len(),
            out@ + guarded(text@.skip(i as int)) == guarded(text@),
        decreases len - i,
    {
        let c = text[i];
        let ghost before = out@;
        let ghost rest = text@.skip(i as int);
        proof {
            lemma_mark_chars(rest, 0);
            assert(rest[0] == c);
            if len - i > 1 {
                assert(rest[1] == text@[i + 1]);
            }
            if len - i > 2 {
                assert(rest[2] == text@[i + 2]);
            }
        }
        if c == ':' && len - i > 2 && text[i + 1] == '/' && text[i + 2] == '/' {
            out.push(':');
            out.push(ZERO_WIDTH_SPACE);
            out.push('/');
            out.push('/');
            proof {
                assert(rest.skip(3) =~= text@.skip(i + 3));
                assert(out@ =~= before + seq![':', ZERO_WIDTH_SPACE, '/', '/']);
                assert(out@ + guarded(text@.skip(i + 3)) =~= before + guarded(rest));
            }
            i += 3;
        } else if c == ']' && len - i > 1 && text[i + 1] == '(' {
            out.push(']');
            out.push(ZERO_WIDTH_SPACE);
            out.push('(');
            proof {
                assert(rest.skip(2) =~= text@.skip(i + 2));
                assert(out@ =~= before + seq![']', ZERO_WIDTH_SPACE, '(']);
                assert(out@ + guarded(text@.skip(i + 2)) =~= before + guarded(rest));
            }
            i += 2;
        } else if is_trigger(c) {
            out.push(c);
            out.push(ZERO_WIDTH_SPACE);
            proof {
                assert(rest.skip(1) =~= text@.skip(i + 1));
                assert(out@ =~= before + seq![c, ZERO_WIDTH_SPACE]);
                assert(out@ + guarded(text@.skip(i + 1)) =~= before + guarded(rest));
            }
            i += 1;
        } else {
            out.push(c);
            proof {
                assert(rest.skip(1) =~= text@.skip(i + 1));
                assert(out@ =~= before + seq![c]);
                assert(out@ + guarded(text@.skip(i + 1)) =~= before + guarded(rest));
            }
            i += 1;
        }
    }
    assert(out@ + guarded(text@.skip(i as int)) =~= out@);
    out
}

fn undirect(text: &[char]) -> (out: Vec<char>)
    ensures
        out@ == undirected(text@),
{
    let mut out: Vec<char> = Vec::new();
    let mut i: usize = 0;
    assert(text@.skip(0) =~= text@);
    while i < text.len()
        invariant
            i <= text@.len(),
            out@ + undirected(text@.skip(i as int)) == undirected(text@),
        decreases text@.len() - i,
    {
        let c = text[i];
        let ghost before = out@;
        let ghost rest = text@.skip(i as int);
        proof {
            assert(rest[0] == c);
            assert(rest.skip(1) =~= text@.skip(i + 1));
        }
        if !is_directional(c) {
            out.push(c);
            proof {
                assert(out@ + undirected(text@.skip(i + 1)) =~= before + undirected(rest));
            }
        }
        i += 1;
    }
    assert(out@ + undirected(text@.skip(i as int)) =~= out@);
    out
}

/// Makes `name` safe to repeat in a post, or refuses it.
///
/// The directional controls are taken out; after that a zero-width space
/// goes inside every `://` and `](` and behind every `<`, `$`, `#`, `@` and
/// `*`. A name of which only white space, or nothing, is left is refused.
pub fn sanitize_nickname(name: &str) -> (kept: Option<String>)
    ensures
        match kept {
            Some(nick) => kept_nickname(name@) == Some(nick@),
            None => kept_nickname(name@) is None,
        },
        kept matches Some(nick) ==> has_no_link_mark(nick@) && triggers_are_defused(nick@)
            && has_no_directional_control(nick@),
{
    proof {
        lemma_sanitized_is_inert(name@);
    }
    let raw = chars_of(name);
    let plain = undirect(raw.as_slice());
    let safe = guard(plain.as_slice());
    if is_blank(safe.as_slice()) {
        None
    } else {
        Some(string_of(safe.as_slice()))
    }
}

/// What became of a request to be called by a nickname.
#[derive(Debug, PartialEq, Eq)]
pub enum NicknameResult {
    /// The message does not ask for a nickname in the expected form.
    NotFound,
    /// The candidate has more than `MAX_NICKNAME_LENGTH` characters.
    TooLong,
    /// Nothing but white space is left of the candidate once it is safe.
    Invalid,
    /// The nickname to store, in its safe form.
    Accepted(String),
}

/// `NicknameResult` with the nickname as a sequence of characters.
pub enum NicknameVerdict {
    NotFound,
    TooLong,
    Invalid,
    Accepted(Seq<char>),
}

impl View for NicknameResult {
    type V = NicknameVerdict;

    open spec fn view(&self) -> NicknameVerdict {
        match self {
            NicknameResult::NotFound => NicknameVerdict::NotFound,
            NicknameResult::TooLong => NicknameVerdict::TooLong,
            NicknameResult::Invalid => NicknameVerdict::Invalid,
            NicknameResult::Accepted(nick) => NicknameVerdict::Accepted(nick@),
        }
    }
}

/// The verdict on a candidate taken out of a message, if one was found.
pub open spec fn verdict(candidate: Option<Seq<char>>) -> NicknameVerdict {
    match candidate {
        None => NicknameVerdict::NotFound,
        Some(name) => if name.len() > MAX_NICKNAME_LENGTH {
            NicknameVerdict::TooLong
        } else {
            match kept_nickname(name) {
                None => NicknameVerdict::Invalid,
                Some(nick) => NicknameVerdict::Accepted(nick),
            }
        },
    }
}

/// Judges a candidate: none gives `NotFound`, one of more than
/// `MAX_NICKNAME_LENGTH` characters `TooLong`, one that cannot be made
/// safe `Invalid`, any other `Accepted` with its safe form.
pub fn judge_nickname(candidate: Option<&str>) -> (result: NicknameResult)
    ensures
        result@ == verdict(
            match candidate {
                Some(name) => Some(name@),
                None => None,
            },
        ),
{
    match candidate {
        None => NicknameResult::NotFound,
        Some(name) => {
            if name.unicode_len() > MAX_NICKNAME_LENGTH {
                NicknameResult::TooLong
            } else {
                match sanitize_nickname(name) {
                    None => NicknameResult::Invalid,
                    Some(nick) => NicknameResult::Accepted(nick),
                }
            }
        },
    }
}

/// The pattern of a request for a nickname: a mention, the candidate, and
/// one of the two closing phrases. The candidate is its first group.
pub fn nickname_pattern() -> (pattern: &'static str)
    ensures
        pattern@ == nickname_pattern_text(),
{
    r"@\S+\s*(.+)\s*(と呼んで|って呼んで)"
}

/// The text of the pattern of `nickname_pattern`.
pub closed spec fn nickname_pattern_text() -> Seq<char> {
    r"@\S+\s*(.+)\s*(と呼んで|って呼んで)"@
}

/// The group of the pattern that holds the candidate.
pub const CANDIDATE_GROUP: usize = 1;

/// What the group with the index `group` of `pattern` holds in the leftmost
/// match in `text`: `None` where `pattern` is no regular expression, where
/// it matches nowhere in `text`, where it has no such group, and where the
/// group takes no part in the match.
pub uninterp spec fn captured(pattern: Seq<char>, text: Seq<char>, group: usize) -> Option<
    Seq<char>,
>;

/// Compiles `pattern` with `regex::Regex::new`, searches `text` with
/// `Regex::captures` and copies out what `Captures::get(group)` matched.
/// The contract only names the result: it claims that the same pattern,
/// text and index always give the same capture.
#[verifier::external_body]
fn capture(pattern: &str, text: &str, group: usize) -> (found: Option<String>)
    ensures
        match found {
            Some(part) => captured(pattern@, text@, group) == Some(part@),
            None => captured(pattern@, text@, group) is None,
        },
{
    let re = regex::Regex::new(pattern).ok()?;
    let caps = re.captures(text)?;
    caps.get(group).map(|m| m.as_str().to_owned())
}

/// What a message holds as the candidate for a nickname, if it asks for
/// one.
pub open spec fn candidate(text: Seq<char>) -> Option<Seq<char>> {
    captured(nickname_pattern_text(), text, CANDIDATE_GROUP)
}

/// Takes the nickname out of a message that asks for one, and judges it as
/// `judge_nickname` does.
pub fn extract_nickname(text: &str) -> (result: NicknameResult)
    ensures
        result@ == verdict(candidate(text@)),
{
    match capture(nickname_pattern(), text, CANDIDATE_GROUP) {
        None => judge_nickname(None),
        Some(part) => judge_nickname(Some(part.as_str())),
    }
}

/// `text` holds neither a scheme mark nor a label mark.
pub open spec fn has_no_link_mark(text: Seq<char>) -> bool {
    !contains_phrase(text, scheme_mark()) && !contains_phrase(text, label_mark())
}

/// Every markup trigger in `text` has a zero-width space right behind it.
pub open spec fn triggers_are_defused(text: Seq<char>) -> bool {
    forall|i: int|
        0 <= i < text.len() && is_markup_trigger(#[trigger] text[i]) ==> i + 1 < text.len()
            && text[i + 1] == ZERO_WIDTH_SPACE
}

/// `text` holds no directional control.
pub open spec fn has_no_directional_control(text: Seq<char>) -> bool {
    forall|i: int| 0 <= i < text.len() ==> !is_directional_control(#[trigger] text[i])
}

/// What `occurs_at` says of the two marks, character by character.
proof fn lemma_mark_chars(text: Seq<char>, at: int)
    ensures
        occurs_at(text, scheme_mark(), at) <==> (0 <= at && at + 3 <= text.len() && text[at] == ':'
            && text[at + 1] == '/' && text[at + 2] == '/'),
        occurs_at(text, label_mark(), at) <==> (0 <= at && at + 2 <= text.len() && text[at] == ']'
            && text[at + 1] == '('),
{
    if 0 <= at && at + 3 <= text.len() {
        let window = text.subrange(at, at + 3);
        assert(window[0] == text[at] && window[1] == text[at + 1] && window[2] == text[at + 2]);
        if text[at] == ':' && text[at + 1] == '/' && text[at + 2] == '/' {
            assert(window =~= scheme_mark());
        }
    }
    if 0 <= at && at + 2 <= text.len() {
        let window = text.subrange(at, at + 2);
        assert(window[0] == text[at] && window[1] == text[at + 1]);
        if text[at] == ']' && text[at + 1] == '(' {
            assert(window =~= label_mark());
        }
    }
}

/// Guarding keeps the first character in its place.
proof fn lemma_guarded_head(text: Seq<char>)
    requires
        text.len() > 0,
    ensures
        guarded(text).len() > 0,
        guarded(text)[0] == text[0],
{
    lemma_mark_chars(text, 0);
}

/// Guarded text holds no scheme mark and no label mark, whatever it was made
/// from.
pub proof fn lemma_guarded_has_no_link_mark(text: Seq<char>)
    ensures
        has_no_link_mark(guarded(text)),
    decreases text.len(),
{
    let g = guarded(text);
    if text.len() > 0 {
        lemma_mark_chars(text, 0);
        let cut: int = if occurs_at(text, scheme_mark(), 0) {
            3
        } else if occurs_at(text, label_mark(), 0) {
            2
        } else {
            1
        };
        let tail = guarded(text.skip(cut));
        let head_len = g.len() - tail.len();
        lemma_guarded_has_no_link_mark(text.skip(cut));
        assert forall|at: int|
            !occurs_at(g, scheme_mark(), at) && !occurs_at(g, label_mark(), at) by {
            lemma_mark_chars(g, at);
            if at < 0 {
            } else if at >= head_len {
                lemma_mark_chars(tail, at - head_len);
                assert(!occurs_at(tail, scheme_mark(), at - head_len));
                assert(!occurs_at(tail, label_mark(), at - head_len));
                if at + 2 <= g.len() {
                    assert(g[at] == tail[at - head_len]);
                    assert(g[at + 1] == tail[at - head_len + 1]);
                }
                if at + 3 <= g.len() {
                    assert(g[at + 2] == tail[at - head_len + 2]);
                }
            } else if cut == 3 {
                assert(g[0] == ':' && g[1] == ZERO_WIDTH_SPACE && g[2] == '/' && g[3] == '/');
            } else if cut == 2 {
                assert(g[0] == ']' && g[1] == ZERO_WIDTH_SPACE && g[2] == '(');
            } else if is_markup_trigger(text[0]) {
                assert(g[0] == text[0] && g[1] == ZERO_WIDTH_SPACE);
            } else {
                // A lone ':' or ']' stays apart from what would complete it.
                assert(at == 0 && g[0] == text[0]);
                if text.len() > 1 {
                    lemma_guarded_head(text.skip(1));
                    assert(g[1] == tail[0] && tail[0] == text[1]);
                    if text[1] == '/' {
                        lemma_mark_chars(text.skip(1), 0);
                        let after = guarded(text.skip(1).skip(1));
                        assert(tail == seq!['/'] + after);
                        if text.len() > 2 {
                            assert(text.skip(1).skip(1) =~= text.skip(2));
                            lemma_guarded_head(text.skip(2));
                            assert(g[2] == tail[1] && tail[1] == after[0] && after[0] == text[2]);
                        } else {
                            assert(text.skip(1).skip(1).len() == 0);
                            assert(g.len() == 2);
                        }
                    }
                } else {
                    assert(text.skip(1).len() == 0);
                    assert(g.len() == 1);
                }
            }
        }
    } else {
        assert forall|at: int|
            !occurs_at(g, scheme_mark(), at) && !occurs_at(g, label_mark(), at) by {
            lemma_mark_chars(g, at);
        }
    }
}

/// In guarded text every markup trigger has a zero-width space behind it.
proof fn lemma_guarded_defuses_triggers(text: Seq<char>)
    ensures
        triggers_are_defused(guarded(text)),
    decreases text.len(),
{
    let g = guarded(text);
    if text.len() > 0 {
        lemma_mark_chars(text, 0);
        let cut: int = if occurs_at(text, scheme_mark(), 0) {
            3
        } else if occurs_at(text, label_mark(), 0) {
            2
        } else {
            1
        };
        let tail = guarded(text.skip(cut));
        let head_len = g.len() - tail.len();
        lemma_guarded_defuses_triggers(text.skip(cut));
        assert forall|i: int| 0 <= i < g.len() && is_markup_trigger(#[trigger] g[i]) implies i + 1
            < g.len() && g[i + 1] == ZERO_WIDTH_SPACE by {
            if i >= head_len {
                assert(g[i] == tail[i - head_len]);
                assert(g[i + 1] == tail[i - head_len + 1]);
            }
        }
    }
}

/// Text freed of directional controls holds none.
proof fn lemma_undirected_has_no_control(text: Seq<char>)
    ensures
        has_no_directional_control(undirected(text)),
    decreases text.len(),
{
    if text.len() > 0 {
        lemma_undirected_has_no_control(text.skip(1));
        let u = undirected(text);
        let tail = undirected(text.skip(1));
        assert forall|i: int| 0 <= i < u.len() implies !is_directional_control(#[trigger] u[i]) by {
            if !is_directional_control(text[0]) && i > 0 {
                assert(u[i] == tail[i - 1]);
            }
        }
    }
}

/// Guarding brings no directional control into a text that has none.
proof fn lemma_guarded_of_plain(text: Seq<char>)
    requires
        has_no_directional_control(text),
    ensures
        has_no_directional_control(guarded(text)),
    decreases text.len(),
{
    let g = guarded(text);
    if text.len() > 0 {
        lemma_mark_chars(text, 0);
        let cut: int = if occurs_at(text, scheme_mark(), 0) {
            3
        } else if occurs_at(text, label_mark(), 0) {
            2
        } else {
            1
        };
        let rest = text.skip(cut);
        let tail = guarded(rest);
        let head_len = g.len() - tail.len();
        assert forall|i: int| 0 <= i < rest.len() implies !is_directional_control(
            #[trigger] rest[i],
        ) by {
            assert(rest[i] == text[i + cut]);
        }
        lemma_guarded_of_plain(rest);
        assert(text[0] == text[0]);
        assert forall|i: int| 0 <= i < g.len() implies !is_directional_control(#[trigger] g[i]) by {
            if i >= head_len {
                assert(g[i] == tail[i - head_len]);
            }
        }
    }
}

/// A nickname in its safe form is inert, whatever name it was made from. It
/// cannot start markup: each `<`, `$`, `#`, `@` and `*` in it has a
/// zero-width space right behind it. It cannot be read as a link: it holds
/// no `://` and no `](`. And it cannot turn the direction of the text around
/// it: it holds no directional control.
pub proof fn lemma_sanitized_is_inert(name: Seq<char>)
    ensures
        triggers_are_defused(sanitized(name)),
        has_no_link_mark(sanitized(name)),
        has_no_directional_control(sanitized(name)),
{
    lemma_guarded_defuses_triggers(undirected(name));
    lemma_guarded_has_no_link_mark(undirected(name));
    lemma_undirected_has_no_control(name);
    lemma_guarded_of_plain(undirected(name));
}

/// A candidate is stored only in its safe form, and never when it is longer
/// than `MAX_NICKNAME_LENGTH` or when only white space is left of it.
pub proof fn lemma_verdict_accepts_only_safe_names(candidate: Option<Seq<char>>)
    ensures
        verdict(candidate) matches NicknameVerdict::Accepted(nick) ==> {
            &&& candidate matches Some(name)
            &&& name.len() <= MAX_NICKNAME_LENGTH
            &&& nick == sanitized(name)
            &&& !all_white_space(nick)
            &&& nick.len() > 0
        },
        candidate matches Some(name) && name.len() > MAX_NICKNAME_LENGTH ==> verdict(candidate)
            == NicknameVerdict::TooLong,
        candidate matches Some(name) && name.len() <= MAX_NICKNAME_LENGTH && all_white_space(
            sanitized(name),
        ) ==> verdict(candidate) == NicknameVerdict::Invalid,
{
}

} // verus!
