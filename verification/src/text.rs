//! Text primitives on sequences of characters: searching, trimming,
//! rendering numbers, and moving between `str` and `Vec<char>`.

use vstd::prelude::*;
use vstd::string::*;

verus! {

/// `std::string::String::push` appends one character to the end of the string.
pub assume_specification[ String::push ](s: &mut String, ch: char)
    ensures
        final(s)@ == old(s)@.push(ch),
;

/// `phrase` stands in `text` starting at index `at`.
pub open spec fn occurs_at(text: Seq<char>, phrase: Seq<char>, at: int) -> bool {
    &&& 0 <= at
    &&& at + phrase.len() <= text.len()
    &&& text.subrange(at, at + phrase.len()) == phrase
}

/// `phrase` stands somewhere in `text`.
pub open spec fn contains_phrase(text: Seq<char>, phrase: Seq<char>) -> bool {
    exists|at: int| occurs_at(text, phrase, at)
}

/// `text` ends with `phrase`.
pub open spec fn ends_with_phrase(text: Seq<char>, phrase: Seq<char>) -> bool {
    occurs_at(text, phrase, text.len() - phrase.len())
}

/// The code points with the Unicode property `White_Space`.
pub open spec fn is_white_space(c: char) -> bool {
    let n = c as u32;
    ||| 0x09 <= n <= 0x0d
    ||| n == 0x20
    ||| n == 0x85
    ||| n == 0xa0
    ||| n == 0x1680
    ||| 0x2000 <= n <= 0x200a
    ||| n == 0x2028
    ||| n == 0x2029
    ||| n == 0x202f
    ||| n == 0x205f
    ||| n == 0x3000
}

/// Every character of `text` is white space (true of the empty text).
pub open spec fn all_white_space(text: Seq<char>) -> bool {
    forall|i: int| 0 <= i < text.len() ==> is_white_space(#[trigger] text[i])
}

/// `text` without the white space at its end.
pub open spec fn trimmed_end(text: Seq<char>) -> Seq<char>
    decreases text.len(),
{
    if text.len() > 0 && is_white_space(text.last()) {
        trimmed_end(text.drop_last())
    } else {
        text
    }
}

/// The decimal digit for `d`, for `d` below ten.
pub open spec fn digit(d: nat) -> char {
    (0x30 + d) as char
}

/// `n` written in base ten, without leading zeros.
pub open spec fn decimal(n: nat) -> Seq<char>
    decreases n,
{
    if n < 10 {
        seq![digit(n)]
    } else {
        decimal(n / 10).push(digit(n % 10))
    }
}

/// The parts put one behind the other.
pub open spec fn glued(parts: Seq<Seq<char>>) -> Seq<char>
    decreases parts.len(),
{
    if parts.len() == 0 {
        Seq::empty()
    } else {
        glued(parts.drop_last()) + parts.last()
    }
}

/// The texts of `parts`, in order.
pub open spec fn parts_view(parts: Seq<&str>) -> Seq<Seq<char>> {
    Seq::new(parts.len(), |i: int| parts[i]@)
}

/// The parts put one behind the other.
pub fn glue(parts: &Vec<&str>) -> (whole: String)
    ensures
        whole@ == glued(parts_view(parts@)),
{
    let mut whole = String::new();
    let mut i: usize = 0;
    assert(parts_view(parts@).take(0) =~= Seq::empty());
    while i < parts.len()
        invariant
            i <= parts@.len(),
            whole@ == glued(parts_view(parts@).take(i as int)),
        decreases parts@.len() - i,
    {
        proof {
            let seen = parts_view(parts@).take(i + 1);
            assert(seen.drop_last() =~= parts_view(parts@).take(i as int));
            assert(seen.last() == parts@[i as int]@);
        }
        whole.append(parts[i]);
        i += 1;
    }
    assert(parts_view(parts@).take(i as int) =~= parts_view(parts@));
    whole
}

/// Whether `a` and `b` are the same text.
pub fn same_text(a: &str, b: &str) -> (same: bool)
    ensures
        same == (a@ == b@),
{
    let left: String = a.to_owned();
    let right: String = b.to_owned();
    left == right
}

/// Whether `item` is one of `list`.
pub fn has_text(list: &Vec<String>, item: &str) -> (found: bool)
    ensures
        found == list.deep_view().contains(item@),
{
    let mut i: usize = 0;
    while i < list.len()
        invariant
            i <= list@.len(),
            forall|j: int| 0 <= j < i ==> list.deep_view()[j] != item@,
        decreases list@.len() - i,
    {
        if same_text(list[i].as_str(), item) {
            assert(list.deep_view()[i as int] == item@);
            return true;
        }
        i += 1;
    }
    false
}

/// A copy of `text`, if there is one.
pub fn copy_opt_text(text: &Option<String>) -> (copy: Option<String>)
    ensures
        copy.deep_view() == text.deep_view(),
{
    match text {
        Some(t) => Some(t.clone()),
        None => None,
    }
}

/// A copy of each of `texts`, in order.
pub fn copy_texts(texts: &Vec<String>) -> (copy: Vec<String>)
    ensures
        copy.deep_view() == texts.deep_view(),
{
    let mut copy: Vec<String> = Vec::new();
    let mut i: usize = 0;
    while i < texts.len()
        invariant
            i <= texts@.len(),
            copy@.len() == i,
            forall|j: int| 0 <= j < i ==> copy@[j]@ == texts@[j]@,
        decreases texts@.len() - i,
    {
        copy.push(texts[i].clone());
        i += 1;
    }
    assert(copy.deep_view() =~= texts.deep_view());
    copy
}

/// The characters of `s`, in order.
pub fn chars_of(s: &str) -> (v: Vec<char>)
    ensures
        v@ == s@,
{
    let mut v: Vec<char> = Vec::new();
    for c in it: s.chars()
        invariant
            it.seq() == s@,
            v@ == s@.take(it.index() as int),
    {
        v.push(c);
    }
    v
}

/// The string made of `chars`, in order.
pub fn string_of(chars: &[char]) -> (s: String)
    ensures
        s@ == chars@,
{
    let mut s = String::new();
    let mut i: usize = 0;
    while i < chars.len()
        invariant
            i <= chars@.len(),
            s@ == chars@.take(i as int),
        decreases chars@.len() - i,
    {
        s.push(chars[i]);
        i += 1;
    }
    s
}

/// Whether `phrase` stands in `text` at index `at`.
pub fn matches_at(text: &[char], phrase: &[char], at: usize) -> (hit: bool)
    ensures
        hit == occurs_at(text@, phrase@, at as int),
{
    if at > text.len() || phrase.len() > text.len() - at {
        return false;
    }
    let mut k: usize = 0;
    while k < phrase.len()
        invariant
            k <= phrase@.len(),
            at + phrase@.len() <= text@.len() <= usize::MAX,
            forall|j: int| 0 <= j < k ==> text@[at + j] == phrase@[j],
        decreases phrase@.len() - k,
    {
        if text[at + k] != phrase[k] {
            proof {
                let window = text@.subrange(at as int, at + phrase@.len());
                assert(window[k as int] == text@[at + k]);
            }
            return false;
        }
        k += 1;
    }
    assert(text@.subrange(at as int, at + phrase@.len()) =~= phrase@);
    true
}

/// Whether `phrase` stands somewhere in `text`. The empty phrase stands in
/// every text.
pub fn contains_chars(text: &[char], phrase: &[char]) -> (found: bool)
    ensures
        found == contains_phrase(text@, phrase@),
{
    if phrase.len() > text.len() {
        return false;
    }
    let last: usize = text.len() - phrase.len();
    let mut at: usize = 0;
    loop
        invariant
            last == text@.len() - phrase@.len(),
            at <= last,
            forall|j: int| 0 <= j < at ==> !occurs_at(text@, phrase@, j),
        decreases last - at,
    {
        if matches_at(text, phrase, at) {
            return true;
        }
        if at == last {
            return false;
        }
        at += 1;
    }
}

/// Whether `phrase` stands somewhere in `text`.
pub fn contains(text: &str, phrase: &str) -> (found: bool)
    ensures
        found == contains_phrase(text@, phrase@),
{
    let t = chars_of(text);
    let p = chars_of(phrase);
    contains_chars(t.as_slice(), p.as_slice())
}

/// Whether `c` is white space.
pub fn is_whitespace(c: char) -> (white: bool)
    ensures
        white == is_white_space(c),
{
    let n: u32 = c as u32;
    (0x09 <= n && n <= 0x0d) || n == 0x20 || n == 0x85 || n == 0xa0 || n == 0x1680 || (0x2000 <= n
        && n <= 0x200a) || n == 0x2028 || n == 0x2029 || n == 0x202f || n == 0x205f || n == 0x3000
}

/// Whether every character of `text` is white space.
pub fn is_blank(text: &[char]) -> (blank: bool)
    ensures
        blank == all_white_space(text@),
{
    let mut i: usize = 0;
    while i < text.len()
        invariant
            i <= text@.len(),
            forall|j: int| 0 <= j < i ==> is_white_space(#[trigger] text@[j]),
        decreases text@.len() - i,
    {
        if !is_whitespace(text[i]) {
            return false;
        }
        i += 1;
    }
    true
}

/// The length of `text` once the white space at its end is cut off.
pub fn trimmed_end_len(text: &[char]) -> (end: usize)
    ensures
        end <= text@.len(),
        text@.take(end as int) == trimmed_end(text@),
{
    let mut end: usize = text.len();
    assert(text@.take(end as int) =~= text@);
    while end > 0 && is_whitespace(text[end - 1])
        invariant
            end <= text@.len(),
            trimmed_end(text@.take(end as int)) == trimmed_end(text@),
        decreases end,
    {
        proof {
            let cur = text@.take(end as int);
            assert(cur.last() == text@[end - 1]);
            assert(cur.drop_last() =~= text@.take(end - 1));
        }
        end -= 1;
    }
    proof {
        let cur = text@.take(end as int);
        if end > 0 {
            assert(cur.last() == text@[end - 1]);
        }
    }
    end
}

/// Whether `text`, with the white space at its end cut off, ends with
/// `phrase`.
pub fn trimmed_ends_with(text: &[char], phrase: &[char]) -> (hit: bool)
    ensures
        hit == ends_with_phrase(trimmed_end(text@), phrase@),
{
    let end = trimmed_end_len(text);
    if phrase.len() > end {
        return false;
    }
    let at: usize = end - phrase.len();
    let mut k: usize = 0;
    while k < phrase.len()
        invariant
            k <= phrase@.len(),
            at + phrase@.len() == end,
            end <= text@.len(),
            text@.take(end as int) == trimmed_end(text@),
            forall|j: int| 0 <= j < k ==> text@[at + j] == phrase@[j],
        decreases phrase@.len() - k,
    {
        if text[at + k] != phrase[k] {
            proof {
                let body = text@.take(end as int);
                let window = body.subrange(at as int, at + phrase@.len());
                assert(window[k as int] == text@[at + k]);
            }
            return false;
        }
        k += 1;
    }
    assert(text@.take(end as int).subrange(at as int, at + phrase@.len()) =~= phrase@);
    true
}

/// `n` in base ten.
pub fn decimal_string(n: u32) -> (s: String)
    ensures
        s@ == decimal(n as nat),
{
    let mut digits: Vec<char> = Vec::new();
    let mut rest: u32 = n;
    // The digits are produced from the last to the first.
    while rest >= 10
        invariant
            decimal(n as nat) == decimal(rest as nat) + digits@.reverse(),
        decreases rest,
    {
        let d: u32 = rest % 10;
        let c = digit_char(d);
        proof {
            let before = digits@;
            let after = digits@.push(c);
            assert(after.reverse() =~= seq![c] + before.reverse());
            assert(decimal(rest as nat) == decimal((rest / 10) as nat).push(c));
            assert(decimal((rest / 10) as nat).push(c) + before.reverse() =~= decimal(
                (rest / 10) as nat,
            ) + after.reverse());
        }
        digits.push(c);
        rest = rest / 10;
    }
    let mut s = String::new();
    s.push(digit_char(rest));
    assert(s@ =~= decimal(rest as nat));
    let mut i: usize = digits.len();
    while i > 0
        invariant
            i <= digits@.len(),
            s@ == decimal(rest as nat) + digits@.reverse().take(digits@.len() - i),
        decreases i,
    {
        i -= 1;
        proof {
            let r = digits@.reverse();
            let k = digits@.len() - i - 1;
            assert(r[k] == digits@[i as int]);
            assert(r.take(k + 1) =~= r.take(k).push(r[k]));
        }
        s.push(digits[i]);
    }
    assert(digits@.reverse().take(digits@.len() as int) =~= digits@.reverse());
    s
}

/// The character for the digit `d`.
fn digit_char(d: u32) -> (c: char)
    requires
        d < 10,
    ensures
        c == digit(d as nat),
{
    if d == 0 {
        '0'
    } else if d == 1 {
        '1'
    } else if d == 2 {
        '2'
    } else if d == 3 {
        '3'
    } else if d == 4 {
        '4'
    } else if d == 5 {
        '5'
    } else if d == 6 {
        '6'
    } else if d == 7 {
        '7'
    } else if d == 8 {
        '8'
    } else {
        '9'
    }
}

} // verus!
