//! Reading banners: the words of a line, and the room or the name that a
//! banner announces at a fixed place among them.

use vstd::prelude::*;
use vstd::string::*;
use crate::text::{chars_of, cut, has_prefix};

verus! {

/// The ASCII white space that parts the words of a line: space, tab, line
/// feed, form feed and carriage return.
pub open spec fn is_space(c: char) -> bool {
    c == ' ' || c == '\t' || c == '\n' || c == '\x0C' || c == '\r'
}

/// The first position at or after `from` that holds no white space, or the
/// length of `s`.
pub open spec fn skip_spaces(s: Seq<char>, from: int) -> int
    decreases s.len() - from,
{
    if from < 0 || from >= s.len() {
        s.len() as int
    } else if !is_space(s[from]) {
        from
    } else {
        skip_spaces(s, from + 1)
    }
}

/// The first position at or after `from` that holds white space, or the
/// length of `s`.
pub open spec fn skip_word(s: Seq<char>, from: int) -> int
    decreases s.len() - from,
{
    if from < 0 || from >= s.len() {
        s.len() as int
    } else if is_space(s[from]) {
        from
    } else {
        skip_word(s, from + 1)
    }
}

/// Where the word with index `n` among the words of `s` at or after `from`
/// begins and ends, if there are that many. A word is a longest stretch
/// without white space.
pub open spec fn word_bounds(s: Seq<char>, n: nat, from: int) -> Option<(int, int)>
    decreases n,
{
    let start = skip_spaces(s, from);
    if start >= s.len() {
        None
    } else if n == 0 {
        Some((start, skip_word(s, start)))
    } else {
        word_bounds(s, (n - 1) as nat, skip_word(s, start))
    }
}

/// The word with index `n` of `s`, counted from 0, if `s` has that many.
pub open spec fn word(s: Seq<char>, n: nat) -> Option<Seq<char>> {
    match word_bounds(s, n, 0) {
        Some((start, end)) => Some(s.subrange(start, end)),
        None => None,
    }
}

/// `skip_spaces` stays within the line, and stops on a character that is no
/// white space.
pub proof fn lemma_skip_spaces(s: Seq<char>, from: int)
    requires
        0 <= from <= s.len(),
    ensures
        from <= skip_spaces(s, from) <= s.len(),
        skip_spaces(s, from) < s.len() ==> !is_space(s[skip_spaces(s, from)]),
        forall|j: int| from <= j < skip_spaces(s, from) ==> is_space(s[j]),
    decreases s.len() - from,
{
    if from < s.len() && is_space(s[from]) {
        lemma_skip_spaces(s, from + 1);
    }
}

/// `skip_word` stays within the line, and passes over no white space.
pub proof fn lemma_skip_word(s: Seq<char>, from: int)
    requires
        0 <= from <= s.len(),
    ensures
        from <= skip_word(s, from) <= s.len(),
        skip_word(s, from) < s.len() ==> is_space(s[skip_word(s, from)]),
        forall|j: int| from <= j < skip_word(s, from) ==> !is_space(s[j]),
    decreases s.len() - from,
{
    if from < s.len() && !is_space(s[from]) {
        lemma_skip_word(s, from + 1);
    }
}

/// A word that `word_bounds` finds lies within the line at or after `from`,
/// is not empty and holds no white space.
pub proof fn lemma_word_bounds(s: Seq<char>, n: nat, from: int)
    requires
        0 <= from <= s.len(),
    ensures
        match word_bounds(s, n, from) {
            Some((start, end)) => from <= start < end <= s.len() && forall|j: int|
                start <= j < end ==> !is_space(s[j]),
            None => true,
        },
    decreases n,
{
    lemma_skip_spaces(s, from);
    let start = skip_spaces(s, from);
    if start < s.len() {
        lemma_skip_word(s, start);
        lemma_skip_word(s, start + 1);
        if n > 0 {
            lemma_word_bounds(s, (n - 1) as nat, skip_word(s, start));
        }
    }
}

/// Every word of a line has at least one character and no white space.
pub proof fn lemma_word_is_solid(s: Seq<char>, n: nat)
    ensures
        word(s, n) is Some ==> word(s, n)->0.len() > 0 && forall|j: int|
            0 <= j < word(s, n)->0.len() ==> !is_space(#[trigger] word(s, n)->0[j]),
{
    lemma_word_bounds(s, n, 0);
}

/// Whether `c` is ASCII white space.
pub fn is_space_char(c: char) -> (b: bool)
    ensures
        b == is_space(c),
{
    c == ' ' || c == '\t' || c == '\n' || c == '\x0C' || c == '\r'
}

/// The word with index `n` of `text`, counted from 0, where words are parted
/// by ASCII white space; `None` when `text` has no more than `n` words.
pub fn nth_word(text: &str, n: usize) -> (found: Option<String>)
    ensures
        found is Some <==> word(text@, n as nat) is Some,
        found is Some ==> word(text@, n as nat) == Some(found->0@),
{
    let chars = chars_of(text);
    let len: usize = chars.len();
    let mut pos: usize = 0;
    let mut left: usize = n;
    loop
        invariant
            chars@ == text@,
            len == text@.len(),
            pos <= len,
            left <= n,
            word_bounds(text@, n as nat, 0) == word_bounds(text@, left as nat, pos as int),
        decreases left,
    {
        let ghost from = pos;
        while pos < len && is_space_char(chars[pos])
            invariant
                chars@ == text@,
                len == text@.len(),
                from <= pos <= len,
                skip_spaces(text@, from as int) == skip_spaces(text@, pos as int),
            decreases len - pos,
        {
            pos += 1;
        }
        if pos >= len {
            return None;
        }
        let start: usize = pos;
        while pos < len && !is_space_char(chars[pos])
            invariant
                chars@ == text@,
                len == text@.len(),
                start <= pos <= len,
                skip_word(text@, start as int) == skip_word(text@, pos as int),
            decreases len - pos,
        {
            pos += 1;
        }
        if left == 0 {
            return Some(cut(text, start, pos));
        }
        left -= 1;
    }
}

/// How a banner begins that welcomes the user to a room.
pub open spec fn welcome_mark() -> Seq<char> {
    "*** Welcome to"@
}

/// How a banner begins that tells the user a new name.
pub open spec fn rename_mark() -> Seq<char> {
    "*** You are now"@
}

/// The room that a line announces: the fourth word of a welcome banner.
pub open spec fn room_in(text: Seq<char>) -> Option<Seq<char>> {
    if welcome_mark().is_prefix_of(text) {
        word(text, 3)
    } else {
        None
    }
}

/// The name that a line announces: the fifth word of a rename banner.
pub open spec fn nick_in(text: Seq<char>) -> Option<Seq<char>> {
    if rename_mark().is_prefix_of(text) {
        word(text, 4)
    } else {
        None
    }
}

/// The room that `text` announces, if it is a welcome banner that names one.
pub fn banner_room(text: &str) -> (room: Option<String>)
    ensures
        room is Some <==> room_in(text@) is Some,
        room is Some ==> room_in(text@) == Some(room->0@),
{
    if has_prefix(text, "*** Welcome to") {
        nth_word(text, 3)
    } else {
        None
    }
}

/// The name that `text` announces, if it is a rename banner that gives one.
pub fn banner_nick(text: &str) -> (nick: Option<String>)
    ensures
        nick is Some <==> nick_in(text@) is Some,
        nick is Some ==> nick_in(text@) == Some(nick->0@),
{
    if has_prefix(text, "*** You are now") {
        nth_word(text, 4)
    } else {
        None
    }
}

} // verus!
