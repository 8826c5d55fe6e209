//! Display records: what a line of server text looks like on screen.

use vstd::prelude::*;
use vstd::string::*;
use crate::pattern::{is_match, regex_is_match};
use crate::text::{
    begins_with, chars_of, cut, has_prefix, index_of, lemma_index_of_from, position_of,
};

verus! {

/// What sort of line a record shows, with the parts that are styled apart.
#[derive(Clone, Debug, PartialEq, Eq)]
pub enum Kind {
    /// A status line of the server, marked `***`.
    Banner,
    /// A line said by a participant: the name with its colon, and what was said.
    Chat { nick: String, body: String },
    /// A notice of the server, marked `!!! `: its first sentence, and the rest.
    Alert { head: String, tail: String },
    /// Any other line.
    Info,
    /// An empty row that fills the viewport above a short history.
    Blank,
}

/// A line of the message area: its kind and the text it was made from.
#[derive(Clone, Debug, PartialEq, Eq)]
pub struct DisplayRecord {
    pub kind: Kind,
    pub text: String,
}

/// The mathematical value of a `Kind`.
pub enum KindView {
    Banner,
    Chat { nick: Seq<char>, body: Seq<char> },
    Alert { head: Seq<char>, tail: Seq<char> },
    Info,
    Blank,
}

/// The mathematical value of a `DisplayRecord`.
pub struct RecordView {
    pub kind: KindView,
    pub text: Seq<char>,
}

impl View for Kind {
    type V = KindView;

    open spec fn view(&self) -> KindView {
        match self {
            Kind::Banner => KindView::Banner,
            Kind::Chat { nick, body } => KindView::Chat { nick: nick@, body: body@ },
            Kind::Alert { head, tail } => KindView::Alert { head: head@, tail: tail@ },
            Kind::Info => KindView::Info,
            Kind::Blank => KindView::Blank,
        }
    }
}

impl View for DisplayRecord {
    type V = RecordView;

    open spec fn view(&self) -> RecordView {
        RecordView { kind: self.kind@, text: self.text@ }
    }
}

/// The mark that opens a banner.
pub open spec fn banner_mark() -> Seq<char> {
    "***"@
}

/// The mark that opens an alert.
pub open spec fn alert_mark() -> Seq<char> {
    "!!! "@
}

/// The regular expression of a chat line: at its start one or more word
/// characters, a colon and one space.
pub open spec fn chat_pattern() -> Seq<char> {
    "^\\w+: "@
}

/// Whether `text` is shaped like a chat line, as `regex` judges it.
pub open spec fn chat_shaped(text: Seq<char>) -> bool {
    regex_is_match(chat_pattern(), text) == Some(true)
}

/// A chat line cut at its first space: the name before it and the body after
/// it. A line without a space is all name.
pub open spec fn chat_parts(text: Seq<char>) -> (Seq<char>, Seq<char>) {
    let i = index_of(text, ' ');
    if i < text.len() {
        (text.subrange(0, i), text.subrange(i + 1, text.len() as int))
    } else {
        (text, Seq::empty())
    }
}

/// An alert cut behind its first period: the head up to and including the
/// period, and the tail after it. An alert without a period is all head.
pub open spec fn alert_parts(text: Seq<char>) -> (Seq<char>, Seq<char>) {
    let i = index_of(text, '.');
    if i < text.len() {
        (text.subrange(0, i + 1), text.subrange(i + 1, text.len() as int))
    } else {
        (text, Seq::empty())
    }
}

/// The kind of a line, given whether it is shaped like a chat line. The
/// banner mark is tried first, then the chat shape, then the alert mark.
pub open spec fn kind_of(text: Seq<char>, chat: bool) -> KindView {
    if banner_mark().is_prefix_of(text) {
        KindView::Banner
    } else if chat {
        KindView::Chat { nick: chat_parts(text).0, body: chat_parts(text).1 }
    } else if alert_mark().is_prefix_of(text) {
        KindView::Alert { head: alert_parts(text).0, tail: alert_parts(text).1 }
    } else {
        KindView::Info
    }
}

/// The record of a line, given whether it is shaped like a chat line.
pub open spec fn record_of(text: Seq<char>, chat: bool) -> RecordView {
    RecordView { kind: kind_of(text, chat), text }
}

/// The record of a line.
pub open spec fn described(text: Seq<char>) -> RecordView {
    record_of(text, chat_shaped(text))
}

/// The record of a padding row.
pub open spec fn blank_record() -> RecordView {
    RecordView { kind: KindView::Blank, text: Seq::empty() }
}

/// A line has one record: two records made of the same text are the same.
pub proof fn lemma_one_text_one_record(first: DisplayRecord, second: DisplayRecord, text: Seq<char>)
    requires
        first@ == described(text),
        second@ == described(text),
    ensures
        first@ == second@,
{
}

/// The banner mark decides before the chat shape is looked at: a line that
/// begins with it is a banner whatever else it looks like.
pub proof fn lemma_banner_comes_first(text: Seq<char>, chat: bool)
    requires
        banner_mark().is_prefix_of(text),
    ensures
        kind_of(text, chat) is Banner,
{
}

/// No line is classified as a padding row, and a record keeps the text it
/// was made from.
pub proof fn lemma_record_keeps_text(text: Seq<char>, chat: bool)
    ensures
        !(record_of(text, chat).kind is Blank),
        record_of(text, chat).text == text,
{
}

/// The empty line is plain information unless it is judged a chat line.
pub proof fn lemma_empty_is_info()
    ensures
        kind_of(Seq::empty(), false) is Info,
{
    reveal_strlit("***");
    reveal_strlit("!!! ");
}

/// The two parts of a chat line are the line without its first space; the
/// name holds no space.
pub proof fn lemma_chat_parts_rejoin(text: Seq<char>)
    ensures
        !chat_parts(text).0.contains(' '),
        text.contains(' ') ==> chat_parts(text).0 + seq![' '] + chat_parts(text).1 == text,
        !text.contains(' ') ==> chat_parts(text) == (text, Seq::<char>::empty()),
{
    lemma_index_of_from(text, ' ', 0);
    let i = index_of(text, ' ');
    if i < text.len() {
        assert(chat_parts(text).0 + seq![' '] + chat_parts(text).1 =~= text);
    }
}

/// The two parts of an alert make up the alert. The head ends with the first
/// period; an alert without a period has an empty tail.
pub proof fn lemma_alert_parts_rejoin(text: Seq<char>)
    ensures
        alert_parts(text).0 + alert_parts(text).1 == text,
        text.contains('.') ==> alert_parts(text).0.len() > 0 && alert_parts(text).0.last() == '.'
            && !alert_parts(text).0.drop_last().contains('.'),
        !text.contains('.') ==> alert_parts(text) == (text, Seq::<char>::empty()),
{
    lemma_index_of_from(text, '.', 0);
    assert(alert_parts(text).0 + alert_parts(text).1 =~= text);
}

/// Classifies `text`, with the verdict on its chat shape given by the caller.
pub fn classify_with(text: &str, chat: bool) -> (record: DisplayRecord)
    ensures
        record@ == record_of(text@, chat),
{
    let chars = chars_of(text);
    let n: usize = chars.len();
    let kind = if begins_with(&chars, "***") {
        Kind::Banner
    } else if chat {
        let i: usize = position_of(&chars, ' ');
        if i < n {
            Kind::Chat { nick: cut(text, 0, i), body: cut(text, i + 1, n) }
        } else {
            Kind::Chat { nick: text.to_owned(), body: String::new() }
        }
    } else if begins_with(&chars, "!!! ") {
        let i: usize = position_of(&chars, '.');
        if i < n {
            Kind::Alert { head: cut(text, 0, i + 1), tail: cut(text, i + 1, n) }
        } else {
            Kind::Alert { head: text.to_owned(), tail: String::new() }
        }
    } else {
        Kind::Info
    };
    DisplayRecord { kind, text: text.to_owned() }
}

/// Classifies `text`: a banner, a chat line, an alert or plain information,
/// the first that fits. Every string has a record. The chat shape is looked
/// for only where the banner mark has not decided already.
pub fn classify(text: &str) -> (record: DisplayRecord)
    ensures
        record@ == described(text@),
        record@.text == text@,
        !(record@.kind is Blank),
{
    let chat = if has_prefix(text, "***") {
        false
    } else {
        match is_match("^\\w+: ", text) {
            Some(found) => found,
            None => false,
        }
    };
    classify_with(text, chat)
}

/// A padding row.
pub fn blank() -> (record: DisplayRecord)
    ensures
        record@ == blank_record(),
{
    DisplayRecord { kind: Kind::Blank, text: String::new() }
}

} // verus!
