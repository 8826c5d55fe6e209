//! The session: the room's name and the history of messages, and the rows
//! that the message area shows of it.

use vstd::prelude::*;
use vstd::string::*;
use crate::banner::{banner_room, room_in};
use crate::record::{blank, blank_record, classify, described, DisplayRecord, RecordView};

verus! {

/// The state of a session: the name of the current room and every message
/// received so far, oldest first.
#[derive(Clone, Debug, PartialEq, Eq)]
pub struct App {
    pub room: String,
    pub messages: Vec<String>,
}

/// The mathematical value of an `App`.
pub struct AppView {
    pub room: Seq<char>,
    pub messages: Seq<Seq<char>>,
}

/// The texts of a sequence of strings, one for one.
pub open spec fn texts(lines: Seq<String>) -> Seq<Seq<char>> {
    Seq::new(lines.len(), |i: int| lines[i]@)
}

/// The values of a sequence of records, one for one.
pub open spec fn record_views(rows: Seq<DisplayRecord>) -> Seq<RecordView> {
    Seq::new(rows.len(), |i: int| rows[i]@)
}

impl View for App {
    type V = AppView;

    open spec fn view(&self) -> AppView {
        AppView { room: self.room@, messages: texts(self.messages@) }
    }
}

/// The name that a session's room has before any banner names one.
pub open spec fn first_room() -> Seq<char> {
    "zero"@
}

/// The session after `line` has arrived: the room is the one that the line
/// announces, if it announces one, and the line is the newest message.
pub open spec fn received(before: AppView, line: Seq<char>) -> AppView {
    AppView {
        room: match room_in(line) {
            Some(room) => room,
            None => before.room,
        },
        messages: before.messages.push(line),
    }
}

/// The rows of a message area of `min_lines` rows over `history`: the newest
/// messages, oldest first, as many as there are rows; where the history is
/// shorter, blank rows stand above it.
pub open spec fn window(history: Seq<Seq<char>>, min_lines: nat) -> Seq<RecordView> {
    Seq::new(
        min_lines,
        |i: int|
            if i + history.len() < min_lines {
                blank_record()
            } else {
                described(history[i + history.len() - min_lines])
            },
    )
}

/// The room that a session has after the lines of `history`, having begun
/// in `start`: the one that the latest line that names a room announces.
pub open spec fn latest_room(start: Seq<char>, history: Seq<Seq<char>>) -> Seq<char>
    decreases history.len(),
{
    if history.len() == 0 {
        start
    } else {
        match room_in(history.last()) {
            Some(room) => room,
            None => latest_room(start, history.drop_last()),
        }
    }
}

/// Receiving a line adds it at the end of the history and leaves all that
/// was there in its place.
pub proof fn lemma_history_only_grows(before: AppView, line: Seq<char>)
    ensures
        received(before, line).messages.len() == before.messages.len() + 1,
        before.messages.is_prefix_of(received(before, line).messages),
        received(before, line).messages.last() == line,
{
    assert(received(before, line).messages.subrange(0, before.messages.len() as int)
        =~= before.messages);
}

/// A session whose room is that of the latest banner that named one keeps
/// that property when it receives a line.
pub proof fn lemma_room_follows_banners(start: Seq<char>, before: AppView, line: Seq<char>)
    requires
        before.room == latest_room(start, before.messages),
    ensures
        received(before, line).room == latest_room(start, received(before, line).messages),
{
    assert(before.messages.push(line).drop_last() =~= before.messages);
}

/// A window always has as many rows as were asked for.
pub proof fn lemma_window_len(history: Seq<Seq<char>>, min_lines: nat)
    ensures
        window(history, min_lines).len() == min_lines,
{
}

/// Over a history that does not fill the area, the window is blank rows
/// followed by the records of the whole history in its order.
pub proof fn lemma_window_pads_short_history(history: Seq<Seq<char>>, min_lines: nat)
    requires
        history.len() <= min_lines,
    ensures
        forall|i: int|
            0 <= i < min_lines - history.len() ==> window(history, min_lines)[i] == blank_record(),
        forall|j: int|
            0 <= j < history.len() ==> window(history, min_lines)[min_lines - history.len() + j]
                == described(#[trigger] history[j]),
{
}

/// Over a history that fills the area, the window is the records of the
/// newest `min_lines` messages in their order.
pub proof fn lemma_window_keeps_newest(history: Seq<Seq<char>>, min_lines: nat)
    requires
        history.len() >= min_lines,
    ensures
        forall|i: int|
            0 <= i < min_lines ==> window(history, min_lines)[i] == described(
                history[history.len() - min_lines + i],
            ),
{
}

/// The rows of a message area of `min_lines` rows over `history`.
pub fn render_window(history: &Vec<String>, min_lines: usize) -> (rows: Vec<DisplayRecord>)
    ensures
        rows@.len() == min_lines,
        record_views(rows@) == window(texts(history@), min_lines as nat),
{
    let len: usize = history.len();
    let mut rows: Vec<DisplayRecord> = Vec::new();
    let mut i: usize = 0;
    while i < min_lines
        invariant
            len == history@.len(),
            i <= min_lines,
            rows@.len() == i,
            forall|k: int|
                0 <= k < i ==> (#[trigger] rows@[k])@ == window(
                    texts(history@),
                    min_lines as nat,
                )[k],
        decreases min_lines - i,
    {
        let pad: usize = if len < min_lines {
            min_lines - len
        } else {
            0
        };
        let row = if i < pad {
            blank()
        } else if len < min_lines {
            classify(history[i - pad].as_str())
        } else {
            classify(history[len - min_lines + i].as_str())
        };
        rows.push(row);
        i += 1;
    }
    assert(record_views(rows@) =~= window(texts(history@), min_lines as nat));
    rows
}

impl App {
    /// A session that has received nothing yet.
    pub fn new() -> (app: App)
        ensures
            app@.room == first_room(),
            app@.messages == Seq::<Seq<char>>::empty(),
    {
        let app = App { room: "zero".to_owned(), messages: Vec::new() };
        assert(app@.messages =~= Seq::<Seq<char>>::empty());
        app
    }

    /// The rows of a message area of `min_lines` rows over the history. The
    /// width of the area has no part in it.
    pub fn messages_to_list(&self, min_lines: usize, _max_len: usize) -> (rows: Vec<DisplayRecord>)
        ensures
            rows@.len() == min_lines,
            record_views(rows@) == window(self@.messages, min_lines as nat),
    {
        render_window(&self.messages, min_lines)
    }

    /// Appends `msg` to the history.
    pub fn add_msg(&mut self, msg: String)
        ensures
            final(self)@.messages == old(self)@.messages.push(msg@),
            final(self)@.room == old(self)@.room,
    {
        self.messages.push(msg);
        assert(final(self)@.messages =~= old(self)@.messages.push(msg@));
    }

    /// Names the room anew.
    pub fn update_room_name(&mut self, new_room: &str)
        ensures
            final(self)@.room == new_room@,
            final(self)@.messages == old(self)@.messages,
    {
        self.room = new_room.to_owned();
    }

    /// Takes in a line of the server: a welcome banner that names a room
    /// renames the session's room; every line joins the history.
    pub fn receive(&mut self, line: String)
        ensures
            final(self)@ == received(old(self)@, line@),
    {
        match banner_room(line.as_str()) {
            Some(room) => {
                self.update_room_name(room.as_str());
            },
            None => {},
        }
        self.add_msg(line);
    }
}

} // verus!
