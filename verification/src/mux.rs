//! The decisions of the event loop: what an event from the terminal or from
//! the network does to the session, and what is to be done about it.

use vstd::prelude::*;
use vstd::string::*;
use crate::app::{first_room, received, record_views, texts, window, App, AppView};
use crate::outbox::{Outbox, OutboxView};
use crate::record::DisplayRecord;

verus! {

/// Where the loop stands.
#[derive(Clone, Copy, Debug, PartialEq, Eq)]
pub enum Phase {
    /// Events are awaited and handled.
    Running,
    /// The loop has ended; the terminal is still to be restored.
    Closing,
    /// The terminal has been restored.
    Closed,
}

/// What the terminal or the network handed to the loop.
#[derive(Clone, Debug, PartialEq, Eq)]
pub enum Event {
    /// The key combination that ends the session.
    Quit,
    /// The key that submits the input buffer, with what the buffer holds.
    Submit { buffer_empty: bool, lines: Vec<String> },
    /// Any other input.
    Input,
    /// The terminal's events ended or failed.
    TerminalClosed,
    /// A line of the server.
    Line(String),
    /// The connection ended or failed.
    NetworkClosed,
}

/// What the loop is to do after an event.
#[derive(Clone, Debug, PartialEq, Eq)]
pub enum Action {
    /// Nothing but to draw and wait again.
    Proceed,
    /// Hand the input to the editor.
    Forward,
    /// Send the lines of the outbox, then give the editor a fresh buffer.
    Submit(Outbox),
    /// Leave the loop.
    Stop,
}

/// What becomes of the editor's buffer once an action is carried out.
#[derive(Clone, Copy, Debug, PartialEq, Eq)]
pub enum EditorEffect {
    /// The buffer stays as it is.
    Keep,
    /// The editor handles the input as typing.
    Edit,
    /// The buffer is replaced by a fresh one.
    Reset,
}

/// The mathematical value of an `Event`.
pub enum EventView {
    Quit,
    Submit { buffer_empty: bool, lines: Seq<Seq<char>> },
    Input,
    TerminalClosed,
    Line(Seq<char>),
    NetworkClosed,
}

/// The mathematical value of an `Action`.
pub enum ActionView {
    Proceed,
    Forward,
    Submit(OutboxView),
    Stop,
}

impl View for Event {
    type V = EventView;

    open spec fn view(&self) -> EventView {
        match self {
            Event::Quit => EventView::Quit,
            Event::Submit { buffer_empty, lines } => EventView::Submit {
                buffer_empty: *buffer_empty,
                lines: texts(lines@),
            },
            Event::Input => EventView::Input,
            Event::TerminalClosed => EventView::TerminalClosed,
            Event::Line(line) => EventView::Line(line@),
            Event::NetworkClosed => EventView::NetworkClosed,
        }
    }
}

impl View for Action {
    type V = ActionView;

    open spec fn view(&self) -> ActionView {
        match self {
            Action::Proceed => ActionView::Proceed,
            Action::Forward => ActionView::Forward,
            Action::Submit(outbox) => ActionView::Submit(outbox@),
            Action::Stop => ActionView::Stop,
        }
    }
}

/// The loop's state: its phase and the session.
#[derive(Clone, Debug, PartialEq, Eq)]
pub struct Multiplexer {
    pub phase: Phase,
    pub app: App,
}

/// The mathematical value of a `Multiplexer`.
pub struct MultiplexerView {
    pub phase: Phase,
    pub app: AppView,
}

impl View for Multiplexer {
    type V = MultiplexerView;

    open spec fn view(&self) -> MultiplexerView {
        MultiplexerView { phase: self.phase, app: self.app@ }
    }
}

/// Whether `event` ends a running loop: the quit combination, or the end or
/// failure of either source.
pub open spec fn ends_session(event: EventView) -> bool {
    event is Quit || event is TerminalClosed || event is NetworkClosed
}

/// The state after `event`. Only a running loop takes events: one that ends
/// the session makes it closing, a line of the server is received by the
/// session, and nothing else changes the state.
pub open spec fn next_state(before: MultiplexerView, event: EventView) -> MultiplexerView {
    if before.phase != Phase::Running {
        before
    } else if ends_session(event) {
        MultiplexerView { phase: Phase::Closing, app: before.app }
    } else {
        match event {
            EventView::Line(line) => MultiplexerView {
                phase: Phase::Running,
                app: received(before.app, line),
            },
            _ => before,
        }
    }
}

/// What is to be done after `event` in the state `before`.
pub open spec fn action_for(before: MultiplexerView, event: EventView) -> ActionView {
    if before.phase != Phase::Running || ends_session(event) {
        ActionView::Stop
    } else {
        match event {
            EventView::Submit { buffer_empty, lines } => if buffer_empty {
                ActionView::Proceed
            } else {
                ActionView::Submit(OutboxView::fresh(lines))
            },
            EventView::Input => ActionView::Forward,
            _ => ActionView::Proceed,
        }
    }
}

/// What becomes of the editor's buffer under `action`: input that is
/// forwarded edits it, and a submission resets it, whether or not its lines
/// went out.
pub open spec fn editor_effect_of(action: ActionView) -> EditorEffect {
    match action {
        ActionView::Forward => EditorEffect::Edit,
        ActionView::Submit(_) => EditorEffect::Reset,
        _ => EditorEffect::Keep,
    }
}

/// The state after the terminal was restored.
pub open spec fn closed_state(before: MultiplexerView) -> MultiplexerView {
    MultiplexerView { phase: Phase::Closed, app: before.app }
}

/// Whether the terminal is still to be restored in the state `before`.
pub open spec fn release_due(before: MultiplexerView) -> bool {
    before.phase != Phase::Closed
}

/// The rows of the message area when the area is `area_height` rows high,
/// its border taking two of them.
pub open spec fn viewport_rows(area_height: int) -> nat {
    if area_height >= 2 {
        (area_height - 2) as nat
    } else {
        0
    }
}

/// A loop that is not running takes no event: its state stays, and the
/// answer is to stop.
pub proof fn lemma_stopped_loop_is_inert(before: MultiplexerView, event: EventView)
    requires
        before.phase != Phase::Running,
    ensures
        next_state(before, event) == before,
        action_for(before, event) is Stop,
{
}

/// The end or failure of either source, and the quit combination, make a
/// running loop closing and leave the session as it is.
pub proof fn lemma_end_of_source_closes(before: MultiplexerView, event: EventView)
    requires
        before.phase == Phase::Running,
        ends_session(event),
    ensures
        next_state(before, event).phase == Phase::Closing,
        next_state(before, event).app == before.app,
        action_for(before, event) is Stop,
{
}

/// A submission leaves the loop running and the session as it is, however
/// its sends end; an empty buffer sends nothing.
pub proof fn lemma_submit_keeps_running(
    before: MultiplexerView,
    buffer_empty: bool,
    lines: Seq<Seq<char>>,
)
    requires
        before.phase == Phase::Running,
    ensures
        next_state(before, EventView::Submit { buffer_empty, lines }) == before,
        buffer_empty ==> action_for(before, EventView::Submit { buffer_empty, lines }) is Proceed,
        !buffer_empty ==> action_for(before, EventView::Submit { buffer_empty, lines })
            == ActionView::Submit(OutboxView::fresh(lines)),
        editor_effect_of(action_for(before, EventView::Submit { buffer_empty, lines }))
            == if buffer_empty {
            EditorEffect::Keep
        } else {
            EditorEffect::Reset
        },
{
}

/// No event takes anything out of the history or changes its order.
pub proof fn lemma_step_keeps_history(before: MultiplexerView, event: EventView)
    ensures
        before.app.messages.is_prefix_of(next_state(before, event).app.messages),
{
    let after = next_state(before, event).app.messages;
    assert(after.subrange(0, before.app.messages.len() as int) =~= before.app.messages);
}

/// The terminal is restored once: closing calls for the release unless the
/// loop was closed already, and after it no further close calls for it.
pub proof fn lemma_release_once(before: MultiplexerView)
    ensures
        closed_state(before).phase == Phase::Closed,
        closed_state(before).app == before.app,
        before.phase != Phase::Closed ==> release_due(before),
        !release_due(closed_state(before)),
        closed_state(closed_state(before)) == closed_state(before),
{
}

impl Action {
    /// What becomes of the editor's buffer once the action is carried out.
    pub fn editor_effect(&self) -> (effect: EditorEffect)
        ensures
            effect == editor_effect_of(self@),
    {
        match self {
            Action::Forward => EditorEffect::Edit,
            Action::Submit(_) => EditorEffect::Reset,
            _ => EditorEffect::Keep,
        }
    }
}

impl Multiplexer {
    /// A running loop over a session that has received nothing.
    pub fn new() -> (mux: Multiplexer)
        ensures
            mux@.phase == Phase::Running,
            mux@.app.room == first_room(),
            mux@.app.messages == Seq::<Seq<char>>::empty(),
    {
        Multiplexer { phase: Phase::Running, app: App::new() }
    }

    /// Whether the loop awaits events.
    pub fn is_running(&self) -> (running: bool)
        ensures
            running == (self@.phase == Phase::Running),
    {
        match self.phase {
            Phase::Running => true,
            _ => false,
        }
    }

    /// The rows to draw in a message area that is `area_height` rows high.
    /// An area too low for its border has no rows.
    pub fn view_rows(&self, area_height: u16) -> (rows: Vec<DisplayRecord>)
        ensures
            rows@.len() == viewport_rows(area_height as int),
            record_views(rows@) == window(self@.app.messages, viewport_rows(area_height as int)),
    {
        let min_lines: u16 = if area_height >= 2 {
            area_height - 2
        } else {
            0
        };
        self.app.messages_to_list(min_lines as usize, 0)
    }

    /// Handles one event and says what is to be done about it.
    pub fn step(&mut self, event: Event) -> (action: Action)
        ensures
            final(self)@ == next_state(old(self)@, event@),
            action@ == action_for(old(self)@, event@),
    {
        if !self.is_running() {
            return Action::Stop;
        }
        match event {
            Event::Quit => {
                self.phase = Phase::Closing;
                Action::Stop
            },
            Event::TerminalClosed => {
                self.phase = Phase::Closing;
                Action::Stop
            },
            Event::NetworkClosed => {
                self.phase = Phase::Closing;
                Action::Stop
            },
            Event::Submit { buffer_empty, lines } => {
                if buffer_empty {
                    Action::Proceed
                } else {
                    Action::Submit(Outbox::new(lines))
                }
            },
            Event::Input => Action::Forward,
            Event::Line(line) => {
                self.app.receive(line);
                Action::Proceed
            },
        }
    }

    /// Ends the session. Returns whether the terminal is to be restored now:
    /// it is, unless it has been restored before.
    pub fn close(&mut self) -> (release: bool)
        ensures
            final(self)@ == closed_state(old(self)@),
            release == release_due(old(self)@),
    {
        let release = match self.phase {
            Phase::Closed => false,
            _ => true,
        };
        self.phase = Phase::Closed;
        release
    }
}

} // verus!
