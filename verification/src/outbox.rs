//! A submission on its way out: the lines of the input buffer, sent one by
//! one, the rest given up at the first line that fails.

use vstd::prelude::*;
use vstd::string::*;
use crate::app::texts;

verus! {

/// The lines of one submission, in order, with the place of the line that
/// is sent next and the number of lines that went out.
#[derive(Clone, Debug, PartialEq, Eq)]
pub struct Outbox {
    pub lines: Vec<String>,
    pub next: usize,
    pub delivered: usize,
}

/// The mathematical value of an `Outbox`.
pub struct OutboxView {
    pub lines: Seq<Seq<char>>,
    pub next: nat,
    pub delivered: nat,
}

impl View for Outbox {
    type V = OutboxView;

    open spec fn view(&self) -> OutboxView {
        OutboxView {
            lines: texts(self.lines@),
            next: self.next as nat,
            delivered: self.delivered as nat,
        }
    }
}

impl OutboxView {
    /// No more lines went out than were tried, and no more were tried than
    /// there are.
    pub open spec fn wf(self) -> bool {
        self.delivered <= self.next <= self.lines.len()
    }

    /// Nothing is left to send.
    pub open spec fn done(self) -> bool {
        self.next >= self.lines.len()
    }

    /// The outbox of a fresh submission.
    pub open spec fn fresh(lines: Seq<Seq<char>>) -> OutboxView {
        OutboxView { lines, next: 0, delivered: 0 }
    }

    /// The outbox after the send of its current line ended well (`ok`) or
    /// failed: a line that went out is counted and the next one is due; a
    /// failure gives up all that is left. An outbox that is done stays as it is.
    pub open spec fn recorded(self, ok: bool) -> OutboxView {
        if self.done() {
            self
        } else if ok {
            OutboxView { lines: self.lines, next: self.next + 1, delivered: self.delivered + 1 }
        } else {
            OutboxView { lines: self.lines, next: self.lines.len(), delivered: self.delivered }
        }
    }

    /// The outbox after one send for each of `outcomes`, in order.
    pub open spec fn run(self, outcomes: Seq<bool>) -> OutboxView
        decreases outcomes.len(),
    {
        if outcomes.len() == 0 {
            self
        } else {
            self.recorded(outcomes[0]).run(outcomes.drop_first())
        }
    }
}

/// The number of `true` values at the front of `outcomes`.
pub open spec fn leading_successes(outcomes: Seq<bool>) -> nat
    decreases outcomes.len(),
{
    if outcomes.len() == 0 || !outcomes[0] {
        0
    } else {
        1 + leading_successes(outcomes.drop_first())
    }
}

impl Outbox {
    /// The outbox of a submission of `lines`.
    pub fn new(lines: Vec<String>) -> (outbox: Outbox)
        ensures
            outbox@ == OutboxView::fresh(texts(lines@)),
            outbox@.wf(),
    {
        Outbox { lines, next: 0, delivered: 0 }
    }

    /// Whether nothing is left to send.
    pub fn is_done(&self) -> (done: bool)
        ensures
            done == self@.done(),
    {
        self.next >= self.lines.len()
    }

    /// The line to send now, if any is left.
    pub fn current(&self) -> (line: Option<&String>)
        ensures
            line is None <==> self@.done(),
            line is Some ==> line->0@ == self@.lines[self@.next as int],
    {
        if self.next < self.lines.len() {
            Some(&self.lines[self.next])
        } else {
            None
        }
    }

    /// The number of lines that went out.
    pub fn delivered(&self) -> (count: usize)
        ensures
            count == self@.delivered,
    {
        self.delivered
    }

    /// Takes note of how the send of the current line ended.
    pub fn record(&mut self, ok: bool)
        requires
            old(self)@.wf(),
        ensures
            final(self)@ == old(self)@.recorded(ok),
            final(self)@.wf(),
    {
        if self.next < self.lines.len() {
            if ok {
                self.next = self.next + 1;
                self.delivered = self.delivered + 1;
            } else {
                self.next = self.lines.len();
            }
        }
    }
}

/// Recording keeps an outbox well formed and its lines as they were, and
/// moves the place of the next line forward or not at all.
pub proof fn lemma_recorded_keeps_order(outbox: OutboxView, ok: bool)
    requires
        outbox.wf(),
    ensures
        outbox.recorded(ok).wf(),
        outbox.recorded(ok).lines == outbox.lines,
        outbox.recorded(ok).next >= outbox.next,
        outbox.recorded(ok).delivered >= outbox.delivered,
{
}

/// A failed send ends the submission: nothing is sent after it.
pub proof fn lemma_failure_ends_submission(outbox: OutboxView)
    requires
        outbox.wf(),
    ensures
        outbox.recorded(false).done(),
        outbox.recorded(false).delivered == outbox.delivered,
{
}

/// From an outbox in which every line tried so far went out, the lines
/// that go out are those before the first failure, and no more than there
/// are; an outbox that is done stays as it is.
pub proof fn lemma_run_counts_leading_successes(outbox: OutboxView, outcomes: Seq<bool>)
    requires
        outbox.wf(),
        outbox.delivered == outbox.next || outbox.done(),
    ensures
        outbox.run(outcomes).wf(),
        outbox.run(outcomes).lines == outbox.lines,
        outbox.done() ==> outbox.run(outcomes) == outbox,
        !outbox.done() ==> outbox.run(outcomes).delivered == if outbox.delivered
            + leading_successes(outcomes) <= outbox.lines.len() {
            outbox.delivered + leading_successes(outcomes)
        } else {
            outbox.lines.len()
        },
    decreases outcomes.len(),
{
    if outcomes.len() > 0 {
        lemma_run_counts_leading_successes(outbox.recorded(outcomes[0]), outcomes.drop_first());
    }
}

/// Of a fresh submission exactly the lines before the first failed send go
/// out, in order: their number is the number of leading successes, capped by
/// the number of lines.
pub proof fn lemma_fresh_submission(lines: Seq<Seq<char>>, outcomes: Seq<bool>)
    ensures
        OutboxView::fresh(lines).run(outcomes).wf(),
        OutboxView::fresh(lines).run(outcomes).lines == lines,
        OutboxView::fresh(lines).run(outcomes).delivered == if leading_successes(outcomes)
            <= lines.len() {
            leading_successes(outcomes)
        } else {
            lines.len()
        },
{
    lemma_run_counts_leading_successes(OutboxView::fresh(lines), outcomes);
}

} // verus!
