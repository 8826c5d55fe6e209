//! How a display record is drawn: where it stands on its row, and the
//! stretches of text with their emphasis. Both follow from the kind alone.

use vstd::prelude::*;
use vstd::string::*;
use crate::record::{DisplayRecord, Kind, KindView, RecordView};

verus! {

/// Where a row stands in the message area.
#[derive(Clone, Copy, Debug, PartialEq, Eq)]
pub enum Alignment {
    Left,
    Center,
}

/// The colour of a stretch of text.
#[derive(Clone, Copy, Debug, PartialEq, Eq)]
pub enum Tint {
    Plain,
    Blue,
    Green,
    Red,
    LightGreen,
    Cyan,
}

/// The emphasis of a stretch of text.
#[derive(Clone, Copy, Debug, PartialEq, Eq)]
pub struct Look {
    pub bold: bool,
    pub italic: bool,
    pub tint: Tint,
}

/// A stretch of text drawn in one look.
#[derive(Clone, Debug, PartialEq, Eq)]
pub struct Span {
    pub text: String,
    pub look: Look,
}

/// The mathematical value of a `Span`.
pub struct SpanView {
    pub text: Seq<char>,
    pub look: Look,
}

impl View for Span {
    type V = SpanView;

    open spec fn view(&self) -> SpanView {
        SpanView { text: self.text@, look: self.look }
    }
}

/// The values of a sequence of spans, one for one.
pub open spec fn span_views(spans: Seq<Span>) -> Seq<SpanView> {
    Seq::new(spans.len(), |i: int| spans[i]@)
}

/// Text without emphasis.
pub open spec fn plain_look() -> Look {
    Look { bold: false, italic: false, tint: Tint::Plain }
}

/// The look of a banner: bold and italic.
pub open spec fn banner_look() -> Look {
    Look { bold: true, italic: true, tint: Tint::Blue }
}

/// The look of the name on a chat line: bold.
pub open spec fn nick_look() -> Look {
    Look { bold: true, italic: false, tint: Tint::Green }
}

/// The look of the head of an alert: bold.
pub open spec fn head_look() -> Look {
    Look { bold: true, italic: false, tint: Tint::Red }
}

/// The look of the tail of an alert: italic.
pub open spec fn tail_look() -> Look {
    Look { bold: false, italic: true, tint: Tint::LightGreen }
}

/// The look of plain information: italic.
pub open spec fn info_look() -> Look {
    Look { bold: false, italic: true, tint: Tint::Cyan }
}

/// Chat lines and padding rows stand at the left, all others in the middle.
pub open spec fn alignment_of(kind: KindView) -> Alignment {
    match kind {
        KindView::Chat { .. } => Alignment::Left,
        KindView::Blank => Alignment::Left,
        _ => Alignment::Center,
    }
}

/// The spans of a record, from left to right. A banner is followed by a
/// line break as padding; on a chat line a space parts name and body; a
/// padding row has no span.
pub open spec fn spans_of(record: RecordView) -> Seq<SpanView> {
    match record.kind {
        KindView::Banner => seq![
            SpanView { text: record.text, look: banner_look() },
            SpanView { text: "\n"@, look: plain_look() },
        ],
        KindView::Chat { nick, body } => seq![
            SpanView { text: nick + " "@, look: nick_look() },
            SpanView { text: body, look: plain_look() },
        ],
        KindView::Alert { head, tail } => seq![
            SpanView { text: head, look: head_look() },
            SpanView { text: tail, look: tail_look() },
        ],
        KindView::Info => seq![SpanView { text: record.text, look: info_look() }],
        KindView::Blank => Seq::empty(),
    }
}

impl DisplayRecord {
    /// Where the record stands on its row.
    pub fn alignment(&self) -> (alignment: Alignment)
        ensures
            alignment == alignment_of(self@.kind),
    {
        match &self.kind {
            Kind::Chat { .. } => Alignment::Left,
            Kind::Blank => Alignment::Left,
            _ => Alignment::Center,
        }
    }

    /// The spans of the record, from left to right.
    pub fn spans(&self) -> (spans: Vec<Span>)
        ensures
            span_views(spans@) == spans_of(self@),
    {
        let plain = Look { bold: false, italic: false, tint: Tint::Plain };
        let mut spans: Vec<Span> = Vec::new();
        match &self.kind {
            Kind::Banner => {
                let look = Look { bold: true, italic: true, tint: Tint::Blue };
                spans.push(Span { text: self.text.clone(), look });
                spans.push(Span { text: "\n".to_owned(), look: plain });
            },
            Kind::Chat { nick, body } => {
                let look = Look { bold: true, italic: false, tint: Tint::Green };
                let mut name = nick.clone();
                name.append(" ");
                spans.push(Span { text: name, look });
                spans.push(Span { text: body.clone(), look: plain });
            },
            Kind::Alert { head, tail } => {
                let look = Look { bold: true, italic: false, tint: Tint::Red };
                spans.push(Span { text: head.clone(), look });
                let look = Look { bold: false, italic: true, tint: Tint::LightGreen };
                spans.push(Span { text: tail.clone(), look });
            },
            Kind::Info => {
                let look = Look { bold: false, italic: true, tint: Tint::Cyan };
                spans.push(Span { text: self.text.clone(), look });
            },
            Kind::Blank => {},
        }
        assert(span_views(spans@) =~= spans_of(self@));
        spans
    }
}

} // verus!
