//! Deciding whether a message is emitted, and laying out the line.

use vstd::prelude::*;
use crate::clock::{is_clock_text, local_clock_text};
use crate::level::{Color, LogLevel, Stream};
use crate::registry::Registry;

verus! {

/// One step of writing a line to a colour-capable stream.
#[derive(Debug, PartialEq, Eq)]
pub enum Op {
    /// Switch the foreground colour.
    SetColor(Color),
    /// Write this text.
    Write(String),
    /// Return to the stream's default colours.
    Reset,
}

/// The model of an [`Op`]: the same step, with the text as a sequence of
/// characters.
pub enum OpView {
    SetColor(Color),
    Write(Seq<char>),
    Reset,
}

impl View for Op {
    type V = OpView;

    open spec fn view(&self) -> OpView {
        match *self {
            Op::SetColor(c) => OpView::SetColor(c),
            Op::Write(s) => OpView::Write(s@),
            Op::Reset => OpView::Reset,
        }
    }
}

/// A line ready to be written: the stream it goes to and the steps that write
/// it, in order.
#[derive(Debug, PartialEq, Eq)]
pub struct Emission {
    pub stream: Stream,
    pub ops: Vec<Op>,
}

/// The model of an [`Emission`].
pub struct EmissionView {
    pub stream: Stream,
    pub ops: Seq<OpView>,
}

impl View for Emission {
    type V = EmissionView;

    open spec fn view(&self) -> EmissionView {
        EmissionView { stream: self.stream, ops: self.ops@.map_values(|op: Op| op@) }
    }
}

/// The steps that write one line at `level`.
///
/// For `Info` only the timestamp and the space after it are painted; the
/// colours are reset before the message, which appears in the terminal's
/// default colour. For every other level the whole line, message and newline
/// included, is painted. Either way the last step is a reset.
pub open spec fn line_ops(level: LogLevel, timestamp: Seq<char>, content: Seq<char>) -> Seq<
    OpView,
> {
    if level == LogLevel::Info {
        seq![
            OpView::SetColor(level.spec_color()),
            OpView::Write(timestamp + seq![' ']),
            OpView::Reset,
            OpView::Write(content + seq!['\n']),
            OpView::Reset,
        ]
    } else {
        seq![
            OpView::SetColor(level.spec_color()),
            OpView::Write(timestamp + seq![' '] + content + seq!['\n']),
            OpView::Reset,
        ]
    }
}

/// The emission for a message of `level` stamped with `timestamp`.
pub open spec fn emission_of(level: LogLevel, timestamp: Seq<char>, content: Seq<char>)
    -> EmissionView {
    EmissionView { stream: level.spec_stream(), ops: line_ops(level, timestamp, content) }
}

/// The text that a sequence of steps writes, colours aside.
pub open spec fn written_text(ops: Seq<OpView>) -> Seq<char>
    decreases ops.len(),
{
    if ops.len() == 0 {
        Seq::empty()
    } else {
        written_text(ops.drop_last()) + match ops.last() {
            OpView::Write(text) => text,
            _ => Seq::empty(),
        }
    }
}

/// Lays out the line for a message of `level` with the given timestamp.
///
/// The timestamp is taken as it is: this function does not look at the
/// clock and accepts any text in its place.
pub fn compose(level: LogLevel, timestamp: &str, content: &str) -> (e: Emission)
    ensures
        e@ == emission_of(level, timestamp@, content@),
{
    proof {
        reveal_strlit(" ");
        reveal_strlit("\n");
        assert(" "@ =~= seq![' ']);
        assert("\n"@ =~= seq!['\n']);
    }
    let mut ops: Vec<Op> = Vec::new();
    ops.push(Op::SetColor(level.color()));
    let mut head = String::from_str(timestamp);
    head.append(" ");
    match level {
        LogLevel::Info => {
            ops.push(Op::Write(head));
            ops.push(Op::Reset);
            let mut body = String::from_str(content);
            body.append("\n");
            ops.push(Op::Write(body));
        },
        _ => {
            head.append(content);
            head.append("\n");
            ops.push(Op::Write(head));
        },
    }
    ops.push(Op::Reset);
    let e = Emission { stream: level.stream(), ops };
    assert(e@.ops =~= line_ops(level, timestamp@, content@));
    e
}

/// Decides whether a message of `level` is emitted under the threshold held
/// by `registry`, and if so stamps it with the current local time and lays
/// out its line.
///
/// A message is emitted exactly when its rank is at most the threshold's. A
/// message that is filtered out costs nothing: the clock is not read.
pub fn log(registry: &Registry, level: LogLevel, content: &str) -> (out: Option<Emission>)
    ensures
        out is Some <==> level.rank() <= registry@.rank(),
        out matches Some(e) ==> exists|timestamp: Seq<char>|
            #[trigger] is_clock_text(timestamp) && e@ == emission_of(level, timestamp, content@),
{
    let threshold = registry.get_threshold();
    if level.as_u8() > threshold.as_u8() {
        return None;
    }
    let now = local_clock_text();
    let e = compose(level, now.as_str(), content);
    assert(is_clock_text(now@) && e@ == emission_of(level, now@, content@));
    Some(e)
}

/// Whatever the level, the steps end with a reset, and the text they write is
/// the timestamp, a space, the message and a newline.
pub proof fn lemma_line_text(level: LogLevel, timestamp: Seq<char>, content: Seq<char>)
    ensures
        line_ops(level, timestamp, content).last() == OpView::Reset,
        written_text(line_ops(level, timestamp, content)) == timestamp + seq![' '] + content
            + seq!['\n'],
{
    let ops = line_ops(level, timestamp, content);
    reveal_with_fuel(written_text, 6);
    if level == LogLevel::Info {
        assert(ops.drop_last().drop_last().drop_last().drop_last().drop_last().len() == 0);
    } else {
        assert(ops.drop_last().drop_last().drop_last().len() == 0);
    }
    assert(written_text(ops) =~= timestamp + seq![' '] + content + seq!['\n']);
}

} // verus!
