//! The line renderer: turns the level, the active spans and the extracted
//! fields of one event into its complete block of output lines.

use vstd::prelude::*;
use crate::clock::{local_reading, reading_valid, stamp_text, ClockReading};
use crate::extract::{ConfigExtractor, Extracted};
use crate::span::{segment_of, span_segment, SpanProfile};
use crate::style::{BOLD, DIM, GREEN, RED, RESET, YELLOW};
use crate::text::{pad_left, right_align, physical_lines, spaces, split_lines, views};

verus! {

broadcast use Seq::lemma_flatten_push;

/// Width of the field in which a header label is right-aligned.
pub const HEADER_WIDTH: usize = 12;

/// Width of the level name in a colored level tag.
pub const LEVEL_WIDTH: usize = 5;

/// Severity of an event, from least to most severe.
#[derive(Debug, Clone, Copy, PartialEq, Eq, Structural, PartialOrd, Ord, Hash)]
pub enum Level {
    Trace,
    Debug,
    Info,
    Warn,
    Error,
}

/// The name of a level as it is printed.
pub open spec fn level_name(l: Level) -> Seq<char> {
    match l {
        Level::Trace => "TRACE"@,
        Level::Debug => "DEBUG"@,
        Level::Info => "INFO"@,
        Level::Warn => "WARN"@,
        Level::Error => "ERROR"@,
    }
}

/// The color of a level's tag: green, yellow and red for the three highest.
pub open spec fn level_color(l: Level) -> Option<Seq<char>> {
    match l {
        Level::Info => Some(GREEN@),
        Level::Warn => Some(YELLOW@),
        Level::Error => Some(RED@),
        _ => None,
    }
}

/// The level tag, followed by one space.
pub open spec fn level_tag(l: Level) -> Seq<char> {
    match level_color(l) {
        Some(c) => c + pad_left(level_name(l), LEVEL_WIDTH as nat) + RESET@ + " "@,
        None => level_name(l) + " "@,
    }
}

/// The prefix shared by every line of an event.
pub open spec fn prefix_of(timestamp: Seq<char>, l: Level, segment: Seq<char>) -> Seq<char> {
    DIM@ + timestamp + RESET@ + " "@ + level_tag(l) + DIM@ + segment + "⣿ "@ + RESET@
}

/// The bracketed label, right-aligned in its field.
pub open spec fn label_field(label: Seq<char>) -> Seq<char> {
    pad_left("["@ + label + "]"@, HEADER_WIDTH as nat)
}

/// The header put before the first line of a headered event.
pub open spec fn header_of(color: Seq<char>, label: Seq<char>) -> Seq<char> {
    color + BOLD@ + label_field(label) + ":"@ + RESET@ + " "@
}

/// The blank space put before each later line of a headered event: as wide
/// as the label field with its colon and space.
pub open spec fn continuation() -> Seq<char> {
    spaces(HEADER_WIDTH as nat + 2)
}

/// A header is shown when both its label and its color are given.
pub open spec fn has_header(e: Extracted) -> bool {
    e.header_color is Some && e.header_text is Some
}

/// What stands between the prefix and the text on line `i`.
pub open spec fn lead_of(e: Extracted, i: int) -> Seq<char> {
    if has_header(e) {
        if i == 0 {
            header_of(e.header_color->0, e.header_text->0)
        } else {
            continuation()
        }
    } else {
        Seq::empty()
    }
}

/// The color put before the text of each line, if any.
pub open spec fn text_open(e: Extracted) -> Seq<char> {
    match e.text_color {
        Some(c) => c,
        None => Seq::empty(),
    }
}

/// One output line, ended by a reset and a line feed.
pub open spec fn output_line(prefix: Seq<char>, lead: Seq<char>, open: Seq<char>, line: Seq<char>) -> Seq<char> {
    prefix + " "@ + lead + open + line + RESET@ + "\n"@
}

/// The output lines of an event, one for each physical line of its text.
pub open spec fn output_lines(prefix: Seq<char>, e: Extracted) -> Seq<Seq<char>> {
    let ls = physical_lines(e.text);
    Seq::new(ls.len(), |i: int| output_line(prefix, lead_of(e, i), text_open(e), ls[i]))
}

/// The whole output of an event.
pub open spec fn rendered(prefix: Seq<char>, e: Extracted) -> Seq<char> {
    output_lines(prefix, e).flatten()
}

/// The whole output of an event with the given time stamp.
pub open spec fn event_text(
    profile: SpanProfile,
    timestamp: Seq<char>,
    l: Level,
    spans: Seq<Seq<char>>,
    e: Extracted,
) -> Seq<char> {
    rendered(prefix_of(timestamp, l, segment_of(profile, spans)), e)
}

impl Level {
    /// The name of the level as it is printed.
    pub fn name(&self) -> (r: &'static str)
        ensures
            r@ == level_name(*self),
    {
        match self {
            Level::Trace => "TRACE",
            Level::Debug => "DEBUG",
            Level::Info => "INFO",
            Level::Warn => "WARN",
            Level::Error => "ERROR",
        }
    }
}

fn colored_tag(color: &str, name: &str) -> (r: String)
    ensures
        r@ == color@ + pad_left(name@, LEVEL_WIDTH as nat) + RESET@ + " "@,
{
    let mut out = String::from_str(color);
    out.append(right_align(name, LEVEL_WIDTH).as_str());
    out.append(RESET);
    out.append(" ");
    out
}

/// The level tag of an event.
pub fn tag_for_level(l: Level) -> (r: String)
    ensures
        r@ == level_tag(l),
{
    let name = l.name();
    match l {
        Level::Info => colored_tag(GREEN, name),
        Level::Warn => colored_tag(YELLOW, name),
        Level::Error => colored_tag(RED, name),
        _ => {
            let mut out = String::from_str(name);
            out.append(" ");
            out
        },
    }
}

/// The prefix shared by every line of an event.
pub fn line_prefix(timestamp: &str, l: Level, segment: &str) -> (r: String)
    ensures
        r@ == prefix_of(timestamp@, l, segment@),
{
    let mut out = String::from_str(DIM);
    out.append(timestamp);
    out.append(RESET);
    out.append(" ");
    out.append(tag_for_level(l).as_str());
    out.append(DIM);
    out.append(segment);
    out.append("⣿ ");
    out.append(RESET);
    out
}

/// The header for a label in a color.
pub fn header(color: &str, label: &str) -> (r: String)
    ensures
        r@ == header_of(color@, label@),
{
    let mut bracketed = String::from_str("[");
    bracketed.append(label);
    bracketed.append("]");
    let mut out = String::from_str(color);
    out.append(BOLD);
    out.append(right_align(bracketed.as_str(), HEADER_WIDTH).as_str());
    out.append(":");
    out.append(RESET);
    out.append(" ");
    out
}

/// Renders the text of an event under `prefix`, one output line for each
/// physical line, with its header and text color if the fields gave them.
pub fn render_lines(prefix: &str, e: &ConfigExtractor) -> (r: String)
    ensures
        r@ == rendered(prefix@, e@),
{
    let lines = split_lines(e.buf.as_str());
    let ghost ol = output_lines(prefix@, e@);
    let head: Option<String> = match (&e.header_color, &e.header_text) {
        (Some(c), Some(t)) => Some(header(c.as_str(), t.as_str())),
        _ => None,
    };
    let padding = right_align("", HEADER_WIDTH + 2);
    proof {
        reveal_strlit("");
        assert(padding@ =~= continuation());
    }
    let mut out = String::new();
    let mut i: usize = 0;
    while i < lines.len()
        invariant
            i <= lines@.len(),
            views(lines@) == physical_lines(e@.text),
            ol == output_lines(prefix@, e@),
            padding@ == continuation(),
            has_header(e@) <==> head is Some,
            head matches Some(h) ==> h@ == header_of(e@.header_color->0, e@.header_text->0),
            out@ == ol.take(i as int).flatten(),
        decreases lines@.len() - i,
    {
        let ghost before = out@;
        out.append(prefix);
        out.append(" ");
        if let Some(h) = &head {
            if i == 0 {
                out.append(h.as_str());
            } else {
                out.append(padding.as_str());
            }
        }
        if let Some(c) = &e.text_color {
            out.append(c.as_str());
        }
        out.append(lines[i].as_str());
        out.append(RESET);
        out.append("\n");
        proof {
            assert(lines@[i as int]@ == physical_lines(e@.text)[i as int]);
            assert(out@ =~= before + ol[i as int]);
            assert(ol.take(i + 1) =~= ol.take(i as int).push(ol[i as int]));
        }
        i = i + 1;
    }
    assert(ol.take(lines@.len() as int) =~= ol);
    out
}

/// Renders log events in a chosen span profile.
#[derive(Debug, Clone, Copy)]
pub struct TracingFormatter {
    pub profile: SpanProfile,
}

impl TracingFormatter {
    /// A formatter that shows the full path of active spans.
    pub fn new() -> (r: Self)
        ensures
            r.profile == SpanProfile::Path,
    {
        TracingFormatter { profile: SpanProfile::Path }
    }

    /// A formatter that shows only how deeply the event is nested.
    pub fn compact() -> (r: Self)
        ensures
            r.profile == SpanProfile::Depth,
    {
        TracingFormatter { profile: SpanProfile::Depth }
    }

    /// Renders one event with the given time stamp. `spans` are the names of
    /// the active spans, outermost first.
    pub fn render(&self, timestamp: &str, level: Level, spans: &Vec<String>, fields: &ConfigExtractor) -> (r: String)
        ensures
            r@ == event_text(self.profile, timestamp@, level, views(spans@), fields@),
    {
        let segment = span_segment(self.profile, spans);
        let prefix = line_prefix(timestamp, level, segment.as_str());
        render_lines(prefix.as_str(), fields)
    }

    /// Renders one event stamped with the local time now.
    pub fn format_event(&self, level: Level, spans: &Vec<String>, fields: &ConfigExtractor) -> (r: String)
        ensures
            exists|t: ClockReading|
                reading_valid(t) && r@ == event_text(
                    self.profile,
                    stamp_text(t),
                    level,
                    views(spans@),
                    fields@,
                ),
    {
        let reading = local_reading();
        self.render(reading.1.as_str(), level, spans, fields)
    }
}

} // verus!
