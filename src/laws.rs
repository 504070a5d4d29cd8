//! Properties of the renderer, proved over its specifications.

use vstd::prelude::*;
use crate::extract::{extract_spec, Extracted, Field, HEADER_COLOR_KEY, HEADER_TEXT_KEY, TEXT_COLOR_KEY};
use crate::render::{
    continuation, event_text, has_header, HEADER_WIDTH, header_of, label_field, output_line, output_lines,
    rendered, text_open, Level,
};
use crate::span::{path_of, segment_of, SpanProfile, SPAN_SEPARATOR};
use crate::style::RESET;
use crate::text::{physical_lines, split_newlines, strip_cr};

verus! {

/// Whether a field name is one of the reserved presentation names.
pub open spec fn is_reserved(name: Seq<char>) -> bool {
    name == TEXT_COLOR_KEY@ || name == HEADER_COLOR_KEY@ || name == HEADER_TEXT_KEY@
}

/// The number of line feeds in `s`.
pub open spec fn newline_count(s: Seq<char>) -> nat
    decreases s.len(),
{
    if s.len() == 0 {
        0
    } else {
        newline_count(s.drop_last()) + if s.last() == '\n' { 1nat } else { 0nat }
    }
}

proof fn lemma_no_presentation(fields: Seq<Field>)
    requires
        forall|i: int| 0 <= i < fields.len() ==> !is_reserved(#[trigger] fields[i].name@),
    ensures
        extract_spec(fields).text_color is None,
        extract_spec(fields).header_color is None,
        extract_spec(fields).header_text is None,
    decreases fields.len(),
{
    if fields.len() > 0 {
        let init = fields.drop_last();
        assert forall|i: int| 0 <= i < init.len() implies !is_reserved(#[trigger] init[i].name@) by {
            assert(init[i] == fields[i]);
        }
        lemma_no_presentation(init);
        assert(!is_reserved(fields[fields.len() - 1].name@));
    }
}

proof fn lemma_split_shape(s: Seq<char>)
    ensures
        split_newlines(s).len() == newline_count(s) + 1,
        forall|i: int, j: int|
            0 <= i < split_newlines(s).len() && 0 <= j < split_newlines(s)[i].len()
                ==> #[trigger] split_newlines(s)[i][j] != '\n',
        s.len() > 0 && s.last() == '\n' ==> split_newlines(s).last().len() == 0,
        s.len() > 0 && s.last() != '\n' ==> split_newlines(s).last().len() > 0,
    decreases s.len(),
{
    if s.len() > 0 {
        lemma_split_shape(s.drop_last());
        let init = split_newlines(s.drop_last());
        let p = split_newlines(s);
        if s.last() != '\n' {
            assert forall|i: int, j: int| 0 <= i < p.len() && 0 <= j < p[i].len() implies #[trigger] p[i][j] != '\n' by {
                if i == p.len() - 1 {
                    if j < init.last().len() {
                        assert(p[i][j] == init[i][j]);
                    }
                } else {
                    assert(p[i] == init[i]);
                }
            }
        } else {
            assert forall|i: int, j: int| 0 <= i < p.len() && 0 <= j < p[i].len() implies #[trigger] p[i][j] != '\n' by {
                assert(p[i] == init[i]);
            }
        }
    }
}

/// Every physical line of a text is free of line feeds; there is at least one;
/// and there is one more than the text has line feeds, or as many when the
/// text ends with a line feed.
pub proof fn lemma_physical_lines(s: Seq<char>)
    ensures
        physical_lines(s).len() >= 1,
        s.len() == 0 || s.last() != '\n' ==> physical_lines(s).len() == newline_count(s) + 1,
        s.len() > 0 && s.last() == '\n' ==> physical_lines(s).len() == newline_count(s),
        forall|i: int, j: int|
            0 <= i < physical_lines(s).len() && 0 <= j < physical_lines(s)[i].len()
                ==> #[trigger] physical_lines(s)[i][j] != '\n',
{
    lemma_split_shape(s);
    let p = split_newlines(s);
    let ls = physical_lines(s);
    if s.len() == 0 {
        assert(p =~= seq![Seq::<char>::empty()]);
    }
    assert forall|i: int, j: int| 0 <= i < ls.len() && 0 <= j < ls[i].len() implies #[trigger] ls[i][j] != '\n' by {
        if i < p.len() - 1 {
            assert(ls[i] == strip_cr(p[i]));
            assert(ls[i][j] == p[i][j]);
        } else {
            assert(ls[i][j] == p[i][j]);
        }
    }
}

/// An event without presentation fields renders each physical line of its
/// text as the prefix, a space, the line and a reset: no header and no text
/// color.
pub proof fn lemma_plain_event(prefix: Seq<char>, fields: Seq<Field>)
    requires
        forall|i: int| 0 <= i < fields.len() ==> !is_reserved(#[trigger] fields[i].name@),
    ensures
        output_lines(prefix, extract_spec(fields)) == Seq::new(
            physical_lines(extract_spec(fields).text).len(),
            |i: int| prefix + " "@ + physical_lines(extract_spec(fields).text)[i] + RESET@ + "\n"@,
        ),
{
    lemma_no_presentation(fields);
    let e = extract_spec(fields);
    let ls = physical_lines(e.text);
    let plain = Seq::new(ls.len(), |i: int| prefix + " "@ + ls[i] + RESET@ + "\n"@);
    assert forall|i: int| 0 <= i < ls.len() implies output_lines(prefix, e)[i] == plain[i] by {
        assert(text_open(e) == Seq::<char>::empty());
        assert(output_line(prefix, Seq::empty(), Seq::empty(), ls[i]) =~= plain[i]);
    }
    assert(output_lines(prefix, e) =~= plain);
}

/// With both a header label and a header color, every output line starts
/// with the shared prefix; the first carries the header and each later one
/// blank padding instead, as wide as the label field with its colon and
/// space whenever the label fits that field.
pub proof fn lemma_headered_event(prefix: Seq<char>, e: Extracted)
    requires
        has_header(e),
    ensures
        output_lines(prefix, e).len() >= 1,
        forall|i: int|
            0 <= i < output_lines(prefix, e).len() ==> (#[trigger] output_lines(prefix, e)[i]).take(
                prefix.len() + 1int,
            ) == prefix + " "@,
        output_lines(prefix, e)[0] == output_line(
            prefix,
            header_of(e.header_color->0, e.header_text->0),
            text_open(e),
            physical_lines(e.text)[0],
        ),
        forall|i: int|
            1 <= i < output_lines(prefix, e).len() ==> #[trigger] output_lines(prefix, e)[i]
                == output_line(prefix, continuation(), text_open(e), physical_lines(e.text)[i]),
        e.header_text->0.len() + 2 <= HEADER_WIDTH ==> continuation().len() == label_field(e.header_text->0).len()
            + ":"@.len() + " "@.len(),
{
    lemma_physical_lines(e.text);
    reveal_strlit("[");
    reveal_strlit("]");
    reveal_strlit(":");
    reveal_strlit(" ");
    let ol = output_lines(prefix, e);
    assert forall|i: int| 0 <= i < ol.len() implies (#[trigger] ol[i]).take(prefix.len() + 1int) == prefix
        + " "@ by {
        assert(ol[i].take(prefix.len() + 1int) =~= prefix + " "@);
    }
}

/// A text of several lines gives one output line per physical line, each
/// starting with the shared prefix, and the output is those lines in order.
pub proof fn lemma_one_output_line_per_line(prefix: Seq<char>, e: Extracted)
    ensures
        output_lines(prefix, e).len() == physical_lines(e.text).len(),
        e.text.len() == 0 || e.text.last() != '\n' ==> output_lines(prefix, e).len()
            == newline_count(e.text) + 1,
        forall|i: int|
            0 <= i < output_lines(prefix, e).len() ==> (#[trigger] output_lines(prefix, e)[i]).take(
                prefix.len() as int,
            ) == prefix,
        rendered(prefix, e) == output_lines(prefix, e).flatten(),
{
    lemma_physical_lines(e.text);
    let ol = output_lines(prefix, e);
    assert forall|i: int| 0 <= i < ol.len() implies (#[trigger] ol[i]).take(prefix.len() as int)
        == prefix by {
        assert(ol[i].take(prefix.len() as int) =~= prefix);
    }
}

/// Span paths keep the order of nesting, outermost first: a single span
/// shows as its name, an inner span is added after its parents with the
/// separator, and no active span leaves the span part out.
pub proof fn lemma_span_path(profile: SpanProfile, names: Seq<Seq<char>>, inner: Seq<char>)
    ensures
        path_of(seq![inner]) == inner,
        names.len() > 0 ==> path_of(names.push(inner)) == path_of(names) + SPAN_SEPARATOR@ + inner,
        segment_of(profile, Seq::empty()) == Seq::<char>::empty(),
{
    assert(names.push(inner).drop_last() =~= names);
}

/// Rendering the same event twice gives the same text.
pub proof fn lemma_render_repeatable(
    profile: SpanProfile,
    timestamp: Seq<char>,
    level: Level,
    spans1: Seq<Seq<char>>,
    spans2: Seq<Seq<char>>,
    fields1: Seq<Field>,
    fields2: Seq<Field>,
)
    requires
        spans1 == spans2,
        fields1 == fields2,
    ensures
        event_text(profile, timestamp, level, spans1, extract_spec(fields1)) == event_text(
            profile,
            timestamp,
            level,
            spans2,
            extract_spec(fields2),
        ),
{
}

} // verus!
