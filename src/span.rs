//! The span path resolver: how the chain of active spans shows in a line.

use vstd::prelude::*;
use crate::text::{decimal, push_decimal, views};

verus! {

/// Placed between the names of nested spans.
pub const SPAN_SEPARATOR: &'static str = " > ";

/// Depths up to this one show as one marker per span.
pub const MAX_PLAIN_DEPTH: usize = 3;

/// How the active spans of an event are shown.
#[derive(Debug, Clone, Copy, PartialEq, Eq, Structural)]
pub enum SpanProfile {
    /// The names of all active spans, outermost first.
    Path,
    /// Only how deeply the event is nested.
    Depth,
}

/// The names of the spans, outermost first, joined by the separator.
pub open spec fn path_of(names: Seq<Seq<char>>) -> Seq<char>
    decreases names.len(),
{
    if names.len() == 0 {
        Seq::empty()
    } else if names.len() == 1 {
        names[0]
    } else {
        path_of(names.drop_last()) + SPAN_SEPARATOR@ + names.last()
    }
}

/// The depth counter: one `>` per span up to three, then `>>` and the depth.
pub open spec fn depth_marker(depth: nat) -> Seq<char> {
    if depth <= MAX_PLAIN_DEPTH {
        Seq::new(depth, |i: int| '>')
    } else {
        ">>"@ + decimal(depth)
    }
}

/// The span part of a line prefix: empty when no span is active.
pub open spec fn segment_of(profile: SpanProfile, names: Seq<Seq<char>>) -> Seq<char> {
    if names.len() == 0 {
        Seq::empty()
    } else {
        match profile {
            SpanProfile::Path => ">> "@ + path_of(names) + " "@,
            SpanProfile::Depth => depth_marker(names.len()) + " "@,
        }
    }
}

/// Joins the span names, outermost first.
pub fn span_path(names: &Vec<String>) -> (r: String)
    ensures
        r@ == path_of(views(names@)),
{
    let mut out = String::new();
    let mut i: usize = 0;
    while i < names.len()
        invariant
            i <= names@.len(),
            out@ == path_of(views(names@).take(i as int)),
        decreases names@.len() - i,
    {
        let ghost prev = views(names@).take(i as int);
        let ghost next = views(names@).take(i + 1);
        proof {
            assert(next.drop_last() =~= prev);
        }
        if i > 0 {
            out.append(SPAN_SEPARATOR);
        }
        out.append(names[i].as_str());
        proof {
            if i == 0 {
                assert(out@ =~= next[0]);
            }
        }
        i = i + 1;
    }
    assert(views(names@).take(names@.len() as int) =~= views(names@));
    out
}

/// The depth counter for `depth` nested spans.
pub fn depth_counter(depth: usize) -> (r: String)
    ensures
        r@ == depth_marker(depth as nat),
{
    let mut out = String::new();
    if depth <= MAX_PLAIN_DEPTH {
        let mut k: usize = 0;
        while k < depth
            invariant
                k <= depth,
                out@ == Seq::new(k as nat, |i: int| '>'),
            decreases depth - k,
        {
            proof {
                reveal_strlit(">");
            }
            out.append(">");
            k = k + 1;
            assert(out@ =~= Seq::new(k as nat, |i: int| '>'));
        }
    } else {
        out.append(">>");
        push_decimal(&mut out, depth);
    }
    out
}

/// The span part of a line prefix for the given profile.
pub fn span_segment(profile: SpanProfile, names: &Vec<String>) -> (r: String)
    ensures
        r@ == segment_of(profile, views(names@)),
{
    let mut out = String::new();
    if names.len() > 0 {
        match profile {
            SpanProfile::Path => {
                out.append(">> ");
                out.append(span_path(names).as_str());
            },
            SpanProfile::Depth => {
                out.append(depth_counter(names.len()).as_str());
            },
        }
        out.append(" ");
    }
    out
}

} // verus!
