//! Path serialization.
//!
//! A badge-space path becomes a compact drawing-command string with
//! absolute coordinates: `M x,y` for Begin, `L x,y` for Line, `Q cx,cy x,y`
//! for Quadratic, `C c1x,c1y c2x,c2y x,y` for Cubic, and `Z` for a closed
//! End (an open End emits nothing). Coordinates carry exactly two decimal
//! places.
use vstd::prelude::*;
use vstd::string::StringExecFns;

use crate::numfmt::push_cents;
use crate::numfmt::spec_cents;
use crate::path::GEvent;
use crate::path::PathEvent;
use crate::path::events_view;
use crate::path::gevent_bounded;

verus! {

/// The serialized text of one drawing event.
pub open spec fn spec_event_str(e: GEvent) -> Seq<char> {
    match e {
        GEvent::Begin { x, y } => seq!['M'] + spec_cents(x) + seq![','] + spec_cents(y),
        GEvent::Line { x, y } => seq!['L'] + spec_cents(x) + seq![','] + spec_cents(y),
        GEvent::Quadratic { cx, cy, x, y } => seq!['Q'] + spec_cents(cx) + seq![','] + spec_cents(
            cy,
        ) + seq![' '] + spec_cents(x) + seq![','] + spec_cents(y),
        GEvent::Cubic { c1x, c1y, c2x, c2y, x, y } => seq!['C'] + spec_cents(c1x) + seq![',']
            + spec_cents(c1y) + seq![' '] + spec_cents(c2x) + seq![','] + spec_cents(c2y)
            + seq![' '] + spec_cents(x) + seq![','] + spec_cents(y),
        GEvent::End { closed } => if closed {
            seq!['Z']
        } else {
            Seq::<char>::empty()
        },
    }
}

/// The serialized text of a whole path: the events' texts in order.
pub open spec fn spec_path_str(s: Seq<GEvent>) -> Seq<char>
    decreases s.len(),
{
    if s.len() == 0 {
        Seq::<char>::empty()
    } else {
        spec_path_str(s.drop_last()) + spec_event_str(s.last())
    }
}

/// Appends `M`/`L` followed by one coordinate pair.
fn push_pair(out: &mut String, x: i64, y: i64)
    requires
        x != i64::MIN,
        y != i64::MIN,
    ensures
        final(out)@ == old(out)@ + spec_cents(x as int) + seq![','] + spec_cents(y as int),
{
    proof {
        reveal_strlit(",");
    }
    push_cents(out, x);
    out.append(",");
    push_cents(out, y);
    assert(final(out)@ =~= old(out)@ + spec_cents(x as int) + seq![','] + spec_cents(y as int));
}

/// Serializes one event onto `out`.
#[verifier::rlimit(60)]
fn push_event(out: &mut String, e: &PathEvent)
    requires
        gevent_bounded(e@, i64::MAX as int),
    ensures
        final(out)@ == old(out)@ + spec_event_str(e@),
{
    proof {
        reveal_strlit("M");
        reveal_strlit("L");
        reveal_strlit("Q");
        reveal_strlit("C");
        reveal_strlit("Z");
        reveal_strlit(" ");
    }
    match *e {
        PathEvent::Begin { x, y } => {
            out.append("M");
            push_pair(out, x, y);
        },
        PathEvent::Line { x, y } => {
            out.append("L");
            push_pair(out, x, y);
        },
        PathEvent::Quadratic { cx, cy, x, y } => {
            out.append("Q");
            push_pair(out, cx, cy);
            out.append(" ");
            push_pair(out, x, y);
        },
        PathEvent::Cubic { c1x, c1y, c2x, c2y, x, y } => {
            out.append("C");
            push_pair(out, c1x, c1y);
            out.append(" ");
            push_pair(out, c2x, c2y);
            out.append(" ");
            push_pair(out, x, y);
        },
        PathEvent::End { closed } => {
            if closed {
                out.append("Z");
            }
        },
    }
    assert(final(out)@ =~= old(out)@ + spec_event_str(e@));
}

/// Serializes a badge-space path into its drawing-command string.
pub fn serialize_path(path: &Vec<PathEvent>) -> (r: String)
    requires
        forall|j: int|
            0 <= j < path@.len() ==> gevent_bounded(#[trigger] path@[j]@, i64::MAX as int),
    ensures
        r@ == spec_path_str(events_view(path@)),
{
    let mut out = String::new();
    let mut i: usize = 0;
    proof {
        assert(events_view(path@).take(0) =~= Seq::<GEvent>::empty());
    }
    while i < path.len()
        invariant
            0 <= i <= path.len(),
            forall|j: int|
                0 <= j < path@.len() ==> gevent_bounded(#[trigger] path@[j]@, i64::MAX as int),
            out@ == spec_path_str(events_view(path@).take(i as int)),
        decreases path.len() - i,
    {
        proof {
            assert(events_view(path@).take(i as int + 1).drop_last() =~= events_view(path@).take(
                i as int,
            ));
            assert(events_view(path@).take(i as int + 1).last() == path@[i as int]@);
        }
        push_event(&mut out, &path[i]);
        i = i + 1;
    }
    proof {
        assert(events_view(path@).take(path@.len() as int) =~= events_view(path@));
    }
    out
}

/// How often `c` occurs in `s`.
pub open spec fn count_char(s: Seq<char>, c: char) -> int
    decreases s.len(),
{
    if s.len() == 0 {
        0
    } else {
        count_char(s.drop_last(), c) + if s.last() == c {
            1int
        } else {
            0int
        }
    }
}

/// How many events of the path satisfy the given shape.
pub open spec fn count_matching(s: Seq<GEvent>, f: spec_fn(GEvent) -> bool) -> int
    decreases s.len(),
{
    if s.len() == 0 {
        0
    } else {
        count_matching(s.drop_last(), f) + if f(s.last()) {
            1int
        } else {
            0int
        }
    }
}

/// How often `c` occurs in a one-character text.
proof fn lemma_count_one(x: char, c: char)
    ensures
        count_char(seq![x], c) == if x == c {
            1int
        } else {
            0int
        },
{
    assert(seq![x].drop_last() =~= Seq::<char>::empty());
    assert(count_char(Seq::<char>::empty(), c) == 0);
}

/// How often `c` occurs in a two-character text.
proof fn lemma_count_pair(x: char, y: char, c: char)
    ensures
        count_char(seq![x, y], c) == (if x == c {
            1int
        } else {
            0int
        }) + (if y == c {
            1int
        } else {
            0int
        }),
{
    assert(seq![x, y].drop_last() =~= seq![x]);
    lemma_count_one(x, c);
}

/// Occurrences distribute over concatenation.
proof fn lemma_count_concat(a: Seq<char>, b: Seq<char>, c: char)
    ensures
        count_char(a + b, c) == count_char(a, c) + count_char(b, c),
    decreases b.len(),
{
    if b.len() == 0 {
        assert(a + b =~= a);
    } else {
        lemma_count_concat(a, b.drop_last(), c);
        assert((a + b).drop_last() =~= a + b.drop_last());
    }
}

/// A decimal rendering holds only digit characters.
proof fn lemma_count_udec(n: nat, c: char)
    requires
        !(48 <= c as int <= 57),
    ensures
        count_char(crate::numfmt::spec_udec(n), c) == 0,
    decreases n,
{
    if n >= 10 {
        lemma_count_udec(n / 10, c);
        lemma_count_concat(
            crate::numfmt::spec_udec(n / 10),
            seq![crate::numfmt::digit_char((n % 10) as int)],
            c,
        );
        lemma_count_one(crate::numfmt::digit_char((n % 10) as int), c);
    } else {
        lemma_count_one(crate::numfmt::digit_char(n as int), c);
    }
}

/// A coordinate rendering holds only digits, a point and a minus sign.
proof fn lemma_count_cents(v: int, c: char)
    requires
        !(48 <= c as int <= 57),
        c != '.',
        c != '-',
    ensures
        count_char(spec_cents(v), c) == 0,
{
    let a = if v < 0 {
        -v
    } else {
        v
    };
    let sign = if v < 0 {
        seq!['-']
    } else {
        Seq::<char>::empty()
    };
    lemma_count_udec((a / 100) as nat, c);
    if v < 0 {
        lemma_count_one('-', c);
    } else {
        assert(count_char(sign, c) == 0);
    }
    lemma_count_one('.', c);
    lemma_count_pair(crate::numfmt::digit_char((a % 100) / 10), crate::numfmt::digit_char(a % 10), c);
    lemma_count_concat(sign, crate::numfmt::spec_udec((a / 100) as nat), c);
    lemma_count_concat(sign + crate::numfmt::spec_udec((a / 100) as nat), seq!['.'], c);
    lemma_count_concat(
        sign + crate::numfmt::spec_udec((a / 100) as nat) + seq!['.'],
        seq![
            crate::numfmt::digit_char((a % 100) / 10),
            crate::numfmt::digit_char(a % 10),
        ],
        c,
    );
}

/// The command letter occurs in one event's text exactly when the event
/// has that shape, once.
proof fn lemma_count_event(e: GEvent, c: char)
    requires
        c == 'M' || c == 'L' || c == 'Q' || c == 'C' || c == 'Z',
    ensures
        count_char(spec_event_str(e), c) == (match e {
            GEvent::Begin { .. } => if c == 'M' {
                1int
            } else {
                0int
            },
            GEvent::Line { .. } => if c == 'L' {
                1int
            } else {
                0int
            },
            GEvent::Quadratic { .. } => if c == 'Q' {
                1int
            } else {
                0int
            },
            GEvent::Cubic { .. } => if c == 'C' {
                1int
            } else {
                0int
            },
            GEvent::End { closed } => if c == 'Z' && closed {
                1int
            } else {
                0int
            },
        }),
{
    match e {
        GEvent::Begin { x, y } => {
            lemma_count_one('M', c);
            lemma_count_one(',', c);
            lemma_count_cents(x, c);
            lemma_count_cents(y, c);
            lemma_count_concat(seq!['M'], spec_cents(x), c);
            lemma_count_concat(seq!['M'] + spec_cents(x), seq![','], c);
            lemma_count_concat(seq!['M'] + spec_cents(x) + seq![','], spec_cents(y), c);
        },
        GEvent::Line { x, y } => {
            lemma_count_one('L', c);
            lemma_count_one(',', c);
            lemma_count_cents(x, c);
            lemma_count_cents(y, c);
            lemma_count_concat(seq!['L'], spec_cents(x), c);
            lemma_count_concat(seq!['L'] + spec_cents(x), seq![','], c);
            lemma_count_concat(seq!['L'] + spec_cents(x) + seq![','], spec_cents(y), c);
        },
        GEvent::Quadratic { cx, cy, x, y } => {
            lemma_count_one('Q', c);
            lemma_count_one(',', c);
            lemma_count_one(' ', c);
            lemma_count_cents(cx, c);
            lemma_count_cents(cy, c);
            lemma_count_cents(x, c);
            lemma_count_cents(y, c);
            let s1 = seq!['Q'] + spec_cents(cx);
            let s2 = s1 + seq![','];
            let s3 = s2 + spec_cents(cy);
            let s4 = s3 + seq![' '];
            let s5 = s4 + spec_cents(x);
            let s6 = s5 + seq![','];
            lemma_count_concat(seq!['Q'], spec_cents(cx), c);
            lemma_count_concat(s1, seq![','], c);
            lemma_count_concat(s2, spec_cents(cy), c);
            lemma_count_concat(s3, seq![' '], c);
            lemma_count_concat(s4, spec_cents(x), c);
            lemma_count_concat(s5, seq![','], c);
            lemma_count_concat(s6, spec_cents(y), c);
        },
        GEvent::Cubic { c1x, c1y, c2x, c2y, x, y } => {
            lemma_count_one('C', c);
            lemma_count_one(',', c);
            lemma_count_one(' ', c);
            lemma_count_cents(c1x, c);
            lemma_count_cents(c1y, c);
            lemma_count_cents(c2x, c);
            lemma_count_cents(c2y, c);
            lemma_count_cents(x, c);
            lemma_count_cents(y, c);
            let s1 = seq!['C'] + spec_cents(c1x);
            let s2 = s1 + seq![','];
            let s3 = s2 + spec_cents(c1y);
            let s4 = s3 + seq![' '];
            let s5 = s4 + spec_cents(c2x);
            let s6 = s5 + seq![','];
            let s7 = s6 + spec_cents(c2y);
            let s8 = s7 + seq![' '];
            let s9 = s8 + spec_cents(x);
            let s10 = s9 + seq![','];
            lemma_count_concat(seq!['C'], spec_cents(c1x), c);
            lemma_count_concat(s1, seq![','], c);
            lemma_count_concat(s2, spec_cents(c1y), c);
            lemma_count_concat(s3, seq![' '], c);
            lemma_count_concat(s4, spec_cents(c2x), c);
            lemma_count_concat(s5, seq![','], c);
            lemma_count_concat(s6, spec_cents(c2y), c);
            lemma_count_concat(s7, seq![' '], c);
            lemma_count_concat(s8, spec_cents(x), c);
            lemma_count_concat(s9, seq![','], c);
            lemma_count_concat(s10, spec_cents(y), c);
        },
        GEvent::End { closed } => {
            if closed {
                lemma_count_one('Z', c);
            }
        },
    }
}

/// The serialized path holds one command letter per event of that shape:
/// as many `M` as `Begin`s, `L` as `Line`s, `Q` as `Quadratic`s, `C` as
/// `Cubic`s, and `Z` as closed `End`s — coordinates never produce a
/// command letter.
pub proof fn lemma_token_counts(events: Seq<GEvent>)
    ensures
        count_char(spec_path_str(events), 'M') == count_matching(
            events,
            |e: GEvent| e is Begin,
        ),
        count_char(spec_path_str(events), 'L') == count_matching(events, |e: GEvent| e is Line),
        count_char(spec_path_str(events), 'Q') == count_matching(
            events,
            |e: GEvent| e is Quadratic,
        ),
        count_char(spec_path_str(events), 'C') == count_matching(
            events,
            |e: GEvent| e is Cubic,
        ),
        count_char(spec_path_str(events), 'Z') == count_matching(
            events,
            |e: GEvent| e matches GEvent::End { closed: true },
        ),
    decreases events.len(),
{
    if events.len() > 0 {
        lemma_token_counts(events.drop_last());
        let last = events.last();
        lemma_count_concat(spec_path_str(events.drop_last()), spec_event_str(last), 'M');
        lemma_count_concat(spec_path_str(events.drop_last()), spec_event_str(last), 'L');
        lemma_count_concat(spec_path_str(events.drop_last()), spec_event_str(last), 'Q');
        lemma_count_concat(spec_path_str(events.drop_last()), spec_event_str(last), 'C');
        lemma_count_concat(spec_path_str(events.drop_last()), spec_event_str(last), 'Z');
        lemma_count_event(last, 'M');
        lemma_count_event(last, 'L');
        lemma_count_event(last, 'Q');
        lemma_count_event(last, 'C');
        lemma_count_event(last, 'Z');
    }
}

/// The last character of a coordinate rendering is a digit.
proof fn lemma_cents_last_digit(v: int)
    ensures
        spec_cents(v).len() > 0,
        48 <= spec_cents(v).last() as int <= 57,
{
}

/// The text of a drawing event (not an `End`) ends with a digit.
proof fn lemma_event_last_digit(e: GEvent)
    requires
        !(e is End),
    ensures
        spec_event_str(e).len() > 0,
        48 <= spec_event_str(e).last() as int <= 57,
{
    match e {
        GEvent::Begin { x, y } => {
            lemma_cents_last_digit(y);
        },
        GEvent::Line { x, y } => {
            lemma_cents_last_digit(y);
        },
        GEvent::Quadratic { cx, cy, x, y } => {
            lemma_cents_last_digit(y);
        },
        GEvent::Cubic { c1x, c1y, c2x, c2y, x, y } => {
            lemma_cents_last_digit(y);
        },
        GEvent::End { .. } => {},
    }
}

/// A single subpath — a `Begin`, drawing events, and one final `End` —
/// serializes with a trailing `Z` exactly when it was closed.
pub proof fn lemma_trailing_z(events: Seq<GEvent>, closed: bool)
    requires
        events.len() > 0,
        events.last() == (GEvent::End { closed }),
        forall|i: int| 0 <= i < events.len() - 1 ==> !((#[trigger] events[i]) is End),
    ensures
        closed ==> spec_path_str(events).len() > 0 && spec_path_str(events).last() == 'Z',
        !closed ==> (spec_path_str(events).len() == 0 || spec_path_str(events).last() != 'Z'),
{
    let prefix = events.drop_last();
    if closed {
        assert(spec_path_str(events) == spec_path_str(prefix) + seq!['Z']);
    } else {
        assert(spec_path_str(events) =~= spec_path_str(prefix));
        if prefix.len() > 0 {
            let pl = prefix.last();
            assert(!(pl is End));
            lemma_event_last_digit(pl);
            assert(spec_path_str(prefix) == spec_path_str(prefix.drop_last()) + spec_event_str(
                pl,
            ));
            assert(spec_path_str(prefix).last() == spec_event_str(pl).last());
        }
    }
}

} // verus!
