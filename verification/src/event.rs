//! The parser's output: a flat list of events, converted to a tree in a
//! separate pass. Shape is carried by nesting of `Start`/`Finish` pairs and,
//! for nodes invented after the fact, by `forward_parent` offsets.

use crate::kinds::SyntaxKind;
use crate::parser::{nt_from, ParseError};
use crate::syntax_error::{SyntaxError, SyntaxErrorCause};
use crate::text_tree_sink::TextTreeSink;
use vstd::prelude::*;

verus! {

/// One structural event.
#[derive(Debug, Clone, Copy, PartialEq, Eq)]
pub enum Event {
    /// Opens a node. A `TOMBSTONE` kind marks an abandoned or already
    /// replayed start, which produces no node. A `forward_parent` offset
    /// names a later `Start` that must be replayed as this node's parent.
    Start { kind: SyntaxKind, forward_parent: Option<u32> },
    /// Closes the most recently opened node.
    Finish,
    /// One leaf: the next `n_raw_tokens` grammar-visible tokens.
    Token { kind: SyntaxKind, n_raw_tokens: u8 },
    /// A recoverable error, recorded without affecting tree shape.
    Error(ParseError),
}

/// The placeholder value, for specifications.
pub open spec fn spec_tombstone() -> Event {
    Event::Start { kind: SyntaxKind::TOMBSTONE, forward_parent: None }
}

impl Event {
    /// The placeholder a fresh marker pushes.
    pub fn tombstone() -> (r: Event)
        ensures
            r == (Event::Start { kind: SyntaxKind::TOMBSTONE, forward_parent: None }),
    {
        Event::Start { kind: SyntaxKind::TOMBSTONE, forward_parent: None }
    }
}

/// How one event changes the nesting depth during replay: starts of real
/// kinds open a node, `Finish` closes one, everything else leaves depth
/// alone. Whitespace-kind starts are suppressed like tombstones.
pub open spec fn ev_delta(e: Event) -> int {
    match e {
        Event::Start { kind, .. } => if kind is TOMBSTONE || kind is WHITESPACE {
            0
        } else {
            1
        },
        Event::Finish => -1,
        _ => 0,
    }
}

/// Total depth change over a whole segment.
pub open spec fn depth_total(es: Seq<Event>) -> int
    decreases es.len(),
{
    if es.len() == 0 {
        0
    } else {
        depth_total(es.drop_last()) + ev_delta(es.last())
    }
}

/// The least depth any prefix of the segment reaches.
pub open spec fn min_depth(es: Seq<Event>) -> int
    decreases es.len(),
{
    if es.len() == 0 {
        0
    } else {
        let m = min_depth(es.drop_last());
        let d = depth_total(es);
        if m <= d {
            m
        } else {
            d
        }
    }
}

/// A segment is balanced when it closes exactly the nodes it opens and never
/// closes a node it did not open.
pub open spec fn balanced(es: Seq<Event>) -> bool {
    depth_total(es) == 0 && min_depth(es) >= 0
}

/// Number of `Token` events in the segment.
pub open spec fn count_token_events(es: Seq<Event>) -> nat
    decreases es.len(),
{
    if es.len() == 0 {
        0
    } else {
        count_token_events(es.drop_last()) + if es.last() is Token {
            1nat
        } else {
            0nat
        }
    }
}

/// The error payloads of the segment, in order.
pub open spec fn error_events(es: Seq<Event>) -> Seq<ParseError>
    decreases es.len(),
{
    if es.len() == 0 {
        Seq::empty()
    } else {
        error_events(es.drop_last()) + match es.last() {
            Event::Error(pe) => seq![pe],
            _ => Seq::empty(),
        }
    }
}

/// No event carries a forward parent.
pub open spec fn no_fp(es: Seq<Event>) -> bool {
    forall|j: int|
        0 <= j < es.len() ==> match #[trigger] es[j] {
            Event::Start { forward_parent, .. } => forward_parent is None,
            _ => true,
        }
}

/// Every forward parent points, at a positive offset, to a later `Start`
/// inside the segment.
pub open spec fn wf_fp(es: Seq<Event>) -> bool {
    forall|j: int|
        0 <= j < es.len() ==> match #[trigger] es[j] {
            Event::Start { forward_parent: Some(d), .. } => 1 <= d && j + d < es.len()
                && es[j + d] is Start,
            _ => true,
        }
}

/// The measures of a one-event segment.
pub proof fn lemma_single_event(e: Event)
    ensures
        depth_total(seq![e]) == ev_delta(e),
        min_depth(seq![e]) == (if ev_delta(e) < 0 {
            ev_delta(e)
        } else {
            0
        }),
        count_token_events(seq![e]) == (if e is Token {
            1nat
        } else {
            0nat
        }),
        error_events(seq![e]) == (match e {
            Event::Error(pe) => seq![pe],
            _ => Seq::<ParseError>::empty(),
        }),
{
    let s = seq![e];
    assert(s.drop_last() =~= Seq::<Event>::empty());
    assert(depth_total(Seq::<Event>::empty()) == 0);
    assert(min_depth(Seq::<Event>::empty()) == 0);
    assert(count_token_events(Seq::<Event>::empty()) == 0);
    assert(error_events(Seq::<Event>::empty()) =~= Seq::<ParseError>::empty());
    match e {
        Event::Error(pe) => {
            assert(error_events(s) =~= seq![pe]);
        },
        _ => {
            assert(error_events(s) =~= Seq::<ParseError>::empty());
        },
    }
}

/// Depth and minimum depth add across concatenation.
pub proof fn lemma_depth_concat(a: Seq<Event>, b: Seq<Event>)
    ensures
        depth_total(a + b) == depth_total(a) + depth_total(b),
        min_depth(a + b) == if min_depth(a) <= depth_total(a) + min_depth(b) {
            min_depth(a)
        } else {
            depth_total(a) + min_depth(b)
        },
    decreases b.len(),
{
    if b.len() == 0 {
        assert(a + b =~= a);
    } else {
        lemma_depth_concat(a, b.drop_last());
        assert((a + b).drop_last() =~= a + b.drop_last());
        assert((a + b).last() == b.last());
    }
}

/// Token counts add across concatenation.
pub proof fn lemma_count_token_concat(a: Seq<Event>, b: Seq<Event>)
    ensures
        count_token_events(a + b) == count_token_events(a) + count_token_events(b),
    decreases b.len(),
{
    if b.len() == 0 {
        assert(a + b =~= a);
    } else {
        lemma_count_token_concat(a, b.drop_last());
        assert((a + b).drop_last() =~= a + b.drop_last());
        assert((a + b).last() == b.last());
    }
}

/// Error lists concatenate across concatenation.
pub proof fn lemma_error_events_concat(a: Seq<Event>, b: Seq<Event>)
    ensures
        error_events(a + b) == error_events(a) + error_events(b),
    decreases b.len(),
{
    if b.len() == 0 {
        assert(a + b =~= a);
        assert(error_events(a) + error_events(b) =~= error_events(a));
    } else {
        lemma_error_events_concat(a, b.drop_last());
        assert((a + b).drop_last() =~= a + b.drop_last());
        assert((a + b).last() == b.last());
        match b.last() {
            Event::Error(pe) => {
                assert(error_events(a + b) =~= error_events(a) + error_events(b));
            },
            _ => {
                assert(error_events(a + b) =~= error_events(a) + error_events(b));
            },
        }
    }
}

/// A balanced segment wrapped in a real `Start` and a `Finish` is balanced
/// again.
pub proof fn lemma_balanced_wrap(start: Event, mid: Seq<Event>)
    requires
        balanced(mid),
        ev_delta(start) == 1,
    ensures
        balanced(seq![start] + mid + seq![Event::Finish]),
        count_token_events(seq![start] + mid + seq![Event::Finish]) == count_token_events(mid),
        error_events(seq![start] + mid + seq![Event::Finish]) == error_events(mid),
{
    let s = seq![start];
    let f = seq![Event::Finish];
    lemma_single_event(start);
    lemma_single_event(Event::Finish);
    lemma_depth_concat(s, mid);
    lemma_depth_concat(s + mid, f);
    lemma_count_token_concat(s, mid);
    lemma_count_token_concat(s + mid, f);
    lemma_error_events_concat(s, mid);
    lemma_error_events_concat(s + mid, f);
    assert((s + mid) + f =~= s + mid + f);
    assert(error_events(s + mid + f) =~= error_events(mid));
}

/// From position `from` to the end, the event list holds exactly one
/// completed node of kind `kind`: its `Start` opens at `from`, its `Finish`
/// closes the list, and the events in between are balanced, so the replay
/// step builds them as that node's content.
pub open spec fn node_seg(es: Seq<Event>, from: int, kind: SyntaxKind) -> bool {
    &&& 0 <= from
    &&& from + 2 <= es.len()
    &&& es[from] == (Event::Start { kind, forward_parent: None })
    &&& es.last() == Event::Finish
    &&& balanced(es.subrange(from + 1, es.len() - 1))
    &&& !(kind is TOMBSTONE)
    &&& !(kind is WHITESPACE)
}

/// An event list replayable as one tree whose root has kind `k`: it opens
/// the root first, closes it last, and is balanced in between.
pub open spec fn rooted(es: Seq<Event>, k: SyntaxKind) -> bool {
    node_seg(es, 0, k)
}

/// The kind the first event opens.
pub open spec fn rooted_kind(es: Seq<Event>) -> SyntaxKind {
    es[0]->Start_kind
}

/// `a` is `b` with some `Start` events replaced by inert tombstones — the
/// one mutation the replay step makes while it resolves forward-parent
/// chains.
pub open spec fn tombstoned_only(a: Seq<Event>, b: Seq<Event>) -> bool {
    &&& a.len() == b.len()
    &&& forall|j: int|
        0 <= j < a.len() ==> (#[trigger] a[j]) == b[j] || (b[j] is Start && a[j]
            == spec_tombstone())
}

/// Tombstoning starts changes no token or error accounting.
pub proof fn lemma_tomb_counts(a: Seq<Event>, b: Seq<Event>)
    requires
        tombstoned_only(a, b),
    ensures
        count_token_events(a) == count_token_events(b),
        error_events(a) == error_events(b),
    decreases a.len(),
{
    if a.len() > 0 {
        assert(tombstoned_only(a.drop_last(), b.drop_last())) by {
            assert forall|j: int|
                0 <= j < a.drop_last().len() implies (#[trigger] a.drop_last()[j])
                == b.drop_last()[j] || (b.drop_last()[j] is Start && a.drop_last()[j]
                == spec_tombstone()) by {
                assert(a[j] == b[j] || (b[j] is Start && a[j] == spec_tombstone()));
            }
        }
        lemma_tomb_counts(a.drop_last(), b.drop_last());
        assert(a[a.len() - 1] == b[a.len() - 1] || (b[a.len() - 1] is Start && a[a.len() - 1]
            == spec_tombstone()));
        assert(error_events(a) =~= error_events(b));
    } else {
        assert(error_events(a) =~= error_events(b));
    }
}

/// The causes of a list of syntax errors.
pub open spec fn error_causes(es: Seq<SyntaxError>) -> Seq<SyntaxErrorCause> {
    es.map_values(|e: SyntaxError| e.cause)
}

/// Parse errors, wrapped as causes.
pub open spec fn parse_causes(pes: Seq<ParseError>) -> Seq<SyntaxErrorCause> {
    pes.map_values(|pe: ParseError| SyntaxErrorCause::Parse(pe))
}

/// The least prefix depth bounds the depth of every prefix.
proof fn lemma_min_depth_le_prefix(s: Seq<Event>, j: int)
    requires
        0 <= j <= s.len(),
    ensures
        min_depth(s) <= depth_total(s.take(j)),
    decreases s.len(),
{
    if j == s.len() {
        assert(s.take(j) =~= s);
    } else {
        lemma_min_depth_le_prefix(s.drop_last(), j);
        assert(s.drop_last().take(j) =~= s.take(j));
    }
}

/// What a rooted event list guarantees about its prefix depths: the root
/// stays open from the first event to the last, and everything closes at the
/// end.
pub proof fn lemma_rooted_depth(es: Seq<Event>, k: SyntaxKind, i: int)
    requires
        rooted(es, k),
        1 <= i <= es.len(),
    ensures
        i < es.len() ==> depth_total(es.take(i)) >= 1,
        i == es.len() ==> depth_total(es.take(i)) == 0,
{
    let mid = es.subrange(1, es.len() - 1);
    if i < es.len() {
        assert(es.take(i) =~= seq![es[0]] + mid.take(i - 1));
        lemma_depth_concat(seq![es[0]], mid.take(i - 1));
        lemma_single_event(es[0]);
        lemma_min_depth_le_prefix(mid, i - 1);
    } else {
        assert(es.take(i) =~= seq![es[0]] + mid + seq![Event::Finish]);
        lemma_depth_concat(seq![es[0]], mid);
        lemma_depth_concat(seq![es[0]] + mid, seq![Event::Finish]);
        lemma_single_event(es[0]);
        lemma_single_event(Event::Finish);
        assert((seq![es[0]] + mid) + seq![Event::Finish] =~= seq![es[0]] + mid + seq![
            Event::Finish,
        ]);
    }
}

/// Splitting a sequence splits its token count.
pub proof fn lemma_count_token_split(es: Seq<Event>, i: int)
    requires
        0 <= i <= es.len(),
    ensures
        count_token_events(es) == count_token_events(es.take(i)) + count_token_events(es.skip(i)),
{
    assert(es.take(i) + es.skip(i) =~= es);
    lemma_count_token_concat(es.take(i), es.skip(i));
}

/// Replays an event list into the sink: a single forward pass that starts
/// and finishes nodes, forwards tokens and errors, and resolves
/// forward-parent chains by walking each chain to its end, starting the
/// latest-decided ancestor first and tombstoning the visited starts so no
/// node is opened twice. Tokens and errors are accounted exactly for every
/// stream whose forward parents point at real starts; the single-root shape
/// is concluded for the chain-free rooted streams the grammar emits.
pub fn process(sink: &mut TextTreeSink, events: Vec<Event>)
    requires
        old(sink).ok(),
        wf_fp(events@),
        count_token_events(events@) <= nt_from(old(sink).tokens@, old(sink).pos as int),
    ensures
        final(sink).ok(),
        final(sink).tokens == old(sink).tokens,
        final(sink).text == old(sink).text,
        nt_from(final(sink).tokens@, final(sink).pos as int) == nt_from(
            old(sink).tokens@,
            old(sink).pos as int,
        ) - count_token_events(events@),
        error_causes(final(sink).builder.spec_errors()) == error_causes(
            old(sink).builder.spec_errors(),
        ) + parse_causes(error_events(events@)),
        (no_fp(events@) && rooted(events@, rooted_kind(events@)) && old(sink).builder.spec_depth() == 0 && old(sink).builder.base_len() == 0 && count_token_events(
            events@,
        ) == nt_from(old(sink).tokens@, old(sink).pos as int)) ==> final(sink).builder.spec_depth() == 0 && final(sink).builder.base_len() == 1 && final(sink).builder.base@[0] is Node && final(sink).builder.base@[0]->Node_0.kind == rooted_kind(
            events@,
        ) && final(sink).pos == final(sink).tokens@.len() - 1,
{
    let ghost k0 = rooted_kind(events@);
    let ghost rooted_case = no_fp(events@) && rooted(events@, k0) && old(sink).builder.spec_depth() == 0 && old(sink).builder.base_len() == 0 && count_token_events(
        events@,
    ) == nt_from(old(sink).tokens@, old(sink).pos as int);
    let mut evs = events;
    let n = evs.len();
    let mut i: usize = 0;
    proof {
        assert(evs@.take(0int) =~= Seq::<Event>::empty());
        assert(error_causes(old(sink).builder.spec_errors()) + parse_causes(
            error_events(evs@.take(0int)),
        ) =~= error_causes(old(sink).builder.spec_errors()));
    }
    while i < n
        invariant
            n == evs@.len(),
            i <= n,
            tombstoned_only(evs@, events@),
            no_fp(events@) ==> evs@ == events@,
            wf_fp(events@),
            k0 == rooted_kind(events@),
            rooted_case == (no_fp(events@) && rooted(events@, k0) && old(sink).builder.spec_depth() == 0 && old(sink).builder.base_len() == 0
                && count_token_events(events@) == nt_from(
                old(sink).tokens@,
                old(sink).pos as int,
            )),
            sink.ok(),
            sink.tokens == old(sink).tokens,
            sink.text == old(sink).text,
            count_token_events(events@) <= nt_from(old(sink).tokens@, old(sink).pos as int),
            nt_from(sink.tokens@, sink.pos as int) == nt_from(
                old(sink).tokens@,
                old(sink).pos as int,
            ) - count_token_events(events@.take(i as int)),
            error_causes(sink.builder.spec_errors()) == error_causes(
                old(sink).builder.spec_errors(),
            ) + parse_causes(error_events(events@.take(i as int))),
            rooted_case ==> (i == 0 ==> sink.builder.spec_depth() == 0
                && sink.builder.base@.len() == 0),
            rooted_case ==> (1 <= i < n ==> sink.builder.spec_depth() == depth_total(
                events@.take(i as int),
            ) && sink.builder.root_kind() == k0 && sink.builder.base@.len() == 0),
            rooted_case ==> (i == n ==> sink.builder.spec_depth() == 0 && sink.builder.base@.len()
                == 1 && sink.builder.base@[0] is Node && sink.builder.base@[0]->Node_0.kind == k0
                && (sink.pos == sink.tokens@.len() - 1 || !sink.tokens@[sink.pos as int].spec_is_trivia())),
        decreases n - i,
    {
        proof {
            assert(events@.take(i + 1).drop_last() =~= events@.take(i as int));
            assert(events@.take(i + 1).last() == events@[i as int]);
            lemma_count_token_split(events@, i + 1);
            if rooted_case {
                lemma_rooted_depth(events@, k0, i + 1);
                if 1 <= i {
                    lemma_rooted_depth(events@, k0, i as int);
                }
            }
            assert(evs@[i as int] == events@[i as int] || (events@[i as int] is Start
                && evs@[i as int] == spec_tombstone()));
        }
        let ghost pre = *sink;
        let ev = evs[i];
        match ev {
            Event::Start { kind, forward_parent } => {
                proof {
                    assert(events@[i as int] is Start);
                }
                let mut chain: Vec<SyntaxKind> = Vec::new();
                if !matches!(kind, SyntaxKind::TOMBSTONE | SyntaxKind::WHITESPACE) {
                    chain.push(kind);
                }
                let ghost chain0 = chain@;
                let mut fp = forward_parent;
                let mut idx = i;
                proof {
                    if fp is Some {
                        assert(evs@[i as int] == events@[i as int]);
                    }
                }
                while fp.is_some()
                    invariant
                        i <= idx < n,
                        n == evs@.len(),
                        tombstoned_only(evs@, events@),
                        wf_fp(events@),
                        no_fp(events@) ==> (evs@ == events@ && fp is None && chain@ == chain0),
                        fp is Some ==> 1 <= fp.unwrap() && idx + fp.unwrap() < n,
                    decreases n - idx,
                {
                    let d = fp.unwrap() as usize;
                    idx = idx + d;
                    let ghost pre_evs = evs@;
                    match evs[idx] {
                        Event::Start { kind: pk, forward_parent: pfp } => {
                            if !matches!(pk, SyntaxKind::TOMBSTONE | SyntaxKind::WHITESPACE) {
                                chain.push(pk);
                            }
                            evs.set(idx, Event::tombstone());
                            fp = pfp;
                            proof {
                                assert(pre_evs[idx as int] == events@[idx as int] || (
                                events@[idx as int] is Start && pre_evs[idx as int]
                                    == spec_tombstone()));
                                assert(events@[idx as int] is Start);
                                assert forall|j: int|
                                    0 <= j < evs@.len() implies (#[trigger] evs@[j])
                                    == events@[j] || (events@[j] is Start && evs@[j]
                                    == spec_tombstone()) by {
                                    if j != idx {
                                        assert(evs@[j] == pre_evs[j]);
                                    }
                                }
                                if fp is Some {
                                    assert(pre_evs[idx as int] == events@[idx as int]);
                                }
                            }
                        },
                        _ => {
                            fp = None;
                        },
                    }
                }
                let mut j = chain.len();
                while j > 0
                    invariant
                        j <= chain@.len(),
                        sink.ok(),
                        sink.tokens == pre.tokens,
                        sink.text == pre.text,
                        sink.pos == pre.pos,
                        sink.builder.spec_errors() == pre.builder.spec_errors(),
                        sink.builder.base@ == pre.builder.base@,
                        sink.builder.spec_depth() == pre.builder.spec_depth() + (chain@.len() - j),
                        pre.builder.spec_depth() > 0 ==> sink.builder.root_kind()
                            == pre.builder.root_kind(),
                        (pre.builder.spec_depth() == 0 && j < chain@.len())
                            ==> sink.builder.root_kind() == chain@[chain@.len() - 1],
                    decreases j,
                {
                    j = j - 1;
                    sink.start_node(chain[j]);
                }
            },
            Event::Finish => {
                proof {
                    assert(events@[i as int] == ev);
                }
                sink.finish_node();
            },
            Event::Token { kind, n_raw_tokens } => {
                proof {
                    assert(events@[i as int] == ev);
                    assert(count_token_events(events@.take(i + 1)) == count_token_events(
                        events@.take(i as int),
                    ) + 1);
                }
                sink.token(kind, n_raw_tokens);
            },
            Event::Error(pe) => {
                proof {
                    assert(events@[i as int] == ev);
                }
                sink.error(pe);
            },
        }
        proof {
            let t1 = events@.take(i + 1);
            let t0 = events@.take(i as int);
            assert(error_events(t1) == error_events(t0) + (match events@[i as int] {
                Event::Error(pe) => seq![pe],
                _ => Seq::<ParseError>::empty(),
            }));
            assert(error_causes(sink.builder.spec_errors()) =~= error_causes(
                old(sink).builder.spec_errors(),
            ) + parse_causes(error_events(t1))) by {
                match events@[i as int] {
                    Event::Error(pe) => {
                        assert(sink.builder.spec_errors().drop_last() == pre.builder.spec_errors());
                        assert(sink.builder.spec_errors() =~= pre.builder.spec_errors().push(
                            sink.builder.spec_errors().last(),
                        ));
                        assert(error_causes(sink.builder.spec_errors()) =~= error_causes(
                            pre.builder.spec_errors(),
                        ).push(SyntaxErrorCause::Parse(pe)));
                        assert(parse_causes(error_events(t1)) =~= parse_causes(error_events(t0)).push(
                            SyntaxErrorCause::Parse(pe),
                        ));
                    },
                    _ => {
                        assert(sink.builder.spec_errors() == pre.builder.spec_errors());
                        assert(parse_causes(error_events(t1)) =~= parse_causes(error_events(t0)));
                    },
                }
            }
        }
        i = i + 1;
    }
    proof {
        assert(events@.take(n as int) =~= events@);
        if rooted_case {
            assert forall|j: int| 0 <= j < sink.tokens@.len() - 1 implies !((
            #[trigger] sink.tokens@[j]).kind is EOF) by {
                crate::lexer::lemma_lexed_token_wf(
                    sink.tokens@.drop_last(),
                    sink.text@,
                    sink.text@.len() as int,
                    j,
                );
                assert(sink.tokens@.drop_last()[j] == sink.tokens@[j]);
            }
            if sink.pos < sink.tokens@.len() - 1 {
                assert(nt_from(sink.tokens@, sink.pos as int) == 0);
                assert(!sink.tokens@[sink.pos as int].spec_is_trivia());
                assert(!(sink.tokens@[sink.pos as int].kind is EOF));
                assert(nt_from(sink.tokens@, sink.pos as int) >= 1);
            }
        }
    }
}

} // verus!
