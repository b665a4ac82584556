//! The parser core: a low-level interface for walking the grammar-visible
//! tokens and emitting structural events, plus the marker protocol the
//! grammar uses to open and close nodes. The parser never builds a tree
//! itself; its sole output is the event list.

use crate::event::{balanced, count_token_events, no_fp, Event};
use crate::kinds::SyntaxKind;
use crate::lexer::{Token, TokenStream};
use crate::token_set::TokenSet;
use vstd::prelude::*;

verus! {

/// A recoverable parse error. Neither variant ever aborts a parse: both are
/// recorded in the event stream and the parse runs on.
#[derive(Debug, Clone, Copy, PartialEq, Eq)]
pub enum ParseError {
    /// The grammar wanted one of `expected` but found `found`.
    UnexpectedToken { expected: TokenSet, found: Token },
    /// The input ended where the grammar still wanted something.
    UnexpectedEof,
}

/// Number of grammar-visible tokens other than `EOF` at or after `i`.
pub open spec fn nt_from(toks: Seq<Token>, i: int) -> nat
    decreases toks.len() - i,
{
    if i < 0 || i >= toks.len() {
        0
    } else {
        (if !toks[i].spec_is_trivia() && !(toks[i].kind is EOF) {
            1nat
        } else {
            0nat
        }) + nt_from(toks, i + 1)
    }
}

/// The grammar's view of a token stream: the trivia-free tokens, ending with
/// the stream's `EOF` token, and a cursor.
#[derive(Debug)]
pub struct TextTokenSource {
    pub tokens: Vec<Token>,
    pub pos: usize,
}

impl TextTokenSource {
    /// The cursor sits on a token, `EOF` at the latest; only the last token
    /// is `EOF`; no token is trivia.
    pub open spec fn wf(&self) -> bool {
        &&& self.tokens@.len() >= 1
        &&& self.tokens@.last().kind is EOF
        &&& self.pos < self.tokens@.len()
        &&& forall|j: int|
            0 <= j < self.tokens@.len() - 1 ==> !((#[trigger] self.tokens@[j]).kind is EOF)
        &&& forall|j: int| 0 <= j < self.tokens@.len() ==> !(#[trigger] self.tokens@[j]).spec_is_trivia()
    }

    /// Builds the grammar's view of `stream`: its tokens with the trivia
    /// dropped. The count of tokens before the `EOF` equals the count of
    /// grammar-visible tokens in the raw stream.
    pub fn new(stream: &TokenStream) -> (r: TextTokenSource)
        requires
            stream.wf(),
        ensures
            r.wf(),
            r.pos == 0,
            r.tokens@.len() - 1 == nt_from(stream.tokens@, 0),
    {
        let n = stream.tokens.len();
        let mut out: Vec<Token> = Vec::new();
        let mut j: usize = n;
        while j > 0
            invariant
                stream.wf(),
                n == stream.tokens@.len(),
                0 <= j <= n,
                out@.len() >= (if j < n { 1int } else { 0int }),
                j < n ==> out@[0].kind is EOF,
                j == n ==> out@.len() == 0,
                forall|k: int| 1 <= k < out@.len() ==> !((#[trigger] out@[k]).kind is EOF),
                forall|k: int| 0 <= k < out@.len() ==> !(#[trigger] out@[k]).spec_is_trivia(),
                out@.len() == (if j < n { 1int } else { 0int }) + nt_from(stream.tokens@, j as int),
            decreases j,
        {
            j = j - 1;
            let t = stream.tokens[j];
            proof {
                assert(nt_from(stream.tokens@, j as int + 1) == (if j + 1 < n {
                    (if !stream.tokens@[j as int + 1].spec_is_trivia() && !(stream.tokens@[j as int
                        + 1].kind is EOF) {
                        1nat
                    } else {
                        0nat
                    }) + nt_from(stream.tokens@, j as int + 2)
                } else {
                    0nat
                }));
            }
            if j == n - 1 {
                out.push(t);
                proof {
                    assert(stream.tokens@[j as int].kind is EOF);
                }
            } else if !t.is_trivia() {
                proof {
                    crate::lexer::lemma_lexed_token_wf(
                        stream.tokens@.drop_last(),
                        stream.text@,
                        stream.text@.len() as int,
                        j as int,
                    );
                    assert(stream.tokens@.drop_last()[j as int] == stream.tokens@[j as int]);
                }
                out.push(t);
            }
        }
        let tokens = reverse_tokens(&out);
        proof {
            assert(tokens@.last() == out@[0]);
            assert forall|k: int| 0 <= k < tokens@.len() - 1 implies !((#[trigger] tokens@[k]).kind
                is EOF) by {
                assert(tokens@[k] == out@[out@.len() - 1 - k]);
            }
            assert forall|k: int| 0 <= k < tokens@.len() implies !(#[trigger] tokens@[k]).spec_is_trivia() by {
                assert(tokens@[k] == out@[out@.len() - 1 - k]);
            }
        }
        TextTokenSource { tokens, pos: 0 }
    }

    /// The kind the grammar sees `n` places past the cursor: the token's
    /// syntax kind, or `EOF` past the end of the stream.
    pub open spec fn spec_nth(&self, n: int) -> SyntaxKind {
        if self.pos + n < self.tokens@.len() {
            self.tokens@[self.pos + n].kind.spec_to_syntax()
        } else {
            SyntaxKind::EOF
        }
    }
}

/// A fresh vector holding the tokens of `v` in reverse order.
fn reverse_tokens(v: &Vec<Token>) -> (r: Vec<Token>)
    ensures
        r@.len() == v@.len(),
        forall|k: int| 0 <= k < v@.len() ==> #[trigger] r@[k] == v@[v@.len() - 1 - k],
{
    let mut r: Vec<Token> = Vec::new();
    let mut j: usize = v.len();
    while j > 0
        invariant
            0 <= j <= v@.len(),
            r@.len() == v@.len() - j,
            forall|k: int| 0 <= k < r@.len() ==> #[trigger] r@[k] == v@[v@.len() - 1 - k],
        decreases j,
    {
        j = j - 1;
        r.push(v[j]);
    }
    r
}

/// What every parsing step guarantees: the token list is untouched, the
/// cursor only moves forward, already emitted events are never rewritten
/// (completing a marker rewrites only events this same step emitted), the
/// appended events form a balanced segment without forward parents, and the
/// segment holds exactly one `Token` event per token the step consumed.
pub open spec fn emits(o: Parser, n: Parser) -> bool {
    &&& n.src.tokens == o.src.tokens
    &&& o.src.pos <= n.src.pos
    &&& n.src.wf()
    &&& n.events@.len() >= o.events@.len()
    &&& forall|j: int| 0 <= j < o.events@.len() ==> n.events@[j] == o.events@[j]
    &&& balanced(n.events@.skip(o.events@.len() as int))
    &&& no_fp(n.events@.skip(o.events@.len() as int))
    &&& count_token_events(n.events@.skip(o.events@.len() as int)) == n.src.pos - o.src.pos
}

/// `emits` composes.
pub proof fn emits_trans(a: Parser, b: Parser, c: Parser)
    requires
        emits(a, b),
        emits(b, c),
    ensures
        emits(a, c),
{
    let sab = b.events@.skip(a.events@.len() as int);
    let sbc = c.events@.skip(b.events@.len() as int);
    let sac = c.events@.skip(a.events@.len() as int);
    assert(sac =~= sab + sbc);
    crate::event::lemma_depth_concat(sab, sbc);
    crate::event::lemma_count_token_concat(sab, sbc);
}

/// `emits` is reflexive.
pub proof fn emits_refl(a: Parser)
    requires
        a.src.wf(),
    ensures
        emits(a, a),
{
    assert(a.events@.skip(a.events@.len() as int) =~= Seq::<Event>::empty());
}

/// The parser: a cursor over the grammar-visible tokens and the growing
/// event list.
#[derive(Debug)]
pub struct Parser {
    pub src: TextTokenSource,
    pub events: Vec<Event>,
}

impl Parser {
    /// Starts parsing at the beginning of `src`, with no events yet.
    pub fn new(src: TextTokenSource) -> (r: Parser)
        requires
            src.wf(),
        ensures
            r.src == src,
            r.events@.len() == 0,
            r.src.wf(),
    {
        Parser { src, events: Vec::new() }
    }

    /// Hands the finished event list out.
    pub fn finish(self) -> (r: Vec<Event>)
        ensures
            r == self.events,
    {
        self.events
    }

    /// The kind of the current token, `EOF` at the end of the input.
    pub fn current(&self) -> (r: SyntaxKind)
        requires
            self.src.wf(),
        ensures
            r == self.src.spec_nth(0),
    {
        self.nth(0)
    }

    /// The kind `n` tokens ahead. Lookahead is capped at three tokens: more
    /// would be a defect in a grammar procedure, not a property of the
    /// input.
    pub fn nth(&self, n: usize) -> (r: SyntaxKind)
        requires
            self.src.wf(),
            n <= 3,
        ensures
            r == self.src.spec_nth(n as int),
    {
        if self.src.pos < self.src.tokens.len() && n < self.src.tokens.len() - self.src.pos {
            self.src.tokens[self.src.pos + n].kind.to_syntax()
        } else {
            SyntaxKind::EOF
        }
    }

    /// True when the current token is `kind`.
    pub fn at(&self, kind: SyntaxKind) -> (r: bool)
        requires
            self.src.wf(),
        ensures
            r == (self.src.spec_nth(0) == kind),
    {
        self.nth_at(0, kind)
    }

    /// True when the token `n` ahead is `kind`.
    pub fn nth_at(&self, n: usize, kind: SyntaxKind) -> (r: bool)
        requires
            self.src.wf(),
            n <= 3,
        ensures
            r == (self.src.spec_nth(n as int) == kind),
    {
        let k = self.nth(n);
        kind_eq(k, kind)
    }

    /// True when the current token's kind lies in `kinds`.
    pub fn at_ts(&self, kinds: TokenSet) -> (r: bool)
        requires
            self.src.wf(),
        ensures
            r == kinds.spec_has(self.src.spec_nth(0)),
    {
        kinds.contains(self.current())
    }

    /// Opens a new node: pushes a placeholder `Start` and hands back the
    /// marker that must later complete or abandon it.
    pub fn start(&mut self) -> (m: Marker)
        requires
            old(self).src.wf(),
        ensures
            emits(*old(self), *final(self)),
            final(self).src == old(self).src,
            final(self).events@ == old(self).events@.push(crate::event::spec_tombstone()),
            m.pos == old(self).events@.len(),
    {
        let pos = self.events.len();
        self.events.push(Event::tombstone());
        proof {
            let seg = self.events@.skip(old(self).events@.len() as int);
            assert(seg =~= seq![crate::event::spec_tombstone()]);
            crate::event::lemma_single_event(crate::event::spec_tombstone());
        }
        Marker { pos }
    }

    /// Consumes the current token, emitting a `Token` event. The caller must
    /// know the current token is `kind`; `EOF` is never consumed.
    pub fn bump(&mut self, kind: SyntaxKind)
        requires
            old(self).src.wf(),
            old(self).src.spec_nth(0) == kind,
            !(kind is EOF),
        ensures
            emits(*old(self), *final(self)),
            final(self).src.pos == old(self).src.pos + 1,
            final(self).events@ == old(self).events@.push(
                Event::Token { kind, n_raw_tokens: 1 },
            ),
    {
        self.do_bump(kind);
    }

    /// Consumes the current token whatever it is; at `EOF` does nothing.
    pub fn bump_any(&mut self)
        requires
            old(self).src.wf(),
        ensures
            emits(*old(self), *final(self)),
            !(old(self).src.spec_nth(0) is EOF) ==> final(self).src.pos == old(self).src.pos + 1
                && final(self).events@ == old(self).events@.push(
                Event::Token { kind: old(self).src.spec_nth(0), n_raw_tokens: 1 },
            ),
            old(self).src.spec_nth(0) is EOF ==> *final(self) == *old(self),
    {
        let k = self.current();
        if matches!(k, SyntaxKind::EOF) {
            proof {
                emits_refl(*old(self));
            }
            return ;
        }
        proof {
            if self.src.pos + 1 == self.src.tokens@.len() {
                assert(self.src.tokens@[self.src.pos as int].kind is EOF);
            }
        }
        self.do_bump(k);
    }

    /// Consumes the current token when it is `kind`; otherwise does nothing
    /// and reports so.
    pub fn eat(&mut self, kind: SyntaxKind) -> (r: bool)
        requires
            old(self).src.wf(),
            !(kind is EOF),
        ensures
            emits(*old(self), *final(self)),
            r == (old(self).src.spec_nth(0) == kind),
            r ==> final(self).src.pos == old(self).src.pos + 1 && final(self).events@ == old(
                self,
            ).events@.push(Event::Token { kind, n_raw_tokens: 1 }),
            !r ==> *final(self) == *old(self),
    {
        if !self.at(kind) {
            proof {
                emits_refl(*old(self));
            }
            return false;
        }
        self.do_bump(kind);
        true
    }

    /// The internal step behind every consumption: advance the cursor and
    /// record a `Token` event.
    fn do_bump(&mut self, kind: SyntaxKind)
        requires
            old(self).src.wf(),
            !(old(self).src.spec_nth(0) is EOF),
        ensures
            emits(*old(self), *final(self)),
            final(self).src.pos == old(self).src.pos + 1,
            final(self).events@ == old(self).events@.push(
                Event::Token { kind, n_raw_tokens: 1 },
            ),
    {
        let n = self.src.tokens.len();
        proof {
            assert(self.src.pos < n);
            if self.src.pos + 1 == self.src.tokens@.len() {
                assert(self.src.tokens@[self.src.pos as int].kind is EOF);
            }
        }
        self.src.pos = self.src.pos + 1;
        self.events.push(Event::Token { kind, n_raw_tokens: 1 });
        proof {
            let seg = self.events@.skip(old(self).events@.len() as int);
            assert(seg =~= seq![Event::Token { kind, n_raw_tokens: 1 }]);
            crate::event::lemma_single_event(Event::Token { kind, n_raw_tokens: 1 });
        }
    }

    /// Consumes the current token when it is `kind`; otherwise records an
    /// `UnexpectedToken` error carrying the expected set and the found
    /// token, and leaves the cursor where it is.
    pub fn expect(&mut self, kind: SyntaxKind) -> (r: bool)
        requires
            old(self).src.wf(),
            !(kind is EOF),
        ensures
            emits(*old(self), *final(self)),
            r == (old(self).src.spec_nth(0) == kind),
            r ==> final(self).src.pos == old(self).src.pos + 1,
            !r ==> final(self).src.pos == old(self).src.pos,
    {
        if self.eat(kind) {
            return true;
        }
        let found = self.current_token();
        let e = ParseError::UnexpectedToken { expected: TokenSet::singleton(kind), found };
        self.error(e);
        proof {
            emits_trans(*old(self), *old(self), *final(self));
        }
        false
    }

    /// The current token itself (the `EOF` token at the end).
    pub fn current_token(&self) -> (r: Token)
        requires
            self.src.wf(),
        ensures
            r == self.src.tokens@[self.src.pos as int],
    {
        self.src.tokens[self.src.pos]
    }

    /// Records a recoverable error event; the cursor does not move.
    pub fn error(&mut self, e: ParseError)
        requires
            old(self).src.wf(),
        ensures
            emits(*old(self), *final(self)),
            final(self).src == old(self).src,
            final(self).events@ == old(self).events@.push(Event::Error(e)),
    {
        self.events.push(Event::Error(e));
        proof {
            let seg = self.events@.skip(old(self).events@.len() as int);
            assert(seg =~= seq![Event::Error(e)]);
            crate::event::lemma_single_event(Event::Error(e));
        }
    }
}

/// Structural equality of two syntax kinds.
pub fn kind_eq(a: SyntaxKind, b: SyntaxKind) -> (r: bool)
    ensures
        r == (a == b),
{
    let oa = a.ordinal();
    let ob = b.ordinal();
    proof {
        if oa == ob {
            crate::kinds::lemma_kind_ord_injective(a, b);
        }
    }
    oa == ob
}

/// A handle to a pending `Start` event. Every marker must be completed or
/// abandoned before its node can appear in the tree; a dropped marker leaves
/// only an inert tombstone behind, never a half-open node.
#[must_use]
pub struct Marker {
    pub pos: usize,
}

impl Marker {
    /// What a grammar step knows about its own open marker: the placeholder
    /// it points at is still the untouched tombstone.
    pub open spec fn pending(self, p: Parser) -> bool {
        &&& self.pos < p.events@.len()
        &&& p.events@[self.pos as int] == (Event::Start {
            kind: SyntaxKind::TOMBSTONE,
            forward_parent: None,
        })
    }

    /// Completes the node: writes the real `kind` into the pending `Start`
    /// and appends the matching `Finish`.
    pub fn complete(self, p: &mut Parser, kind: SyntaxKind) -> (cm: CompletedMarker)
        requires
            old(p).src.wf(),
            self.pending(*old(p)),
            !(kind is TOMBSTONE),
            !(kind is WHITESPACE),
        ensures
            final(p).src == old(p).src,
            final(p).events@ == old(p).events@.update(
                self.pos as int,
                Event::Start { kind, forward_parent: None },
            ).push(Event::Finish),
            cm.start_pos == self.pos,
            cm.finish_pos == old(p).events@.len(),
            cm.kind == kind,
    {
        let pos = self.pos;
        p.events.set(pos, Event::Start { kind, forward_parent: None });
        let finish_pos = p.events.len();
        p.events.push(Event::Finish);
        CompletedMarker { start_pos: pos, finish_pos, kind }
    }

    /// Abandons the node: the placeholder is dropped when nothing followed
    /// it, and otherwise stays behind as an inert tombstone that the replay
    /// step skips.
    pub fn abandon(self, p: &mut Parser)
        requires
            old(p).src.wf(),
            self.pending(*old(p)),
        ensures
            final(p).src == old(p).src,
            self.pos == old(p).events@.len() - 1 ==> final(p).events@ == old(
                p,
            ).events@.drop_last(),
            self.pos < old(p).events@.len() - 1 ==> final(p).events@ == old(p).events@,
    {
        if self.pos == p.events.len() - 1 {
            let _ = p.events.pop();
        }
    }
}

/// A finished node in the event list: where it starts, where it finishes,
/// and its kind.
pub struct CompletedMarker {
    pub start_pos: usize,
    pub finish_pos: usize,
    pub kind: SyntaxKind,
}

impl CompletedMarker {
    /// Makes a completed marker by hand.
    pub fn new(start_pos: usize, finish_pos: usize, kind: SyntaxKind) -> (r: CompletedMarker)
        ensures
            r.start_pos == start_pos,
            r.finish_pos == finish_pos,
            r.kind == kind,
    {
        CompletedMarker { start_pos, finish_pos, kind }
    }

    /// The node's kind.
    pub fn kind(&self) -> (r: SyntaxKind)
        ensures
            r == self.kind,
    {
        self.kind
    }

    /// Opens a brand-new node that will become this finished node's parent:
    /// a fresh `Start` is pushed and the finished node's `Start` is wired to
    /// it by a relative forward offset, with no event moved. The replay step
    /// then starts the parent before the child, although the parent was
    /// decided later.
    pub fn precede(self, p: &mut Parser) -> (m: Marker)
        requires
            old(p).src.wf(),
            self.start_pos < old(p).events@.len(),
            old(p).events@[self.start_pos as int] is Start,
            old(p).events@.len() < u32::MAX,
        ensures
            final(p).src == old(p).src,
            m.pos == old(p).events@.len(),
            final(p).events@ == old(p).events@.push(crate::event::spec_tombstone()).update(
                self.start_pos as int,
                Event::Start {
                    kind: old(p).events@[self.start_pos as int]->Start_kind,
                    forward_parent: Some(
                        (old(p).events@.len() - self.start_pos) as u32,
                    ),
                },
            ),
    {
        let new_pos = p.start();
        let idx = self.start_pos;
        let old_kind = match p.events[idx] {
            Event::Start { kind, .. } => kind,
            _ => SyntaxKind::TOMBSTONE,
        };
        p.events.set(
            idx,
            Event::Start { kind: old_kind, forward_parent: Some((new_pos.pos - idx) as u32) },
        );
        new_pos
    }
}

/// The proof behind every grammar procedure: opening a placeholder,
/// emitting a balanced body, then completing the placeholder with a real
/// kind and a `Finish` is itself one balanced emission.
pub proof fn lemma_node_finish(p0: Parser, p1: Parser, p2: Parser, p3: Parser, kind: SyntaxKind)
    requires
        p0.src.wf(),
        p1.src == p0.src,
        p1.events@ == p0.events@.push(crate::event::spec_tombstone()),
        emits(p1, p2),
        p3.src == p2.src,
        p3.events@ == p2.events@.update(
            p0.events@.len() as int,
            Event::Start { kind, forward_parent: None },
        ).push(Event::Finish),
        !(kind is TOMBSTONE),
        !(kind is WHITESPACE),
    ensures
        emits(p0, p3),
        crate::event::node_seg(p3.events@, p0.events@.len() as int, kind),
{
    let start = Event::Start { kind, forward_parent: None };
    let mid = p2.events@.skip(p1.events@.len() as int);
    let seg = p3.events@.skip(p0.events@.len() as int);
    assert(seg =~= seq![start] + mid + seq![Event::Finish]) by {
        assert forall|j: int| 0 <= j < seg.len() implies seg[j] == (seq![start] + mid
            + seq![Event::Finish])[j] by {
            if j == 0 {
            } else if j < seg.len() - 1 {
                assert(seg[j] == p3.events@[p0.events@.len() + j]);
                assert(p2.events@[p0.events@.len() + j] == mid[j - 1]);
            }
        }
    }
    crate::event::lemma_balanced_wrap(start, mid);
    assert forall|j: int| 0 <= j < p0.events@.len() implies p3.events@[j] == p0.events@[j] by {
        assert(p2.events@[j] == p1.events@[j]);
        assert(p1.events@[j] == p0.events@[j]);
    }
    let from = p0.events@.len() as int;
    assert(p3.events@[from] == start);
    assert(p3.events@.last() == Event::Finish);
    assert(p3.events@.subrange(from + 1, p3.events@.len() - 1) =~= mid) by {
        assert forall|j: int| 0 <= j < mid.len() implies p3.events@.subrange(
            from + 1,
            p3.events@.len() - 1,
        )[j] == mid[j] by {
            assert(p3.events@[from + 1 + j] == seg[1 + j]);
        }
    }
    assert(no_fp(seg)) by {
        assert forall|j: int|
            0 <= j < seg.len() implies match #[trigger] seg[j] {
            Event::Start { forward_parent, .. } => forward_parent is None,
            _ => true,
        } by {
            if 1 <= j < seg.len() - 1 {
                assert(seg[j] == mid[j - 1]);
            }
        }
    }
}

} // verus!
