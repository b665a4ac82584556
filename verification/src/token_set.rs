//! A fixed-width bitset over the syntax-kind ordinals, used by the parser for
//! lookahead and recovery decisions. Bit `i` records membership of the kind
//! whose ordinal is `i`; every operation is a constant number of word
//! operations.

use crate::kinds::{kind_of_ord, kind_ord, lemma_kind_ord_injective, SyntaxKind};
use crate::lexer::TokenKind;
use vstd::prelude::*;

verus! {

/// True when bit `n` of `v` is set.
pub open spec fn bit_set(v: u128, n: u128) -> bool {
    v & (1u128 << n) != 0
}

/// Number of set bits among the low `n` bits of `v`.
pub open spec fn pcount(v: u128, n: int) -> nat
    decreases n,
{
    if n <= 0 {
        0
    } else {
        pcount(v, n - 1) + if bit_set(v, (n - 1) as u128) {
            1nat
        } else {
            0nat
        }
    }
}

/// An immutable set of [`SyntaxKind`]s, stored as one 128-bit mask.
#[derive(Debug, Clone, Copy, PartialEq, Eq, Hash, Structural)]
pub struct TokenSet(pub u128);

/// The bit that stands for `kind`.
fn mask(kind: SyntaxKind) -> (r: u128)
    ensures
        r == (1u128 << (kind_ord(kind) as u128)),
{
    proof {
        crate::kinds::lemma_kind_ord_range(kind);
    }
    1u128 << (kind.ordinal() as u128)
}

proof fn lemma_bv_or(a: u128, b: u128, n: u128)
    requires
        n < 128,
    ensures
        bit_set(a | b, n) == (bit_set(a, n) || bit_set(b, n)),
{
    assert(((a | b) & (1u128 << n) != 0) == ((a & (1u128 << n) != 0) || (b & (1u128 << n) != 0)))
        by (bit_vector);
}

proof fn lemma_bv_and(a: u128, b: u128, n: u128)
    requires
        n < 128,
    ensures
        bit_set(a & b, n) == (bit_set(a, n) && bit_set(b, n)),
{
    assert(((a & b) & (1u128 << n) != 0) == ((a & (1u128 << n) != 0) && (b & (1u128 << n) != 0)))
        by (bit_vector);
}

proof fn lemma_bv_xor(a: u128, b: u128, n: u128)
    requires
        n < 128,
    ensures
        bit_set(a ^ b, n) == (bit_set(a, n) != bit_set(b, n)),
{
    assert(((a ^ b) & (1u128 << n) != 0) == ((a & (1u128 << n) != 0) != (b & (1u128 << n) != 0)))
        by (bit_vector);
}

proof fn lemma_bv_not(a: u128, n: u128)
    requires
        n < 128,
    ensures
        bit_set(!a, n) == !bit_set(a, n),
{
    assert(((!a) & (1u128 << n) != 0) == !(a & (1u128 << n) != 0)) by (bit_vector)
        requires
            n < 128,
    ;
}

proof fn lemma_bv_single(m: u128, n: u128)
    requires
        m < 128,
        n < 128,
    ensures
        bit_set(1u128 << m, n) == (m == n),
{
    assert(((1u128 << m) & (1u128 << n) != 0) == (m == n)) by (bit_vector)
        requires
            m < 128,
            n < 128,
    ;
}

proof fn lemma_bv_zero(n: u128)
    requires
        n < 128,
    ensures
        !bit_set(0, n),
{
    assert(0u128 & (1u128 << n) == 0) by (bit_vector);
}

impl TokenSet {
    /// Membership of `kind`, as a mathematical statement.
    pub open spec fn spec_has(self, kind: SyntaxKind) -> bool {
        bit_set(self.0, kind_ord(kind) as u128)
    }

    /// The raw mask.
    pub open spec fn spec_bits(self) -> u128 {
        self.0
    }

    /// The set holding only `kind`.
    pub open spec fn spec_singleton(kind: SyntaxKind) -> TokenSet {
        TokenSet(1u128 << (kind_ord(kind) as u128))
    }

    /// The set with nothing in it.
    pub open spec fn spec_empty() -> TokenSet {
        TokenSet(0)
    }

    /// The set holding the kinds of both `self` and `other`.
    pub open spec fn spec_union(self, other: TokenSet) -> TokenSet {
        TokenSet(self.0 | other.0)
    }

    /// The set holding the kinds common to `self` and `other`.
    pub open spec fn spec_intersection(self, other: TokenSet) -> TokenSet {
        TokenSet(self.0 & other.0)
    }

    /// The set holding the kinds of `self` that are not in `other`.
    pub open spec fn spec_difference(self, other: TokenSet) -> TokenSet {
        TokenSet(self.0 & !other.0)
    }

    /// The set holding the kinds in exactly one of `self` and `other`.
    pub open spec fn spec_symmetric_difference(self, other: TokenSet) -> TokenSet {
        TokenSet(self.0 ^ other.0)
    }

    /// The set whose mask is the bitwise complement of `self`'s.
    pub open spec fn spec_complement(self) -> TokenSet {
        TokenSet(!self.0)
    }

    /// True when no bit at all is set.
    pub open spec fn spec_is_empty(self) -> bool {
        self.0 == 0
    }

    /// True when every bit of `self` is also set in `other`.
    pub open spec fn spec_is_subset(self, other: TokenSet) -> bool {
        self.0 & other.0 == self.0
    }

    /// True when `self` and `other` share no bit.
    pub open spec fn spec_is_disjoint(self, other: TokenSet) -> bool {
        self.0 & other.0 == 0
    }

    /// A set is well formed when no bit above the kind ordinals is set:
    /// every set built from kinds is, and every operation but `complement`
    /// keeps it so.
    pub open spec fn spec_wf(self) -> bool {
        forall|n: u128| 111 <= n < 128 ==> !bit_set(self.0, n)
    }

    /// The set a list of kinds makes, taken left to right.
    pub open spec fn spec_from_kind_list(kinds: Seq<SyntaxKind>) -> TokenSet
        decreases kinds.len(),
    {
        if kinds.len() == 0 {
            TokenSet::spec_empty()
        } else {
            TokenSet::spec_from_kind_list(kinds.drop_last()).spec_union(
                TokenSet::spec_singleton(kinds.last()),
            )
        }
    }

    /// The set with no kinds in it.
    pub fn empty() -> (r: TokenSet)
        ensures
            r == TokenSet::spec_empty(),
            r.spec_is_empty(),
            r.spec_wf(),
            pcount(r.spec_bits(), 128) == 0,
            forall|k: SyntaxKind| !r.spec_has(k),
    {
        proof {
            assert forall|k: SyntaxKind| !TokenSet(0).spec_has(k) by {
                crate::kinds::lemma_kind_ord_range(k);
                lemma_bv_zero(kind_ord(k) as u128);
            }
            assert forall|n: u128| 111 <= n < 128 implies !bit_set(0, n) by {
                lemma_bv_zero(n);
            }
            lemma_pcount_of_zero(128);
        }
        TokenSet(0)
    }

    /// The set holding exactly the kinds listed in `kinds`.
    pub fn new(kinds: &[SyntaxKind]) -> (r: TokenSet)
        ensures
            r == TokenSet::spec_from_kind_list(kinds@),
            r.spec_wf(),
            forall|k: SyntaxKind| r.spec_has(k) <==> kinds@.contains(k),
    {
        let mut res = TokenSet::empty();
        let mut i: usize = 0;
        proof {
            assert(kinds@.take(0int) =~= Seq::<SyntaxKind>::empty());
        }
        while i < kinds.len()
            invariant
                i <= kinds@.len(),
                res == TokenSet::spec_from_kind_list(kinds@.take(i as int)),
                forall|k: SyntaxKind| res.spec_has(k) <==> kinds@.take(i as int).contains(k),
            decreases kinds@.len() - i,
        {
            res.merge(kinds[i]);
            proof {
                assert(kinds@.take(i + 1) =~= kinds@.take(i as int).push(kinds@[i as int]));
                assert(kinds@.take(i + 1).drop_last() =~= kinds@.take(i as int));
                assert forall|k: SyntaxKind|
                    res.spec_has(k) <==> kinds@.take(i + 1).contains(k) by {
                    lemma_push_contains(kinds@.take(i as int), kinds@[i as int], k);
                }
            }
            i = i + 1;
        }
        proof {
            assert(kinds@.take(kinds@.len() as int) =~= kinds@);
            lemma_from_kind_list_wf(kinds@);
        }
        res
    }

    /// The set holding only `kind`.
    pub fn singleton(kind: SyntaxKind) -> (r: TokenSet)
        ensures
            r == TokenSet::spec_singleton(kind),
            r.spec_wf(),
            pcount(r.spec_bits(), 128) == 1,
            forall|k: SyntaxKind| r.spec_has(k) <==> k == kind,
    {
        let r = TokenSet(mask(kind));
        proof {
            crate::kinds::lemma_kind_ord_range(kind);
            lemma_pcount_pow2(kind_ord(kind) as u128, 128);
            assert forall|n: u128| 111 <= n < 128 implies !bit_set(r.0, n) by {
                lemma_bv_single(kind_ord(kind) as u128, n);
            }
            assert forall|k: SyntaxKind| r.spec_has(k) <==> k == kind by {
                crate::kinds::lemma_kind_ord_range(k);
                lemma_bv_single(kind_ord(kind) as u128, kind_ord(k) as u128);
                if r.spec_has(k) {
                    lemma_kind_ord_injective(k, kind);
                }
            }
        }
        r
    }

    /// Union of the two sets.
    pub fn union(self, other: TokenSet) -> (r: TokenSet)
        ensures
            r == self.spec_union(other),
            self.spec_wf() && other.spec_wf() ==> r.spec_wf(),
            forall|k: SyntaxKind|
                r.spec_has(k) <==> (self.spec_has(k) || other.spec_has(k)),
    {
        let r = TokenSet(self.0 | other.0);
        proof {
            if self.spec_wf() && other.spec_wf() {
                assert forall|n: u128| 111 <= n < 128 implies !bit_set(r.0, n) by {
                    lemma_bv_or(self.0, other.0, n);
                }
            }
            assert forall|k: SyntaxKind|
                r.spec_has(k) <==> (self.spec_has(k) || other.spec_has(k)) by {
                crate::kinds::lemma_kind_ord_range(k);
                lemma_bv_or(self.0, other.0, kind_ord(k) as u128);
            }
        }
        r
    }

    /// Intersection of the two sets.
    pub fn intersection(&self, other: TokenSet) -> (r: TokenSet)
        ensures
            r == self.spec_intersection(other),
            self.spec_wf() || other.spec_wf() ==> r.spec_wf(),
            forall|k: SyntaxKind|
                r.spec_has(k) <==> (self.spec_has(k) && other.spec_has(k)),
    {
        let r = TokenSet(self.0 & other.0);
        proof {
            if self.spec_wf() || other.spec_wf() {
                assert forall|n: u128| 111 <= n < 128 implies !bit_set(r.0, n) by {
                    lemma_bv_and(self.0, other.0, n);
                }
            }
            assert forall|k: SyntaxKind|
                r.spec_has(k) <==> (self.spec_has(k) && other.spec_has(k)) by {
                crate::kinds::lemma_kind_ord_range(k);
                lemma_bv_and(self.0, other.0, kind_ord(k) as u128);
            }
        }
        r
    }

    /// The kinds of `self` that are not in `other`.
    pub fn difference(&self, other: TokenSet) -> (r: TokenSet)
        ensures
            r == self.spec_difference(other),
            self.spec_wf() ==> r.spec_wf(),
            forall|k: SyntaxKind|
                r.spec_has(k) <==> (self.spec_has(k) && !other.spec_has(k)),
    {
        let r = TokenSet(self.0 & !other.0);
        proof {
            if self.spec_wf() {
                assert forall|n: u128| 111 <= n < 128 implies !bit_set(r.0, n) by {
                    lemma_bv_and(self.0, !other.0, n);
                }
            }
            assert forall|k: SyntaxKind|
                r.spec_has(k) <==> (self.spec_has(k) && !other.spec_has(k)) by {
                crate::kinds::lemma_kind_ord_range(k);
                lemma_bv_and(self.0, !other.0, kind_ord(k) as u128);
                lemma_bv_not(other.0, kind_ord(k) as u128);
            }
        }
        r
    }

    /// The kinds in exactly one of the two sets.
    pub fn symmetric_difference(&self, other: TokenSet) -> (r: TokenSet)
        ensures
            r == self.spec_symmetric_difference(other),
            self.spec_wf() && other.spec_wf() ==> r.spec_wf(),
            forall|k: SyntaxKind|
                r.spec_has(k) <==> (self.spec_has(k) != other.spec_has(k)),
    {
        let r = TokenSet(self.0 ^ other.0);
        proof {
            if self.spec_wf() && other.spec_wf() {
                assert forall|n: u128| 111 <= n < 128 implies !bit_set(r.0, n) by {
                    lemma_bv_xor(self.0, other.0, n);
                }
            }
            assert forall|k: SyntaxKind|
                r.spec_has(k) <==> (self.spec_has(k) != other.spec_has(k)) by {
                crate::kinds::lemma_kind_ord_range(k);
                lemma_bv_xor(self.0, other.0, kind_ord(k) as u128);
            }
        }
        r
    }

    /// The set whose mask is the bitwise complement of this one's. On kinds it
    /// is exact: a kind is in the complement exactly when it is not in `self`.
    pub fn complement(self) -> (r: TokenSet)
        ensures
            r == self.spec_complement(),
            forall|k: SyntaxKind| r.spec_has(k) <==> !self.spec_has(k),
    {
        let r = TokenSet(!self.0);
        proof {
            assert forall|k: SyntaxKind| r.spec_has(k) <==> !self.spec_has(k) by {
                crate::kinds::lemma_kind_ord_range(k);
                lemma_bv_not(self.0, kind_ord(k) as u128);
            }
        }
        r
    }

    /// Membership test for a single kind.
    pub fn contains(&self, kind: SyntaxKind) -> (r: bool)
        ensures
            r == self.spec_has(kind),
    {
        self.0 & mask(kind) != 0
    }

    /// Adds `kind` to the set.
    pub fn merge(&mut self, kind: SyntaxKind)
        ensures
            *final(self) == old(self).spec_union(TokenSet::spec_singleton(kind)),
            forall|k: SyntaxKind|
                final(self).spec_has(k) <==> (old(self).spec_has(k) || k == kind),
    {
        *self = self.union(TokenSet::singleton(kind));
    }

    /// Adds every kind of `other` to the set.
    pub fn insert(&mut self, other: TokenSet)
        ensures
            *final(self) == old(self).spec_union(other),
            forall|k: SyntaxKind|
                final(self).spec_has(k) <==> (old(self).spec_has(k) || other.spec_has(k)),
    {
        *self = self.union(other);
    }

    /// Removes every kind of `other` from the set.
    pub fn remove(&mut self, other: TokenSet)
        ensures
            *final(self) == old(self).spec_difference(other),
            forall|k: SyntaxKind|
                final(self).spec_has(k) <==> (old(self).spec_has(k) && !other.spec_has(k)),
    {
        *self = self.difference(other);
    }

    /// Toggles every kind of `other`: present ones leave, absent ones enter.
    pub fn toggle(&mut self, other: TokenSet)
        ensures
            *final(self) == old(self).spec_symmetric_difference(other),
            forall|k: SyntaxKind|
                final(self).spec_has(k) <==> (old(self).spec_has(k) != other.spec_has(k)),
    {
        *self = self.symmetric_difference(other);
    }

    /// Toggles the single kind `kind`.
    pub fn toggle_kind(&mut self, kind: SyntaxKind)
        ensures
            forall|k: SyntaxKind| k != kind ==>
                (final(self).spec_has(k) <==> old(self).spec_has(k)),
            final(self).spec_has(kind) <==> !old(self).spec_has(kind),
    {
        *self = self.symmetric_difference(TokenSet::singleton(kind));
    }

    /// True when no bit at all is set; a set that holds no kind but has a
    /// stray high bit (only a complement can make one) is not empty.
    pub fn is_empty(&self) -> (r: bool)
        ensures
            r == self.spec_is_empty(),
            r ==> forall|k: SyntaxKind| !self.spec_has(k),
            self.spec_wf() && (forall|k: SyntaxKind| !self.spec_has(k)) ==> r,
    {
        let r = self.0 == 0;
        proof {
            if self.spec_wf() && (forall|k: SyntaxKind| !self.spec_has(k)) {
                lemma_members_empty(*self);
            }
            if r {
                assert forall|k: SyntaxKind| !self.spec_has(k) by {
                    crate::kinds::lemma_kind_ord_range(k);
                    lemma_bv_zero(kind_ord(k) as u128);
                }
            }
        }
        r
    }

    /// True when every bit of `self` is also a bit of `other`.
    pub fn is_subset(&self, other: TokenSet) -> (r: bool)
        ensures
            r == self.spec_is_subset(other),
            r ==> forall|k: SyntaxKind| self.spec_has(k) ==> other.spec_has(k),
            self.spec_wf() && (forall|k: SyntaxKind| self.spec_has(k) ==> other.spec_has(k))
                ==> r,
    {
        let r = (self.0 & other.0) == self.0;
        proof {
            if self.spec_wf() && (forall|k: SyntaxKind|
                self.spec_has(k) ==> other.spec_has(k)) {
                lemma_members_subset(*self, other);
            }
            if r {
                assert forall|k: SyntaxKind| self.spec_has(k) implies other.spec_has(k) by {
                    crate::kinds::lemma_kind_ord_range(k);
                    lemma_bv_and(self.0, other.0, kind_ord(k) as u128);
                }
            }
        }
        r
    }

    /// True when every bit of `other` is also a bit of `self`.
    pub fn is_superset(&self, other: TokenSet) -> (r: bool)
        ensures
            r == other.spec_is_subset(*self),
            r ==> forall|k: SyntaxKind| other.spec_has(k) ==> self.spec_has(k),
            other.spec_wf() && (forall|k: SyntaxKind| other.spec_has(k) ==> self.spec_has(k))
                ==> r,
    {
        other.is_subset(*self)
    }

    /// True when the two sets share no bit.
    pub fn is_disjoint(&self, other: TokenSet) -> (r: bool)
        ensures
            r == self.spec_is_disjoint(other),
            r == self.spec_intersection(other).spec_is_empty(),
            r == other.spec_is_disjoint(*self),
            r ==> forall|k: SyntaxKind| !(self.spec_has(k) && other.spec_has(k)),
    {
        let r = (self.0 & other.0) == 0;
        proof {
            let a = self.0;
            let b = other.0;
            assert(a & b == b & a) by (bit_vector);
            if r {
                assert forall|k: SyntaxKind|
                    !(self.spec_has(k) && other.spec_has(k)) by {
                    crate::kinds::lemma_kind_ord_range(k);
                    lemma_bv_and(self.0, other.0, kind_ord(k) as u128);
                    lemma_bv_zero(kind_ord(k) as u128);
                }
            }
        }
        r
    }

    /// Number of set bits.
    pub fn count(self) -> (r: u32)
        ensures
            r == pcount(self.spec_bits(), 128),
    {
        let mut c: u32 = 0;
        let mut n: u8 = 0;
        while n < 128
            invariant
                n <= 128,
                c <= n,
                c == pcount(self.0, n as int),
            decreases 128 - n,
        {
            if self.0 & (1u128 << (n as u128)) != 0 {
                c = c + 1;
            }
            n = n + 1;
        }
        c
    }

    /// Number of set bits, as a `usize`.
    pub fn len(&self) -> (r: usize)
        ensures
            r == pcount(self.spec_bits(), 128),
    {
        self.count() as usize
    }

    /// True when exactly one bit is set.
    pub fn is_singleton(self) -> (r: bool)
        ensures
            r <==> exists|n: u128| n < 128 && self.spec_bits() == (1u128 << n),
            r == (pcount(self.spec_bits(), 128) == 1),
    {
        let r = self.0 != 0 && (self.0 & (self.0 - 1)) == 0;
        proof {
            if r {
                lemma_pow2_shape(self.0);
                let n = choose|n: u128| n < 128 && self.0 == (1u128 << n);
                lemma_pcount_pow2(n, 128);
            } else {
                if self.0 == 0 {
                    lemma_pcount_of_zero(128);
                } else {
                    if pcount(self.0, 128) == 1 {
                        lemma_pcount_one_pow2(self.0);
                        let n = choose|n: u128| n < 128 && self.0 == (1u128 << n);
                        let v = self.0;
                        assert(v == (1u128 << n) && n < 128 ==> v != 0 && (v
                            & vstd::prelude::sub(v, 1)) == 0) by (bit_vector);
                    }
                }
            }
            if !r {
                if exists|n: u128| n < 128 && self.0 == (1u128 << n) {
                    let n = choose|n: u128| n < 128 && self.0 == (1u128 << n);
                    let v = self.0;
                    assert(v == (1u128 << n) && n < 128 ==> v != 0 && (v & vstd::prelude::sub(v,
                        1)) == 0) by (bit_vector);
                }
            }
        }
        r
    }

    /// Empties the set and hands back what it held.
    pub fn take(&mut self) -> (r: TokenSet)
        ensures
            r == *old(self),
            final(self).spec_is_empty(),
            final(self).spec_wf(),
            forall|k: SyntaxKind| !final(self).spec_has(k),
    {
        let res = *self;
        self.0 = 0;
        proof {
            assert forall|k: SyntaxKind| !self.spec_has(k) by {
                crate::kinds::lemma_kind_ord_range(k);
                lemma_bv_zero(kind_ord(k) as u128);
            }
            assert forall|n: u128| 111 <= n < 128 implies !bit_set(self.0, n) by {
                lemma_bv_zero(n);
            }
        }
        res
    }

    /// The kinds of the set, in ordinal order, each exactly once; for a
    /// well-formed set they are as many as the set's `len`.
    pub fn kinds(self) -> (r: Vec<SyntaxKind>)
        ensures
            forall|k: SyntaxKind| r@.contains(k) <==> self.spec_has(k),
            forall|i: int, j: int|
                0 <= i < j < r@.len() ==> kind_ord(r@[i]) < kind_ord(r@[j]),
            forall|i: int| 0 <= i < r@.len() ==> self.spec_has(r@[i]),
            self.spec_wf() ==> r@.len() == pcount(self.spec_bits(), 128),
    {
        let mut r: Vec<SyntaxKind> = Vec::new();
        let mut n: u8 = 0;
        while n < 111
            invariant
                n <= 111,
                r@.len() == pcount(self.0, n as int),
                forall|i: int| 0 <= i < r@.len() ==> self.spec_has(r@[i]),
                forall|i: int|
                    0 <= i < r@.len() ==> 0 <= kind_ord(#[trigger] r@[i]) < n as int,
                forall|i: int, j: int|
                    0 <= i < j < r@.len() ==> kind_ord(r@[i]) < kind_ord(r@[j]),
                forall|k: SyntaxKind|
                    (self.spec_has(k) && kind_ord(k) < n as int) ==> r@.contains(k),
            decreases 111 - n,
        {
            if let Some(k) = SyntaxKind::from_ordinal(n) {
                proof {
                    crate::kinds::lemma_kind_ord_inverse_of(n as int);
                    assert(pcount(self.0, n as int + 1) == pcount(self.0, n as int) + (if bit_set(
                        self.0,
                        n as u128,
                    ) {
                        1nat
                    } else {
                        0nat
                    }));
                    assert(self.spec_has(k) == bit_set(self.0, n as u128));
                }
                if self.contains(k) {
                    let ghost prev = r@;
                    r.push(k);
                    proof {
                        assert forall|k2: SyntaxKind|
                            (self.spec_has(k2) && kind_ord(k2) < n as int + 1) implies r@.contains(
                            k2) by {
                            if kind_ord(k2) < n as int {
                                assert(prev.contains(k2));
                                let j = choose|j: int| 0 <= j < prev.len() && prev[j] == k2;
                                assert(r@[j] == k2);
                            } else {
                                lemma_kind_ord_injective(k2, k);
                                assert(r@[r@.len() - 1] == k2);
                            }
                        }
                    }
                }
            }
            n = n + 1;
        }
        proof {
            assert forall|k: SyntaxKind| r@.contains(k) implies self.spec_has(k) by {
                let j = choose|j: int| 0 <= j < r@.len() && r@[j] == k;
            }
            assert forall|k: SyntaxKind| self.spec_has(k) implies r@.contains(k) by {
                crate::kinds::lemma_kind_ord_range(k);
            }
            if self.spec_wf() {
                lemma_pcount_high(self, 128);
            }
        }
        r
    }

    /// Same as [`TokenSet::kinds`].
    pub fn iter(self) -> (r: Vec<SyntaxKind>)
        ensures
            forall|k: SyntaxKind| r@.contains(k) <==> self.spec_has(k),
            forall|i: int, j: int|
                0 <= i < j < r@.len() ==> kind_ord(r@[i]) < kind_ord(r@[j]),
            self.spec_wf() ==> r@.len() == pcount(self.spec_bits(), 128),
    {
        self.kinds()
    }
}

/// Membership in a pushed sequence is membership in the original or equality
/// with the new element.
proof fn lemma_push_contains<A>(s: Seq<A>, x: A, k: A)
    ensures
        s.push(x).contains(k) <==> (s.contains(k) || k == x),
{
    if s.contains(k) {
        let j = choose|j: int| 0 <= j < s.len() && s[j] == k;
        assert(s.push(x)[j] == k);
    }
    if s.push(x).contains(k) {
        let j = choose|j: int| 0 <= j < s.push(x).len() && s.push(x)[j] == k;
        if j < s.len() {
            assert(s[j] == k);
        } else {
            assert(k == x);
        }
    }
    assert(s.push(x)[s.len() as int] == x);
}

/// A nonzero value that the `v & (v - 1)` trick clears is a single bit.
proof fn lemma_pow2_shape(v: u128)
    requires
        v != 0,
        v & vstd::prelude::sub(v, 1) == 0,
    ensures
        exists|n: u128| n < 128 && v == (1u128 << n),
    decreases v,
{
    if v & 1 == 1 {
        assert(v != 0 && v & vstd::prelude::sub(v, 1) == 0 && v & 1 == 1 ==> v == 1) by (bit_vector);
        assert((1u128 << 0u128) == 1) by (bit_vector);
        assert(0u128 < 128 && v == (1u128 << 0u128));
    } else {
        let w = v >> 1;
        assert(v != 0 && (v & vstd::prelude::sub(v, 1)) == 0 && v & 1 != 1 ==> ((v >> 1) != 0 && (v
            >> 1) < v && ((v >> 1) & vstd::prelude::sub(v >> 1, 1)) == 0 && v == ((v >> 1)
            << 1))) by (bit_vector);
        lemma_pow2_shape(w);
        let n = choose|n: u128| n < 128 && w == (1u128 << n);
        assert(w == (1u128 << n) && (w << 1) != 0 ==> n < 127 && (w << 1) == (1u128 << ((n
            + 1) as u128))) by (bit_vector);
        assert(((n + 1) as u128) < 128 && v == (1u128 << ((n + 1) as u128)));
    }
}

/// The set a list of lexer token kinds makes, taken left to right.
pub open spec fn spec_from_token_kinds(kinds: Seq<TokenKind>) -> TokenSet
    decreases kinds.len(),
{
    if kinds.len() == 0 {
        TokenSet::spec_empty()
    } else {
        spec_from_token_kinds(kinds.drop_last()).spec_union(
            TokenSet::spec_singleton(kinds.last().spec_to_syntax()),
        )
    }
}

impl From<Vec<TokenKind>> for TokenSet {
    /// The set holding the syntax kinds of the listed lexer tokens.
    fn from(kinds: Vec<TokenKind>) -> (r: TokenSet) {
        let mut res = TokenSet::empty();
        let mut i: usize = 0;
        proof {
            assert(kinds@.take(0int) =~= Seq::<TokenKind>::empty());
        }
        while i < kinds.len()
            invariant
                i <= kinds@.len(),
                res == spec_from_token_kinds(kinds@.take(i as int)),
            decreases kinds@.len() - i,
        {
            proof {
                assert(kinds@.take(i + 1).drop_last() =~= kinds@.take(i as int));
                assert(kinds@.take(i + 1).last() == kinds@[i as int]);
            }
            res = res.union(TokenSet::singleton(kinds[i].to_syntax()));
            i = i + 1;
        }
        proof {
            assert(kinds@.take(kinds@.len() as int) =~= kinds@);
        }
        res
    }
}

impl vstd::std_specs::convert::FromSpecImpl<Vec<TokenKind>> for TokenSet {
    open spec fn obeys_from_spec() -> bool {
        true
    }

    open spec fn from_spec(kinds: Vec<TokenKind>) -> TokenSet {
        spec_from_token_kinds(kinds@)
    }
}

/// Membership in a set made from a token-kind list is membership of the
/// kind's syntax image in the list.
pub proof fn lemma_from_token_kinds_has(kinds: Seq<TokenKind>, k: SyntaxKind)
    ensures
        spec_from_token_kinds(kinds).spec_has(k) <==> (exists|j: int|
            0 <= j < kinds.len() && (#[trigger] kinds[j]).spec_to_syntax() == k),
    decreases kinds.len(),
{
    if kinds.len() > 0 {
        lemma_from_token_kinds_has(kinds.drop_last(), k);
        let a = spec_from_token_kinds(kinds.drop_last());
        let b = TokenSet::spec_singleton(kinds.last().spec_to_syntax());
        lemma_union_contains(a, b, k);
        crate::kinds::lemma_kind_ord_range(k);
        crate::kinds::lemma_kind_ord_range(kinds.last().spec_to_syntax());
        lemma_bv_single(kind_ord(kinds.last().spec_to_syntax()) as u128, kind_ord(k) as u128);
        if b.spec_has(k) {
            lemma_kind_ord_injective(k, kinds.last().spec_to_syntax());
            assert(kinds[kinds.len() - 1].spec_to_syntax() == k);
        }
        if exists|j: int| 0 <= j < kinds.len() && (#[trigger] kinds[j]).spec_to_syntax() == k {
            let j = choose|j: int|
                0 <= j < kinds.len() && (#[trigger] kinds[j]).spec_to_syntax() == k;
            if j < kinds.len() - 1 {
                assert(kinds.drop_last()[j].spec_to_syntax() == k);
            }
        }
    } else {
        crate::kinds::lemma_kind_ord_range(k);
        lemma_bv_zero(kind_ord(k) as u128);
    }
}


/// Zero has no set bits.
pub proof fn lemma_pcount_of_zero(i: int)
    requires
        0 <= i <= 128,
    ensures
        pcount(0, i) == 0,
    decreases i,
{
    if i > 0 {
        lemma_pcount_of_zero(i - 1);
        lemma_bv_zero((i - 1) as u128);
    }
}

/// A single bit counts once, as soon as the count reaches past it.
pub proof fn lemma_pcount_pow2(n: u128, i: int)
    requires
        n < 128,
        0 <= i <= 128,
    ensures
        pcount(1u128 << n, i) == if n < i {
            1nat
        } else {
            0nat
        },
    decreases i,
{
    if i > 0 {
        lemma_pcount_pow2(n, i - 1);
        lemma_bv_single(n, (i - 1) as u128);
    }
}

/// Counting low bits splits into the lowest bit and the shifted rest.
proof fn lemma_pcount_shift(v: u128, i: int)
    requires
        1 <= i <= 128,
    ensures
        pcount(v, i) == (if bit_set(v, 0) {
            1nat
        } else {
            0nat
        }) + pcount(v >> 1, i - 1),
    decreases i,
{
    if i == 1 {
        assert(pcount(v, 0) == 0);
        assert(pcount(v >> 1, 0) == 0);
        assert(pcount(v, 1) == pcount(v, 0) + (if bit_set(v, 0u128) {
            1nat
        } else {
            0nat
        }));
        assert(bit_set(v, (0int) as u128) == bit_set(v, 0));
    } else {
        lemma_pcount_shift(v, i - 1);
        let j = (i - 1) as u128;
        assert((v & (1u128 << j) != 0) == ((v >> 1) & (1u128 << vstd::prelude::sub(j, 1)) != 0))
            by (bit_vector)
            requires
                1 <= j < 128,
        ;
        assert((i - 2) as u128 == vstd::prelude::sub(j, 1));
        assert(bit_set(v, (i - 1) as u128) == bit_set(v >> 1, (i - 2) as u128));
        assert(pcount(v, i) == pcount(v, i - 1) + (if bit_set(v, (i - 1) as u128) {
            1nat
        } else {
            0nat
        }));
        assert(pcount(v >> 1, i - 1) == pcount(v >> 1, i - 2) + (if bit_set(v >> 1, (i
            - 2) as u128) {
            1nat
        } else {
            0nat
        }));
    }
}

/// A value with no set bits is zero.
proof fn lemma_pcount_zero_value(v: u128)
    requires
        pcount(v, 128) == 0,
    ensures
        v == 0,
    decreases v,
{
    if v != 0 {
        lemma_pcount_shift(v, 128);
        assert(v != 0 && (v & (1u128 << 0) == 0) ==> ((v >> 1) != 0 && (v >> 1) < v)) by (bit_vector);
        assert(pcount(v >> 1, 128) == pcount(v >> 1, 127) + (if bit_set(v >> 1, 127) {
            1nat
        } else {
            0nat
        }));
        assert(!bit_set(v >> 1, 127)) by (bit_vector);
        lemma_pcount_zero_value(v >> 1);
        assert(v != 0 && (v >> 1) == 0 && (v & (1u128 << 0) == 0) ==> false) by (bit_vector);
    }
}

/// A value with exactly one set bit is a power of two.
proof fn lemma_pcount_one_pow2(v: u128)
    requires
        pcount(v, 128) == 1,
    ensures
        exists|n: u128| n < 128 && v == (1u128 << n),
    decreases v,
{
    lemma_pcount_shift(v, 128);
    assert(pcount(v >> 1, 128) == pcount(v >> 1, 127) + (if bit_set(v >> 1, 127) {
        1nat
    } else {
        0nat
    }));
    assert(!bit_set(v >> 1, 127)) by (bit_vector);
    if bit_set(v, 0) {
        lemma_pcount_zero_value(v >> 1);
        assert((v & (1u128 << 0) != 0) && (v >> 1) == 0 ==> v == (1u128 << 0)) by (bit_vector);
        assert(0u128 < 128 && v == (1u128 << 0));
    } else {
        assert(v != 0) by {
            if v == 0 {
                lemma_pcount_of_zero(128);
            }
        }
        assert(v != 0 && (v & (1u128 << 0) == 0) ==> ((v >> 1) != 0 && (v >> 1) < v)) by (bit_vector);
        lemma_pcount_one_pow2(v >> 1);
        let n = choose|n: u128| n < 128 && (v >> 1) == (1u128 << n);
        assert((v >> 1) == (1u128 << n) && (v & (1u128 << 0) == 0) && v != 0 ==> n < 127 && v == (
        1u128 << ((n + 1) as u128))) by (bit_vector);
        assert(((n + 1) as u128) < 128 && v == (1u128 << ((n + 1) as u128)));
    }
}

/// Bits above the kind ordinals add nothing to a well-formed set's count.
pub proof fn lemma_pcount_high(s: TokenSet, i: int)
    requires
        s.spec_wf(),
        111 <= i <= 128,
    ensures
        pcount(s.0, i) == pcount(s.0, 111),
    decreases i,
{
    if i > 111 {
        lemma_pcount_high(s, i - 1);
        assert(!bit_set(s.0, (i - 1) as u128));
    }
}

/// A value every set bit of which is also set in another is absorbed by it.
proof fn lemma_pointwise_and(a: u128, b: u128)
    requires
        forall|n: u128| n < 128 ==> (#[trigger] bit_set(a, n) ==> bit_set(b, n)),
    ensures
        a & b == a,
    decreases a,
{
    if a == 0 {
        assert(0u128 & b == 0) by (bit_vector);
    } else {
        assert forall|n: u128| n < 128 implies (#[trigger] bit_set(a >> 1, n) ==> bit_set(
            b >> 1,
            n,
        )) by {
            if n < 127 {
                assert(bit_set(a >> 1, n) == bit_set(a, (n + 1) as u128)) by (bit_vector)
                    requires
                        n < 127,
                ;
                assert(bit_set(b >> 1, n) == bit_set(b, (n + 1) as u128)) by (bit_vector)
                    requires
                        n < 127,
                ;
                assert(bit_set(a, (n + 1) as u128) ==> bit_set(b, (n + 1) as u128));
            } else {
                assert(!bit_set(a >> 1, n)) by (bit_vector)
                    requires
                        n == 127,
                ;
            }
        }
        assert((a >> 1) < a) by (bit_vector)
            requires
                a != 0,
        ;
        lemma_pointwise_and(a >> 1, b >> 1);
        assert(bit_set(a, 0) ==> bit_set(b, 0));
        assert(((a >> 1) & (b >> 1) == (a >> 1) && (a & (1u128 << 0) != 0 ==> b & (1u128 << 0)
            != 0)) ==> a & b == a) by (bit_vector);
    }
}

/// On a well-formed set, membership inclusion gives bit-level inclusion.
pub proof fn lemma_members_subset(a: TokenSet, b: TokenSet)
    requires
        a.spec_wf(),
        forall|k: SyntaxKind| a.spec_has(k) ==> b.spec_has(k),
    ensures
        a.spec_is_subset(b),
{
    assert forall|n: u128| n < 128 implies (#[trigger] bit_set(a.0, n) ==> bit_set(b.0, n)) by {
        if n < 111 {
            crate::kinds::lemma_kind_ord_inverse_of(n as int);
            let k = kind_of_ord(n as int);
            assert(a.spec_has(k) == bit_set(a.0, n));
            assert(b.spec_has(k) == bit_set(b.0, n));
        }
    }
    lemma_pointwise_and(a.0, b.0);
}

/// A well-formed set with no member kind is the empty value.
pub proof fn lemma_members_empty(a: TokenSet)
    requires
        a.spec_wf(),
        forall|k: SyntaxKind| !a.spec_has(k),
    ensures
        a.spec_is_empty(),
{
    assert forall|n: u128| n < 128 implies (#[trigger] bit_set(a.0, n) ==> bit_set(0, n)) by {
        if n < 111 {
            crate::kinds::lemma_kind_ord_inverse_of(n as int);
            let k = kind_of_ord(n as int);
            assert(a.spec_has(k) == bit_set(a.0, n));
        }
    }
    lemma_pointwise_and(a.0, 0);
    assert(a.0 & 0 == 0) by (bit_vector);
}

/// Every set is a subset of itself.
pub proof fn lemma_subset_refl(a: TokenSet)
    ensures
        a.spec_is_subset(a),
{
    let v = a.0;
    assert(v & v == v) by (bit_vector);
}

/// The empty set is a subset of every set.
pub proof fn lemma_empty_subset(b: TokenSet)
    ensures
        TokenSet::spec_empty().spec_is_subset(b),
{
    let w = b.0;
    assert(0u128 & w == 0) by (bit_vector);
}

/// A well-formed set with no member in common with another is disjoint from
/// it at bit level too.
pub proof fn lemma_members_disjoint(a: TokenSet, b: TokenSet)
    requires
        a.spec_wf(),
        forall|k: SyntaxKind| !(a.spec_has(k) && b.spec_has(k)),
    ensures
        a.spec_is_disjoint(b),
{
    assert forall|n: u128| n < 128 implies (#[trigger] bit_set(a.0 & b.0, n) ==> bit_set(
        0,
        n,
    )) by {
        lemma_bv_and(a.0, b.0, n);
        if n < 111 {
            crate::kinds::lemma_kind_ord_inverse_of(n as int);
            let k = kind_of_ord(n as int);
            assert(a.spec_has(k) == bit_set(a.0, n));
            assert(b.spec_has(k) == bit_set(b.0, n));
        }
    }
    lemma_pointwise_and(a.0 & b.0, 0);
    let v = a.0 & b.0;
    assert(v & 0 == 0) by (bit_vector);
}

/// Complementing twice gives the set back.
pub proof fn lemma_complement_involution(a: TokenSet)
    ensures
        a.spec_complement().spec_complement() == a,
{
    let v = a.0;
    assert(!(!v) == v) by (bit_vector);
    assert(a == TokenSet(a.0));
}

/// Toggling the same kinds twice gives the set back.
pub proof fn lemma_toggle_involution(a: TokenSet, b: TokenSet)
    ensures
        a.spec_symmetric_difference(b).spec_symmetric_difference(b) == a,
{
    let v = a.0;
    let w = b.0;
    assert((v ^ w) ^ w == v) by (bit_vector);
    assert(a == TokenSet(a.0));
}

/// The set a kind list makes is well formed.
pub proof fn lemma_from_kind_list_wf(kinds: Seq<SyntaxKind>)
    ensures
        TokenSet::spec_from_kind_list(kinds).spec_wf(),
    decreases kinds.len(),
{
    if kinds.len() == 0 {
        assert forall|n: u128| 111 <= n < 128 implies !bit_set(0, n) by {
            lemma_bv_zero(n);
        }
    } else {
        lemma_from_kind_list_wf(kinds.drop_last());
        let a = TokenSet::spec_from_kind_list(kinds.drop_last());
        let k = kinds.last();
        crate::kinds::lemma_kind_ord_range(k);
        assert forall|n: u128| 111 <= n < 128 implies !bit_set(
            TokenSet::spec_from_kind_list(kinds).0,
            n,
        ) by {
            lemma_bv_or(a.0, 1u128 << (kind_ord(k) as u128), n);
            lemma_bv_single(kind_ord(k) as u128, n);
        }
    }
}

/// The set a lexer token-kind list makes is well formed.
pub proof fn lemma_from_token_kinds_wf(kinds: Seq<TokenKind>)
    ensures
        spec_from_token_kinds(kinds).spec_wf(),
    decreases kinds.len(),
{
    if kinds.len() == 0 {
        assert forall|n: u128| 111 <= n < 128 implies !bit_set(0, n) by {
            lemma_bv_zero(n);
        }
    } else {
        lemma_from_token_kinds_wf(kinds.drop_last());
        let a = spec_from_token_kinds(kinds.drop_last());
        let k = kinds.last().spec_to_syntax();
        crate::kinds::lemma_kind_ord_range(k);
        assert forall|n: u128| 111 <= n < 128 implies !bit_set(
            spec_from_token_kinds(kinds).0,
            n,
        ) by {
            lemma_bv_or(a.0, 1u128 << (kind_ord(k) as u128), n);
            lemma_bv_single(kind_ord(k) as u128, n);
        }
    }
}

/// Union membership is pointwise disjunction.
pub proof fn lemma_union_contains(a: TokenSet, b: TokenSet, x: SyntaxKind)
    ensures
        a.spec_union(b).spec_has(x) == (a.spec_has(x) || b.spec_has(x)),
{
    crate::kinds::lemma_kind_ord_range(x);
    lemma_bv_or(a.spec_bits(), b.spec_bits(), kind_ord(x) as u128);
}

/// Taking a union with oneself changes nothing.
pub proof fn lemma_union_idempotent(a: TokenSet)
    ensures
        a.spec_union(a) == a,
{
    let v = a.spec_bits();
    assert(v | v == v) by (bit_vector);
}

/// What is left after removing `b` shares nothing with `b`.
pub proof fn lemma_difference_disjoint(a: TokenSet, b: TokenSet)
    ensures
        a.spec_difference(b).spec_is_disjoint(b),
{
    let x = a.spec_bits();
    let y = b.spec_bits();
    assert((x & !y) & y == 0) by (bit_vector);
}

/// A set shares nothing with its own complement.
pub proof fn lemma_complement_intersection_empty(a: TokenSet)
    ensures
        a.spec_intersection(a.spec_complement()).spec_is_empty(),
{
    let v = a.spec_bits();
    assert(v & !v == 0) by (bit_vector);
}

} // verus!
