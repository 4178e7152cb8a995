//! The set of modifier keys held while a key is struck.

use vstd::prelude::*;

verus! {

/// A modifier key.
#[derive(Clone, Copy, Debug, PartialEq, Eq, Hash, Structural)]
pub enum Modifier {
    Shift,
    Control,
    Alt,
    Meta,
}

impl Modifier {
    /// The bit that stands for this modifier in a `KeyModifiers`.
    pub closed spec fn spec_bit(self) -> u8 {
        match self {
            Modifier::Shift => 0x01u8,
            Modifier::Control => 0x02u8,
            Modifier::Alt => 0x04u8,
            Modifier::Meta => 0x08u8,
        }
    }

    #[verifier::when_used_as_spec(spec_bit)]
    fn bit(self) -> (b: u8)
        ensures
            b == self.spec_bit(),
    {
        match self {
            Modifier::Shift => 0x01u8,
            Modifier::Control => 0x02u8,
            Modifier::Alt => 0x04u8,
            Modifier::Meta => 0x08u8,
        }
    }
}

/// A set of modifiers, kept as one bit per modifier.
///
/// Its view is the mathematical set of the modifiers it holds. No bit other
/// than the four modifier bits is ever set, so two values are equal exactly
/// when they hold the same modifiers.
#[derive(Clone, Copy, Debug, PartialEq, Eq, Hash, Structural)]
pub struct KeyModifiers {
    bits: u8,
}

impl View for KeyModifiers {
    type V = Set<Modifier>;

    closed spec fn view(&self) -> Set<Modifier> {
        Set::new(|m: Modifier| self.bits & m.spec_bit() != 0)
    }
}

impl KeyModifiers {
    /// Only modifier bits are set.
    #[verifier::type_invariant]
    pub closed spec fn wf(self) -> bool {
        self.bits & 0xf0 == 0
    }

    /// The set that holds no modifier, as a value of specifications.
    pub closed spec fn spec_empty() -> KeyModifiers {
        KeyModifiers { bits: 0 }
    }

    /// The set that holds `m` alone, as a value of specifications.
    pub closed spec fn spec_only(m: Modifier) -> KeyModifiers {
        KeyModifiers { bits: m.spec_bit() }
    }

    /// The union of two sets, as a value of specifications.
    pub closed spec fn spec_union(self, other: KeyModifiers) -> KeyModifiers {
        KeyModifiers { bits: self.bits | other.bits }
    }

    /// The set that holds no modifier.
    #[verifier::when_used_as_spec(spec_empty)]
    pub fn empty() -> (r: KeyModifiers)
        ensures
            r == KeyModifiers::spec_empty(),
            r@ == Set::<Modifier>::empty(),
    {
        proof {
            Self::lemma_empty();
        }
        KeyModifiers { bits: 0 }
    }

    /// The set that holds `m` and nothing else.
    #[verifier::when_used_as_spec(spec_only)]
    pub fn only(m: Modifier) -> (r: KeyModifiers)
        ensures
            r == KeyModifiers::spec_only(m),
            r@ == Set::<Modifier>::empty().insert(m),
    {
        proof {
            Self::lemma_only(m);
        }
        KeyModifiers { bits: m.bit() }
    }

    /// The modifiers held by either set.
    #[verifier::when_used_as_spec(spec_union)]
    pub fn union(self, other: KeyModifiers) -> (r: KeyModifiers)
        ensures
            r == self.spec_union(other),
            r@ == self@.union(other@),
    {
        proof {
            use_type_invariant(&self);
            use_type_invariant(&other);
            Self::lemma_union(self, other);
        }
        KeyModifiers { bits: self.bits | other.bits }
    }

    /// Whether `m` is held.
    pub fn contains(&self, m: Modifier) -> (b: bool)
        ensures
            b == self@.contains(m),
    {
        self.bits & m.bit() != 0
    }

    /// Whether no modifier is held.
    pub fn is_empty(&self) -> (b: bool)
        ensures
            b == (self@ == Set::<Modifier>::empty()),
    {
        proof {
            use_type_invariant(self);
            Self::lemma_empty();
            if self@ == Set::<Modifier>::empty() {
                Self::lemma_view_injective(*self, Self::spec_empty());
            }
        }
        self.bits == 0
    }

    /// The empty set is well formed and holds nothing.
    pub proof fn lemma_empty()
        ensures
            KeyModifiers::spec_empty().wf(),
            KeyModifiers::spec_empty()@ == Set::<Modifier>::empty(),
    {
        assert(0u8 & 0xf0 == 0) by (bit_vector);
        assert forall|m: Modifier| !(#[trigger] KeyModifiers::spec_empty()@.contains(m)) by {
            let f = m.spec_bit();
            assert(0u8 & f == 0) by (bit_vector);
        }
        assert(KeyModifiers::spec_empty()@ =~= Set::<Modifier>::empty());
    }

    /// A singleton is well formed and holds its modifier alone.
    pub proof fn lemma_only(m: Modifier)
        ensures
            KeyModifiers::spec_only(m).wf(),
            KeyModifiers::spec_only(m)@ == Set::<Modifier>::empty().insert(m),
    {
        let f = m.spec_bit();
        assert(f & 0xf0 == 0) by (bit_vector)
            requires
                f == 0x01 || f == 0x02 || f == 0x04 || f == 0x08,
        ;
        assert forall|n: Modifier| KeyModifiers::spec_only(m)@.contains(n) == (n == m) by {
            let g = n.spec_bit();
            assert((f & g != 0) == (f == g)) by (bit_vector)
                requires
                    f == 0x01 || f == 0x02 || f == 0x04 || f == 0x08,
                    g == 0x01 || g == 0x02 || g == 0x04 || g == 0x08,
            ;
        }
        assert(KeyModifiers::spec_only(m)@ =~= Set::<Modifier>::empty().insert(m));
    }

    /// A union of well-formed sets is well formed and holds what either holds.
    pub proof fn lemma_union(a: KeyModifiers, b: KeyModifiers)
        requires
            a.wf(),
            b.wf(),
        ensures
            a.spec_union(b).wf(),
            a.spec_union(b)@ == a@.union(b@),
    {
        let x = a.bits;
        let y = b.bits;
        assert((x | y) & 0xf0 == 0) by (bit_vector)
            requires
                x & 0xf0 == 0,
                y & 0xf0 == 0,
        ;
        assert forall|m: Modifier|
            a.spec_union(b)@.contains(m) == (a@.contains(m) || b@.contains(m)) by {
            let f = m.spec_bit();
            assert(((x | y) & f != 0) == ((x & f != 0) || (y & f != 0))) by (bit_vector);
        }
        assert(a.spec_union(b)@ =~= a@.union(b@));
    }

    /// Two well-formed sets that hold the same modifiers are the same value.
    pub proof fn lemma_view_injective(a: KeyModifiers, b: KeyModifiers)
        requires
            a.wf(),
            b.wf(),
            a@ == b@,
        ensures
            a == b,
    {
        let x = a.bits;
        let y = b.bits;
        assert(a@.contains(Modifier::Shift) == (x & 0x01 != 0));
        assert(a@.contains(Modifier::Control) == (x & 0x02 != 0));
        assert(a@.contains(Modifier::Alt) == (x & 0x04 != 0));
        assert(a@.contains(Modifier::Meta) == (x & 0x08 != 0));
        assert(b@.contains(Modifier::Shift) == (y & 0x01 != 0));
        assert(b@.contains(Modifier::Control) == (y & 0x02 != 0));
        assert(b@.contains(Modifier::Alt) == (y & 0x04 != 0));
        assert(b@.contains(Modifier::Meta) == (y & 0x08 != 0));
        assert(x == y) by (bit_vector)
            requires
                x & 0xf0 == 0,
                y & 0xf0 == 0,
                (x & 0x01 != 0) == (y & 0x01 != 0),
                (x & 0x02 != 0) == (y & 0x02 != 0),
                (x & 0x04 != 0) == (y & 0x04 != 0),
                (x & 0x08 != 0) == (y & 0x08 != 0),
        ;
    }
}

} // verus!
