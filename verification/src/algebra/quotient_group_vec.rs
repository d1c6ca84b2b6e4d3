use vstd::prelude::*;

use super::quotient_group::QuotientGroup;

verus! {

/// Pointwise modular sum of two equally long sequences of representatives.
pub open spec fn seq_add_mod(a: Seq<u8>, b: Seq<u8>, m: u8) -> Seq<u8>
    recommends
        a.len() == b.len(),
        m > 0,
{
    Seq::new(a.len(), |i: int| ((a[i] + b[i]) % (m as int)) as u8)
}

/// The all-zero sequence of representatives of length `n`.
pub open spec fn zero_seq(n: nat) -> Seq<u8> {
    Seq::new(n, |i: int| 0u8)
}

/// A fixed-length vector of elements of the group of integers modulo `N`,
/// added pointwise. It models the orientations of all edge (modulus 2) or all
/// corner (modulus 3) pieces at once. Its view is the sequence of
/// representatives.
#[derive(PartialEq, Eq, Debug)]
pub struct QuotientGroupVec {
    modulus: u8,
    values: Vec<u8>,
}

impl Clone for QuotientGroupVec {
    /// A copy with the same modulus and the same entries.
    fn clone(&self) -> (r: Self)
        ensures
            r@ == self@,
            r.spec_modulus() == self.spec_modulus(),
    {
        let values = self.values.clone();
        proof {
            assert(values@ =~= self.values@);
        }
        QuotientGroupVec { modulus: self.modulus, values }
    }
}

impl View for QuotientGroupVec {
    type V = Seq<u8>;

    closed spec fn view(&self) -> Seq<u8> {
        self.values@
    }
}

impl QuotientGroupVec {
    /// The common modulus of all the entries.
    pub closed spec fn spec_modulus(&self) -> u8 {
        self.modulus
    }

    /// Well-formed: every stored representative is reduced.
    pub open spec fn wf(&self) -> bool {
        0 < self.spec_modulus() && forall|i: int|
            0 <= i < self@.len() ==> self@[i] < self.spec_modulus()
    }

    /// Builds a vector of equivalence classes modulo `modulus`, one per raw
    /// entry; each raw entry is reduced, never rejected.
    pub fn from_raw(modulus: u8, raw: Vec<u8>) -> (r: Self)
        requires
            modulus > 0,
        ensures
            r.wf(),
            r.spec_modulus() == modulus,
            r@ == Seq::new(raw@.len(), |i: int| ((raw@[i] as int) % (modulus as int)) as u8),
    {
        let mut values: Vec<u8> = Vec::new();
        let mut i: usize = 0;
        while i < raw.len()
            invariant
                i <= raw@.len(),
                modulus > 0,
                values@.len() == i,
                forall|j: int| 0 <= j < i ==> values@[j] == ((raw@[j] as int) % (modulus as int)) as u8,
            decreases raw@.len() - i,
        {
            values.push(raw[i] % modulus);
            i += 1;
        }
        let r = QuotientGroupVec { modulus, values };
        proof {
            assert(r@ =~= Seq::new(raw@.len(), |i: int| ((raw@[i] as int) % (modulus as int)) as u8));
        }
        r
    }

    /// The all-zero vector, the additive identity.
    pub fn zeros(modulus: u8, len: usize) -> (r: Self)
        requires
            modulus > 0,
        ensures
            r.wf(),
            r.spec_modulus() == modulus,
            r@.len() == len,
            forall|i: int| 0 <= i < len ==> r@[i] == 0,
    {
        let mut values: Vec<u8> = Vec::new();
        let mut i: usize = 0;
        while i < len
            invariant
                i <= len,
                values@.len() == i,
                forall|j: int| 0 <= j < i ==> values@[j] == 0,
            decreases len - i,
        {
            values.push(0);
            i += 1;
        }
        QuotientGroupVec { modulus, values }
    }

    /// How many entries the vector has.
    pub fn len(&self) -> (r: usize)
        ensures
            r == self@.len(),
    {
        self.values.len()
    }

    /// Reads one entry back out as an element of the group.
    pub fn index(&self, i: usize) -> (r: QuotientGroup)
        requires
            self.wf(),
            i < self@.len(),
        ensures
            r.wf(),
            r.spec_modulus() == self.spec_modulus(),
            r.spec_value() == self@[i as int],
    {
        proof {
            assert((self@[i as int] as int) % (self.spec_modulus() as int) == self@[i as int]) by {
                vstd::arithmetic::div_mod::lemma_small_mod(
                    self@[i as int] as nat,
                    self.spec_modulus() as nat,
                );
            }
        }
        QuotientGroup::equivalence_class(self.modulus, self.values[i])
    }

    /// A copy of the stored representatives as plain integers.
    pub fn raw(&self) -> (r: &Vec<u8>)
        ensures
            r@ == self@,
    {
        &self.values
    }

    /// Whether every entry is zero, so that the vector is the additive
    /// identity.
    pub fn is_zero(&self) -> (r: bool)
        ensures
            r == (self@ == zero_seq(self@.len())),
    {
        let n = self.values.len();
        let mut i: usize = 0;
        while i < n
            invariant
                i <= n,
                n == self@.len(),
                forall|j: int| 0 <= j < i ==> self@[j] == 0,
            decreases n - i,
        {
            if self.values[i] != 0 {
                proof {
                    assert(self@[i as int] != zero_seq(self@.len())[i as int]);
                }
                return false;
            }
            i += 1;
        }
        proof {
            assert(self@ =~= zero_seq(self@.len()));
        }
        true
    }

    /// Pointwise addition: each entry is added to its counterpart and wraps
    /// modulo the common modulus.
    pub fn add(&self, rhs: &Self) -> (r: Self)
        requires
            self.wf(),
            rhs.wf(),
            self.spec_modulus() == rhs.spec_modulus(),
            self@.len() == rhs@.len(),
        ensures
            r.wf(),
            r.spec_modulus() == self.spec_modulus(),
            r@ == seq_add_mod(self@, rhs@, self.spec_modulus()),
    {
        let mut values: Vec<u8> = Vec::new();
        let mut i: usize = 0;
        while i < self.values.len()
            invariant
                i <= self@.len(),
                self.wf(),
                rhs.wf(),
                self.spec_modulus() == rhs.spec_modulus(),
                self@.len() == rhs@.len(),
                values@.len() == i,
                forall|j: int|
                    0 <= j < i ==> values@[j] == ((self@[j] + rhs@[j]) % (
                    self.spec_modulus() as int)) as u8,
            decreases self@.len() - i,
        {
            let sum: u16 = self.values[i] as u16 + rhs.values[i] as u16;
            values.push((sum % (self.modulus as u16)) as u8);
            i += 1;
        }
        let r = QuotientGroupVec { modulus: self.modulus, values };
        proof {
            assert(r@ =~= seq_add_mod(self@, rhs@, self.spec_modulus()));
        }
        r
    }

    /// In-place form of `add`.
    pub fn add_assign(&mut self, rhs: &Self)
        requires
            old(self).wf(),
            rhs.wf(),
            old(self).spec_modulus() == rhs.spec_modulus(),
            old(self)@.len() == rhs@.len(),
        ensures
            final(self).wf(),
            final(self).spec_modulus() == old(self).spec_modulus(),
            final(self)@ == seq_add_mod(old(self)@, rhs@, old(self).spec_modulus()),
    {
        *self = self.add(rhs);
    }
}

} // verus!
