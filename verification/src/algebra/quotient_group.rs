use vstd::prelude::*;

verus! {

/// An element of the additive group of integers modulo `N`: a representative
/// in `0..N` together with the modulus `N` itself. It models the orientation
/// of a single cube piece (modulus 2 for edges, 3 for corners).
#[derive(Clone, Copy, PartialEq, Eq, Structural, Debug)]
pub struct QuotientGroup {
    modulus: u8,
    value: u8,
}

impl QuotientGroup {
    /// The modulus of the group this element belongs to.
    pub closed spec fn spec_modulus(&self) -> u8 {
        self.modulus
    }

    /// The stored representative of the equivalence class.
    pub closed spec fn spec_value(&self) -> u8 {
        self.value
    }

    /// Well-formed: the modulus is a real one and the representative is
    /// already reduced.
    pub open spec fn wf(&self) -> bool {
        0 < self.spec_modulus() && self.spec_value() < self.spec_modulus()
    }

    /// Builds the element of the group modulo `modulus` in the equivalence
    /// class of `value`; the representative stored is `value % modulus`.
    /// Out-of-range raw values are reduced, never rejected.
    pub fn equivalence_class(modulus: u8, value: u8) -> (r: Self)
        requires
            modulus > 0,
        ensures
            r.wf(),
            r.spec_modulus() == modulus,
            r.spec_value() == value % modulus,
    {
        QuotientGroup { modulus, value: value % modulus }
    }

    /// The zero element, the additive identity of the group modulo `modulus`.
    pub fn zero(modulus: u8) -> (r: Self)
        requires
            modulus > 0,
        ensures
            r.wf(),
            r.spec_modulus() == modulus,
            r.spec_value() == 0,
    {
        QuotientGroup { modulus, value: 0 }
    }

    /// Reads the representative back out as a plain integer.
    pub fn value(&self) -> (r: u8)
        ensures
            r == self.spec_value(),
    {
        self.value
    }

    /// Addition in the group: the representatives are added and the sum wraps
    /// modulo the common modulus.
    pub fn add(self, rhs: Self) -> (r: Self)
        requires
            self.wf(),
            rhs.wf(),
            self.spec_modulus() == rhs.spec_modulus(),
        ensures
            r.wf(),
            r.spec_modulus() == self.spec_modulus(),
            r.spec_value() == (self.spec_value() + rhs.spec_value()) % (self.spec_modulus() as int),
    {
        let sum: u16 = self.value as u16 + rhs.value as u16;
        let reduced: u16 = sum % (self.modulus as u16);
        QuotientGroup { modulus: self.modulus, value: reduced as u8 }
    }

    /// In-place form of `add`.
    pub fn add_assign(&mut self, rhs: Self)
        requires
            old(self).wf(),
            rhs.wf(),
            old(self).spec_modulus() == rhs.spec_modulus(),
        ensures
            final(self).wf(),
            final(self).spec_modulus() == old(self).spec_modulus(),
            final(self).spec_value() == (old(self).spec_value() + rhs.spec_value()) % (old(
                self,
            ).spec_modulus() as int),
    {
        *self = self.add(rhs);
    }
}

} // verus!
