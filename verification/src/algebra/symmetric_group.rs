use vstd::prelude::*;

verus! {

/// A mapping is a permutation of the slots `0..len` when every entry is a
/// valid slot index and no index appears twice.
pub open spec fn is_permutation(s: Seq<usize>) -> bool {
    &&& forall|i: int| 0 <= i < s.len() ==> s[i] < s.len()
    &&& forall|i: int, j: int| 0 <= i < j < s.len() ==> s[i] != s[j]
}

/// The fixed-point mapping on `n` slots.
pub open spec fn identity_seq(n: nat) -> Seq<usize> {
    Seq::new(n, |i: int| i as usize)
}

/// Gathers `input` by `p`: the entry at slot `i` of the result is the entry of
/// `input` at the slot `p` maps `i` to.
pub open spec fn spec_permute<T>(p: Seq<usize>, input: Seq<T>) -> Seq<T>
    recommends
        input.len() == p.len(),
        forall|i: int| 0 <= i < p.len() ==> p[i] < input.len(),
{
    Seq::new(p.len(), |i: int| input[p[i] as int])
}

/// Function composition of two mappings: the result maps slot `i` to where
/// `a` maps the slot `b` maps `i` to. This is `b.permute(a)` read as data.
pub open spec fn spec_compose(a: Seq<usize>, b: Seq<usize>) -> Seq<usize>
    recommends
        a.len() == b.len(),
        forall|i: int| 0 <= i < b.len() ==> b[i] < a.len(),
{
    spec_permute(b, a)
}

/// Why a mapping was rejected as a permutation: an entry was no slot index at
/// all, or a slot index that had already been used. The offending value is
/// carried along.
#[derive(Clone, Copy, PartialEq, Eq, Structural, Debug)]
pub enum PermutationError {
    ValueTooLarge(usize),
    DuplicatedValue(usize),
}

/// The first complaint a left-to-right scan of the mapping raises from
/// position `i` on, if any.
pub open spec fn spec_validate(s: Seq<usize>, i: int) -> Option<PermutationError>
    decreases s.len() - i,
{
    if i < 0 || i >= s.len() {
        None
    } else if s[i] >= s.len() {
        Some(PermutationError::ValueTooLarge(s[i]))
    } else if exists|j: int| 0 <= j < i && s[j] == s[i] {
        Some(PermutationError::DuplicatedValue(s[i]))
    } else {
        spec_validate(s, i + 1)
    }
}

/// The scan accepts a mapping exactly when it is a permutation.
pub proof fn lemma_validate_iff_permutation(s: Seq<usize>)
    ensures
        spec_validate(s, 0) is None <==> is_permutation(s),
{
    lemma_validate_suffix(s, 0);
    if spec_validate(s, 0) is None {
        assert forall|i: int, j: int| 0 <= i < j < s.len() implies s[i] != s[j] by {
            assert(s[j] < s.len() && !(exists|k: int| 0 <= k < j && s[k] == s[j]));
        }
    }
}

proof fn lemma_validate_suffix(s: Seq<usize>, i: int)
    requires
        0 <= i <= s.len(),
    ensures
        spec_validate(s, i) is None <==> forall|k: int|
            i <= k < s.len() ==> s[k] < s.len() && !(exists|j: int| 0 <= j < k && s[j] == s[k]),
    decreases s.len() - i,
{
    if i < s.len() {
        lemma_validate_suffix(s, i + 1);
    }
}

/// An element of the symmetric group over `n` slots: a permutation, stored as
/// the array of the slots each slot is mapped to. Its view is that array as a
/// sequence.
#[derive(PartialEq, Eq, Debug)]
pub struct SymmetricGroup {
    value: Vec<usize>,
}

impl View for SymmetricGroup {
    type V = Seq<usize>;

    closed spec fn view(&self) -> Seq<usize> {
        self.value@
    }
}

impl Clone for SymmetricGroup {
    /// A copy with the same mapping.
    fn clone(&self) -> (r: Self)
        ensures
            r@ == self@,
    {
        let value = self.value.clone();
        proof {
            assert(value@ =~= self.value@);
        }
        SymmetricGroup { value }
    }
}

impl SymmetricGroup {
    /// Well-formed: the stored mapping is a bijection on its slots.
    pub open spec fn wf(&self) -> bool {
        is_permutation(self@)
    }

    /// The identity permutation on `n` slots: each slot maps to itself.
    pub fn identity(n: usize) -> (r: Self)
        ensures
            r@ == identity_seq(n as nat),
            r.wf(),
    {
        let mut value: Vec<usize> = Vec::new();
        let mut i: usize = 0;
        while i < n
            invariant
                i <= n,
                value@.len() == i,
                forall|j: int| 0 <= j < i ==> value@[j] == j,
            decreases n - i,
        {
            value.push(i);
            i += 1;
        }
        let r = SymmetricGroup { value };
        proof {
            assert(r@ =~= identity_seq(n as nat));
        }
        r
    }

    /// How many slots the permutation acts on.
    pub fn len(&self) -> (r: usize)
        ensures
            r == self@.len(),
    {
        self.value.len()
    }

    /// The slot that slot `i` is mapped to.
    pub fn index(&self, i: usize) -> (r: usize)
        requires
            i < self@.len(),
        ensures
            r == self@[i as int],
    {
        self.value[i]
    }

    /// Whether the permutation is the identity, mapping each slot to itself.
    pub fn is_identity(&self) -> (r: bool)
        ensures
            r == (self@ == identity_seq(self@.len())),
    {
        let n = self.value.len();
        let mut i: usize = 0;
        while i < n
            invariant
                i <= n,
                n == self@.len(),
                forall|j: int| 0 <= j < i ==> self@[j] == j,
            decreases n - i,
        {
            if self.value[i] != i {
                proof {
                    assert(self@[i as int] != identity_seq(self@.len())[i as int]);
                }
                return false;
            }
            i += 1;
        }
        proof {
            assert(self@ =~= identity_seq(self@.len()));
        }
        true
    }

    /// Validates a mapping and wraps it as a permutation. The mapping is
    /// accepted exactly when it is a bijection on `0..len`; otherwise the scan
    /// reports the first offending value, left to right.
    pub fn try_new(value: Vec<usize>) -> (r: Result<Self, PermutationError>)
        ensures
            r is Ok <==> is_permutation(value@),
            r matches Ok(s) ==> s@ == value@ && s.wf(),
            r matches Err(e) ==> spec_validate(value@, 0) == Some(e),
    {
        proof {
            lemma_validate_iff_permutation(value@);
        }
        let n = value.len();
        let mut flag: Vec<bool> = Vec::new();
        let mut k: usize = 0;
        while k < n
            invariant
                k <= n,
                flag@.len() == k,
                forall|j: int| 0 <= j < k ==> !flag@[j],
            decreases n - k,
        {
            flag.push(false);
            k += 1;
        }
        let ghost s = value@;
        let mut i: usize = 0;
        while i < n
            invariant
                i <= n,
                n == s.len(),
                s == value@,
                flag@.len() == n,
                forall|v: int|
                    0 <= v < n ==> (flag@[v] <==> exists|j: int| 0 <= j < i && s[j] == v),
                spec_validate(s, 0) == spec_validate(s, i as int),
            decreases n - i,
        {
            let v = value[i];
            if v >= n {
                return Err(PermutationError::ValueTooLarge(v));
            }
            if flag[v] {
                assert(exists|j: int| 0 <= j < i && s[j] == s[i as int]);
                return Err(PermutationError::DuplicatedValue(v));
            }
            proof {
                assert(!(exists|j: int| 0 <= j < i && s[j] == s[i as int]));
            }
            flag.set(v, true);
            i += 1;
        }
        Ok(SymmetricGroup { value })
    }

    /// Applies the permutation to an array of the same length: the output at
    /// slot `i` is the input at the slot this permutation maps `i` to.
    pub fn permute<T: Copy>(&self, input: &Vec<T>) -> (r: Vec<T>)
        requires
            self.wf(),
            input@.len() == self@.len(),
        ensures
            r@ == spec_permute(self@, input@),
    {
        let mut out: Vec<T> = Vec::new();
        let mut i: usize = 0;
        let n = self.value.len();
        while i < n
            invariant
                i <= n,
                n == self@.len(),
                self.wf(),
                input@.len() == n,
                out@.len() == i,
                forall|j: int| 0 <= j < i ==> out@[j] == input@[self@[j] as int],
            decreases n - i,
        {
            out.push(input[self.value[i]]);
            i += 1;
        }
        proof {
            assert(out@ =~= spec_permute(self@, input@));
        }
        out
    }

    /// Composition of permutations: the product maps each slot by `self`
    /// after relabeling by `rhs`, so that `self` acts first when the product
    /// is read as a sequence of moves.
    pub fn mul(&self, rhs: &Self) -> (r: Self)
        requires
            self.wf(),
            rhs.wf(),
            self@.len() == rhs@.len(),
        ensures
            r@ == spec_compose(self@, rhs@),
            r.wf(),
    {
        let value = rhs.permute(&self.value);
        proof {
            lemma_compose_is_permutation(self@, rhs@);
        }
        SymmetricGroup { value }
    }

    /// In-place form of `mul`.
    pub fn mul_assign(&mut self, rhs: &Self)
        requires
            old(self).wf(),
            rhs.wf(),
            old(self)@.len() == rhs@.len(),
        ensures
            final(self)@ == spec_compose(old(self)@, rhs@),
            final(self).wf(),
    {
        *self = self.mul(rhs);
    }
}

/// Composing two permutations of the same slots yields a permutation again:
/// the group is closed under its product.
pub proof fn lemma_compose_is_permutation(a: Seq<usize>, b: Seq<usize>)
    requires
        is_permutation(a),
        is_permutation(b),
        a.len() == b.len(),
    ensures
        is_permutation(spec_compose(a, b)),
        spec_compose(a, b).len() == a.len(),
{
    let c = spec_compose(a, b);
    assert forall|i: int, j: int| 0 <= i < j < c.len() implies c[i] != c[j] by {
        assert(b[i] != b[j]);
        if b[i] < b[j] {
            assert(a[b[i] as int] != a[b[j] as int]);
        } else {
            assert(a[b[j] as int] != a[b[i] as int]);
        }
    }
}

/// Composition of permutations is associative.
pub proof fn lemma_compose_associative(a: Seq<usize>, b: Seq<usize>, c: Seq<usize>)
    requires
        is_permutation(a),
        is_permutation(b),
        is_permutation(c),
        a.len() == b.len(),
        b.len() == c.len(),
    ensures
        spec_compose(spec_compose(a, b), c) == spec_compose(a, spec_compose(b, c)),
{
    assert(spec_compose(spec_compose(a, b), c) =~= spec_compose(a, spec_compose(b, c)));
}

/// The identity permutation is neutral on either side of the product.
pub proof fn lemma_compose_identity(a: Seq<usize>)
    requires
        is_permutation(a),
        a.len() <= usize::MAX,
    ensures
        spec_compose(a, identity_seq(a.len())) == a,
        spec_compose(identity_seq(a.len()), a) == a,
{
    assert(spec_compose(a, identity_seq(a.len())) =~= a);
    assert(spec_compose(identity_seq(a.len()), a) =~= a);
}

} // verus!
