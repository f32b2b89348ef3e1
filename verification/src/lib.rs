//! Lightweight unique identifiers for telling one run (or logical session)
//! of a program from another.
//!
//! An [`IdentifierAllocator`] hands out [`RuntimeID`] values backed by a
//! monotonically increasing counter. Identifiers are cheap to create, copy,
//! compare and hash; they deliberately expose no ordering, no arithmetic and
//! no conversion to or from any external representation, so callers cannot
//! infer allocation order or count from them.

use vstd::prelude::*;

verus! {

use std::collections::hash_map::DefaultHasher;
use std::hash::Hasher;
use vstd::std_specs::hash::DefaultHasherAdditionalSpecFns;
use vstd::std_specs::cmp::PartialEqSpec;

/// The fixed-width byte representation of an identifier's counter value:
/// eight bytes, least significant first.
pub open spec fn id_bytes(v: nat) -> Seq<u8> {
    seq![
        (v % 256) as u8,
        ((v / 256) % 256) as u8,
        ((v / 65536) % 256) as u8,
        ((v / 16777216) % 256) as u8,
        ((v / 4294967296) % 256) as u8,
        ((v / 1099511627776) % 256) as u8,
        ((v / 281474976710656) % 256) as u8,
        ((v / 72057594037927936) % 256) as u8,
    ]
}

/// The digest an identifier with counter value `v` produces from a fresh
/// standard hash accumulator: a function of `v` alone, so equal identifiers
/// always hash alike.
pub open spec fn id_digest(v: nat) -> u64 {
    DefaultHasher::spec_finish(seq![id_bytes(v)])
}

/// Opaque identifier that is unique per allocator for one run of a program.
///
/// The only operations offered are equality, hashing and copying. The
/// wrapped counter value is never exposed to executable callers as a number;
/// the [`View`] below exists for specifications alone. No relational
/// comparison is implemented, on purpose: allocation order is not part of
/// the contract.
#[derive(Clone, Copy, Debug, Hash)]
pub struct RuntimeID(usize);

impl View for RuntimeID {
    type V = nat;

    closed spec fn view(&self) -> nat {
        self.0 as nat
    }
}

impl PartialEq for RuntimeID {
    /// Two identifiers are equal exactly when they wrap the same counter
    /// value, that is, when they come from the same allocation event.
    fn eq(&self, other: &Self) -> bool {
        self.0 == other.0
    }
}

impl Eq for RuntimeID {}

impl vstd::std_specs::cmp::PartialEqSpecImpl for RuntimeID {
    open spec fn obeys_eq_spec() -> bool {
        true
    }

    open spec fn eq_spec(&self, other: &RuntimeID) -> bool {
        self@ == other@
    }
}

/// Allocator handing out identifiers that are pairwise distinct for its
/// whole lifetime.
///
/// It wraps a monotonically increasing counter that starts at zero, only
/// ever grows, and is never reset. Its abstract state, `allocator@`, is the
/// set of counter values issued so far; every allocation returns a value
/// outside that set, which is what makes identifiers unique.
pub struct IdentifierAllocator {
    next: usize,
    issued: Ghost<Set<nat>>,
}

impl View for IdentifierAllocator {
    type V = Set<nat>;

    closed spec fn view(&self) -> Set<nat> {
        self.issued@
    }
}

impl IdentifierAllocator {
    #[verifier::type_invariant]
    spec fn wf(self) -> bool {
        &&& self.issued@.finite()
        &&& self.issued@.len() == self.next
        &&& forall|v: nat| self.issued@.contains(v) ==> v < self.next
    }

    /// True while the counter has room for one more allocation. Exhaustion
    /// of the counter range is the one boundary of this design: rather than
    /// wrapping around and silently reusing values, allocation demands this
    /// as a precondition, and [`Self::has_capacity`] tests it at run time.
    pub open spec fn can_allocate(self) -> bool {
        self@.finite() && self@.len() < usize::MAX
    }

    /// Creates an allocator that has issued nothing yet.
    pub fn new() -> (allocator: Self)
        ensures
            allocator@ == Set::<nat>::empty(),
    {
        IdentifierAllocator { next: 0, issued: Ghost(Set::empty()) }
    }

    /// Reports whether one more identifier can still be allocated; false
    /// only once the whole counter range has been spent.
    pub fn has_capacity(&self) -> (b: bool)
        ensures
            b == self.can_allocate(),
    {
        proof {
            use_type_invariant(&*self);
        }
        self.next < usize::MAX
    }

    /// Allocates a fresh identifier.
    ///
    /// The returned identifier wraps a counter value never issued before by
    /// this allocator, and the allocator records it as issued, so any two
    /// allocations ever made from one allocator compare unequal.
    pub fn allocate(&mut self) -> (id: RuntimeID)
        requires
            old(self).can_allocate(),
        ensures
            !old(self)@.contains(id@),
            final(self)@ == old(self)@.insert(id@),
    {
        proof {
            use_type_invariant(&*self);
        }
        let value = self.next;
        let ghost new_issued = self.issued@.insert(value as nat);
        *self = IdentifierAllocator { next: value + 1, issued: Ghost(new_issued) };
        RuntimeID(value)
    }
}

impl IdentifierAllocator {
    /// Uniqueness law, for any number of sequential allocations: `n` calls
    /// to [`Self::allocate`] on one allocator return identifiers that are
    /// pairwise unequal, and every one of them is recorded as issued.
    pub fn allocate_many(&mut self, n: usize) -> (ids: Vec<RuntimeID>)
        requires
            old(self)@.finite(),
            old(self)@.len() + n <= usize::MAX,
        ensures
            ids@.len() == n,
            forall|i: int, j: int| 0 <= i < j < n ==> ids@[i]@ != ids@[j]@,
            forall|i: int| 0 <= i < n ==> final(self)@.contains(ids@[i]@),
            forall|i: int| 0 <= i < n ==> !old(self)@.contains(ids@[i]@),
            old(self)@.subset_of(final(self)@),
            final(self)@.finite(),
            final(self)@.len() == old(self)@.len() + n,
    {
        let mut ids: Vec<RuntimeID> = Vec::new();
        let mut k: usize = 0;
        while k < n
            invariant
                k <= n,
                ids@.len() == k,
                self@.finite(),
                self@.len() == old(self)@.len() + k,
                old(self)@.len() + n <= usize::MAX,
                old(self)@.subset_of(self@),
                forall|i: int| 0 <= i < k ==> self@.contains(ids@[i]@),
                forall|i: int| 0 <= i < k ==> !old(self)@.contains(ids@[i]@),
                forall|i: int, j: int| 0 <= i < j < k ==> ids@[i]@ != ids@[j]@,
            decreases n - k,
        {
            let id = self.allocate();
            ids.push(id);
            k = k + 1;
        }
        ids
    }
}

/// Uniqueness law, pairwise form: an identifier already issued and one
/// allocated afterwards can never be equal, since allocation always returns
/// a value outside the issued set.
pub proof fn lemma_issued_and_fresh_unequal(issued: Set<nat>, a: RuntimeID, b: RuntimeID)
    requires
        issued.contains(a@),
        !issued.contains(b@),
    ensures
        !a.eq_spec(&b),
        !b.eq_spec(&a),
{
}

/// Reflexivity and identity law: every identifier equals itself, and a copy
/// of an identifier is indistinguishable from, and equal to, the original.
pub proof fn lemma_equals_reflexive(a: RuntimeID, b: RuntimeID)
    requires
        a == b,
    ensures
        a.eq_spec(&a),
        a.eq_spec(&b),
        b.eq_spec(&a),
{
}

/// Hash-consistency law: the digest is a function of the identifier's
/// counter value alone, so hashing equal identifiers with independent fresh
/// accumulators always yields the same digest.
pub proof fn lemma_hash_consistent(a: RuntimeID, b: RuntimeID)
    requires
        a.eq_spec(&b),
    ensures
        id_digest(a@) == id_digest(b@),
{
}

impl RuntimeID {
    /// Feeds this identifier's counter value, in its fixed-width byte
    /// representation, into the given hash accumulator. Equal identifiers
    /// make identical contributions, so their digests always agree.
    pub fn hash_into(&self, state: &mut DefaultHasher)
        ensures
            final(state)@ == old(state)@.push(id_bytes(self@)),
    {
        let x: u64 = self.0 as u64;
        let mut bytes: Vec<u8> = Vec::new();
        bytes.push((x % 256) as u8);
        bytes.push(((x / 256) % 256) as u8);
        bytes.push(((x / 65536) % 256) as u8);
        bytes.push(((x / 16777216) % 256) as u8);
        bytes.push(((x / 4294967296) % 256) as u8);
        bytes.push(((x / 1099511627776) % 256) as u8);
        bytes.push(((x / 281474976710656) % 256) as u8);
        bytes.push(((x / 72057594037927936) % 256) as u8);
        proof {
            assert(bytes@ =~= id_bytes(self@));
        }
        state.write(bytes.as_slice());
    }

    /// Hashes this identifier with a fresh standard accumulator and returns
    /// the digest, which depends on the identifier's value alone.
    pub fn digest(&self) -> (d: u64)
        ensures
            d == id_digest(self@),
    {
        let mut state = DefaultHasher::new();
        self.hash_into(&mut state);
        proof {
            assert(state@ =~= seq![id_bytes(self@)]);
        }
        state.finish()
    }

    /// Allocates a fresh unique identifier from the given allocator; the
    /// same operation as [`IdentifierAllocator::allocate`], offered on the
    /// identifier type itself.
    pub fn new(allocator: &mut IdentifierAllocator) -> (id: RuntimeID)
        requires
            old(allocator).can_allocate(),
        ensures
            !old(allocator)@.contains(id@),
            final(allocator)@ == old(allocator)@.insert(id@),
    {
        allocator.allocate()
    }
}

} // verus!


