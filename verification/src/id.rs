use vstd::prelude::*;

verus! {

/// Surrogate identity of one breakpoint: an opaque 64-bit key, assigned once
/// at construction and never reused for the lifetime of its allocator.
/// Breakpoint equality and bookkeeping go by this key alone, never by the
/// guest address, so two breakpoints watching the same address stay distinct.
#[derive(Debug, Copy, Clone, PartialEq, Eq, Hash, Structural)]
pub struct BreakpointId(u64);

impl View for BreakpointId {
    type V = u64;

    closed spec fn view(&self) -> u64 {
        self.0
    }
}

impl BreakpointId {
    /// The raw key, for a harness-side index or a log line.
    pub fn value(&self) -> (r: u64)
        ensures
            r == self@,
    {
        self.0
    }
}

/// Each key in `s` is strictly below every later one.
pub open spec fn strictly_increasing(s: Seq<u64>) -> bool {
    forall|i: int, j: int| 0 <= i < j < s.len() ==> s[i] < s[j]
}

/// Source of breakpoint identities. Keys come out strictly increasing,
/// starting from zero, and are never handed out twice; the sequence of keys
/// issued so far is kept as ghost state so that callers can speak about it.
///
/// One allocator serves a whole process: a harness whose workers construct
/// breakpoints in parallel shares it behind a lock of its own, and exclusive
/// access through `&mut` rules out lost updates on the counter.
pub struct IdAllocator {
    next_key: u64,
    issued: Ghost<Seq<u64>>,
}

impl IdAllocator {
    /// The keys handed out so far, in the order they were handed out.
    pub closed spec fn issued(self) -> Seq<u64> {
        self.issued@
    }

    /// The key the next allocation will return.
    pub closed spec fn next_val(self) -> u64 {
        self.next_key
    }

    /// There is room for at least one more key.
    pub closed spec fn can_allocate(self) -> bool {
        self.next_key < u64::MAX
    }

    /// Every issued key lies below the counter, in issue order.
    #[verifier::type_invariant]
    spec fn wf(self) -> bool {
        &&& forall|i: int| 0 <= i < self.issued@.len() ==> self.issued@[i] < self.next_key
        &&& strictly_increasing(self.issued@)
    }

    pub fn new() -> (r: Self)
        ensures
            r.issued() == Seq::<u64>::empty(),
            r.next_val() == 0,
            r.can_allocate(),
    {
        IdAllocator { next_key: 0, issued: Ghost(Seq::empty()) }
    }

    /// The key space is spent and `next` may no longer be called.
    ///
    /// A 64-bit counter cannot be driven this far in practice, but the
    /// contract of `next` asks for headroom, and an unverified caller tests
    /// it here before calling.
    pub fn exhausted(&self) -> (r: bool)
        ensures
            r == !self.can_allocate(),
    {
        self.next_key == u64::MAX
    }

    /// Allocates a fresh identity: the current counter value, strictly above
    /// every key issued before.
    pub fn next(&mut self) -> (r: BreakpointId)
        requires
            old(self).can_allocate(),
        ensures
            r@ == old(self).next_val(),
            final(self).next_val() == old(self).next_val() + 1,
            final(self).issued() == old(self).issued().push(r@),
            strictly_increasing(final(self).issued()),
            forall|i: int| 0 <= i < old(self).issued().len() ==> old(self).issued()[i] < r@,
            final(self).can_allocate() <==> final(self).next_val() < u64::MAX,
    {
        proof {
            use_type_invariant(&*self);
        }
        let id = BreakpointId(self.next_key);
        self.next_key = self.next_key + 1;
        proof {
            self.issued@ = self.issued@.push(id.0);
        }
        id
    }
}

/// Law: identities are unique. Any strictly increasing key sequence, such as
/// the one an allocator issues, holds pairwise distinct keys, and the key at
/// a later position is the larger one.
pub proof fn lemma_issued_keys_distinct(s: Seq<u64>, i: int, j: int)
    requires
        strictly_increasing(s),
        0 <= i < j < s.len(),
    ensures
        s[i] < s[j],
        s[i] != s[j],
{
}

} // verus!
