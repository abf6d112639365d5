use std::collections::HashSet;
use vstd::prelude::*;

verus! {

broadcast use vstd::std_specs::hash::group_hash_axioms;

/// A location in the address space of the guest program.
pub type GuestAddr = u64;

/// The core's model of the execution engine's registration table: the set of
/// guest addresses at which the engine currently holds an armed breakpoint.
/// The engine keeps one armed/disarmed bit per address, so the table is a
/// set: registering an address twice, or removing an absent one, leaves it
/// as it was.
///
/// The engine itself — address translation, running the guest, reporting the
/// address it stopped at — is a collaborator outside this core. A harness
/// driving a real engine mirrors every `set_breakpoint` and
/// `remove_breakpoint` onto it, one for one, which keeps this table equal to
/// the engine's own; the breakpoint lifecycle is verified against the table.
pub struct Engine {
    armed: HashSet<GuestAddr>,
}

impl View for Engine {
    type V = Set<GuestAddr>;

    closed spec fn view(&self) -> Set<GuestAddr> {
        self.armed@
    }
}

impl Engine {
    /// An engine with nothing registered.
    pub fn new() -> (r: Self)
        ensures
            r@ == Set::<GuestAddr>::empty(),
    {
        Engine { armed: HashSet::new() }
    }

    /// Registers a breakpoint at `addr`; registering an armed address again
    /// changes nothing.
    pub fn set_breakpoint(&mut self, addr: GuestAddr)
        ensures
            final(self)@ == old(self)@.insert(addr),
    {
        self.armed.insert(addr);
    }

    /// Removes the registration at `addr`; removing an address that is not
    /// armed changes nothing.
    pub fn remove_breakpoint(&mut self, addr: GuestAddr)
        ensures
            final(self)@ == old(self)@.remove(addr),
    {
        self.armed.remove(&addr);
    }

    /// Whether a breakpoint is currently armed at `addr`.
    pub fn has_breakpoint(&self, addr: GuestAddr) -> (r: bool)
        ensures
            r == self@.contains(addr),
    {
        self.armed.contains(&addr)
    }

    /// How many addresses are armed.
    pub fn armed_count(&self) -> (r: usize)
        ensures
            r == self@.len(),
    {
        self.armed.len()
    }
}

} // verus!
