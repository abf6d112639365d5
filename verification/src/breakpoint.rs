use std::rc::Rc;
use vstd::prelude::*;

use crate::engine::Engine;
use crate::engine::GuestAddr;
use crate::id::BreakpointId;
use crate::id::IdAllocator;

verus! {

/// One breakpoint: a guest address bound to an optional shared action, with
/// a fixed auto-disable policy and an `installed` flag that mirrors whether
/// the engine currently holds a registration made on this breakpoint's
/// behalf.
///
/// The action is an opaque capability of the harness's choosing: the core
/// stores it behind a shared handle, hands a second handle out on `trigger`,
/// and never invokes it. `C` carries whatever command abstraction the
/// harness plugs in.
///
/// Identity, not address, is what tells breakpoints apart: equality goes by
/// `id` alone, and `id` and `addr` are the two key projections a single
/// collection uses to serve lookups by either key without storing the
/// breakpoint twice. Two breakpoints may watch one address; a lookup by that
/// address is then ambiguous by design, and the engine's single armed bit
/// for it is shared, so their `installed` flags can interfere at the engine
/// level even though their entity state stays independent.
pub struct Breakpoint<C> {
    id: BreakpointId,
    addr: GuestAddr,
    cmd: Option<Rc<C>>,
    disable_on_trigger: bool,
    enabled: bool,
}

/// What `enable` does to a breakpoint's `installed` flag and the engine's
/// armed set: a no-op when already installed, else one registration.
pub open spec fn enable_step(installed: bool, armed: Set<GuestAddr>, addr: GuestAddr) -> (
    bool,
    Set<GuestAddr>,
) {
    if installed {
        (true, armed)
    } else {
        (true, armed.insert(addr))
    }
}

/// What `disable` does: a no-op when not installed, else one removal.
pub open spec fn disable_step(installed: bool, armed: Set<GuestAddr>, addr: GuestAddr) -> (
    bool,
    Set<GuestAddr>,
) {
    if installed {
        (false, armed.remove(addr))
    } else {
        (false, armed)
    }
}

/// What `trigger` does to the installed flag and the armed set: a `disable`
/// under the auto-disable policy, nothing otherwise.
pub open spec fn trigger_step(
    installed: bool,
    armed: Set<GuestAddr>,
    addr: GuestAddr,
    auto_disable: bool,
) -> (bool, Set<GuestAddr>) {
    if auto_disable {
        disable_step(installed, armed, addr)
    } else {
        (installed, armed)
    }
}

/// The breakpoint's local flag agrees with the engine's bit for its address.
pub open spec fn in_sync(installed: bool, armed: Set<GuestAddr>, addr: GuestAddr) -> bool {
    installed <==> armed.contains(addr)
}

impl<C> Breakpoint<C> {
    /// The identity assigned at construction.
    pub closed spec fn spec_id(self) -> BreakpointId {
        self.id
    }

    /// The guest address this breakpoint watches.
    pub closed spec fn spec_addr(self) -> GuestAddr {
        self.addr
    }

    /// The attached action's handle, if the breakpoint carries one.
    pub closed spec fn action(self) -> Option<Rc<C>> {
        self.cmd
    }

    /// The policy fixed at construction: disable as part of `trigger`.
    pub closed spec fn auto_disable(self) -> bool {
        self.disable_on_trigger
    }

    /// Whether the last engine instruction made for this breakpoint was a
    /// registration. Local bookkeeping, not guest state.
    pub closed spec fn installed(self) -> bool {
        self.enabled
    }

    /// A breakpoint with no attached action: the harness regains control at
    /// `addr` and performs its own handling. Starts uninstalled, under a
    /// fresh identity drawn from `ids`.
    pub fn without_command(ids: &mut IdAllocator, addr: GuestAddr, disable_on_trigger: bool) -> (r:
        Self)
        requires
            old(ids).can_allocate(),
        ensures
            r.spec_id()@ == old(ids).next_val(),
            r.spec_addr() == addr,
            r.action() is None,
            r.auto_disable() == disable_on_trigger,
            !r.installed(),
            final(ids).next_val() == old(ids).next_val() + 1,
            final(ids).issued() == old(ids).issued().push(r.spec_id()@),
            crate::id::strictly_increasing(final(ids).issued()),
            final(ids).can_allocate() <==> final(ids).next_val() < u64::MAX,
    {
        Breakpoint {
            id: ids.next(),
            addr,
            cmd: None,
            disable_on_trigger,
            enabled: false,
        }
    }

    /// A breakpoint that carries `cmd` behind a shared handle: `trigger`
    /// hands a clone of the handle to its caller. Starts uninstalled, under
    /// a fresh identity drawn from `ids`.
    pub fn with_command(
        ids: &mut IdAllocator,
        addr: GuestAddr,
        cmd: C,
        disable_on_trigger: bool,
    ) -> (r: Self)
        requires
            old(ids).can_allocate(),
        ensures
            r.spec_id()@ == old(ids).next_val(),
            r.spec_addr() == addr,
            r.action() matches Some(c) && c == cmd,
            r.auto_disable() == disable_on_trigger,
            !r.installed(),
            final(ids).next_val() == old(ids).next_val() + 1,
            final(ids).issued() == old(ids).issued().push(r.spec_id()@),
            crate::id::strictly_increasing(final(ids).issued()),
            final(ids).can_allocate() <==> final(ids).next_val() < u64::MAX,
    {
        Breakpoint {
            id: ids.next(),
            addr,
            cmd: Some(Rc::new(cmd)),
            disable_on_trigger,
            enabled: false,
        }
    }

    /// Key projection by identity: the authoritative key for equality.
    pub fn id(&self) -> (r: BreakpointId)
        ensures
            r == self.spec_id(),
    {
        self.id
    }

    /// Key projection by guest address: the key the engine reports, and the
    /// usual way a harness finds the breakpoint to trigger.
    pub fn addr(&self) -> (r: GuestAddr)
        ensures
            r == self.spec_addr(),
    {
        self.addr
    }

    /// Whether the breakpoint is currently installed in the engine.
    pub fn is_installed(&self) -> (r: bool)
        ensures
            r == self.installed(),
    {
        self.enabled
    }

    /// Installs the breakpoint: registers its address with the engine and
    /// records that. Idempotent — when already installed nothing is asked of
    /// the engine, so the engine never sees a double registration.
    pub fn enable(&mut self, engine: &mut Engine)
        ensures
            final(self).spec_id() == old(self).spec_id(),
            final(self).spec_addr() == old(self).spec_addr(),
            final(self).action() == old(self).action(),
            final(self).auto_disable() == old(self).auto_disable(),
            (final(self).installed(), final(engine)@) == enable_step(
                old(self).installed(),
                old(engine)@,
                old(self).spec_addr(),
            ),
    {
        if !self.enabled {
            engine.set_breakpoint(self.addr);
            self.enabled = true;
        }
    }

    /// Uninstalls the breakpoint: removes its registration from the engine
    /// and records that. Idempotent — on a breakpoint that is not installed
    /// nothing happens.
    pub fn disable(&mut self, engine: &mut Engine)
        ensures
            final(self).spec_id() == old(self).spec_id(),
            final(self).spec_addr() == old(self).spec_addr(),
            final(self).action() == old(self).action(),
            final(self).auto_disable() == old(self).auto_disable(),
            (final(self).installed(), final(engine)@) == disable_step(
                old(self).installed(),
                old(engine)@,
                old(self).spec_addr(),
            ),
    {
        if self.enabled {
            engine.remove_breakpoint(self.addr);
            self.enabled = false;
        }
    }

    /// Called by the harness when the engine reports that guest execution
    /// reached this breakpoint's address. Under the auto-disable policy the
    /// breakpoint disables itself first, so re-arming is an explicit
    /// decision of whoever receives the action. Returns a clone of the
    /// attached action's handle — the breakpoint keeps its own — or nothing
    /// when the breakpoint was created without one.
    pub fn trigger(&mut self, engine: &mut Engine) -> (r: Option<Rc<C>>)
        ensures
            final(self).spec_id() == old(self).spec_id(),
            final(self).spec_addr() == old(self).spec_addr(),
            final(self).action() == old(self).action(),
            final(self).auto_disable() == old(self).auto_disable(),
            (final(self).installed(), final(engine)@) == trigger_step(
                old(self).installed(),
                old(engine)@,
                old(self).spec_addr(),
                old(self).auto_disable(),
            ),
            r == old(self).action(),
    {
        if self.disable_on_trigger {
            self.disable(engine);
        }
        match &self.cmd {
            Some(c) => Some(clone_action(c)),
            None => None,
        }
    }
}

/// Relies on `Rc::clone`: the returned handle shares the one underlying
/// action value, so as a value it equals the handle it was cloned from; the
/// action itself is not copied.
#[verifier::external_body]
fn clone_action<C>(cmd: &Rc<C>) -> (r: Rc<C>)
    ensures
        r == *cmd,
{
    Rc::clone(cmd)
}

impl<C> PartialEq for Breakpoint<C> {
    /// Equality goes by identity alone, never by address: breakpoints whose
    /// addresses coincide must not be confused.
    fn eq(&self, other: &Self) -> (r: bool) {
        self.id == other.id
    }
}

impl<C> Eq for Breakpoint<C> {}

impl<C> vstd::std_specs::cmp::PartialEqSpecImpl for Breakpoint<C> {
    open spec fn obeys_eq_spec() -> bool {
        true
    }

    open spec fn eq_spec(&self, other: &Self) -> bool {
        self.spec_id() == other.spec_id()
    }
}

/// Law: `enable` is idempotent. A second `enable` from the state the first
/// one left behind changes neither the installed flag nor the engine's armed
/// set: one registration, no duplicate.
pub proof fn lemma_enable_idempotent(installed: bool, armed: Set<GuestAddr>, addr: GuestAddr)
    ensures
        ({
            let (i1, a1) = enable_step(installed, armed, addr);
            enable_step(i1, a1, addr) == (i1, a1)
        }),
{
}

/// Law: `disable` is idempotent, and on a breakpoint that was never enabled
/// it is a no-op — the installed flag stays false and the engine's armed set
/// is untouched.
pub proof fn lemma_disable_idempotent(installed: bool, armed: Set<GuestAddr>, addr: GuestAddr)
    ensures
        disable_step(false, armed, addr) == (false, armed),
        ({
            let (i1, a1) = disable_step(installed, armed, addr);
            disable_step(i1, a1, addr) == (i1, a1)
        }),
{
}

/// Law: under the auto-disable policy a trigger leaves the breakpoint
/// uninstalled, though `disable` was never called explicitly, and a
/// subsequent `enable` re-arms it at its address.
pub proof fn lemma_trigger_auto_disables(installed: bool, armed: Set<GuestAddr>, addr: GuestAddr)
    ensures
        ({
            let (i1, a1) = trigger_step(installed, armed, addr, true);
            let (i2, a2) = enable_step(i1, a1, addr);
            !i1 && i2 && a2.contains(addr)
        }),
{
}

/// Law: without the auto-disable policy a trigger changes nothing — the
/// installed flag and the engine's armed set are exactly what they were
/// before the call.
pub proof fn lemma_trigger_keeps_state(installed: bool, armed: Set<GuestAddr>, addr: GuestAddr)
    ensures
        trigger_step(installed, armed, addr, false) == (installed, armed),
{
}

/// Law: every lifecycle step keeps the breakpoint's installed flag in
/// agreement with the engine's bit for its address, so the two can never
/// drift apart through this breakpoint's own calls.
pub proof fn lemma_steps_preserve_sync(
    installed: bool,
    armed: Set<GuestAddr>,
    addr: GuestAddr,
    auto_disable: bool,
)
    requires
        in_sync(installed, armed, addr),
    ensures
        ({
            let (i1, a1) = enable_step(installed, armed, addr);
            in_sync(i1, a1, addr)
        }),
        ({
            let (i1, a1) = disable_step(installed, armed, addr);
            in_sync(i1, a1, addr)
        }),
        ({
            let (i1, a1) = trigger_step(installed, armed, addr, auto_disable);
            in_sync(i1, a1, addr)
        }),
{
}

/// Law: breakpoints with distinct identities never compare equal, whatever
/// their addresses; two breakpoints watching one address are told apart by
/// identity alone.
pub proof fn lemma_distinct_ids_never_equal<C>(a: Breakpoint<C>, b: Breakpoint<C>)
    requires
        a.spec_id()@ != b.spec_id()@,
    ensures
        !vstd::std_specs::cmp::PartialEqSpec::eq_spec(&a, &b),
        !vstd::std_specs::cmp::PartialEqSpec::eq_spec(&b, &a),
{
}

} // verus!
