//! Breakpoint core for a dynamic-instrumentation execution engine.
//!
//! A breakpoint binds a guest program location to an optional shared action
//! that the driving harness performs when guest execution reaches that
//! location. The core keeps one stable surrogate identity per breakpoint for
//! the whole of its lifetime, offers lookup by identity or by guest address
//! against a single store, and keeps the breakpoint's `installed` flag in
//! step with the engine's registration table under repeated, possibly
//! redundant `enable`, `disable` and `trigger` calls.
//!
//! The engine that runs the guest is a collaborator, not part of this core:
//! [`engine::Engine`] models exactly the part of it the lifecycle must stay
//! synchronized with, the set of armed addresses. The attached action is an
//! opaque capability: the core hands it out on `trigger` and never invokes it.

pub mod breakpoint;
pub mod engine;
pub mod id;

pub use breakpoint::Breakpoint;
pub use engine::Engine;
pub use engine::GuestAddr;
pub use id::BreakpointId;
pub use id::IdAllocator;
