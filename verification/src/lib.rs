//! Discovery of graphics-API virtual dispatch tables.
//!
//! The library drives a per-backend initialization protocol: locate the
//! driver module, resolve its factory symbol, create a disposable device,
//! and read out the ordered sequence of dispatch-table addresses. All
//! decisions of that protocol live here, verified; the operating-system
//! calls themselves are performed by the embedding program, which feeds
//! their outcomes back as plain values.

pub mod backend;
pub mod error;

use crate::error::{ErrorKind, KieroError};
use vstd::prelude::*;

verus! {

/// The flat, ordered sequence of extracted dispatch-table addresses.
pub type VMTable = Vec<usize>;

/// The supported graphics API families. Exactly one is chosen per session.
#[derive(Clone, Copy, PartialEq, Eq, Structural, Debug)]
pub enum RenderType {
    D3D9,
    D3D11,
    D3D12,
    OpenGL,
    Vulkan,
}

/// The invariant of a successfully extracted table: its length is the
/// backend's fixed slot total and every address in it is non-null.
pub open spec fn table_wf(rt: RenderType, t: Seq<usize>) -> bool {
    t.len() == backend::total_slots(rt) && backend::all_nonnull(t)
}

/// One bootstrapped graphics session: the chosen backend together with its
/// extracted dispatch-table addresses.
pub struct Kiero {
    render_type: RenderType,
    table: VMTable,
}

impl Kiero {
    /// The backend this session was initialized for.
    pub closed spec fn spec_render_type(&self) -> RenderType {
        self.render_type
    }

    /// The extracted addresses, in interface order.
    pub closed spec fn spec_table(&self) -> Seq<usize> {
        self.table@
    }

    /// The session holds a well-formed table for its backend.
    pub open spec fn wf(&self) -> bool {
        table_wf(self.spec_render_type(), self.spec_table())
    }

    /// Build the session object from a successful initialization's output.
    pub fn new(render_type: RenderType, table: VMTable) -> (k: Kiero)
        requires
            table_wf(render_type, table@),
        ensures
            k.wf(),
            k.spec_render_type() == render_type,
            k.spec_table() == table@,
    {
        Kiero { render_type, table }
    }

    /// The backend this session was initialized for.
    pub fn render_type(&self) -> (r: RenderType)
        ensures
            r == self.spec_render_type(),
    {
        self.render_type
    }

    /// The extracted addresses, in interface order.
    pub fn table(&self) -> (t: &VMTable)
        ensures
            t@ == self.spec_table(),
    {
        &self.table
    }

    /// The address of the virtual method at this interface-defined ordinal.
    pub fn method_address(&self, ordinal: usize) -> (addr: usize)
        requires
            self.wf(),
            ordinal < backend::total_slots(self.spec_render_type()),
        ensures
            addr == self.spec_table()[ordinal as int],
            addr != 0,
    {
        self.table[ordinal]
    }
}

/// The process-wide single-initialization guard: at most one initialization
/// may be active at a time. Beginning a second one fails with
/// `AlreadyInitialized`; tearing down while none is active fails with
/// `NotInitialized`.
pub struct InitGuard {
    active: bool,
}

impl InitGuard {
    /// An initialization is currently active.
    pub closed spec fn is_active(&self) -> bool {
        self.active
    }

    /// A fresh guard: no initialization is active.
    pub fn new() -> (g: InitGuard)
        ensures
            !g.is_active(),
    {
        InitGuard { active: false }
    }

    /// Claim the one active initialization.
    pub fn begin(&mut self) -> (r: Result<(), KieroError>)
        ensures
            final(self).is_active(),
            old(self).is_active() ==> (r matches Err(e) && e.kind is AlreadyInitialized),
            !old(self).is_active() ==> r is Ok,
    {
        if self.active {
            Err(
                KieroError::new(
                    ErrorKind::AlreadyInitialized,
                    "an initialization is already active".to_owned(),
                ),
            )
        } else {
            self.active = true;
            Ok(())
        }
    }

    /// Release the active initialization.
    pub fn end(&mut self) -> (r: Result<(), KieroError>)
        ensures
            !final(self).is_active(),
            !old(self).is_active() ==> (r matches Err(e) && e.kind is NotInitialized),
            old(self).is_active() ==> r is Ok,
    {
        if self.active {
            self.active = false;
            Ok(())
        } else {
            Err(
                KieroError::new(
                    ErrorKind::NotInitialized,
                    "no initialization is active".to_owned(),
                ),
            )
        }
    }
}

} // verus!

