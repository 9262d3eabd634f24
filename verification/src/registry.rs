//! The handler registry: builds one dispatch table, registers the
//! recognized exception vectors, and activates the table exactly once.
//!
//! The registry only decides; the surrounding program owns the process-wide
//! instance, and when told to, commits the encoded table and the returned
//! descriptor limit to the CPU on storage that lives for the rest of the
//! program.

use vstd::prelude::*;

use crate::idt::Entry;
use crate::idt::InterruptDescriptorTable;
use crate::idt::TABLE_CAPACITY;
use crate::idt::ENTRY_BYTES;

verus! {

/// The vector of the divide-error exception class, the one vector this
/// registry recognizes; every other CPU-reserved vector is deliberately
/// left missing, so that delivery there takes the architectural
/// second-level fault path.
pub const DIVIDE_ERROR_VECTOR: u8 = 0;

/// What the caller must do after an initialization call.
#[derive(Clone, Copy, Debug, PartialEq, Eq, Structural)]
pub enum InitOutcome {
    /// The table was built and marked active during this call: commit its
    /// encoded bytes and this descriptor limit to the CPU.
    Activated { limit: u16 },
    /// A prior call already published the table; nothing was rebuilt,
    /// mutated, or re-activated.
    AlreadyInitialized,
}

/// Owns the one dispatch table of the process and the knowledge of whether
/// it has been published.
pub struct HandlerRegistry {
    pub table: InterruptDescriptorTable,
}

impl HandlerRegistry {
    pub open spec fn wf(&self) -> bool {
        self.table.wf()
    }

    pub open spec fn spec_initialized(&self) -> bool {
        self.table.spec_activated()
    }

    /// A registry whose table has every entry missing and is not yet
    /// activated.
    pub fn new() -> (r: Self)
        ensures
            r.wf(),
            !r.spec_initialized(),
            r.table@.len() == TABLE_CAPACITY,
            forall|i: int| 0 <= i < TABLE_CAPACITY ==> r.table@[i] == Entry::spec_missing(),
    {
        HandlerRegistry { table: InterruptDescriptorTable::new() }
    }

    /// Registers `handler` for the divide-error vector and activates the
    /// table, exactly once per registry: a second call detects the
    /// already-initialized condition and returns without touching the
    /// published table.
    pub fn init(&mut self, handler: u64) -> (r: InitOutcome)
        requires
            old(self).wf(),
        ensures
            final(self).wf(),
            final(self).spec_initialized(),
            old(self).spec_initialized() ==> *final(self) == *old(self)
                && r == InitOutcome::AlreadyInitialized,
            !old(self).spec_initialized() ==> (exists|sel: u16|
                final(self).table@ == old(self).table@.update(
                    DIVIDE_ERROR_VECTOR as int,
                    #[trigger] Entry::spec_build(sel, handler),
                )) && r == (InitOutcome::Activated {
                limit: (TABLE_CAPACITY * ENTRY_BYTES - 1) as u16,
            }),
    {
        if self.table.is_activated() {
            return InitOutcome::AlreadyInitialized;
        }
        self.table.set_handler(DIVIDE_ERROR_VECTOR, handler);
        let limit = self.table.activate();
        InitOutcome::Activated { limit }
    }

    /// Whether a prior initialization call has already published the table.
    pub fn is_initialized(&self) -> (r: bool)
        ensures
            r == self.spec_initialized(),
    {
        self.table.is_activated()
    }
}

} // verus!
