//! The interrupt descriptor table: the 16-bit gate option bitfield, the
//! 16-byte gate entry record, and the fixed-capacity table of entries
//! indexed by vector number.

use vstd::prelude::*;

verus! {

/// A configuration input was outside the range the hardware format admits.
#[derive(Clone, Copy, Debug, PartialEq, Eq, Structural)]
pub enum IdtError {
    InvalidArgument,
}

/// The 16-bit option bitfield of a gate entry.
///
/// Field layout: bits 0..=2 hold the interrupt-stack-table index, bit 8
/// distinguishes a trap gate (set: nested delivery stays enabled on entry)
/// from an interrupt gate (clear), bits 13..=14 hold the descriptor
/// privilege level, and bit 15 the present flag. All remaining bits are
/// architecturally reserved and must keep the fixed pattern `0x0e00`
/// (bits 9..=11 set, the 64-bit gate type).
#[derive(Clone, Copy, Debug, PartialEq, Eq, Structural)]
pub struct EntryOpts(pub u16);

impl EntryOpts {
    /// The reserved bits (3..=7, 9..=12) hold their fixed default pattern.
    pub open spec fn wf(self) -> bool {
        self.0 & 0x1ef8 == 0x0e00
    }

    pub open spec fn spec_present(self) -> bool {
        self.0 & 0x8000 != 0
    }

    pub open spec fn spec_dpl(self) -> u16 {
        (self.0 >> 13) & 3
    }

    pub open spec fn spec_ist_idx(self) -> u16 {
        self.0 & 7
    }

    pub open spec fn spec_interrupts_enabled(self) -> bool {
        self.0 & 0x0100 != 0
    }

    pub open spec fn spec_minimal() -> EntryOpts {
        EntryOpts(0x0e00)
    }

    /// Options of a freshly built gate: present, interrupt-gate semantics,
    /// privilege level zero, no stack switch.
    pub open spec fn spec_fresh() -> EntryOpts {
        EntryOpts(0x8e00)
    }

    pub open spec fn spec_with_present(self, present: bool) -> EntryOpts {
        if present {
            EntryOpts(self.0 | 0x8000)
        } else {
            EntryOpts(self.0 & 0x7fff)
        }
    }

    pub open spec fn spec_with_interrupts(self, enable: bool) -> EntryOpts {
        if enable {
            EntryOpts(self.0 | 0x0100)
        } else {
            EntryOpts(self.0 & 0xfeff)
        }
    }

    pub open spec fn spec_with_dpl(self, dpl: u16) -> EntryOpts {
        EntryOpts((self.0 & 0x9fff) | (dpl << 13))
    }

    pub open spec fn spec_with_ist_idx(self, idx: u16) -> EntryOpts {
        EntryOpts((self.0 & 0xfff8) | idx)
    }

    /// The safe-by-default value: not present, nested delivery disabled,
    /// zero privilege level, zero stack-table index.
    pub fn minimal() -> (r: EntryOpts)
        ensures
            r == EntryOpts::spec_minimal(),
            r.wf(),
            !r.spec_present(),
            !r.spec_interrupts_enabled(),
            r.spec_dpl() == 0,
            r.spec_ist_idx() == 0,
    {
        proof {
            lemma_minimal_decodes();
        }
        EntryOpts(0x0e00)
    }

    /// Options for a newly registered handler: present, with nested
    /// delivery disabled on entry.
    pub fn new() -> (r: EntryOpts)
        ensures
            r == EntryOpts::spec_fresh(),
            r.wf(),
            r.spec_present(),
            !r.spec_interrupts_enabled(),
            r.spec_dpl() == 0,
            r.spec_ist_idx() == 0,
    {
        let mut opts = EntryOpts::minimal();
        opts.set_present(true);
        opts.enable_interrupts(false);
        proof {
            lemma_minimal_decodes();
            assert((0x0e00u16 | 0x8000) & 0xfeff == 0x8e00) by (bit_vector);
        }
        opts
    }

    /// Writes the present flag, touching only bit 15, and returns the
    /// updated value so configuration can be chained.
    pub fn set_present(&mut self, present: bool) -> (r: EntryOpts)
        ensures
            *final(self) == old(self).spec_with_present(present),
            r == *final(self),
            final(self).spec_present() == present,
            final(self).spec_dpl() == old(self).spec_dpl(),
            final(self).spec_ist_idx() == old(self).spec_ist_idx(),
            final(self).spec_interrupts_enabled() == old(self).spec_interrupts_enabled(),
            old(self).wf() ==> final(self).wf(),
    {
        proof {
            lemma_present_round_trip(*self, present);
        }
        if present {
            self.0 = self.0 | 0x8000;
        } else {
            self.0 = self.0 & 0x7fff;
        }
        *self
    }

    /// Chooses trap-gate (`true`: nested delivery stays enabled on entry) or
    /// interrupt-gate semantics (`false`). Touches only bit 8.
    pub fn enable_interrupts(&mut self, enable: bool) -> (r: EntryOpts)
        ensures
            *final(self) == old(self).spec_with_interrupts(enable),
            r == *final(self),
            final(self).spec_interrupts_enabled() == enable,
            final(self).spec_present() == old(self).spec_present(),
            final(self).spec_dpl() == old(self).spec_dpl(),
            final(self).spec_ist_idx() == old(self).spec_ist_idx(),
            old(self).wf() ==> final(self).wf(),
    {
        proof {
            lemma_interrupts_round_trip(*self, enable);
        }
        if enable {
            self.0 = self.0 | 0x0100;
        } else {
            self.0 = self.0 & 0xfeff;
        }
        *self
    }

    /// Sets the descriptor privilege level (bits 13..=14). A level above 3
    /// does not fit the field: the call fails and changes nothing.
    pub fn set_dpl(&mut self, dpl: u16) -> (r: Result<EntryOpts, IdtError>)
        ensures
            dpl <= 3 ==> r == Ok::<EntryOpts, IdtError>(*final(self))
                && *final(self) == old(self).spec_with_dpl(dpl)
                && final(self).spec_dpl() == dpl
                && final(self).spec_present() == old(self).spec_present()
                && final(self).spec_ist_idx() == old(self).spec_ist_idx()
                && final(self).spec_interrupts_enabled() == old(self).spec_interrupts_enabled()
                && (old(self).wf() ==> final(self).wf()),
            dpl > 3 ==> r == Err::<EntryOpts, IdtError>(IdtError::InvalidArgument)
                && *final(self) == *old(self),
    {
        if dpl > 3 {
            return Err(IdtError::InvalidArgument);
        }
        proof {
            lemma_dpl_round_trip(*self, dpl);
        }
        self.0 = (self.0 & 0x9fff) | (dpl << 13);
        Ok(*self)
    }

    /// Sets the interrupt-stack-table index (bits 0..=2; 0 means no stack
    /// switch). An index above 7 does not fit the field: the call fails and
    /// changes nothing.
    pub fn set_ist_idx(&mut self, idx: u16) -> (r: Result<EntryOpts, IdtError>)
        ensures
            idx <= 7 ==> r == Ok::<EntryOpts, IdtError>(*final(self))
                && *final(self) == old(self).spec_with_ist_idx(idx)
                && final(self).spec_ist_idx() == idx
                && final(self).spec_present() == old(self).spec_present()
                && final(self).spec_dpl() == old(self).spec_dpl()
                && final(self).spec_interrupts_enabled() == old(self).spec_interrupts_enabled()
                && (old(self).wf() ==> final(self).wf()),
            idx > 7 ==> r == Err::<EntryOpts, IdtError>(IdtError::InvalidArgument)
                && *final(self) == *old(self),
    {
        if idx > 7 {
            return Err(IdtError::InvalidArgument);
        }
        proof {
            lemma_ist_round_trip(*self, idx);
        }
        self.0 = (self.0 & 0xfff8) | idx;
        Ok(*self)
    }

    pub fn present(&self) -> (r: bool)
        ensures
            r == self.spec_present(),
    {
        self.0 & 0x8000 != 0
    }

    pub fn dpl(&self) -> (r: u16)
        ensures
            r == self.spec_dpl(),
    {
        (self.0 >> 13) & 3
    }

    pub fn ist_idx(&self) -> (r: u16)
        ensures
            r == self.spec_ist_idx(),
    {
        self.0 & 7
    }

    pub fn interrupts_enabled(&self) -> (r: bool)
        ensures
            r == self.spec_interrupts_enabled(),
    {
        self.0 & 0x0100 != 0
    }
}

/// Law: the safe-by-default and freshly-built option values decode to
/// exactly the defaults they promise.
pub proof fn lemma_minimal_decodes()
    ensures
        EntryOpts::spec_minimal().wf(),
        !EntryOpts::spec_minimal().spec_present(),
        !EntryOpts::spec_minimal().spec_interrupts_enabled(),
        EntryOpts::spec_minimal().spec_dpl() == 0,
        EntryOpts::spec_minimal().spec_ist_idx() == 0,
        EntryOpts::spec_fresh().wf(),
        EntryOpts::spec_fresh().spec_present(),
        !EntryOpts::spec_fresh().spec_interrupts_enabled(),
        EntryOpts::spec_fresh().spec_dpl() == 0,
        EntryOpts::spec_fresh().spec_ist_idx() == 0,
{
    assert(0x0e00u16 & 0x1ef8 == 0x0e00 && 0x0e00u16 & 0x8000 == 0 && 0x0e00u16 & 0x0100 == 0
        && (0x0e00u16 >> 13) & 3 == 0 && 0x0e00u16 & 7 == 0) by (bit_vector);
    assert(0x8e00u16 & 0x1ef8 == 0x0e00 && 0x8e00u16 & 0x8000 != 0 && 0x8e00u16 & 0x0100 == 0
        && (0x8e00u16 >> 13) & 3 == 0 && 0x8e00u16 & 7 == 0) by (bit_vector);
}

/// Law: writing the present flag yields a value that decodes to exactly the
/// flag written, while every other field and every bit outside bit 15 keeps
/// its prior value.
pub proof fn lemma_present_round_trip(o: EntryOpts, present: bool)
    ensures
        o.spec_with_present(present).spec_present() == present,
        o.spec_with_present(present).spec_dpl() == o.spec_dpl(),
        o.spec_with_present(present).spec_ist_idx() == o.spec_ist_idx(),
        o.spec_with_present(present).spec_interrupts_enabled() == o.spec_interrupts_enabled(),
        o.spec_with_present(present).0 & 0x7fff == o.0 & 0x7fff,
        o.wf() ==> o.spec_with_present(present).wf(),
{
    let b = o.0;
    assert((b | 0x8000) & 0x8000 != 0 && (b & 0x7fff) & 0x8000u16 == 0
        && ((b | 0x8000) >> 13) & 3 == (b >> 13) & 3 && ((b & 0x7fff) >> 13) & 3 == (b >> 13) & 3
        && (b | 0x8000) & 7 == b & 7 && (b & 0x7fff) & 7 == b & 7
        && (b | 0x8000) & 0x0100 == b & 0x0100 && (b & 0x7fff) & 0x0100 == b & 0x0100
        && (b | 0x8000) & 0x7fff == b & 0x7fff && (b & 0x7fff) & 0x7fff == b & 0x7fff
        && (b | 0x8000) & 0x1ef8 == b & 0x1ef8 && (b & 0x7fff) & 0x1ef8 == b & 0x1ef8)
        by (bit_vector);
}

/// Law: choosing trap- or interrupt-gate semantics decodes back to exactly
/// the choice written, while every other field and every bit outside bit 8
/// keeps its prior value.
pub proof fn lemma_interrupts_round_trip(o: EntryOpts, enable: bool)
    ensures
        o.spec_with_interrupts(enable).spec_interrupts_enabled() == enable,
        o.spec_with_interrupts(enable).spec_present() == o.spec_present(),
        o.spec_with_interrupts(enable).spec_dpl() == o.spec_dpl(),
        o.spec_with_interrupts(enable).spec_ist_idx() == o.spec_ist_idx(),
        o.spec_with_interrupts(enable).0 & 0xfeff == o.0 & 0xfeff,
        o.wf() ==> o.spec_with_interrupts(enable).wf(),
{
    let b = o.0;
    assert((b | 0x0100) & 0x0100 != 0 && (b & 0xfeff) & 0x0100u16 == 0
        && ((b | 0x0100) >> 13) & 3 == (b >> 13) & 3 && ((b & 0xfeff) >> 13) & 3 == (b >> 13) & 3
        && (b | 0x0100) & 7 == b & 7 && (b & 0xfeff) & 7 == b & 7
        && (b | 0x0100) & 0x8000 == b & 0x8000 && (b & 0xfeff) & 0x8000 == b & 0x8000
        && (b | 0x0100) & 0xfeff == b & 0xfeff && (b & 0xfeff) & 0xfeff == b & 0xfeff
        && (b | 0x0100) & 0x1ef8 == b & 0x1ef8 && (b & 0xfeff) & 0x1ef8 == b & 0x1ef8)
        by (bit_vector);
}

/// Law: writing a valid privilege level then reading it back yields exactly
/// the level written, while every other field and every bit outside bits
/// 13..=14 keeps its prior value.
pub proof fn lemma_dpl_round_trip(o: EntryOpts, dpl: u16)
    requires
        dpl <= 3,
    ensures
        o.spec_with_dpl(dpl).spec_dpl() == dpl,
        o.spec_with_dpl(dpl).spec_present() == o.spec_present(),
        o.spec_with_dpl(dpl).spec_ist_idx() == o.spec_ist_idx(),
        o.spec_with_dpl(dpl).spec_interrupts_enabled() == o.spec_interrupts_enabled(),
        o.spec_with_dpl(dpl).0 & 0x9fff == o.0 & 0x9fff,
        o.wf() ==> o.spec_with_dpl(dpl).wf(),
{
    let b = o.0;
    assert((((b & 0x9fff) | (dpl << 13)) >> 13) & 3 == dpl
        && ((b & 0x9fff) | (dpl << 13)) & 0x8000 == b & 0x8000
        && ((b & 0x9fff) | (dpl << 13)) & 7 == b & 7
        && ((b & 0x9fff) | (dpl << 13)) & 0x0100 == b & 0x0100
        && ((b & 0x9fff) | (dpl << 13)) & 0x9fff == b & 0x9fff
        && ((b & 0x9fff) | (dpl << 13)) & 0x1ef8 == b & 0x1ef8)
        by (bit_vector)
        requires
            dpl <= 3,
    ;
}

/// Law: writing a valid stack-table index then reading it back yields
/// exactly the index written, while every other field and every bit outside
/// bits 0..=2 keeps its prior value.
pub proof fn lemma_ist_round_trip(o: EntryOpts, idx: u16)
    requires
        idx <= 7,
    ensures
        o.spec_with_ist_idx(idx).spec_ist_idx() == idx,
        o.spec_with_ist_idx(idx).spec_present() == o.spec_present(),
        o.spec_with_ist_idx(idx).spec_dpl() == o.spec_dpl(),
        o.spec_with_ist_idx(idx).spec_interrupts_enabled() == o.spec_interrupts_enabled(),
        o.spec_with_ist_idx(idx).0 & 0xfff8 == o.0 & 0xfff8,
        o.wf() ==> o.spec_with_ist_idx(idx).wf(),
{
    let b = o.0;
    assert(((b & 0xfff8) | idx) & 7 == idx
        && ((b & 0xfff8) | idx) & 0x8000 == b & 0x8000
        && (((b & 0xfff8) | idx) >> 13) & 3 == (b >> 13) & 3
        && ((b & 0xfff8) | idx) & 0x0100 == b & 0x0100
        && ((b & 0xfff8) | idx) & 0xfff8 == b & 0xfff8
        && ((b & 0xfff8) | idx) & 0x1ef8 == b & 0x1ef8)
        by (bit_vector)
        requires
            idx <= 7,
    ;
}

pub open spec fn spec_low16(addr: u64) -> u16 {
    (addr & 0xffff) as u16
}

pub open spec fn spec_mid16(addr: u64) -> u16 {
    ((addr >> 16) & 0xffff) as u16
}

pub open spec fn spec_high32(addr: u64) -> u32 {
    ((addr >> 32) & 0xffff_ffff) as u32
}

pub open spec fn spec_assemble(low: u16, mid: u16, high: u32) -> u64 {
    (low as u64) | ((mid as u64) << 16) | ((high as u64) << 32)
}

/// Law: splitting a 64-bit handler address into its low/mid/high fragments
/// and reassembling them yields the original address exactly.
pub proof fn lemma_addr_round_trip(addr: u64)
    ensures
        spec_assemble(spec_low16(addr), spec_mid16(addr), spec_high32(addr)) == addr,
{
    assert((((addr & 0xffff) as u16) as u64) | (((((addr >> 16) & 0xffff) as u16) as u64) << 16)
        | (((((addr >> 32) & 0xffff_ffff) as u32) as u64) << 32) == addr) by (bit_vector);
}

/// One 16-byte gate record: the handler address stored split in three
/// fragments, the code-segment selector, the option bitfield, and a
/// reserved field that must stay zero.
#[derive(Clone, Copy, Debug, PartialEq, Eq, Structural)]
pub struct Entry {
    pub low_ptr: u16,
    pub gdt_sel: u16,
    pub opts: EntryOpts,
    pub mid_ptr: u16,
    pub high_ptr: u32,
    pub reserved: u32,
}

impl Entry {
    pub open spec fn spec_build(gdt_sel: u16, handler: u64) -> Entry {
        Entry {
            low_ptr: spec_low16(handler),
            gdt_sel: gdt_sel,
            opts: EntryOpts::spec_fresh(),
            mid_ptr: spec_mid16(handler),
            high_ptr: spec_high32(handler),
            reserved: 0,
        }
    }

    pub open spec fn spec_missing() -> Entry {
        Entry {
            low_ptr: 0,
            gdt_sel: 0,
            opts: EntryOpts::spec_minimal(),
            mid_ptr: 0,
            high_ptr: 0,
            reserved: 0,
        }
    }

    /// The 64-bit address the three stored fragments reassemble to.
    pub open spec fn spec_handler_addr(self) -> u64 {
        spec_assemble(self.low_ptr, self.mid_ptr, self.high_ptr)
    }

    /// Builds a present gate for `handler` under the given code-segment
    /// selector, with interrupt-gate semantics.
    pub fn new(gdt_sel: u16, handler: u64) -> (r: Entry)
        ensures
            r == Entry::spec_build(gdt_sel, handler),
            r.spec_handler_addr() == handler,
            r.opts.spec_present(),
            r.opts.wf(),
    {
        proof {
            lemma_addr_round_trip(handler);
            lemma_minimal_decodes();
        }
        assert(handler & 0xffff <= 0xffff && (handler >> 16) & 0xffff <= 0xffff
            && (handler >> 32) & 0xffff_ffff <= 0xffff_ffff) by (bit_vector);
        Entry {
            low_ptr: (handler & 0xffff) as u16,
            gdt_sel: gdt_sel,
            opts: EntryOpts::new(),
            mid_ptr: ((handler >> 16) & 0xffff) as u16,
            high_ptr: ((handler >> 32) & 0xffff_ffff) as u32,
            reserved: 0,
        }
    }

    /// The sentinel for an unregistered vector: not present, null selector,
    /// zero address, so any delivery attempt takes the architectural
    /// second-level fault path.
    pub fn missing() -> (r: Entry)
        ensures
            r == Entry::spec_missing(),
            !r.opts.spec_present(),
            r.spec_handler_addr() == 0,
            r.opts.wf(),
    {
        proof {
            lemma_minimal_decodes();
            assert(spec_assemble(0, 0, 0) == 0) by (bit_vector);
        }
        Entry {
            low_ptr: 0,
            gdt_sel: 0,
            opts: EntryOpts::minimal(),
            mid_ptr: 0,
            high_ptr: 0,
            reserved: 0,
        }
    }

    pub fn is_present(&self) -> (r: bool)
        ensures
            r == self.opts.spec_present(),
    {
        self.opts.present()
    }

    /// Reassembles the split address fragments into the stored handler
    /// address.
    pub fn handler_addr(&self) -> (r: u64)
        ensures
            r == self.spec_handler_addr(),
    {
        (self.low_ptr as u64) | ((self.mid_ptr as u64) << 16) | ((self.high_ptr as u64) << 32)
    }

    /// The 16-byte little-endian wire form of the record, in the mandated
    /// field order: low fragment, selector, options, mid fragment, high
    /// fragment, reserved.
    pub open spec fn spec_bytes(self) -> Seq<u8> {
        seq![
            spec_lo8(self.low_ptr),
            spec_hi8(self.low_ptr),
            spec_lo8(self.gdt_sel),
            spec_hi8(self.gdt_sel),
            spec_lo8(self.opts.0),
            spec_hi8(self.opts.0),
            spec_lo8(self.mid_ptr),
            spec_hi8(self.mid_ptr),
            spec_byte32(self.high_ptr, 0),
            spec_byte32(self.high_ptr, 1),
            spec_byte32(self.high_ptr, 2),
            spec_byte32(self.high_ptr, 3),
            spec_byte32(self.reserved, 0),
            spec_byte32(self.reserved, 1),
            spec_byte32(self.reserved, 2),
            spec_byte32(self.reserved, 3),
        ]
    }

    /// Serializes the record to its exact hardware layout, so the
    /// surrounding program can place it in the storage the CPU will read.
    pub fn encode(&self) -> (r: Vec<u8>)
        ensures
            r@.len() == 16,
            r@ == self.spec_bytes(),
    {
        let mut bytes: Vec<u8> = Vec::new();
        bytes.push(lo8(self.low_ptr));
        bytes.push(hi8(self.low_ptr));
        bytes.push(lo8(self.gdt_sel));
        bytes.push(hi8(self.gdt_sel));
        bytes.push(lo8(self.opts.0));
        bytes.push(hi8(self.opts.0));
        bytes.push(lo8(self.mid_ptr));
        bytes.push(hi8(self.mid_ptr));
        bytes.push(byte32(self.high_ptr, 0));
        bytes.push(byte32(self.high_ptr, 1));
        bytes.push(byte32(self.high_ptr, 2));
        bytes.push(byte32(self.high_ptr, 3));
        bytes.push(byte32(self.reserved, 0));
        bytes.push(byte32(self.reserved, 1));
        bytes.push(byte32(self.reserved, 2));
        bytes.push(byte32(self.reserved, 3));
        proof {
            assert(bytes@ =~= self.spec_bytes());
        }
        bytes
    }
}

pub open spec fn spec_lo8(x: u16) -> u8 {
    (x & 0xff) as u8
}

pub open spec fn spec_hi8(x: u16) -> u8 {
    ((x >> 8) & 0xff) as u8
}

pub open spec fn spec_byte32(x: u32, k: u32) -> u8 {
    ((x >> (8 * k)) & 0xff) as u8
}

fn lo8(x: u16) -> (r: u8)
    ensures
        r == spec_lo8(x),
{
    assert(x & 0xff <= 0xff) by (bit_vector);
    (x & 0xff) as u8
}

fn hi8(x: u16) -> (r: u8)
    ensures
        r == spec_hi8(x),
{
    assert((x >> 8) & 0xff <= 0xff) by (bit_vector);
    ((x >> 8) & 0xff) as u8
}

fn byte32(x: u32, k: u32) -> (r: u8)
    requires
        k < 4,
    ensures
        r == spec_byte32(x, k),
{
    assert(8 * k < 32 && (x >> (8 * k)) & 0xff <= 0xff) by (bit_vector)
        requires
            k < 4,
    ;
    ((x >> (8 * k)) & 0xff) as u8
}

/// Number of vectors the table covers: the CPU-reserved exception range
/// 0..=31.
pub const TABLE_CAPACITY: usize = 32;

/// Size in bytes of one encoded gate record, mandated by the architecture.
pub const ENTRY_BYTES: usize = 16;

/// Relies on the x86_64 crate's `CS::get_reg`, which reads the CPU's
/// current code-segment register with a `mov` from `cs`. The value depends
/// on machine state, so nothing is promised of it.
#[verifier::external_body]
fn current_code_selector() -> u16 {
    <x86_64::registers::segmentation::CS as x86_64::registers::segmentation::Segment>::get_reg().0
}

/// An ordered, fixed-capacity collection of gate entries indexed by vector
/// number. Created with every entry missing, populated during
/// initialization, then activated at most once; entries are immutable once
/// the table is activated.
pub struct InterruptDescriptorTable {
    pub entries: Vec<Entry>,
    pub activated: bool,
}

impl View for InterruptDescriptorTable {
    type V = Seq<Entry>;

    open spec fn view(&self) -> Seq<Entry> {
        self.entries@
    }
}

impl InterruptDescriptorTable {
    pub open spec fn wf(&self) -> bool {
        &&& self.entries@.len() == TABLE_CAPACITY
        &&& forall|i: int|
            0 <= i < TABLE_CAPACITY ==> (#[trigger] self.entries@[i]).opts.wf()
    }

    pub open spec fn spec_activated(&self) -> bool {
        self.activated
    }

    /// A table with every entry missing, not yet activated.
    pub fn new() -> (r: Self)
        ensures
            r.wf(),
            !r.spec_activated(),
            r@.len() == TABLE_CAPACITY,
            forall|i: int| 0 <= i < TABLE_CAPACITY ==> r@[i] == Entry::spec_missing(),
    {
        let mut entries: Vec<Entry> = Vec::new();
        let mut i: usize = 0;
        while i < TABLE_CAPACITY
            invariant
                i <= TABLE_CAPACITY,
                entries@.len() == i,
                forall|j: int| 0 <= j < i ==> entries@[j] == Entry::spec_missing(),
            decreases TABLE_CAPACITY - i,
        {
            entries.push(Entry::missing());
            i = i + 1;
        }
        proof {
            lemma_minimal_decodes();
        }
        InterruptDescriptorTable { entries, activated: false }
    }

    /// Stores a freshly built gate for `handler` at `vector` under the
    /// given code-segment selector, fully replacing whatever entry was
    /// there. Returns the installed option value for further refinement.
    pub fn set_gate(&mut self, vector: u8, gdt_sel: u16, handler: u64) -> (r: EntryOpts)
        requires
            (vector as int) < TABLE_CAPACITY,
            old(self).wf(),
            !old(self).spec_activated(),
        ensures
            final(self)@ == old(self)@.update(vector as int, Entry::spec_build(gdt_sel, handler)),
            final(self).wf(),
            !final(self).spec_activated(),
            r == EntryOpts::spec_fresh(),
    {
        let e = Entry::new(gdt_sel, handler);
        self.entries.set(vector as usize, e);
        e.opts
    }

    /// Stores a gate for `handler` at `vector` under the currently loaded
    /// code-segment selector, queried at registration time, fully replacing
    /// whatever entry was there. Returns the installed option value.
    pub fn set_handler(&mut self, vector: u8, handler: u64) -> (r: EntryOpts)
        requires
            (vector as int) < TABLE_CAPACITY,
            old(self).wf(),
            !old(self).spec_activated(),
        ensures
            exists|sel: u16|
                final(self)@ == old(self)@.update(
                    vector as int,
                    #[trigger] Entry::spec_build(sel, handler),
                ),
            final(self).wf(),
            !final(self).spec_activated(),
            r == EntryOpts::spec_fresh(),
    {
        let sel = current_code_selector();
        self.set_gate(vector, sel, handler)
    }

    /// Replaces the option bitfield of the entry at `vector`, leaving its
    /// other fields as they are.
    pub fn set_opts(&mut self, vector: u8, opts: EntryOpts)
        requires
            (vector as int) < TABLE_CAPACITY,
            old(self).wf(),
            !old(self).spec_activated(),
            opts.wf(),
        ensures
            final(self)@ == old(self)@.update(
                vector as int,
                spec_with_opts(old(self)@[vector as int], opts),
            ),
            final(self).wf(),
            !final(self).spec_activated(),
    {
        let mut e = self.entries[vector as usize];
        e.opts = opts;
        self.entries.set(vector as usize, e);
    }

    /// The entry currently stored at `vector`.
    pub fn entry_at(&self, vector: u8) -> (r: Entry)
        requires
            (vector as int) < TABLE_CAPACITY,
            self.wf(),
        ensures
            r == self@[vector as int],
    {
        self.entries[vector as usize]
    }

    /// Decides well-formedness at run time, for callers outside verified
    /// code that must establish it before using the table.
    pub fn is_well_formed(&self) -> (r: bool)
        ensures
            r == self.wf(),
    {
        if self.entries.len() != TABLE_CAPACITY {
            return false;
        }
        let mut i: usize = 0;
        while i < TABLE_CAPACITY
            invariant
                i <= TABLE_CAPACITY,
                self.entries@.len() == TABLE_CAPACITY,
                forall|j: int| 0 <= j < i ==> (#[trigger] self.entries@[j]).opts.wf(),
            decreases TABLE_CAPACITY - i,
        {
            if self.entries[i].opts.0 & 0x1ef8 != 0x0e00 {
                return false;
            }
            i = i + 1;
        }
        true
    }

    pub fn is_activated(&self) -> (r: bool)
        ensures
            r == self.spec_activated(),
    {
        self.activated
    }

    /// Marks the table activated and returns the descriptor limit the
    /// CPU's table register takes: the total byte size of the table minus
    /// one. The entries themselves are left untouched; the surrounding
    /// program commits the encoded bytes and this limit to the CPU, on
    /// storage that lives for the rest of the program.
    pub fn activate(&mut self) -> (limit: u16)
        requires
            old(self).wf(),
            !old(self).spec_activated(),
        ensures
            final(self).spec_activated(),
            final(self)@ == old(self)@,
            final(self).wf(),
            limit as int == old(self)@.len() * ENTRY_BYTES - 1,
    {
        self.activated = true;
        let limit: usize = self.entries.len() * ENTRY_BYTES - 1;
        limit as u16
    }

    /// Serializes the whole table to its exact hardware layout: the
    /// 16-byte records of all vectors, in order.
    pub fn encode(&self) -> (r: Vec<u8>)
        requires
            self.wf(),
        ensures
            r@.len() == TABLE_CAPACITY * ENTRY_BYTES,
            forall|i: int|
                0 <= i < TABLE_CAPACITY ==> r@.subrange(16 * i, 16 * i + 16)
                    == (#[trigger] self@[i]).spec_bytes(),
    {
        let mut bytes: Vec<u8> = Vec::new();
        let mut i: usize = 0;
        while i < TABLE_CAPACITY
            invariant
                i <= TABLE_CAPACITY,
                self.wf(),
                bytes@.len() == 16 * i,
                forall|j: int|
                    0 <= j < i ==> bytes@.subrange(16 * j, 16 * j + 16)
                        == (#[trigger] self@[j]).spec_bytes(),
            decreases TABLE_CAPACITY - i,
        {
            let ghost prefix = bytes@;
            let mut record = self.entries[i].encode();
            bytes.append(&mut record);
            i = i + 1;
            proof {
                assert forall|j: int| 0 <= j < i implies bytes@.subrange(16 * j, 16 * j + 16)
                    == (#[trigger] self@[j]).spec_bytes() by {
                    if j < i - 1 {
                        assert(bytes@.subrange(16 * j, 16 * j + 16) =~= prefix.subrange(
                            16 * j,
                            16 * j + 16,
                        ));
                    } else {
                        assert(bytes@.subrange(16 * j, 16 * j + 16) =~= self@[j].spec_bytes());
                    }
                }
            }
        }
        bytes
    }
}

pub open spec fn spec_with_opts(e: Entry, o: EntryOpts) -> Entry {
    Entry { opts: o, ..e }
}

/// Law: registering the same vector twice leaves the table exactly as if
/// only the second registration had happened; no state of the first
/// remains.
pub proof fn lemma_register_last_wins(t: Seq<Entry>, v: int, e1: Entry, e2: Entry)
    requires
        0 <= v < t.len(),
    ensures
        t.update(v, e1).update(v, e2) == t.update(v, e2),
{
    assert(t.update(v, e1).update(v, e2) =~= t.update(v, e2));
}

} // verus!
