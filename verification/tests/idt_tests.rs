use rustos::idt::Entry;
use rustos::idt::EntryOpts;
use rustos::idt::IdtError;
use rustos::idt::InterruptDescriptorTable;
use rustos::registry::HandlerRegistry;
use rustos::registry::InitOutcome;
use rustos::QemuExitCode;

#[test]
fn minimal_is_safe_default() {
    let o = EntryOpts::minimal();
    assert_eq!(o.0, 0x0e00);
    assert!(!o.present());
    assert!(!o.interrupts_enabled());
    assert_eq!(o.dpl(), 0);
    assert_eq!(o.ist_idx(), 0);
}

#[test]
fn fresh_options_are_present_interrupt_gate() {
    let o = EntryOpts::new();
    assert_eq!(o.0, 0x8e00);
    assert!(o.present());
    assert!(!o.interrupts_enabled());
    assert_eq!(o.dpl(), 0);
    assert_eq!(o.ist_idx(), 0);
}

#[test]
fn options_round_trip_all_valid_values() {
    for dpl in 0u16..=3 {
        for ist in 0u16..=7 {
            let mut o = EntryOpts::new();
            o.set_dpl(dpl).unwrap();
            o.set_ist_idx(ist).unwrap();
            assert_eq!(o.dpl(), dpl);
            assert_eq!(o.ist_idx(), ist);
            assert!(o.present());
            assert!(!o.interrupts_enabled());
            // Bits outside the two fields keep their prior value.
            assert_eq!(o.0 & 0x9fff & 0xfff8, 0x8e00);
        }
    }
}

#[test]
fn set_dpl_rejects_out_of_range_without_mutation() {
    for bad in [4u16, 7, 100, u16::MAX] {
        let mut o = EntryOpts::new();
        let before = o;
        assert_eq!(o.set_dpl(bad), Err(IdtError::InvalidArgument));
        assert_eq!(o, before);
    }
}

#[test]
fn set_ist_idx_rejects_out_of_range_without_mutation() {
    for bad in [8u16, 9, 255, u16::MAX] {
        let mut o = EntryOpts::new();
        let before = o;
        assert_eq!(o.set_ist_idx(bad), Err(IdtError::InvalidArgument));
        assert_eq!(o, before);
    }
}

#[test]
fn present_and_interrupt_flags_toggle_only_their_bits() {
    let mut o = EntryOpts::new();
    o.set_present(false);
    assert!(!o.present());
    assert_eq!(o.0, 0x0e00);
    o.set_present(true);
    o.enable_interrupts(true);
    assert!(o.interrupts_enabled());
    assert_eq!(o.0, 0x8f00);
    o.enable_interrupts(false);
    assert_eq!(o.0, 0x8e00);
}

#[test]
fn missing_entry_decodes_as_absent() {
    let e = Entry::missing();
    assert!(!e.is_present());
    assert_eq!(e.handler_addr(), 0);
    assert_eq!(e.gdt_sel, 0);
    assert_eq!(e.reserved, 0);
}

#[test]
fn address_fragments_round_trip() {
    let handler = 0x1234_5678_9abc_def0u64;
    let e = Entry::new(0x0008, handler);
    assert_eq!(e.low_ptr, 0xdef0);
    assert_eq!(e.mid_ptr, 0x9abc);
    assert_eq!(e.high_ptr, 0x1234_5678);
    assert_eq!(e.handler_addr(), handler);
    assert!(e.is_present());
}

#[test]
fn entry_encodes_to_mandated_layout() {
    let e = Entry::new(0x0008, 0x1122_3344_5566_7788);
    let bytes = e.encode();
    assert_eq!(
        bytes,
        vec![
            0x88, 0x77, // low fragment, little endian
            0x08, 0x00, // selector
            0x00, 0x8e, // options
            0x66, 0x55, // mid fragment
            0x44, 0x33, 0x22, 0x11, // high fragment
            0x00, 0x00, 0x00, 0x00, // reserved
        ]
    );
}

#[test]
fn new_table_has_every_vector_missing() {
    let t = InterruptDescriptorTable::new();
    assert!(!t.is_activated());
    for v in 0u8..32 {
        let e = t.entry_at(v);
        assert!(!e.is_present());
        assert_eq!(e.handler_addr(), 0);
    }
}

#[test]
fn registered_vector_is_present_with_its_address() {
    let mut t = InterruptDescriptorTable::new();
    let opts = t.set_gate(3, 0x0008, 0xdead_beef_cafe_f00d);
    assert_eq!(opts.0, 0x8e00);
    let e = t.entry_at(3);
    assert!(e.is_present());
    assert_eq!(e.handler_addr(), 0xdead_beef_cafe_f00d);
    assert_eq!(e.gdt_sel, 0x0008);
    assert!(!t.entry_at(2).is_present());
    assert!(!t.entry_at(4).is_present());
}

#[test]
fn registering_twice_keeps_only_the_second_entry() {
    let mut t = InterruptDescriptorTable::new();
    t.set_gate(5, 0x0008, 0x1111_2222_3333_4444);
    let mut refined = t.entry_at(5).opts;
    refined.set_dpl(3).unwrap();
    refined.set_ist_idx(2).unwrap();
    t.set_opts(5, refined);
    assert_eq!(t.entry_at(5).opts.dpl(), 3);

    t.set_gate(5, 0x0010, 0x5555_6666_7777_8888);
    let e = t.entry_at(5);
    assert_eq!(e.handler_addr(), 0x5555_6666_7777_8888);
    assert_eq!(e.gdt_sel, 0x0010);
    // No merged state from the first registration: options are fresh again.
    assert_eq!(e.opts.dpl(), 0);
    assert_eq!(e.opts.ist_idx(), 0);
    assert_eq!(e.opts.0, 0x8e00);
}

#[test]
fn activation_reports_size_minus_one_limit() {
    let mut t = InterruptDescriptorTable::new();
    let limit = t.activate();
    assert_eq!(limit, 32 * 16 - 1);
    assert_eq!(limit, 511);
    assert!(t.is_activated());
}

#[test]
fn table_encodes_all_records_in_order() {
    let mut t = InterruptDescriptorTable::new();
    t.set_gate(1, 0x0008, 0xaabb_ccdd_eeff_0011);
    let bytes = t.encode();
    assert_eq!(bytes.len(), 512);
    // Vector 0 is missing: zero address, null selector, minimal options.
    assert_eq!(&bytes[0..16], &[0, 0, 0, 0, 0x00, 0x0e, 0, 0, 0, 0, 0, 0, 0, 0, 0, 0]);
    // Vector 1 carries the registered record.
    assert_eq!(&bytes[16..32], t.entry_at(1).encode().as_slice());
}

#[test]
fn end_to_end_register_and_activate() {
    let sentinel = 0x4242_4242_4242_4242u64;
    let mut t = InterruptDescriptorTable::new();
    t.set_handler(0, sentinel);
    let limit = t.activate();
    assert_eq!(limit, 511);
    let e0 = t.entry_at(0);
    assert!(e0.is_present());
    assert_eq!(e0.handler_addr(), sentinel);
    assert!(!t.entry_at(1).is_present());
}

#[test]
fn initialization_is_idempotent() {
    let sentinel = 0x1357_9bdf_0246_8aceu64;
    let mut r = HandlerRegistry::new();
    assert!(!r.is_initialized());

    let first = r.init(sentinel);
    assert_eq!(first, InitOutcome::Activated { limit: 511 });
    assert!(r.is_initialized());
    let published = r.table.entry_at(0);
    assert!(published.is_present());
    assert_eq!(published.handler_addr(), sentinel);

    // A second call must not rebuild, mutate, or re-activate the table.
    let second = r.init(0x9999_9999_9999_9999);
    assert_eq!(second, InitOutcome::AlreadyInitialized);
    let after = r.table.entry_at(0);
    assert_eq!(after.handler_addr(), sentinel);
    assert_eq!(after.gdt_sel, published.gdt_sel);
    assert_eq!(after.opts, published.opts);
    for v in 1u8..32 {
        assert!(!r.table.entry_at(v).is_present());
    }
}

#[test]
fn qemu_exit_codes() {
    assert_eq!(QemuExitCode::Success.code(), 0x10);
    assert_eq!(QemuExitCode::Failure.code(), 0x11);
}
