use gem::interrupts::{
    dispatch, hex_digits, init_idt, ControllerPair, HandlerKind, HandlerOutcome, InterruptIndex,
    StackFrame, PIC_1_OFFSET, PIC_2_OFFSET,
};
use gem::vga_buffer::{Color, Writer, BUFFER_HEIGHT};

fn fresh_writer() -> Writer {
    Writer::new(Color::LightCyan, Color::Black)
}

fn sample_frame() -> StackFrame {
    StackFrame {
        instruction_pointer: 0xdeadbeef,
        code_segment: 0x8,
        cpu_flags: 0x202,
        stack_pointer: 0x1000,
        stack_segment: 0x10,
    }
}

fn row_text(w: &Writer, row: usize) -> String {
    let mut s = String::new();
    for col in 0..80 {
        s.push(w.char_at(row, col).ascii_character as char);
    }
    s.trim_end().to_string()
}

#[test]
fn interrupt_index_maps_to_remapped_vector() {
    assert_eq!(InterruptIndex::Timer.as_u8(), 32);
    assert_eq!(InterruptIndex::Timer.as_usize(), 32);
    assert_eq!(PIC_1_OFFSET, 32);
    assert_eq!(PIC_2_OFFSET, 40);
}

#[test]
fn init_idt_binds_core_handlers() {
    let t = init_idt();
    assert_eq!(t.handler_at(3), Some(HandlerKind::Breakpoint));
    assert_eq!(t.handler_at(8), Some(HandlerKind::DoubleFault));
    assert_eq!(t.handler_at(32), Some(HandlerKind::Timer));
    assert_eq!(t.handler_at(0), None);
    assert_eq!(t.handler_at(33), None);
    assert_eq!(t.handler_at(255), None);
}

#[test]
fn hex_digits_format() {
    assert_eq!(hex_digits(0), b"0000000000000000".to_vec());
    assert_eq!(hex_digits(0xdeadbeef), b"00000000deadbeef".to_vec());
    assert_eq!(hex_digits(u64::MAX), b"ffffffffffffffff".to_vec());
    assert_eq!(hex_digits(0x0123456789abcdef), b"0123456789abcdef".to_vec());
}

#[test]
fn breakpoint_dispatch_resumes_and_logs() {
    let t = init_idt();
    let mut w = fresh_writer();
    let mut pics = ControllerPair::new(32, 40);
    pics.initialize();
    // Put the timer line in service so that any stray acknowledgment would
    // be visible afterwards.
    pics.deliver(32);
    assert!(!pics.deliverable(32));

    let r = dispatch(&t, &mut w, &mut pics, 3, sample_frame());
    assert_eq!(r, HandlerOutcome::Resumed);

    // The diagnostic appears in the console: the message ends in a newline,
    // so the two emitted lines sit just above the bottom row.
    assert_eq!(row_text(&w, BUFFER_HEIGHT - 3), "Exception: Breakpoint");
    assert_eq!(
        row_text(&w, BUFFER_HEIGHT - 2),
        "RIP=0x00000000deadbeef RSP=0x0000000000001000 FLAGS=0x0000000000000202"
    );
    assert_eq!(w.column_position(), 0);

    // No controller acknowledgment was invoked: the line is still blocked.
    assert!(!pics.deliverable(32));
}

#[test]
fn double_fault_dispatch_is_fatal() {
    let t = init_idt();
    let mut w = fresh_writer();
    let mut pics = ControllerPair::new(32, 40);
    pics.initialize();
    let r = dispatch(&t, &mut w, &mut pics, 8, sample_frame());
    assert_eq!(r, HandlerOutcome::Fatal);
    assert_eq!(row_text(&w, BUFFER_HEIGHT - 3), "Exception: Double Fault");
}

#[test]
fn unbound_vector_dispatch_is_fatal() {
    let t = init_idt();
    let mut w = fresh_writer();
    let mut pics = ControllerPair::new(32, 40);
    pics.initialize();
    let r = dispatch(&t, &mut w, &mut pics, 100, sample_frame());
    assert_eq!(r, HandlerOutcome::Fatal);
    assert_eq!(row_text(&w, BUFFER_HEIGHT - 2), "Exception: Unhandled Vector");
}

#[test]
fn timer_interrupt_acknowledged_and_line_reusable() {
    let t = init_idt();
    let mut w = fresh_writer();
    let mut pics = ControllerPair::new(32, 40);
    pics.initialize();

    assert!(pics.deliverable(32));
    pics.deliver(32);
    assert!(!pics.deliverable(32));

    let r = dispatch(&t, &mut w, &mut pics, 32, sample_frame());
    assert_eq!(r, HandlerOutcome::Resumed);

    // The handler performed its bounded action: one glyph.
    assert_eq!(w.char_at(BUFFER_HEIGHT - 1, 0).ascii_character, b'.');
    assert_eq!(w.column_position(), 1);

    // It acknowledged vector 32, so the same line is deliverable again.
    assert!(pics.deliverable(32));
    pics.deliver(32);
    assert!(!pics.deliverable(32));
}

#[test]
fn acknowledge_touches_only_its_line() {
    let mut pics = ControllerPair::new(32, 40);
    pics.initialize();
    pics.deliver(33);
    pics.deliver(40);
    assert!(!pics.deliverable(33));
    assert!(!pics.deliverable(40));
    assert!(pics.deliverable(32));

    pics.acknowledge(33);
    assert!(pics.deliverable(33));
    assert!(!pics.deliverable(40));

    pics.acknowledge(40);
    assert!(pics.deliverable(40));
}

#[test]
fn controller_not_deliverable_before_initialize() {
    let pics = ControllerPair::new(32, 40);
    assert!(!pics.deliverable(32));
}

#[test]
fn controller_ignores_foreign_vectors() {
    let mut pics = ControllerPair::new(32, 40);
    pics.initialize();
    // CPU exception vectors and vectors past both ranges are not handled.
    assert!(!pics.deliverable(3));
    assert!(!pics.deliverable(31));
    assert!(!pics.deliverable(48));
    assert!(!pics.deliverable(255));
}

#[test]
fn offset_ranges_disjoint() {
    // The canonical ranges: 32-39 for the primary, 40-47 for the secondary.
    for v in 32u16..40 {
        assert!(v >= 32);
        assert!(!(40 <= v && v < 48));
    }
    for v in 40u16..48 {
        assert!(v >= 32);
        assert!(!(32 <= v && v < 40));
    }
}
