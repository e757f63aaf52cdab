//! Interrupt dispatch subsystem: the vector table that binds CPU vectors to
//! handlers, the chained interrupt-controller pair with its remapped vector
//! ranges, and the handler state machine for recoverable and fatal faults.

use vstd::prelude::*;
use vstd::string::StringSliceAdditionalSpecFns;
use crate::vga_buffer::write_bytes_spec;
use crate::vga_buffer::lemma_write_bytes_append;
use crate::vga_buffer::Writer;

verus! {

/// Base output vector of the primary interrupt controller.
pub const PIC_1_OFFSET: u8 = 32;

/// Base output vector of the secondary interrupt controller.
pub const PIC_2_OFFSET: u8 = PIC_1_OFFSET + 8;

/// Number of interrupt lines each controller of the pair owns.
pub const LINES_PER_CONTROLLER: u8 = 8;

/// Vectors below this value are reserved for CPU exceptions.
pub const EXCEPTION_VECTOR_LIMIT: u8 = 32;

/// The vector the CPU uses for breakpoint exceptions.
pub const BREAKPOINT_VECTOR: u8 = 3;

/// The vector the CPU uses for double faults.
pub const DOUBLE_FAULT_VECTOR: u8 = 8;

/// Number of entries in the vector table, one per CPU vector.
pub const IDT_ENTRIES: usize = 256;

/// The remapped hardware interrupt lines this kernel handles.
#[derive(Clone, Copy, PartialEq, Eq, Structural, Debug)]
pub enum InterruptIndex {
    Timer,
}

impl InterruptIndex {
    /// The vector this line is remapped to.
    pub open spec fn spec_vector(self) -> u8 {
        match self {
            InterruptIndex::Timer => PIC_1_OFFSET,
        }
    }

    /// Returns the remapped vector number of this line.
    pub fn as_u8(self) -> (r: u8)
        ensures
            r == self.spec_vector(),
    {
        match self {
            InterruptIndex::Timer => PIC_1_OFFSET,
        }
    }

    /// Returns the remapped vector number of this line, widened for indexing.
    pub fn as_usize(self) -> (r: usize)
        ensures
            r == self.spec_vector() as usize,
    {
        let v: u8 = self.as_u8();
        v as usize
    }
}

/// Which handler a vector is bound to.
#[derive(Clone, Copy, PartialEq, Eq, Structural, Debug)]
pub enum HandlerKind {
    Breakpoint,
    DoubleFault,
    Timer,
}

/// The vector table: one optional handler binding per CPU vector, plus
/// whether the table has been installed into the CPU. Once installed it is
/// never rebound: the CPU reads it on every interrupt.
pub struct VectorTable {
    entries: Vec<Option<HandlerKind>>,
    loaded: bool,
}

impl VectorTable {
    /// The handler bindings, one per vector.
    pub closed spec fn spec_entries(self) -> Seq<Option<HandlerKind>> {
        self.entries@
    }

    /// Whether the table has been installed into the CPU.
    pub closed spec fn spec_loaded(self) -> bool {
        self.loaded
    }

    /// A full-size table: one entry per CPU vector.
    pub open spec fn wf(self) -> bool {
        self.spec_entries().len() == IDT_ENTRIES
    }

    /// The handler bound to a vector.
    pub open spec fn handler_for(self, vector: u8) -> Option<HandlerKind> {
        self.spec_entries()[vector as int]
    }

    /// Creates an empty, not yet installed table.
    pub fn new() -> (t: VectorTable)
        ensures
            t.wf(),
            !t.spec_loaded(),
            forall|v: int| 0 <= v < IDT_ENTRIES ==> t.spec_entries()[v] is None,
    {
        let mut entries: Vec<Option<HandlerKind>> = Vec::new();
        let mut i: usize = 0;
        while i < IDT_ENTRIES
            invariant
                i <= IDT_ENTRIES,
                entries@.len() == i,
                forall|v: int| 0 <= v < i as int ==> entries@[v] is None,
            decreases IDT_ENTRIES - i,
        {
            entries.push(None);
            i = i + 1;
        }
        VectorTable { entries, loaded: false }
    }

    /// Returns the handler bound to a vector.
    pub fn handler_at(&self, vector: u8) -> (r: Option<HandlerKind>)
        requires
            self.wf(),
        ensures
            r == self.handler_for(vector),
    {
        self.entries[vector as usize]
    }

    /// Binds a handler to a vector; only possible before installation.
    pub fn set_handler(&mut self, vector: u8, kind: HandlerKind)
        requires
            old(self).wf(),
            !old(self).spec_loaded(),
        ensures
            final(self).wf(),
            !final(self).spec_loaded(),
            final(self).spec_entries() == old(self).spec_entries().update(
                vector as int,
                Some(kind),
            ),
    {
        self.entries[vector as usize] = Some(kind);
    }

    /// Installs the table into the CPU. This happens exactly once, and only
    /// after every handler this kernel relies on has been bound: an
    /// installed table with a missing binding faults fatally on delivery.
    pub fn load(&mut self)
        requires
            old(self).wf(),
            !old(self).spec_loaded(),
            old(self).handler_for(BREAKPOINT_VECTOR) == Some(HandlerKind::Breakpoint),
            old(self).handler_for(DOUBLE_FAULT_VECTOR) == Some(HandlerKind::DoubleFault),
            old(self).handler_for(PIC_1_OFFSET) == Some(HandlerKind::Timer),
        ensures
            final(self).wf(),
            final(self).spec_loaded(),
            final(self).spec_entries() == old(self).spec_entries(),
    {
        self.loaded = true;
    }
}

/// Builds the complete vector table and installs it into the CPU: the
/// breakpoint and double-fault exception handlers and the remapped timer
/// line, with every other vector left unbound.
pub fn init_idt() -> (t: VectorTable)
    ensures
        t.wf(),
        t.spec_loaded(),
        t.handler_for(BREAKPOINT_VECTOR) == Some(HandlerKind::Breakpoint),
        t.handler_for(DOUBLE_FAULT_VECTOR) == Some(HandlerKind::DoubleFault),
        t.handler_for(PIC_1_OFFSET) == Some(HandlerKind::Timer),
        forall|v: int|
            0 <= v < IDT_ENTRIES && v != BREAKPOINT_VECTOR as int && v != DOUBLE_FAULT_VECTOR as int
                && v != PIC_1_OFFSET as int ==> t.spec_entries()[v] is None,
{
    let mut t = VectorTable::new();
    t.set_handler(BREAKPOINT_VECTOR, HandlerKind::Breakpoint);
    t.set_handler(DOUBLE_FAULT_VECTOR, HandlerKind::DoubleFault);
    t.set_handler(InterruptIndex::Timer.as_u8(), HandlerKind::Timer);
    t.load();
    t
}

/// The chained interrupt-controller pair: primary and secondary, each with
/// a configurable base output vector, each owning eight lines. A delivered
/// line stays in service, blocked for further delivery, until the handler
/// acknowledges it.
pub struct ControllerPair {
    primary_offset: u8,
    secondary_offset: u8,
    initialized: bool,
    in_service: Vec<bool>,
}

impl ControllerPair {
    /// The base output vector of the primary controller.
    pub closed spec fn spec_primary_offset(self) -> u8 {
        self.primary_offset
    }

    /// The base output vector of the secondary controller.
    pub closed spec fn spec_secondary_offset(self) -> u8 {
        self.secondary_offset
    }

    /// Whether the pair has been programmed with its offsets.
    pub closed spec fn spec_initialized(self) -> bool {
        self.initialized
    }

    /// Which lines are in service: primary lines first, then secondary.
    pub closed spec fn spec_in_service(self) -> Seq<bool> {
        self.in_service@
    }

    /// The hardware contract on the offsets: both ranges above the CPU
    /// exception vectors, inside the vector space, and non-overlapping.
    pub open spec fn offsets_valid(primary: u8, secondary: u8) -> bool {
        &&& EXCEPTION_VECTOR_LIMIT <= primary
        &&& primary + LINES_PER_CONTROLLER <= 256
        &&& EXCEPTION_VECTOR_LIMIT <= secondary
        &&& secondary + LINES_PER_CONTROLLER <= 256
        &&& (primary + LINES_PER_CONTROLLER <= secondary
            || secondary + LINES_PER_CONTROLLER <= primary)
    }

    /// A well-formed pair: valid offsets and one in-service slot per line.
    pub open spec fn wf(self) -> bool {
        &&& Self::offsets_valid(self.spec_primary_offset(), self.spec_secondary_offset())
        &&& self.spec_in_service().len() == 2 * LINES_PER_CONTROLLER
    }

    /// Whether a vector lies in one of the pair's remapped ranges.
    pub open spec fn spec_handles_vector(self, vector: u8) -> bool {
        ||| self.spec_primary_offset() <= vector
            < self.spec_primary_offset() + LINES_PER_CONTROLLER
        ||| self.spec_secondary_offset() <= vector
            < self.spec_secondary_offset() + LINES_PER_CONTROLLER
    }

    /// The in-service slot a handled vector maps to.
    pub open spec fn spec_line_of(self, vector: u8) -> int {
        if self.spec_primary_offset() <= vector
            < self.spec_primary_offset() + LINES_PER_CONTROLLER {
            vector - self.spec_primary_offset()
        } else {
            LINES_PER_CONTROLLER + (vector - self.spec_secondary_offset())
        }
    }

    /// Creates the controller pair, not yet initialized, with the given
    /// base offsets and no line in service.
    pub fn new(primary_offset: u8, secondary_offset: u8) -> (r: ControllerPair)
        requires
            Self::offsets_valid(primary_offset, secondary_offset),
        ensures
            r.wf(),
            !r.spec_initialized(),
            r.spec_primary_offset() == primary_offset,
            r.spec_secondary_offset() == secondary_offset,
            forall|i: int|
                0 <= i < r.spec_in_service().len() ==> !(#[trigger] r.spec_in_service()[i]),
    {
        ControllerPair {
            primary_offset,
            secondary_offset,
            initialized: false,
            in_service: Self::idle_lines(),
        }
    }

    /// One idle in-service slot per line of the pair.
    fn idle_lines() -> (r: Vec<bool>)
        ensures
            r@.len() == 2 * LINES_PER_CONTROLLER,
            forall|i: int| 0 <= i < r@.len() ==> !(#[trigger] r@[i]),
    {
        let mut lines: Vec<bool> = Vec::new();
        let mut i: usize = 0;
        while i < 16
            invariant
                i <= 16,
                lines@.len() == i,
                forall|j: int| 0 <= j < i as int ==> !(#[trigger] lines@[j]),
            decreases 16 - i,
        {
            lines.push(false);
            i = i + 1;
        }
        lines
    }

    /// Programs both controllers with their configured offsets, leaving
    /// every line idle. This happens exactly once, before interrupts are
    /// globally enabled.
    pub fn initialize(&mut self)
        requires
            old(self).wf(),
            !old(self).spec_initialized(),
        ensures
            final(self).wf(),
            final(self).spec_initialized(),
            final(self).spec_primary_offset() == old(self).spec_primary_offset(),
            final(self).spec_secondary_offset() == old(self).spec_secondary_offset(),
            forall|i: int|
                0 <= i < final(self).spec_in_service().len()
                    ==> !(#[trigger] final(self).spec_in_service()[i]),
    {
        self.initialized = true;
        self.in_service = Self::idle_lines();
    }

    /// Whether the pair has been programmed with its offsets.
    pub fn is_initialized(&self) -> (r: bool)
        ensures
            r == self.spec_initialized(),
    {
        self.initialized
    }

    /// Whether a vector lies in one of the pair's remapped ranges.
    pub fn handles_vector(&self, vector: u8) -> (r: bool)
        ensures
            r == self.spec_handles_vector(vector),
    {
        (vector >= self.primary_offset && vector - self.primary_offset < LINES_PER_CONTROLLER)
            || (vector >= self.secondary_offset
                && vector - self.secondary_offset < LINES_PER_CONTROLLER)
    }

    /// The in-service slot a handled vector maps to.
    fn line_of(&self, vector: u8) -> (r: usize)
        requires
            self.wf(),
            self.spec_handles_vector(vector),
        ensures
            r as int == self.spec_line_of(vector),
            r < 2 * LINES_PER_CONTROLLER,
    {
        if vector >= self.primary_offset && vector - self.primary_offset < LINES_PER_CONTROLLER {
            (vector - self.primary_offset) as usize
        } else {
            (LINES_PER_CONTROLLER + (vector - self.secondary_offset)) as usize
        }
    }

    /// Whether a hardware interrupt on the given vector would be delivered:
    /// the pair is initialized, the vector is one of its lines, and that
    /// line is not blocked awaiting acknowledgment.
    pub fn deliverable(&self, vector: u8) -> (r: bool)
        requires
            self.wf(),
        ensures
            r == (self.spec_initialized() && self.spec_handles_vector(vector)
                && !self.spec_in_service()[self.spec_line_of(vector)]),
    {
        if self.initialized && self.handles_vector(vector) {
            let line: usize = self.line_of(vector);
            !self.in_service[line]
        } else {
            false
        }
    }

    /// Records that the hardware delivered an interrupt on the given
    /// vector: its line goes in service and stays blocked until
    /// acknowledged.
    pub fn deliver(&mut self, vector: u8)
        requires
            old(self).wf(),
            old(self).spec_initialized(),
            old(self).spec_handles_vector(vector),
            !old(self).spec_in_service()[old(self).spec_line_of(vector)],
        ensures
            final(self).wf(),
            final(self).spec_initialized(),
            final(self).spec_primary_offset() == old(self).spec_primary_offset(),
            final(self).spec_secondary_offset() == old(self).spec_secondary_offset(),
            final(self).spec_in_service() == old(self).spec_in_service().update(
                old(self).spec_line_of(vector),
                true,
            ),
    {
        let line: usize = self.line_of(vector);
        self.in_service[line] = true;
    }

    /// Signals end of interrupt for the given vector: its line leaves
    /// service, so a further interrupt on it can be delivered again. Every
    /// hardware-interrupt handler must call this before returning, or the
    /// line starves.
    pub fn acknowledge(&mut self, vector: u8)
        requires
            old(self).wf(),
            old(self).spec_initialized(),
            old(self).spec_handles_vector(vector),
        ensures
            final(self).wf(),
            final(self).spec_initialized(),
            final(self).spec_primary_offset() == old(self).spec_primary_offset(),
            final(self).spec_secondary_offset() == old(self).spec_secondary_offset(),
            final(self).spec_in_service() == old(self).spec_in_service().update(
                old(self).spec_line_of(vector),
                false,
            ),
    {
        let line: usize = self.line_of(vector);
        self.in_service[line] = false;
    }
}

/// A vector in the primary controller's canonical output range.
pub open spec fn in_primary_range(v: int) -> bool {
    PIC_1_OFFSET <= v < PIC_1_OFFSET + LINES_PER_CONTROLLER
}

/// A vector in the secondary controller's canonical output range.
pub open spec fn in_secondary_range(v: int) -> bool {
    PIC_2_OFFSET <= v < PIC_2_OFFSET + LINES_PER_CONTROLLER
}

/// A vector reserved for CPU exceptions.
pub open spec fn in_exception_range(v: int) -> bool {
    0 <= v < EXCEPTION_VECTOR_LIMIT
}

/// The diagnostic context a handler receives: the saved register state of
/// the interrupted code.
#[derive(Clone, Copy, PartialEq, Eq, Structural, Debug)]
pub struct StackFrame {
    pub instruction_pointer: u64,
    pub code_segment: u64,
    pub cpu_flags: u64,
    pub stack_pointer: u64,
    pub stack_segment: u64,
}

/// Whether a handler returns to the interrupted code or diverges.
#[derive(Clone, Copy, PartialEq, Eq, Structural, Debug)]
pub enum HandlerOutcome {
    Resumed,
    Fatal,
}

/// The ASCII code of one hexadecimal digit.
pub open spec fn hex_digit(n: u8) -> u8 {
    if n < 10 {
        (0x30 + n) as u8
    } else {
        (0x57 + n) as u8
    }
}

/// One nibble of a 64-bit value, counting from the most significant.
pub open spec fn nibble_of(v: u64, i: int) -> u8 {
    ((v >> (((15 - i) * 4) as u64)) & 0xf) as u8
}

/// The sixteen hexadecimal digits of a 64-bit value, most significant
/// first.
pub open spec fn hex_bytes(v: u64) -> Seq<u8> {
    Seq::new(16, |i: int| hex_digit(nibble_of(v, i)))
}

/// Computes the sixteen hexadecimal digits of a value, most significant
/// first.
pub fn hex_digits(v: u64) -> (r: Vec<u8>)
    ensures
        r@ == hex_bytes(v),
{
    let mut digits: Vec<u8> = Vec::new();
    let mut i: usize = 0;
    while i < 16
        invariant
            i <= 16,
            digits@.len() == i,
            forall|j: int| 0 <= j < i as int ==> digits@[j] == hex_bytes(v)[j],
        decreases 16 - i,
    {
        let shift: u64 = ((15 - i) as u64) * 4;
        let nib: u64 = (v >> shift) & 0xf;
        proof {
            assert((v >> shift) & 0xf < 16) by (bit_vector);
        }
        let nib8: u8 = nib as u8;
        let d: u8 = if nib8 < 10 {
            0x30 + nib8
        } else {
            0x57 + nib8
        };
        proof {
            assert(nib8 == nibble_of(v, i as int));
            assert(d == hex_digit(nib8));
        }
        digits.push(d);
        i = i + 1;
    }
    proof {
        assert(digits@ =~= hex_bytes(v));
    }
    digits
}

/// Writes a 64-bit value as sixteen hexadecimal digits.
fn write_hex(writer: &mut Writer, v: u64)
    requires
        old(writer)@.wf(),
    ensures
        final(writer)@.wf(),
        final(writer)@ == write_bytes_spec(old(writer)@, hex_bytes(v)),
{
    let digits = hex_digits(v);
    writer.write_bytes(digits.as_slice());
}

/// The diagnostic dump of a saved frame: the fields this kernel reports,
/// each as a labelled hexadecimal value.
pub open spec fn frame_dump_bytes(f: StackFrame) -> Seq<u8> {
    ("RIP=0x").spec_bytes() + hex_bytes(f.instruction_pointer) + (" RSP=0x").spec_bytes()
        + hex_bytes(f.stack_pointer) + (" FLAGS=0x").spec_bytes() + hex_bytes(f.cpu_flags)
        + ("\n").spec_bytes()
}

/// Writes the saved diagnostic frame as labelled hexadecimal fields.
pub fn write_stack_frame(writer: &mut Writer, frame: StackFrame)
    requires
        old(writer)@.wf(),
    ensures
        final(writer)@.wf(),
        final(writer)@ == write_bytes_spec(old(writer)@, frame_dump_bytes(frame)),
{
    let ghost s0 = writer@;
    let ghost c1 = ("RIP=0x").spec_bytes();
    let ghost c2 = (" RSP=0x").spec_bytes();
    let ghost c3 = (" FLAGS=0x").spec_bytes();
    let ghost c4 = ("\n").spec_bytes();
    writer.write_string("RIP=0x");
    write_hex(writer, frame.instruction_pointer);
    writer.write_string(" RSP=0x");
    write_hex(writer, frame.stack_pointer);
    writer.write_string(" FLAGS=0x");
    write_hex(writer, frame.cpu_flags);
    writer.write_string("\n");
    proof {
        let h1 = hex_bytes(frame.instruction_pointer);
        let h2 = hex_bytes(frame.stack_pointer);
        let h3 = hex_bytes(frame.cpu_flags);
        lemma_write_bytes_append(s0, c1, h1);
        lemma_write_bytes_append(s0, c1 + h1, c2);
        lemma_write_bytes_append(s0, c1 + h1 + c2, h2);
        lemma_write_bytes_append(s0, c1 + h1 + c2 + h2, c3);
        lemma_write_bytes_append(s0, c1 + h1 + c2 + h2 + c3, h3);
        lemma_write_bytes_append(s0, c1 + h1 + c2 + h2 + c3 + h3, c4);
    }
}

/// The diagnostic text the breakpoint handler emits.
pub open spec fn breakpoint_message(frame: StackFrame) -> Seq<u8> {
    ("Exception: Breakpoint\n").spec_bytes() + frame_dump_bytes(frame)
}

/// The diagnostic text the double-fault handler emits.
pub open spec fn double_fault_message(frame: StackFrame) -> Seq<u8> {
    ("Exception: Double Fault\n").spec_bytes() + frame_dump_bytes(frame)
}

/// The diagnostic text emitted when a vector with no bound handler fires.
pub open spec fn unhandled_message() -> Seq<u8> {
    ("Exception: Unhandled Vector\n").spec_bytes()
}

/// Breakpoint exception handler: recoverable. Emits the saved diagnostic
/// context through the console driver and resumes the interrupted code. It
/// is a pure CPU exception, so no controller acknowledgment is involved.
pub fn breakpoint_handler(writer: &mut Writer, stack_frame: StackFrame) -> (r: HandlerOutcome)
    requires
        old(writer)@.wf(),
    ensures
        final(writer)@.wf(),
        final(writer)@ == write_bytes_spec(old(writer)@, breakpoint_message(stack_frame)),
        r == HandlerOutcome::Resumed,
{
    let ghost s0 = writer@;
    writer.write_string("Exception: Breakpoint\n");
    write_stack_frame(writer, stack_frame);
    proof {
        lemma_write_bytes_append(
            s0,
            ("Exception: Breakpoint\n").spec_bytes(),
            frame_dump_bytes(stack_frame),
        );
    }
    HandlerOutcome::Resumed
}

/// Double-fault handler: terminal. Emits the saved diagnostic context and
/// reports a fatal outcome: the caller must not resume the interrupted
/// code, it halts the machine for good.
pub fn double_fault_handler(
    writer: &mut Writer,
    stack_frame: StackFrame,
    _error_code: u64,
) -> (r: HandlerOutcome)
    requires
        old(writer)@.wf(),
    ensures
        final(writer)@.wf(),
        final(writer)@ == write_bytes_spec(old(writer)@, double_fault_message(stack_frame)),
        r == HandlerOutcome::Fatal,
{
    let ghost s0 = writer@;
    writer.write_string("Exception: Double Fault\n");
    write_stack_frame(writer, stack_frame);
    proof {
        lemma_write_bytes_append(
            s0,
            ("Exception: Double Fault\n").spec_bytes(),
            frame_dump_bytes(stack_frame),
        );
    }
    HandlerOutcome::Fatal
}

/// Timer-tick handler: recoverable and high frequency. Emits one glyph,
/// acknowledges the timer line so it can fire again, and resumes.
pub fn timer_interrupt_handler(writer: &mut Writer, pics: &mut ControllerPair) -> (r:
    HandlerOutcome)
    requires
        old(writer)@.wf(),
        old(pics).wf(),
        old(pics).spec_initialized(),
        old(pics).spec_handles_vector(PIC_1_OFFSET),
    ensures
        final(writer)@.wf(),
        final(writer)@ == write_bytes_spec(old(writer)@, (".").spec_bytes()),
        final(pics).wf(),
        final(pics).spec_initialized(),
        final(pics).spec_primary_offset() == old(pics).spec_primary_offset(),
        final(pics).spec_secondary_offset() == old(pics).spec_secondary_offset(),
        final(pics).spec_in_service() == old(pics).spec_in_service().update(
            old(pics).spec_line_of(PIC_1_OFFSET),
            false,
        ),
        r == HandlerOutcome::Resumed,
{
    writer.write_string(".");
    pics.acknowledge(InterruptIndex::Timer.as_u8());
    HandlerOutcome::Resumed
}

/// Routes one delivered event through the installed table to its handler:
/// an unbound vector is a fatal unhandled trap; the breakpoint handler
/// logs and resumes; the double-fault handler logs and diverges; the timer
/// handler emits one glyph and acknowledges its line.
pub fn dispatch(
    table: &VectorTable,
    writer: &mut Writer,
    pics: &mut ControllerPair,
    vector: u8,
    frame: StackFrame,
) -> (r: HandlerOutcome)
    requires
        table.wf(),
        table.spec_loaded(),
        old(writer)@.wf(),
        old(pics).wf(),
        table.handler_for(vector) == Some(HandlerKind::Timer) ==> old(pics).spec_initialized()
            && old(pics).spec_handles_vector(PIC_1_OFFSET),
    ensures
        final(writer)@.wf(),
        final(pics).wf(),
        r == (match table.handler_for(vector) {
            Some(HandlerKind::Breakpoint) => HandlerOutcome::Resumed,
            Some(HandlerKind::DoubleFault) => HandlerOutcome::Fatal,
            Some(HandlerKind::Timer) => HandlerOutcome::Resumed,
            None => HandlerOutcome::Fatal,
        }),
        table.handler_for(vector) == Some(HandlerKind::Breakpoint) ==> final(writer)@
            == write_bytes_spec(old(writer)@, breakpoint_message(frame)) && *final(pics) == *old(
            pics,
        ),
        table.handler_for(vector) == Some(HandlerKind::DoubleFault) ==> final(writer)@
            == write_bytes_spec(old(writer)@, double_fault_message(frame)) && *final(pics) == *old(
            pics,
        ),
        table.handler_for(vector) == Some(HandlerKind::Timer) ==> final(writer)@
            == write_bytes_spec(old(writer)@, (".").spec_bytes()) && final(pics).spec_in_service()
            == old(pics).spec_in_service().update(old(pics).spec_line_of(PIC_1_OFFSET), false)
            && final(pics).spec_initialized() && final(pics).spec_primary_offset() == old(
            pics,
        ).spec_primary_offset() && final(pics).spec_secondary_offset() == old(
            pics,
        ).spec_secondary_offset(),
        table.handler_for(vector) is None ==> final(writer)@ == write_bytes_spec(
            old(writer)@,
            unhandled_message(),
        ) && *final(pics) == *old(pics),
    {
    let entry = table.handler_at(vector);
    match entry {
        Some(HandlerKind::Breakpoint) => breakpoint_handler(writer, frame),
        Some(HandlerKind::DoubleFault) => double_fault_handler(writer, frame, 0),
        Some(HandlerKind::Timer) => timer_interrupt_handler(writer, pics),
        None => {
            writer.write_string("Exception: Unhandled Vector\n");
            HandlerOutcome::Fatal
        },
    }
}

/// Under the canonical offsets the primary lines occupy vectors 32 to 39
/// and the secondary lines 40 to 47: neither range intersects the CPU
/// exception vectors 0 to 31, and the two ranges do not intersect each
/// other.
pub proof fn lemma_canonical_offsets_disjoint()
    ensures
        forall|v: int| #[trigger] in_primary_range(v) ==> !in_exception_range(v),
        forall|v: int| #[trigger] in_secondary_range(v) ==> !in_exception_range(v),
        forall|v: int| !(#[trigger] in_primary_range(v) && in_secondary_range(v)),
        ControllerPair::offsets_valid(PIC_1_OFFSET, PIC_2_OFFSET),
{
}

} // verus!
