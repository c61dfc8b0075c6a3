use vstd::prelude::*;

verus! {

/// Vector offset of the primary interrupt controller.
pub const PIC_1_OFFSET: u8 = 32;

/// Vector offset of the secondary interrupt controller.
pub const PIC_2_OFFSET: u8 = PIC_1_OFFSET + 8;

/// Number of vectors reserved for the architecture's exceptions.
pub const EXCEPTION_VECTORS: u8 = 32;

/// Hardware interrupt lines, by the vector they arrive on after the
/// controllers are remapped.
#[derive(Clone, Copy, Debug, PartialEq, Eq, Structural)]
pub enum Index {
    Timer,
    Keyboard,
}

impl Index {
    /// The vector of the line: its number past the primary controller's offset.
    pub open spec fn vector(self) -> u8 {
        match self {
            Index::Timer => PIC_1_OFFSET,
            Index::Keyboard => (PIC_1_OFFSET + 1) as u8,
        }
    }

    pub fn as_u8(self) -> (r: u8)
        ensures
            r == self.vector(),
    {
        match self {
            Index::Timer => PIC_1_OFFSET,
            Index::Keyboard => PIC_1_OFFSET + 1,
        }
    }

    pub fn as_usize(self) -> (r: usize)
        ensures
            r == self.vector() as usize,
    {
        self.as_u8() as usize
    }
}

/// Offsets for a pair of chained controllers are valid when neither range
/// meets the exception vectors, the secondary follows the primary directly,
/// and both fit in the vector table.
pub open spec fn controller_offsets_valid(primary: u8, secondary: u8) -> bool {
    &&& primary >= EXCEPTION_VECTORS
    &&& secondary == primary + 8
    &&& secondary + 8 <= 256
}

/// The controllers are remapped to valid offsets, and every hardware line's
/// vector lies in the primary controller's range.
pub proof fn lemma_controller_offsets_valid()
    ensures
        controller_offsets_valid(PIC_1_OFFSET, PIC_2_OFFSET),
        forall|i: Index| PIC_1_OFFSET <= #[trigger] i.vector() < PIC_2_OFFSET,
{
}

/// What a hardware-interrupt handler does once it has run.
#[derive(Clone, Copy, Debug, PartialEq, Eq, Structural)]
pub struct IrqResponse {
    /// Whether the decoded key is shown on the diagnostic output.
    pub echo_key: bool,
    /// The vector to signal end-of-interrupt for.
    pub end_of_interrupt: u8,
}

/// The response to line `irq`; `key_decoded` tells whether the keyboard
/// decoder produced a key from the scancode just read. Every line is
/// acknowledged on its own vector, whether or not a key was decoded.
pub fn on_irq(irq: Index, key_decoded: bool) -> (r: IrqResponse)
    ensures
        r.end_of_interrupt == irq.vector(),
        r.echo_key == (irq == Index::Keyboard && key_decoded),
{
    match irq {
        Index::Timer => IrqResponse { echo_key: false, end_of_interrupt: irq.as_u8() },
        Index::Keyboard => IrqResponse { echo_key: key_decoded, end_of_interrupt: irq.as_u8() },
    }
}

/// Number of end-of-interrupt signals on `vector` in `acks`.
pub open spec fn acks_on(acks: Seq<u8>, vector: u8) -> nat
    decreases acks.len(),
{
    if acks.len() == 0 {
        0
    } else {
        acks_on(acks.drop_last(), vector) + if acks.last() == vector {
            1nat
        } else {
            0nat
        }
    }
}

/// Number of interrupts on line `irq` in `irqs`.
pub open spec fn deliveries_of(irqs: Seq<Index>, irq: Index) -> nat
    decreases irqs.len(),
{
    if irqs.len() == 0 {
        0
    } else {
        deliveries_of(irqs.drop_last(), irq) + if irqs.last() == irq {
            1nat
        } else {
            0nat
        }
    }
}

/// The acknowledgements that `on_irq` gives for a run of interrupts, in order.
pub open spec fn acknowledgements(irqs: Seq<Index>) -> Seq<u8> {
    irqs.map_values(|i: Index| i.vector())
}

/// After any run of interrupts, each line has received exactly as many
/// end-of-interrupt signals as it had interrupts delivered.
pub proof fn lemma_every_irq_acknowledged_once(irqs: Seq<Index>, irq: Index)
    ensures
        acks_on(acknowledgements(irqs), irq.vector()) == deliveries_of(irqs, irq),
    decreases irqs.len(),
{
    if irqs.len() > 0 {
        lemma_every_irq_acknowledged_once(irqs.drop_last(), irq);
        assert(acknowledgements(irqs).drop_last() =~= acknowledgements(irqs.drop_last()));
    }
}

/// The architecture exceptions that have a handler.
#[derive(Clone, Copy, Debug, PartialEq, Eq, Structural)]
pub enum Exception {
    Breakpoint,
    DoubleFault,
    PageFault,
}

/// How execution goes on after an exception has been reported.
#[derive(Clone, Copy, Debug, PartialEq, Eq, Structural)]
pub enum Continuation {
    /// Return to the interrupted instruction stream.
    Resume,
    /// Stop the processor for good.
    Halt,
}

/// A breakpoint is recoverable; a double fault or a page fault is fatal.
pub fn after_exception(e: Exception) -> (r: Continuation)
    ensures
        r == (if e == Exception::Breakpoint {
            Continuation::Resume
        } else {
            Continuation::Halt
        }),
{
    match e {
        Exception::Breakpoint => Continuation::Resume,
        Exception::DoubleFault => Continuation::Halt,
        Exception::PageFault => Continuation::Halt,
    }
}

} // verus!
