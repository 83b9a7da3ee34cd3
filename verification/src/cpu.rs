//! The CPU execution engine: register state, the flag-update policy, and
//! the opcode dispatch loop.

use vstd::prelude::*;

verus! {

/// Opcode of Load-Accumulator-Immediate: one operand byte follows.
pub const OPCODE_LDA_IMMEDIATE: u8 = 0xA9;

/// Opcode of Transfer-Accumulator-To-Index.
pub const OPCODE_TAX: u8 = 0xAA;

/// Opcode of Increment-Index.
pub const OPCODE_INX: u8 = 0xE8;

/// Opcode of Halt: ends the dispatch loop.
pub const OPCODE_HALT: u8 = 0x00;

/// Bit of the status register holding the zero flag (bit position 1).
pub const ZERO_FLAG_BIT: u8 = 0b0000_0010;

/// Bit of the status register holding the negative flag (bit position 7).
pub const NEGATIVE_FLAG_BIT: u8 = 0b1000_0000;

/// A fault that ends a run of the dispatch loop.
///
/// An unrecognized opcode is treated as a fatal fault: the loop stops at
/// once and reports the offending byte, rather than skipping it or halting
/// silently.
#[derive(Clone, Copy, Debug, PartialEq, Eq, Structural)]
pub enum CpuFault {
    /// A fetch (of an opcode or an operand byte) was attempted at or past
    /// the end of the instruction stream.
    StreamBounds,
    /// The fetched opcode byte matches no defined operation.
    UnrecognizedOpcode(u8),
}

/// The register file and status register of one emulated CPU instance.
pub struct CPU {
    /// The accumulator.
    pub register_a: u8,
    /// The X index register.
    pub register_x: u8,
    /// The status register: bit 1 is the zero flag, bit 7 the negative
    /// flag; the other bits are reserved and never touched here.
    pub status: u8,
    /// Address of the next byte to fetch from the instruction stream.
    pub program_counter: usize,
}

/// The status register after the flag-update policy is applied for a value
/// just written to a register: the zero flag is set iff the value is zero,
/// the negative flag iff its bit 7 is set; the reserved bits are kept.
pub open spec fn flags_updated(status: u8, value: u8) -> u8 {
    let with_zero = if value == 0 {
        status | ZERO_FLAG_BIT
    } else {
        status & !ZERO_FLAG_BIT
    };
    if value & NEGATIVE_FLAG_BIT != 0 {
        with_zero | NEGATIVE_FLAG_BIT
    } else {
        with_zero & !NEGATIVE_FLAG_BIT
    }
}

/// True iff the zero flag is set in this CPU's status register.
pub open spec fn spec_zero_flag(cpu: CPU) -> bool {
    cpu.status & ZERO_FLAG_BIT != 0
}

/// True iff the negative flag is set in this CPU's status register.
pub open spec fn spec_negative_flag(cpu: CPU) -> bool {
    cpu.status & NEGATIVE_FLAG_BIT != 0
}

/// The CPU after Load-Accumulator-Immediate writes `value` into the
/// accumulator and applies the flag-update policy to it.
pub open spec fn spec_lda(cpu: CPU, value: u8) -> CPU {
    CPU {
        register_a: value,
        register_x: cpu.register_x,
        status: flags_updated(cpu.status, value),
        program_counter: cpu.program_counter,
    }
}

/// The CPU after Transfer-Accumulator-To-Index copies the accumulator into
/// the index register and applies the flag-update policy to that value.
pub open spec fn spec_tax(cpu: CPU) -> CPU {
    CPU {
        register_a: cpu.register_a,
        register_x: cpu.register_a,
        status: flags_updated(cpu.status, cpu.register_a),
        program_counter: cpu.program_counter,
    }
}

/// The CPU after Increment-Index adds one to the index register modulo 256
/// and applies the flag-update policy to the new value.
pub open spec fn spec_inx(cpu: CPU) -> CPU {
    let incremented = ((cpu.register_x + 1) % 256) as u8;
    CPU {
        register_a: cpu.register_a,
        register_x: incremented,
        status: flags_updated(cpu.status, incremented),
        program_counter: cpu.program_counter,
    }
}

/// The CPU with the program counter advanced one byte past a fetch.
pub open spec fn spec_advance(cpu: CPU) -> CPU {
    CPU {
        register_a: cpu.register_a,
        register_x: cpu.register_x,
        status: cpu.status,
        program_counter: (cpu.program_counter + 1) as usize,
    }
}

/// The dispatch loop run from a given state: fetch the byte at the program
/// counter, advance the counter, decode, execute, repeat, until a Halt
/// opcode ends the run or a fault does. Yields the final CPU state and the
/// fault, if any. A fetch at or past the end of the stream is a
/// stream-bounds fault; a byte matching no defined opcode is an
/// unrecognized-opcode fault.
pub open spec fn run_from(cpu: CPU, program: Seq<u8>) -> (CPU, Option<CpuFault>)
    decreases program.len() - cpu.program_counter,
        when program.len() <= usize::MAX
{
    if cpu.program_counter >= program.len() {
        (cpu, Some(CpuFault::StreamBounds))
    } else {
        let opcode = program[cpu.program_counter as int];
        let fetched = spec_advance(cpu);
        if opcode == OPCODE_HALT {
            (fetched, None)
        } else if opcode == OPCODE_LDA_IMMEDIATE {
            if fetched.program_counter >= program.len() {
                (fetched, Some(CpuFault::StreamBounds))
            } else {
                let operand = program[fetched.program_counter as int];
                run_from(spec_lda(spec_advance(fetched), operand), program)
            }
        } else if opcode == OPCODE_TAX {
            run_from(spec_tax(fetched), program)
        } else if opcode == OPCODE_INX {
            run_from(spec_inx(fetched), program)
        } else {
            (fetched, Some(CpuFault::UnrecognizedOpcode(opcode)))
        }
    }
}

/// What one call of the run entry point does: the program counter is reset
/// to zero and the dispatch loop runs from there.
pub open spec fn spec_interpret(cpu: CPU, program: Seq<u8>) -> (CPU, Option<CpuFault>) {
    run_from(
        CPU {
            register_a: cpu.register_a,
            register_x: cpu.register_x,
            status: cpu.status,
            program_counter: 0,
        },
        program,
    )
}

/// The flag-update policy sets exactly the two flags it speaks of — the
/// zero flag iff the value is zero, the negative flag iff the value's
/// bit 7 is set — and leaves every reserved bit of the status register
/// as it was, whatever its prior state.
pub proof fn lemma_flags_updated(status: u8, value: u8)
    ensures
        flags_updated(status, value) & ZERO_FLAG_BIT != 0 <==> value == 0,
        flags_updated(status, value) & NEGATIVE_FLAG_BIT != 0 <==> value & NEGATIVE_FLAG_BIT != 0,
        flags_updated(status, value) & !(ZERO_FLAG_BIT | NEGATIVE_FLAG_BIT)
            == status & !(ZERO_FLAG_BIT | NEGATIVE_FLAG_BIT),
{
    assert(0u8 & NEGATIVE_FLAG_BIT == 0) by (bit_vector);
    if value == 0 {
        assert((status | ZERO_FLAG_BIT) & !NEGATIVE_FLAG_BIT & ZERO_FLAG_BIT != 0) by (bit_vector);
        assert((status | ZERO_FLAG_BIT) & !NEGATIVE_FLAG_BIT & NEGATIVE_FLAG_BIT == 0) by (bit_vector);
        assert((status | ZERO_FLAG_BIT) & !NEGATIVE_FLAG_BIT & !(ZERO_FLAG_BIT | NEGATIVE_FLAG_BIT)
            == status & !(ZERO_FLAG_BIT | NEGATIVE_FLAG_BIT)) by (bit_vector);
    } else if value & NEGATIVE_FLAG_BIT != 0 {
        assert((status & !ZERO_FLAG_BIT | NEGATIVE_FLAG_BIT) & ZERO_FLAG_BIT == 0) by (bit_vector);
        assert((status & !ZERO_FLAG_BIT | NEGATIVE_FLAG_BIT) & NEGATIVE_FLAG_BIT != 0) by (bit_vector);
        assert((status & !ZERO_FLAG_BIT | NEGATIVE_FLAG_BIT) & !(ZERO_FLAG_BIT | NEGATIVE_FLAG_BIT)
            == status & !(ZERO_FLAG_BIT | NEGATIVE_FLAG_BIT)) by (bit_vector);
    } else {
        assert((status & !ZERO_FLAG_BIT) & !NEGATIVE_FLAG_BIT & ZERO_FLAG_BIT == 0) by (bit_vector);
        assert((status & !ZERO_FLAG_BIT) & !NEGATIVE_FLAG_BIT & NEGATIVE_FLAG_BIT == 0) by (bit_vector);
        assert((status & !ZERO_FLAG_BIT) & !NEGATIVE_FLAG_BIT & !(ZERO_FLAG_BIT | NEGATIVE_FLAG_BIT)
            == status & !(ZERO_FLAG_BIT | NEGATIVE_FLAG_BIT)) by (bit_vector);
    }
}

/// Halting leaves every register and every flag unchanged from its state
/// immediately before the halt opcode was fetched: the run ends at once
/// without fault, and only the program counter moves, to just past the
/// halt opcode.
pub proof fn lemma_halt_preserves_state(cpu: CPU, program: Seq<u8>)
    requires
        program.len() <= usize::MAX,
        cpu.program_counter < program.len(),
        program[cpu.program_counter as int] == OPCODE_HALT,
    ensures
        run_from(cpu, program) == (spec_advance(cpu), None::<CpuFault>),
        run_from(cpu, program).0.register_a == cpu.register_a,
        run_from(cpu, program).0.register_x == cpu.register_x,
        run_from(cpu, program).0.status == cpu.status,
        run_from(cpu, program).0.program_counter == cpu.program_counter + 1,
{
}

/// Round trip: running the sequence Load-Immediate(v), Halt always ends
/// without fault, leaves the accumulator equal to `v`, and leaves the index
/// register unchanged from its value before the run.
pub proof fn lemma_load_halt_round_trip(cpu: CPU, v: u8)
    ensures
        spec_interpret(cpu, seq![OPCODE_LDA_IMMEDIATE, v, OPCODE_HALT]).1 is None,
        spec_interpret(cpu, seq![OPCODE_LDA_IMMEDIATE, v, OPCODE_HALT]).0.register_a == v,
        spec_interpret(cpu, seq![OPCODE_LDA_IMMEDIATE, v, OPCODE_HALT]).0.register_x
            == cpu.register_x,
{
    let program = seq![OPCODE_LDA_IMMEDIATE, v, OPCODE_HALT];
    let start = CPU {
        register_a: cpu.register_a,
        register_x: cpu.register_x,
        status: cpu.status,
        program_counter: 0,
    };
    let loaded = spec_lda(spec_advance(spec_advance(start)), v);
    assert(run_from(start, program) == run_from(loaded, program));
    assert(run_from(loaded, program) == (spec_advance(loaded), None::<CpuFault>));
}

impl CPU {
    /// A fresh core: registers, status register and program counter all zero.
    pub fn new() -> (cpu: Self)
        ensures
            cpu.register_a == 0,
            cpu.register_x == 0,
            cpu.status == 0,
            cpu.program_counter == 0,
    {
        Self {
            register_a: 0,
            register_x: 0,
            status: 0,
            program_counter: 0,
        }
    }

    /// Applies the flag-update policy for a value just written to a
    /// register: the zero flag becomes set iff the value is zero, the
    /// negative flag iff the value's bit 7 is set; both are replaced
    /// outright, independent of their prior state, and the reserved bits
    /// and all registers are untouched.
    pub fn update_zero_and_negative_flags(&mut self, value: u8)
        ensures
            final(self).status == flags_updated(old(self).status, value),
            spec_zero_flag(*final(self)) <==> value == 0,
            spec_negative_flag(*final(self)) <==> value & NEGATIVE_FLAG_BIT != 0,
            final(self).status & !(ZERO_FLAG_BIT | NEGATIVE_FLAG_BIT)
                == old(self).status & !(ZERO_FLAG_BIT | NEGATIVE_FLAG_BIT),
            final(self).register_a == old(self).register_a,
            final(self).register_x == old(self).register_x,
            final(self).program_counter == old(self).program_counter,
    {
        if value == 0 {
            self.status = self.status | ZERO_FLAG_BIT;
        } else {
            self.status = self.status & !ZERO_FLAG_BIT;
        }
        if value & NEGATIVE_FLAG_BIT != 0 {
            self.status = self.status | NEGATIVE_FLAG_BIT;
        } else {
            self.status = self.status & !NEGATIVE_FLAG_BIT;
        }
        proof {
            lemma_flags_updated(old(self).status, value);
        }
    }

    /// Load-Accumulator-Immediate: writes `value` into the accumulator.
    /// The zero flag becomes set iff `value` is zero, the negative flag iff
    /// its bit 7 is set, both independent of the prior flag state; the index
    /// register and program counter are untouched.
    pub fn lda(&mut self, value: u8)
        ensures
            *final(self) == spec_lda(*old(self), value),
            final(self).register_a == value,
            final(self).register_x == old(self).register_x,
            final(self).program_counter == old(self).program_counter,
            spec_zero_flag(*final(self)) <==> value == 0,
            spec_negative_flag(*final(self)) <==> value & NEGATIVE_FLAG_BIT != 0,
    {
        self.register_a = value;
        self.update_zero_and_negative_flags(self.register_a);
    }

    /// Transfer-Accumulator-To-Index: the index register becomes equal to
    /// the accumulator's value at the time of transfer, and the flags are
    /// updated from that same value: the zero flag becomes set iff it is
    /// zero, the negative flag iff its bit 7 is set.
    pub fn tax(&mut self)
        ensures
            *final(self) == spec_tax(*old(self)),
            final(self).register_x == old(self).register_a,
            final(self).register_a == old(self).register_a,
            final(self).program_counter == old(self).program_counter,
            spec_zero_flag(*final(self)) <==> old(self).register_a == 0,
            spec_negative_flag(*final(self)) <==> old(self).register_a & NEGATIVE_FLAG_BIT != 0,
    {
        self.register_x = self.register_a;
        self.update_zero_and_negative_flags(self.register_x);
    }

    /// Increment-Index: adds one to the index register with wraparound
    /// (modulo-256) arithmetic, so incrementing 0xFF yields 0x00 rather than
    /// faulting or saturating, and updates the flags from the new value.
    pub fn inx(&mut self)
        ensures
            *final(self) == spec_inx(*old(self)),
            final(self).register_x as int == (old(self).register_x + 1) % 256,
            old(self).register_x == 0xFF ==> final(self).register_x == 0 && spec_zero_flag(
                *final(self),
            ),
            old(self).register_x != 0xFF ==> final(self).register_x == old(self).register_x + 1,
            final(self).register_a == old(self).register_a,
            final(self).program_counter == old(self).program_counter,
            spec_zero_flag(*final(self)) <==> old(self).register_x == 0xFF,
            spec_negative_flag(*final(self)) <==> final(self).register_x & NEGATIVE_FLAG_BIT != 0,
    {
        self.register_x = self.register_x.wrapping_add(1);
        self.update_zero_and_negative_flags(self.register_x);
    }

    /// Runs a program to completion: resets the program counter to zero,
    /// then fetches, decodes and executes instructions until a Halt opcode
    /// is consumed (`Ok`) or a fault ends the run (`Err`). A fetch at or
    /// past the end of the stream never reads out of bounds: it is reported
    /// as a stream-bounds fault, and an opcode matching no defined
    /// operation as an unrecognized-opcode fault, each leaving the
    /// registers and flags as the instructions already executed set them.
    pub fn interpret(&mut self, program: Vec<u8>) -> (r: Result<(), CpuFault>)
        ensures
            *final(self) == spec_interpret(*old(self), program@).0,
            r == (match spec_interpret(*old(self), program@).1 {
                None => Ok::<(), CpuFault>(()),
                Some(fault) => Err::<(), CpuFault>(fault),
            }),
    {
        let stream_len = program.len();
        self.program_counter = 0;
        loop
            invariant
                program@.len() == stream_len,
                self.program_counter <= stream_len,
                run_from(*self, program@) == spec_interpret(*old(self), program@),
            decreases stream_len - self.program_counter,
        {
            if self.program_counter >= stream_len {
                return Err(CpuFault::StreamBounds);
            }
            let opcode = program[self.program_counter];
            self.program_counter = self.program_counter + 1;

            match opcode {
                0xA9 => {
                    if self.program_counter >= stream_len {
                        return Err(CpuFault::StreamBounds);
                    }
                    let operand = program[self.program_counter];
                    self.program_counter = self.program_counter + 1;
                    self.lda(operand);
                },
                0xAA => self.tax(),
                0xE8 => self.inx(),
                0x00 => return Ok(()),
                other => return Err(CpuFault::UnrecognizedOpcode(other)),
            }
        }
    }

    /// True iff the zero flag is set.
    pub fn zero_flag(&self) -> (r: bool)
        ensures
            r == spec_zero_flag(*self),
    {
        self.status & ZERO_FLAG_BIT != 0
    }

    /// True iff the negative flag is set.
    pub fn negative_flag(&self) -> (r: bool)
        ensures
            r == spec_negative_flag(*self),
    {
        self.status & NEGATIVE_FLAG_BIT != 0
    }
}

} // verus!
