//! The CPU: registers, a pending interrupt and the memory on its bus.
use vstd::prelude::*;
use crate::error::Error;
use crate::flags::{CpuFlags, Status, default_status_bits};
use crate::interrupts::Interrupt;
use crate::memory::Memory;
use crate::model::{
    indirect_target_ok, unstable_base, unstable_base_ok, enter_handler_ok,
    CpuModel, absolute_address, absolute_address_ok, add_to_accumulator, and, asl, bit, branch,
    branch_ok, compare_flags, eor, fetched, handle_interrupt, handle_interrupt_ok, instruction,
    instruction_ok, is_handled, jsr, jsr_ok, lemma_instruction_consumes, lemma_run_done,
    lemma_run_fetch, lemma_run_interrupt, lemma_run_stall, lda, lsr, operand, operand_address,
    operand_address_ok, operand_ok, ora, plp, pop, pop16, pop16_ok, pop_ok, push, push16, push16_ok,
    push_ok, read, read16, read16_ok, read_ok, reset, reset_ok, rmw_ok, rol, ror, rti, rti_ok, rts,
    rts_ok, run, rw_ok, step_memory, store, store_ok, sub_from_accumulator, write_byte, write_ok,
};
use crate::ops::{AddressingMode, Mnemonic, OpCode, lookup_opcode, lemma_opcode_table_entries, opcode_table};

verus! {

/// A MOS 6502 CPU whose bus is `M`.
pub struct Mos6502<M> {
    pub status: Status,
    pub accumulator: u8,
    pub index_x: u8,
    pub index_y: u8,
    pub program_counter: u16,
    pub stack_pointer: u8,
    pub interrupt: Option<Interrupt>,
    pub bus: M,
}

impl<M: Memory> Mos6502<M> {
    /// The CPU as the instruction semantics in `model` see it.
    pub open spec fn state(&self) -> CpuModel<M::Model> {
        CpuModel {
            status: self.status.bits,
            accumulator: self.accumulator,
            index_x: self.index_x,
            index_y: self.index_y,
            program_counter: self.program_counter,
            stack_pointer: self.stack_pointer,
            interrupt: self.interrupt,
            mem: self.bus.model(),
        }
    }

    /// A CPU on `bus` with its registers at zero, the status at its default
    /// and no interrupt pending.
    pub fn new(bus: M) -> (r: Self)
        ensures
            r.state() == (CpuModel {
                status: default_status_bits(),
                accumulator: 0,
                index_x: 0,
                index_y: 0,
                program_counter: 0,
                stack_pointer: 0,
                interrupt: None,
                mem: bus.model(),
            }),
    {
        Mos6502 {
            status: Status::default(),
            accumulator: 0,
            index_x: 0,
            index_y: 0,
            program_counter: 0,
            stack_pointer: 0,
            interrupt: None,
            bus,
        }
    }

    pub(crate) fn read(&self, addr: u16) -> (r: u8)
        requires
            read_ok::<M>(self.state(), addr),
        ensures
            r == read::<M>(self.state(), addr),
    {
        self.bus.mem_read(addr)
    }

    pub(crate) fn read16(&self, addr: u16) -> (r: u16)
        requires
            read16_ok::<M>(self.state(), addr),
        ensures
            r == read16::<M>(self.state(), addr),
    {
        self.bus.mem_read_u16(addr)
    }

    fn write_byte(&mut self, addr: u16, data: u8)
        requires
            write_ok::<M>(old(self).state(), addr),
        ensures
            final(self).state() == write_byte::<M>(old(self).state(), addr, data),
    {
        self.bus.mem_write(addr, data);
    }

    #[verifier::spinoff_prover]
    #[verifier::rlimit(30)]
    pub(crate) fn get_absolute_address(&self, mode: &AddressingMode, addr: u16) -> (r: (u16, bool))
        requires
            absolute_address_ok::<M>(self.state(), *mode, addr),
        ensures
            r == absolute_address::<M>(self.state(), *mode, addr),
    {
        match mode {
            AddressingMode::Immediate => (addr, false),
            AddressingMode::Absolute => (self.read16(addr), false),
            AddressingMode::ZeroPage => (self.read(addr) as u16, false),
            AddressingMode::AbsoluteX => {
                let absolute_addr = self.read16(addr);
                let effective_addr = absolute_addr.wrapping_add(self.index_x as u16);
                (effective_addr, page_crossed(absolute_addr, effective_addr))
            },
            AddressingMode::AbsoluteY => {
                let absolute_addr = self.read16(addr);
                let effective_addr = absolute_addr.wrapping_add(self.index_y as u16);
                (effective_addr, page_crossed(absolute_addr, effective_addr))
            },
            AddressingMode::ZeroPageX => {
                let addr = self.read(addr);
                (addr.wrapping_add(self.index_x) as u16, false)
            },
            AddressingMode::ZeroPageY => {
                let addr = self.read(addr);
                (addr.wrapping_add(self.index_y) as u16, false)
            },
            AddressingMode::IndirectX => {
                let base = self.read(addr) as u16;
                let ptr = (base as u8).wrapping_add(self.index_x);
                let zero_page_ptr = ptr as u16 & 0x00FF;
                assert(zero_page_ptr == ptr as u16) by (bit_vector)
                    requires
                        zero_page_ptr == ptr as u16 & 0x00FFu16,
                ;
                let mem_addr = self.bus.mem_read_u16_wrap(zero_page_ptr);
                (mem_addr, false)
            },
            AddressingMode::IndirectY => {
                let base = self.read(addr);
                let ptr = base.wrapping_add(self.index_y);
                let mem_addr = self.bus.mem_read_u16_wrap(ptr as u16);
                (mem_addr, false)
            },
            _ => (0x0000, false),
        }
    }

    fn get_operand_address(&self, mode: &AddressingMode) -> (r: (u16, bool))
        requires
            operand_address_ok::<M>(self.state(), *mode),
        ensures
            r == operand_address::<M>(self.state(), *mode),
    {
        match mode {
            AddressingMode::Immediate => (self.program_counter, false),
            _ => self.get_absolute_address(mode, self.program_counter),
        }
    }

    /// The byte at the operand's effective address, and whether indexing
    /// crossed a page.
    fn fetch_operand(&self, mode: &AddressingMode) -> (r: (u8, bool))
        requires
            operand_ok::<M>(self.state(), *mode),
        ensures
            r == (operand::<M>(self.state(), *mode), operand_address::<M>(self.state(), *mode).1),
    {
        let (addr, page_cross) = self.get_operand_address(mode);
        (self.read(addr), page_cross)
    }
}

impl<M: Memory> Mos6502<M> {
    /// Resets the CPU: the stack pointer to $FD, the status to its default,
    /// X, Y and A to 0, and the program counter to the reset vector at $FFFC.
    pub fn reset(&mut self)
        requires
            reset_ok::<M>(old(self).state()),
        ensures
            final(self).state() == reset::<M>(old(self).state()),
    {
        self.stack_pointer = 0xFD;
        self.status = Status::default();
        self.index_x = 0;
        self.index_y = 0;
        self.accumulator = 0;
        self.program_counter = self.read16(0xFFFC);
    }

    /// Decrement the stack pointer and read the value stored.
    fn stack_pop(&mut self) -> (r: u8)
        requires
            pop_ok::<M>(old(self).state()),
        ensures
            (final(self).state(), r) == pop::<M>(old(self).state()),
    {
        self.stack_pointer = self.stack_pointer.wrapping_sub(1);
        let addr: u16 = 0x0100 + self.stack_pointer as u16;
        self.read(addr)
    }

    /// Push data to the stack and increment the pointer.
    fn stack_push(&mut self, data: u8)
        requires
            push_ok::<M>(old(self).state()),
        ensures
            final(self).state() == push::<M>(old(self).state(), data),
    {
        let addr: u16 = 0x0100 + self.stack_pointer as u16;
        self.write_byte(addr, data);
        self.stack_pointer = self.stack_pointer.wrapping_add(1);
    }

    /// Push a 16-bit value to the stack, high byte first.
    fn stack_push_u16(&mut self, data: u16)
        requires
            push16_ok::<M>(old(self).state(), data),
        ensures
            final(self).state() == push16::<M>(old(self).state(), data),
    {
        let hi = (data / 256) as u8;
        let lo = (data % 256) as u8;
        self.stack_push(hi);
        self.stack_push(lo);
    }

    /// Pop a 16-bit value from the stack, low byte first.
    fn stack_pop_u16(&mut self) -> (r: u16)
        requires
            pop16_ok::<M>(old(self).state()),
        ensures
            (final(self).state(), r) == pop16::<M>(old(self).state()),
    {
        let lo = self.stack_pop() as u16;
        let hi = self.stack_pop() as u16;
        hi * 256 + lo
    }

    /// Sets the Carry flag when `condition` holds; otherwise leaves it.
    fn set_carry_if(&mut self, condition: bool)
        ensures
            final(self).state() == if condition {
                old(self).state().set_flag(CpuFlags::Carry, true)
            } else {
                old(self).state()
            },
    {
        if condition {
            self.status.insert(CpuFlags::Carry);
        }
    }

    /// Sets the Carry flag
    fn sec(&mut self)
        ensures
            final(self).state() == old(self).state().set_flag(CpuFlags::Carry, true),
    {
        self.status.insert(CpuFlags::Carry);
    }

    /// Clears the Carry flag
    fn clc(&mut self)
        ensures
            final(self).state() == old(self).state().set_flag(CpuFlags::Carry, false),
    {
        self.status.remove(CpuFlags::Carry);
    }

    fn update_zero_negative_flags(&mut self, value: u8)
        ensures
            final(self).state() == old(self).state().set_zn(value),
    {
        if value == 0 {
            self.status.insert(CpuFlags::Zero);
        } else {
            self.status.remove(CpuFlags::Zero);
        }
        // If bit 7 is set to 1, set the negative flag
        if (value & 0b10000000) != 0 {
            self.status.insert(CpuFlags::Negative);
        } else {
            self.status.remove(CpuFlags::Negative);
        }
    }

    /// Subtracts a value and the borrow (the clear carry) from the accumulator.
    fn sub_from_accumulator(&mut self, value: u8)
        ensures
            final(self).state() == sub_from_accumulator(old(self).state(), value),
    {
        let borrow: u8 = if self.status.contains(CpuFlags::Carry) { 0 } else { 1 };
        let result = self.accumulator.wrapping_sub(value).wrapping_sub(borrow);

        // Carry means that no borrow was needed.
        if self.accumulator as u16 >= value as u16 + borrow as u16 {
            self.status.insert(CpuFlags::Carry);
        } else {
            self.status.remove(CpuFlags::Carry);
        }

        if (self.accumulator ^ value) & (self.accumulator ^ result) & 0x80 != 0 {
            self.status.insert(CpuFlags::Overflow);
        } else {
            self.status.remove(CpuFlags::Overflow);
        }

        self.accumulator = result;
        self.update_zero_negative_flags(self.accumulator);
    }

    /// Adds a value and the carry to the accumulator.
    fn add_to_accumulator(&mut self, value: u8)
        ensures
            final(self).state() == add_to_accumulator(old(self).state(), value),
    {
        let carry_in: u8 = if self.status.contains(CpuFlags::Carry) { 1 } else { 0 };
        let result = self.accumulator.wrapping_add(value).wrapping_add(carry_in);

        // Carry is the carry out of the 9-bit sum.
        if self.accumulator as u16 + value as u16 + carry_in as u16 > 255 {
            self.status.insert(CpuFlags::Carry);
        } else {
            self.status.remove(CpuFlags::Carry);
        }

        if (value ^ result) & (result ^ self.accumulator) & 0x80 != 0 {
            self.status.insert(CpuFlags::Overflow);
        } else {
            self.status.remove(CpuFlags::Overflow);
        }

        self.accumulator = result;
        self.update_zero_negative_flags(self.accumulator);
    }
}

// MOS 6502 Instruction Handlers
impl<M: Memory> Mos6502<M> {
    /// Add with Carry
    fn adc(&mut self, mode: &AddressingMode) -> (r: bool)
        requires
            operand_ok::<M>(old(self).state(), *mode),
        ensures
            final(self).state() == add_to_accumulator(old(self).state(), operand::<M>(old(self).state(), *mode)),
            r == operand_address::<M>(old(self).state(), *mode).1,
    {
        let (data, page_cross) = self.fetch_operand(mode);
        self.add_to_accumulator(data);
        page_cross
    }

    /// Logical AND
    fn and(&mut self, mode: &AddressingMode) -> (r: bool)
        requires
            operand_ok::<M>(old(self).state(), *mode),
        ensures
            final(self).state() == and::<M>(old(self).state(), *mode),
            r == operand_address::<M>(old(self).state(), *mode).1,
    {
        let (data, page_cross) = self.fetch_operand(mode);
        self.accumulator = self.accumulator & data;
        self.update_zero_negative_flags(self.accumulator);
        page_cross
    }

    /// Arithmetic Shift Left
    fn asl(&mut self, mode: &AddressingMode) -> (r: u8)
        requires
            rmw_ok::<M>(old(self).state(), *mode),
        ensures
            (final(self).state(), r) == asl::<M>(old(self).state(), *mode),
    {
        let on_accumulator = *mode == AddressingMode::NoneAddressing;
        let addr = if on_accumulator { 0 } else { self.get_operand_address(mode).0 };
        let data = if on_accumulator { self.accumulator } else { self.read(addr) };
        if data >> 7u8 == 1 {
            self.sec();
        } else {
            self.clc();
        }
        let data = data << 1u8;
        if on_accumulator {
            self.accumulator = data;
        } else {
            self.write_byte(addr, data);
        }
        self.update_zero_negative_flags(data);
        data
    }

    /// Branch if Carry Clear
    fn bcc(&mut self) -> (r: u8)
        requires
            branch_ok::<M>(old(self).state(), !old(self).state().flag(CpuFlags::Carry)),
        ensures
            (final(self).state(), r) == branch::<M>(old(self).state(), !old(self).state().flag(CpuFlags::Carry)),
    {
        self.branch(!self.status.contains(CpuFlags::Carry))
    }

    /// Branch if Carry Set
    fn bcs(&mut self) -> (r: u8)
        requires
            branch_ok::<M>(old(self).state(), old(self).state().flag(CpuFlags::Carry)),
        ensures
            (final(self).state(), r) == branch::<M>(old(self).state(), old(self).state().flag(CpuFlags::Carry)),
    {
        self.branch(self.status.contains(CpuFlags::Carry))
    }

    /// Branch if Equal
    fn beq(&mut self) -> (r: u8)
        requires
            branch_ok::<M>(old(self).state(), old(self).state().flag(CpuFlags::Zero)),
        ensures
            (final(self).state(), r) == branch::<M>(old(self).state(), old(self).state().flag(CpuFlags::Zero)),
    {
        self.branch(self.status.contains(CpuFlags::Zero))
    }

    /// Bit Test
    fn bit(&mut self, mode: &AddressingMode)
        requires
            operand_ok::<M>(old(self).state(), *mode),
        ensures
            final(self).state() == bit::<M>(old(self).state(), *mode),
    {
        let (mask, _) = self.fetch_operand(mode);
        if self.accumulator & mask == 0 {
            self.status.insert(CpuFlags::Zero);
        } else {
            self.status.remove(CpuFlags::Zero);
        }
        if mask & 0b10000000 != 0 {
            self.status.insert(CpuFlags::Negative);
        } else {
            self.status.remove(CpuFlags::Negative);
        }
        if mask & 0b01000000 != 0 {
            self.status.insert(CpuFlags::Overflow);
        } else {
            self.status.remove(CpuFlags::Overflow);
        }
    }

    fn branch(&mut self, condition: bool) -> (r: u8)
        requires
            branch_ok::<M>(old(self).state(), condition),
        ensures
            (final(self).state(), r) == branch::<M>(old(self).state(), condition),
    {
        let mut result: u8 = 0;
        if condition {
            result += 1;
            let jump: i8 = self.read(self.program_counter) as i8;
            let jump_addr = self.program_counter.wrapping_add(1).wrapping_add(jump as u16);

            if self.program_counter.wrapping_add(1) & 0xff00 != jump_addr & 0xff00 {
                result += 1;
            }

            self.program_counter = jump_addr;
        }
        result
    }

    /// Branch if Minus
    fn bmi(&mut self) -> (r: u8)
        requires
            branch_ok::<M>(old(self).state(), old(self).state().flag(CpuFlags::Negative)),
        ensures
            (final(self).state(), r) == branch::<M>(old(self).state(), old(self).state().flag(CpuFlags::Negative)),
    {
        self.branch(self.status.contains(CpuFlags::Negative))
    }

    /// Branch if Not Equal
    fn bne(&mut self) -> (r: u8)
        requires
            branch_ok::<M>(old(self).state(), !old(self).state().flag(CpuFlags::Zero)),
        ensures
            (final(self).state(), r) == branch::<M>(old(self).state(), !old(self).state().flag(CpuFlags::Zero)),
    {
        self.branch(!self.status.contains(CpuFlags::Zero))
    }

    /// Branch if Positive
    fn bpl(&mut self) -> (r: u8)
        requires
            branch_ok::<M>(old(self).state(), !old(self).state().flag(CpuFlags::Negative)),
        ensures
            (final(self).state(), r) == branch::<M>(old(self).state(), !old(self).state().flag(CpuFlags::Negative)),
    {
        self.branch(!self.status.contains(CpuFlags::Negative))
    }

    /// Branch if Overflow Clear
    fn bvc(&mut self) -> (r: u8)
        requires
            branch_ok::<M>(old(self).state(), !old(self).state().flag(CpuFlags::Overflow)),
        ensures
            (final(self).state(), r) == branch::<M>(old(self).state(), !old(self).state().flag(CpuFlags::Overflow)),
    {
        self.branch(!self.status.contains(CpuFlags::Overflow))
    }

    /// Branch if Overflow Set
    fn bvs(&mut self) -> (r: u8)
        requires
            branch_ok::<M>(old(self).state(), old(self).state().flag(CpuFlags::Overflow)),
        ensures
            (final(self).state(), r) == branch::<M>(old(self).state(), old(self).state().flag(CpuFlags::Overflow)),
    {
        self.branch(self.status.contains(CpuFlags::Overflow))
    }

    /// Compare
    fn compare(&mut self, mode: &AddressingMode, target: u8) -> (r: bool)
        requires
            operand_ok::<M>(old(self).state(), *mode),
        ensures
            final(self).state() == compare_flags(old(self).state(), target, operand::<M>(old(self).state(), *mode)),
            r == operand_address::<M>(old(self).state(), *mode).1,
    {
        let (data, page_cross) = self.fetch_operand(mode);
        let negt = target.wrapping_sub(data) & 0b10000000 != 0;
        if target < data {
            self.status.remove(CpuFlags::Carry);
            self.status.remove(CpuFlags::Zero);
        } else if target > data {
            self.status.insert(CpuFlags::Carry);
            self.status.remove(CpuFlags::Zero);
        } else {
            self.status.insert(CpuFlags::Carry);
            self.status.insert(CpuFlags::Zero);
        }
        // Set Negative Flag
        if target > data || target < data {
            if negt {
                self.status.insert(CpuFlags::Negative);
            } else {
                self.status.remove(CpuFlags::Negative);
            }
        } else {
            self.status.remove(CpuFlags::Negative);
        }
        page_cross
    }

    /// Decrement Memory
    fn dec(&mut self, mode: &AddressingMode)
        requires
            rw_ok::<M>(old(self).state(), *mode),
        ensures
            final(self).state() == step_memory::<M>(old(self).state(), *mode, false).0,
    {
        let (addr, _) = self.get_operand_address(mode);
        let data = self.read(addr).wrapping_sub(1);
        self.write_byte(addr, data);
        self.update_zero_negative_flags(data);
    }

    /// Decrement Index Register X
    fn dex(&mut self)
        ensures
            final(self).state() == old(self).state().with_x(crate::model::wrapping_sub_u8(old(self).index_x, 1))
                .set_zn(crate::model::wrapping_sub_u8(old(self).index_x, 1)),
    {
        self.index_x = self.index_x.wrapping_sub(1);
        self.update_zero_negative_flags(self.index_x);
    }

    /// Decrement Index Register Y
    fn dey(&mut self)
        ensures
            final(self).state() == old(self).state().with_y(crate::model::wrapping_sub_u8(old(self).index_y, 1))
                .set_zn(crate::model::wrapping_sub_u8(old(self).index_y, 1)),
    {
        self.index_y = self.index_y.wrapping_sub(1);
        self.update_zero_negative_flags(self.index_y);
    }

    /// Exclusive OR
    fn eor(&mut self, mode: &AddressingMode) -> (r: bool)
        requires
            operand_ok::<M>(old(self).state(), *mode),
        ensures
            final(self).state() == eor::<M>(old(self).state(), *mode),
            r == operand_address::<M>(old(self).state(), *mode).1,
    {
        let (data, page_cross) = self.fetch_operand(mode);
        self.accumulator = self.accumulator ^ data;
        self.update_zero_negative_flags(self.accumulator);
        page_cross
    }

    /// Increment Memory
    fn inc(&mut self, mode: &AddressingMode) -> (r: u8)
        requires
            rw_ok::<M>(old(self).state(), *mode),
        ensures
            (final(self).state(), r) == step_memory::<M>(old(self).state(), *mode, true),
    {
        let (addr, _) = self.get_operand_address(mode);
        let data = self.read(addr).wrapping_add(1);
        self.write_byte(addr, data);
        self.update_zero_negative_flags(data);
        data
    }

    /// Increment Index Register X
    fn inx(&mut self)
        ensures
            final(self).state() == old(self).state().with_x(crate::model::wrapping_add_u8(old(self).index_x, 1))
                .set_zn(crate::model::wrapping_add_u8(old(self).index_x, 1)),
    {
        self.index_x = self.index_x.wrapping_add(1);
        self.update_zero_negative_flags(self.index_x);
    }

    /// Increment Index Register Y
    fn iny(&mut self)
        ensures
            final(self).state() == old(self).state().with_y(crate::model::wrapping_add_u8(old(self).index_y, 1))
                .set_zn(crate::model::wrapping_add_u8(old(self).index_y, 1)),
    {
        self.index_y = self.index_y.wrapping_add(1);
        self.update_zero_negative_flags(self.index_y);
    }

    /// Jump
    fn jmp(&mut self)
        requires
            read16_ok::<M>(old(self).state(), old(self).program_counter),
        ensures
            final(self).state() == old(self).state().with_pc(read16::<M>(old(self).state(), old(self).program_counter)),
    {
        self.program_counter = self.read16(self.program_counter);
    }

    /// Jump to Subroutine
    fn jsr(&mut self)
        requires
            jsr_ok::<M>(old(self).state()),
        ensures
            final(self).state() == jsr::<M>(old(self).state()),
    {
        self.stack_push_u16(self.program_counter + 2 - 1);
        self.program_counter = self.read16(self.program_counter);
    }

    /// Load Accumulator
    fn lda(&mut self, mode: &AddressingMode) -> (r: bool)
        requires
            operand_ok::<M>(old(self).state(), *mode),
        ensures
            final(self).state() == lda::<M>(old(self).state(), *mode),
            r == operand_address::<M>(old(self).state(), *mode).1,
    {
        let (data, page_cross) = self.fetch_operand(mode);
        self.accumulator = data;
        self.update_zero_negative_flags(self.accumulator);
        page_cross
    }

    /// Load X Register
    fn ldx(&mut self, mode: &AddressingMode) -> (r: bool)
        requires
            operand_ok::<M>(old(self).state(), *mode),
        ensures
            final(self).state() == old(self).state().with_x(operand::<M>(old(self).state(), *mode))
                .set_zn(operand::<M>(old(self).state(), *mode)),
            r == operand_address::<M>(old(self).state(), *mode).1,
    {
        let (data, page_cross) = self.fetch_operand(mode);
        self.index_x = data;
        self.update_zero_negative_flags(self.index_x);
        page_cross
    }

    /// Load Y Register
    fn ldy(&mut self, mode: &AddressingMode) -> (r: bool)
        requires
            operand_ok::<M>(old(self).state(), *mode),
        ensures
            final(self).state() == old(self).state().with_y(operand::<M>(old(self).state(), *mode))
                .set_zn(operand::<M>(old(self).state(), *mode)),
            r == operand_address::<M>(old(self).state(), *mode).1,
    {
        let (data, page_cross) = self.fetch_operand(mode);
        self.index_y = data;
        self.update_zero_negative_flags(self.index_y);
        page_cross
    }

    /// Logical Shift Right
    fn lsr(&mut self, mode: &AddressingMode) -> (r: u8)
        requires
            rmw_ok::<M>(old(self).state(), *mode),
        ensures
            (final(self).state(), r) == lsr::<M>(old(self).state(), *mode),
    {
        let on_accumulator = *mode == AddressingMode::NoneAddressing;
        let addr = if on_accumulator { 0 } else { self.get_operand_address(mode).0 };
        let data = if on_accumulator { self.accumulator } else { self.read(addr) };
        if data & 0b00000001 == 1 {
            self.sec();
        } else {
            self.clc();
        }
        let data = data >> 1u8;
        if on_accumulator {
            self.accumulator = data;
        } else {
            self.write_byte(addr, data);
        }
        self.update_zero_negative_flags(data);
        data
    }

    /// Logical Inclusive OR
    fn ora(&mut self, mode: &AddressingMode) -> (r: bool)
        requires
            operand_ok::<M>(old(self).state(), *mode),
        ensures
            final(self).state() == ora::<M>(old(self).state(), *mode),
            r == operand_address::<M>(old(self).state(), *mode).1,
    {
        let (data, page_cross) = self.fetch_operand(mode);
        self.accumulator = self.accumulator | data;
        self.update_zero_negative_flags(self.accumulator);
        page_cross
    }

    /// Push Accumulator
    fn pha(&mut self)
        requires
            push_ok::<M>(old(self).state()),
        ensures
            final(self).state() == push::<M>(old(self).state(), old(self).accumulator),
    {
        self.stack_push(self.accumulator);
    }

    /// Push Processor Status
    fn php(&mut self)
        requires
            push_ok::<M>(old(self).state()),
        ensures
            final(self).state() == push::<M>(old(self).state(), old(self).status.bits),
    {
        self.stack_push(self.status.bits());
    }

    /// Pull accumulator
    fn pla(&mut self)
        requires
            pop_ok::<M>(old(self).state()),
        ensures
            final(self).state() == pop::<M>(old(self).state()).0.with_a(pop::<M>(old(self).state()).1)
                .set_zn(pop::<M>(old(self).state()).1),
    {
        self.accumulator = self.stack_pop();
        self.update_zero_negative_flags(self.accumulator);
    }

    /// Pull processor status
    fn plp(&mut self)
        requires
            pop_ok::<M>(old(self).state()),
        ensures
            final(self).state() == plp::<M>(old(self).state()),
    {
        self.status = Status::from_bits_truncate(self.stack_pop());
    }

    /// Rotate Left
    fn rol(&mut self, mode: &AddressingMode) -> (r: u8)
        requires
            rmw_ok::<M>(old(self).state(), *mode),
        ensures
            (final(self).state(), r) == rol::<M>(old(self).state(), *mode),
    {
        let on_accumulator = *mode == AddressingMode::NoneAddressing;
        let addr = if on_accumulator { 0 } else { self.get_operand_address(mode).0 };
        let data = if on_accumulator { self.accumulator } else { self.read(addr) };
        let carry = self.status.contains(CpuFlags::Carry);
        if data & 0b10000000 != 0 {
            self.sec();
        } else {
            self.clc();
        }
        let mut data = data << 1u8;
        if carry {
            data |= 0b00000001;
        }
        if on_accumulator {
            self.accumulator = data;
        } else {
            self.write_byte(addr, data);
        }
        self.update_zero_negative_flags(data);
        data
    }

    /// Rotate Right
    fn ror(&mut self, mode: &AddressingMode) -> (r: u8)
        requires
            rmw_ok::<M>(old(self).state(), *mode),
        ensures
            (final(self).state(), r) == ror::<M>(old(self).state(), *mode),
    {
        let on_accumulator = *mode == AddressingMode::NoneAddressing;
        let addr = if on_accumulator { 0 } else { self.get_operand_address(mode).0 };
        let data = if on_accumulator { self.accumulator } else { self.read(addr) };
        let carry = self.status.contains(CpuFlags::Carry);
        if data & 0b00000001 == 1 {
            self.sec();
        } else {
            self.clc();
        }
        let mut data = data >> 1u8;
        if carry {
            data |= 0b10000000;
        }
        if on_accumulator {
            self.accumulator = data;
        } else {
            self.write_byte(addr, data);
        }
        self.update_zero_negative_flags(data);
        data
    }

    /// Return from interrupt
    fn rti(&mut self)
        requires
            rti_ok::<M>(old(self).state()),
        ensures
            final(self).state() == rti::<M>(old(self).state()),
    {
        self.plp();
        self.status.remove(CpuFlags::Break);
        self.status.insert(CpuFlags::UNK);
        self.program_counter = self.stack_pop_u16();
    }

    /// Return from subroutine
    fn rts(&mut self)
        requires
            rts_ok::<M>(old(self).state()),
        ensures
            final(self).state() == rts::<M>(old(self).state()),
    {
        self.program_counter = self.stack_pop_u16() + 1;
    }

    /// Subtract with carry
    fn sbc(&mut self, mode: &AddressingMode) -> (r: bool)
        requires
            operand_ok::<M>(old(self).state(), *mode),
        ensures
            final(self).state() == sub_from_accumulator(old(self).state(), operand::<M>(old(self).state(), *mode)),
            r == operand_address::<M>(old(self).state(), *mode).1,
    {
        let (data, page_cross) = self.fetch_operand(mode);
        self.sub_from_accumulator(data);
        page_cross
    }

    /// Stores `value` at the operand's effective address.
    fn store(&mut self, mode: &AddressingMode, value: u8)
        requires
            store_ok::<M>(old(self).state(), *mode),
        ensures
            final(self).state() == store::<M>(old(self).state(), *mode, value),
    {
        let (addr, _) = self.get_operand_address(mode);
        self.write_byte(addr, value);
    }

    /// Store accumulator
    fn sta(&mut self, mode: &AddressingMode)
        requires
            store_ok::<M>(old(self).state(), *mode),
        ensures
            final(self).state() == store::<M>(old(self).state(), *mode, old(self).accumulator),
    {
        self.store(mode, self.accumulator);
    }

    /// Store Register X
    fn stx(&mut self, mode: &AddressingMode)
        requires
            store_ok::<M>(old(self).state(), *mode),
        ensures
            final(self).state() == store::<M>(old(self).state(), *mode, old(self).index_x),
    {
        self.store(mode, self.index_x);
    }

    /// Store Register Y
    fn sty(&mut self, mode: &AddressingMode)
        requires
            store_ok::<M>(old(self).state(), *mode),
        ensures
            final(self).state() == store::<M>(old(self).state(), *mode, old(self).index_y),
    {
        self.store(mode, self.index_y);
    }

    /// Transfer Accumulator to X
    fn tax(&mut self)
        ensures
            final(self).state() == old(self).state().with_x(old(self).accumulator).set_zn(old(self).accumulator),
    {
        self.index_x = self.accumulator;
        self.update_zero_negative_flags(self.index_x);
    }

    /// Transfer Accumulator to Y
    fn tay(&mut self)
        ensures
            final(self).state() == old(self).state().with_y(old(self).accumulator).set_zn(old(self).accumulator),
    {
        self.index_y = self.accumulator;
        self.update_zero_negative_flags(self.index_y);
    }

    /// Transfer stack pointer to X
    fn tsx(&mut self)
        ensures
            final(self).state() == old(self).state().with_x(old(self).stack_pointer).set_zn(old(self).stack_pointer),
    {
        self.index_x = self.stack_pointer;
        self.update_zero_negative_flags(self.index_x);
    }

    /// Transfer X to accumulator
    fn txa(&mut self)
        ensures
            final(self).state() == old(self).state().with_a(old(self).index_x).set_zn(old(self).index_x),
    {
        self.accumulator = self.index_x;
        self.update_zero_negative_flags(self.accumulator);
    }

    /// Transfer X to stack pointer
    fn txs(&mut self)
        ensures
            final(self).state() == old(self).state().with_sp(old(self).index_x),
    {
        self.stack_pointer = self.index_x;
    }

    /// Transfer Y to accumulator
    fn tya(&mut self)
        ensures
            final(self).state() == old(self).state().with_a(old(self).index_y).set_zn(old(self).index_y),
    {
        self.accumulator = self.index_y;
        self.update_zero_negative_flags(self.accumulator);
    }
}

impl<M: Memory> Mos6502<M> {
    /// Serves the pending interrupt, if any, and gives the cycles it takes.
    fn handle_interrupt(&mut self) -> (r: u8)
        requires
            handle_interrupt_ok::<M>(old(self).state()),
        ensures
            (final(self).state(), r) == handle_interrupt::<M>(old(self).state()),
    {
        if let Some(interrupt) = self.interrupt.take() {
            let mut flags: Status = self.status;
            match interrupt {
                Interrupt::NMI => {
                    self.stack_push_u16(self.program_counter);  // Store PC
                    self.stack_push(flags.bits());
                    self.program_counter = self.read16(0xFFFA);
                    self.status.insert(CpuFlags::Interrupt);
                    7
                },
                Interrupt::BRK => {
                    self.stack_push_u16(self.program_counter);
                    flags.insert(CpuFlags::Break);
                    self.stack_push(flags.bits());
                    self.program_counter = self.read16(0xFFFE);
                    self.status.insert(CpuFlags::Interrupt);
                    6
                },
                Interrupt::IRQ => {
                    self.stack_push_u16(self.program_counter);
                    flags.remove(CpuFlags::Break);
                    self.stack_push(flags.bits());
                    self.program_counter = self.read16(0xFFFE);
                    self.status.insert(CpuFlags::Interrupt);
                    6
                },
                Interrupt::RESET => {
                    self.reset();
                    8
                },
            }
        } else {
            0
        }
    }

    /// Carries out an instruction from the opcode table whose opcode byte has
    /// been fetched, and gives the cycles it took.
    #[verifier::rlimit(60)]
    #[verifier::spinoff_prover]
    fn execute_instruction(&mut self, opcode: &OpCode) -> (consumed: u8)
        requires
            opcode_table(opcode.code) == Some(*opcode),
            is_handled(*opcode),
            instruction_ok::<M>(old(self).state(), *opcode),
        ensures
            (final(self).state(), consumed) == instruction::<M>(old(self).state(), *opcode),
    {
        proof {
            reveal(instruction);
            reveal(instruction_ok);
        }
        proof {
            lemma_opcode_table_entries(opcode.code);
        }
        match opcode.mnemonic {
            Mnemonic::Nop | Mnemonic::IllegalNop => match opcode.code {
                0x04 | 0x44 | 0x64 | 0x14 | 0x34 | 0x54 | 0x74 | 0xd4 | 0xf4 | 0x0c | 0x1c | 0x3c
                | 0x5c | 0x7c | 0xdc | 0xfc => {
                    let (addr, page_cross) = self.get_operand_address(&opcode.mode);
                    let _data = self.read(addr);
                    if page_cross {
                        opcode.cycles + 1
                    } else {
                        opcode.cycles
                    }
                },
                _ => opcode.cycles,
            },
            Mnemonic::Adc => opcode.cycles + self.adc(&opcode.mode) as u8,
            Mnemonic::Sbc => opcode.cycles + self.sbc(&opcode.mode) as u8,
            Mnemonic::And => opcode.cycles + self.and(&opcode.mode) as u8,
            Mnemonic::Eor => opcode.cycles + self.eor(&opcode.mode) as u8,
            Mnemonic::Ora => opcode.cycles + self.ora(&opcode.mode) as u8,
            Mnemonic::Asl => {
                self.asl(&opcode.mode);
                opcode.cycles
            },
            Mnemonic::Lsr => {
                self.lsr(&opcode.mode);
                opcode.cycles
            },
            Mnemonic::Rol => {
                self.rol(&opcode.mode);
                opcode.cycles
            },
            Mnemonic::Ror => {
                self.ror(&opcode.mode);
                opcode.cycles
            },
            Mnemonic::Inc => {
                self.inc(&opcode.mode);
                opcode.cycles
            },
            Mnemonic::Inx => {
                self.inx();
                opcode.cycles
            },
            Mnemonic::Iny => {
                self.iny();
                opcode.cycles
            },
            Mnemonic::Dec => {
                self.dec(&opcode.mode);
                opcode.cycles
            },
            Mnemonic::Dex => {
                self.dex();
                opcode.cycles
            },
            Mnemonic::Dey => {
                self.dey();
                opcode.cycles
            },
            Mnemonic::Cmp => opcode.cycles + self.compare(&opcode.mode, self.accumulator) as u8,
            Mnemonic::Cpy => opcode.cycles + self.compare(&opcode.mode, self.index_y) as u8,
            Mnemonic::Cpx => opcode.cycles + self.compare(&opcode.mode, self.index_x) as u8,
            Mnemonic::Jmp => {
                if opcode.code == 0x4c {
                    self.jmp();
                } else {
                    // indirect
                    let mem_address = self.read16(self.program_counter);

                    self.program_counter = self.read16(mem_address);
                }
                opcode.cycles
            },
            Mnemonic::Jsr => {
                self.jsr();
                opcode.cycles
            },
            Mnemonic::Rts => {
                self.rts();
                opcode.cycles
            },
            Mnemonic::Rti => {
                self.rti();
                opcode.cycles
            },
            Mnemonic::Bne => opcode.cycles + self.bne(),
            Mnemonic::Bvs => opcode.cycles + self.bvs(),
            Mnemonic::Bvc => opcode.cycles + self.bvc(),
            Mnemonic::Bmi => opcode.cycles + self.bmi(),
            Mnemonic::Beq => opcode.cycles + self.beq(),
            Mnemonic::Bcs => opcode.cycles + self.bcs(),
            Mnemonic::Bcc => opcode.cycles + self.bcc(),
            Mnemonic::Bpl => opcode.cycles + self.bpl(),
            Mnemonic::Bit => {
                self.bit(&opcode.mode);
                opcode.cycles
            },
            Mnemonic::Lda => opcode.cycles + self.lda(&opcode.mode) as u8,
            Mnemonic::Ldx => opcode.cycles + self.ldx(&opcode.mode) as u8,
            Mnemonic::Ldy => opcode.cycles + self.ldy(&opcode.mode) as u8,
            Mnemonic::Sta => {
                self.sta(&opcode.mode);
                opcode.cycles
            },
            Mnemonic::Stx => {
                self.stx(&opcode.mode);
                opcode.cycles
            },
            Mnemonic::Sty => {
                self.sty(&opcode.mode);
                opcode.cycles
            },
            Mnemonic::Cld => {
                self.status.remove(CpuFlags::Decimal);
                opcode.cycles
            },
            Mnemonic::Cli => {
                self.status.remove(CpuFlags::Interrupt);
                opcode.cycles
            },
            Mnemonic::Clv => {
                self.status.remove(CpuFlags::Overflow);
                opcode.cycles
            },
            Mnemonic::Clc => {
                self.status.remove(CpuFlags::Carry);
                opcode.cycles
            },
            Mnemonic::Sec => {
                self.status.insert(CpuFlags::Carry);
                opcode.cycles
            },
            Mnemonic::Sei => {
                self.status.insert(CpuFlags::Interrupt);
                opcode.cycles
            },
            Mnemonic::Sed => {
                self.status.insert(CpuFlags::Decimal);
                opcode.cycles
            },
            Mnemonic::Tax => {
                self.tax();
                opcode.cycles
            },
            Mnemonic::Tay => {
                self.tay();
                opcode.cycles
            },
            Mnemonic::Tsx => {
                self.tsx();
                opcode.cycles
            },
            Mnemonic::Txa => {
                self.txa();
                opcode.cycles
            },
            Mnemonic::Txs => {
                self.txs();
                opcode.cycles
            },
            Mnemonic::Tya => {
                self.tya();
                opcode.cycles
            },
            Mnemonic::Pha => {
                self.pha();
                opcode.cycles
            },
            Mnemonic::Pla => {
                self.pla();
                opcode.cycles
            },
            Mnemonic::Php => {
                self.php();
                opcode.cycles
            },
            Mnemonic::Plp => {
                self.plp();
                opcode.cycles
            },
            _ => self.execute_undocumented(opcode),
        }
    }

    /// Carries out one of the undocumented instructions.
    fn execute_undocumented(&mut self, opcode: &OpCode) -> (consumed: u8)
        requires
            instruction_ok::<M>(old(self).state(), *opcode),
            match opcode.mnemonic {
                Mnemonic::Dcp | Mnemonic::Rla | Mnemonic::Slo | Mnemonic::Sre | Mnemonic::Axs
                | Mnemonic::Arr | Mnemonic::IllegalSbc | Mnemonic::Anc | Mnemonic::Alr | Mnemonic::Rra
                | Mnemonic::Isc | Mnemonic::Lax | Mnemonic::Sax | Mnemonic::Lxa | Mnemonic::Xaa
                | Mnemonic::Las | Mnemonic::Tas | Mnemonic::Ahx | Mnemonic::Shx => true,
                _ => false,
            },
        ensures
            (final(self).state(), consumed) == instruction::<M>(old(self).state(), *opcode),
    {
        proof {
            reveal(instruction);
            reveal(instruction_ok);
        }
        match opcode.mnemonic {
            Mnemonic::Dcp => self.dcp(opcode),
            Mnemonic::Rla => self.rla(opcode),
            Mnemonic::Slo => self.slo(opcode),
            Mnemonic::Sre => self.sre(opcode),
            Mnemonic::Axs => self.axs(opcode),
            Mnemonic::Arr => self.arr(opcode),
            Mnemonic::IllegalSbc => self.sbc_undocumented(opcode),
            Mnemonic::Anc => self.anc(opcode),
            Mnemonic::Alr => self.alr(opcode),
            Mnemonic::Rra => self.rra(opcode),
            Mnemonic::Isc => self.isc(opcode),
            Mnemonic::Lax => self.lax(opcode),
            Mnemonic::Sax => self.sax(opcode),
            Mnemonic::Lxa => self.lxa(opcode),
            Mnemonic::Xaa => self.xaa(opcode),
            Mnemonic::Las => self.las(opcode),
            Mnemonic::Tas => self.tas(opcode),
            Mnemonic::Ahx => self.ahx(opcode),
            _ => self.shx(opcode),
        }
    }

    /// DCP: decrement memory, then compare it with A.
    fn dcp(&mut self, opcode: &OpCode) -> (consumed: u8)
        requires
            rw_ok::<M>(old(self).state(), opcode.mode),
        ensures
            final(self).state() == crate::model::dcp::<M>(old(self).state(), opcode.mode),
            consumed == opcode.cycles,
    {
        let (addr, _) = self.get_operand_address(&opcode.mode);
        let mut data = self.read(addr);
        data = data.wrapping_sub(1);
        self.write_byte(addr, data);
        self.set_carry_if(data <= self.accumulator);
        self.update_zero_negative_flags(self.accumulator.wrapping_sub(data));
        opcode.cycles
    }

    /// RLA: rotate memory left, then AND it into A.
    fn rla(&mut self, opcode: &OpCode) -> (consumed: u8)
        requires
            opcode.mnemonic == Mnemonic::Rla,
            instruction_ok::<M>(old(self).state(), *opcode),
        ensures
            (final(self).state(), consumed) == instruction::<M>(old(self).state(), *opcode),
    {
        proof {
            reveal(instruction);
            reveal(instruction_ok);
        }
        let data = self.rol(&opcode.mode);
        self.accumulator = data & self.accumulator;
        self.update_zero_negative_flags(self.accumulator);
        opcode.cycles
    }

    /// SLO: shift memory left, then OR it into A.
    fn slo(&mut self, opcode: &OpCode) -> (consumed: u8)
        requires
            opcode.mnemonic == Mnemonic::Slo,
            instruction_ok::<M>(old(self).state(), *opcode),
        ensures
            (final(self).state(), consumed) == instruction::<M>(old(self).state(), *opcode),
    {
        proof {
            reveal(instruction);
            reveal(instruction_ok);
        }
        let data = self.asl(&opcode.mode);
        self.accumulator = data | self.accumulator;
        self.update_zero_negative_flags(self.accumulator);
        opcode.cycles
    }

    /// SRE: shift memory right, then EOR it into A.
    fn sre(&mut self, opcode: &OpCode) -> (consumed: u8)
        requires
            opcode.mnemonic == Mnemonic::Sre,
            instruction_ok::<M>(old(self).state(), *opcode),
        ensures
            (final(self).state(), consumed) == instruction::<M>(old(self).state(), *opcode),
    {
        proof {
            reveal(instruction);
            reveal(instruction_ok);
        }
        self.lsr(&opcode.mode);
        self.eor(&opcode.mode);
        opcode.cycles
    }

    /// AXS: X = (X & A) - operand.
    fn axs(&mut self, opcode: &OpCode) -> (consumed: u8)
        requires
            operand_ok::<M>(old(self).state(), opcode.mode),
        ensures
            final(self).state() == crate::model::axs::<M>(old(self).state(), opcode.mode),
            consumed == opcode.cycles,
    {
            let (data, _) = self.fetch_operand(&opcode.mode);
            let x_and_a = self.index_x & self.accumulator;
            let result = x_and_a.wrapping_sub(data);

            if data <= x_and_a {
                self.status.insert(CpuFlags::Carry);
            }
            self.update_zero_negative_flags(result);
            self.index_x = result;
            opcode.cycles
    }

    /// ARR: AND the operand into A, then rotate right.
    fn arr(&mut self, opcode: &OpCode) -> (consumed: u8)
        requires
            opcode.mnemonic == Mnemonic::Arr,
            instruction_ok::<M>(old(self).state(), *opcode),
        ensures
            (final(self).state(), consumed) == instruction::<M>(old(self).state(), *opcode),
    {
        proof {
            reveal(instruction);
            reveal(instruction_ok);
        }
        let (data, _) = self.fetch_operand(&opcode.mode);
        self.accumulator = self.accumulator & data;
        self.update_zero_negative_flags(self.accumulator);
        self.ror(&opcode.mode);
        opcode.cycles
    }

    /// The undocumented SBC: subtract the operand with borrow.
    fn sbc_undocumented(&mut self, opcode: &OpCode) -> (consumed: u8)
        requires
            opcode.mnemonic == Mnemonic::IllegalSbc,
            instruction_ok::<M>(old(self).state(), *opcode),
        ensures
            (final(self).state(), consumed) == instruction::<M>(old(self).state(), *opcode),
    {
        proof {
            reveal(instruction);
            reveal(instruction_ok);
        }
        let (data, _) = self.fetch_operand(&opcode.mode);
        self.sub_from_accumulator(data);
        opcode.cycles
    }

    /// ANC: AND the operand into A; Carry copies Negative.
    fn anc(&mut self, opcode: &OpCode) -> (consumed: u8)
        requires
            opcode.mnemonic == Mnemonic::Anc,
            instruction_ok::<M>(old(self).state(), *opcode),
        ensures
            (final(self).state(), consumed) == instruction::<M>(old(self).state(), *opcode),
    {
        proof {
            reveal(instruction);
            reveal(instruction_ok);
        }
        let (data, _) = self.fetch_operand(&opcode.mode);
        self.accumulator = data & self.accumulator;
        self.update_zero_negative_flags(self.accumulator);
        if self.status.contains(CpuFlags::Negative) {
            self.status.insert(CpuFlags::Carry);
        } else {
            self.status.remove(CpuFlags::Carry);
        }
        opcode.cycles
    }

    /// ALR: AND the operand into A, then shift right.
    fn alr(&mut self, opcode: &OpCode) -> (consumed: u8)
        requires
            opcode.mnemonic == Mnemonic::Alr,
            instruction_ok::<M>(old(self).state(), *opcode),
        ensures
            (final(self).state(), consumed) == instruction::<M>(old(self).state(), *opcode),
    {
        proof {
            reveal(instruction);
            reveal(instruction_ok);
        }
        let (data, _) = self.fetch_operand(&opcode.mode);
        self.accumulator = data & self.accumulator;
        self.update_zero_negative_flags(self.accumulator);
        self.lsr(&opcode.mode);
        opcode.cycles
    }

    /// RRA: rotate memory right, then add it to A.
    fn rra(&mut self, opcode: &OpCode) -> (consumed: u8)
        requires
            opcode.mnemonic == Mnemonic::Rra,
            instruction_ok::<M>(old(self).state(), *opcode),
        ensures
            (final(self).state(), consumed) == instruction::<M>(old(self).state(), *opcode),
    {
        proof {
            reveal(instruction);
            reveal(instruction_ok);
        }
        let data = self.ror(&opcode.mode);
        self.add_to_accumulator(data);
        opcode.cycles
    }

    /// ISC: increment memory, then subtract it from A.
    fn isc(&mut self, opcode: &OpCode) -> (consumed: u8)
        requires
            opcode.mnemonic == Mnemonic::Isc,
            instruction_ok::<M>(old(self).state(), *opcode),
        ensures
            (final(self).state(), consumed) == instruction::<M>(old(self).state(), *opcode),
    {
        proof {
            reveal(instruction);
            reveal(instruction_ok);
        }
        self.inc(&opcode.mode);
        self.sbc(&opcode.mode);
        opcode.cycles
    }

    /// LAX: load A from the operand, then copy X into A.
    fn lax(&mut self, opcode: &OpCode) -> (consumed: u8)
        requires
            opcode.mnemonic == Mnemonic::Lax,
            instruction_ok::<M>(old(self).state(), *opcode),
        ensures
            (final(self).state(), consumed) == instruction::<M>(old(self).state(), *opcode),
    {
        proof {
            reveal(instruction);
            reveal(instruction_ok);
        }
        self.lda(&opcode.mode);
        self.accumulator = self.index_x;
        opcode.cycles
    }

    /// SAX: store A & X.
    fn sax(&mut self, opcode: &OpCode) -> (consumed: u8)
        requires
            opcode.mnemonic == Mnemonic::Sax,
            instruction_ok::<M>(old(self).state(), *opcode),
        ensures
            (final(self).state(), consumed) == instruction::<M>(old(self).state(), *opcode),
    {
        proof {
            reveal(instruction);
            reveal(instruction_ok);
        }
        let data = self.accumulator & self.index_x;
        self.store(&opcode.mode, data);
        opcode.cycles
    }

    /// LXA: load A from the operand, then copy it to X.
    fn lxa(&mut self, opcode: &OpCode) -> (consumed: u8)
        requires
            opcode.mnemonic == Mnemonic::Lxa,
            instruction_ok::<M>(old(self).state(), *opcode),
        ensures
            (final(self).state(), consumed) == instruction::<M>(old(self).state(), *opcode),
    {
        proof {
            reveal(instruction);
            reveal(instruction_ok);
        }
        self.lda(&opcode.mode);
        self.tax();
        opcode.cycles
    }

    /// XAA: A = X, then AND the operand into A.
    fn xaa(&mut self, opcode: &OpCode) -> (consumed: u8)
        requires
            opcode.mnemonic == Mnemonic::Xaa,
            instruction_ok::<M>(old(self).state(), *opcode),
        ensures
            (final(self).state(), consumed) == instruction::<M>(old(self).state(), *opcode),
    {
        proof {
            reveal(instruction);
            reveal(instruction_ok);
        }
        self.accumulator = self.index_x;
        self.update_zero_negative_flags(self.accumulator);
        let (data, _) = self.fetch_operand(&opcode.mode);
        self.accumulator = data & self.accumulator;
        self.update_zero_negative_flags(self.accumulator);
        opcode.cycles
    }

    /// LAS: A, X and the stack pointer become the operand AND the stack pointer.
    fn las(&mut self, opcode: &OpCode) -> (consumed: u8)
        requires
            opcode.mnemonic == Mnemonic::Las,
            instruction_ok::<M>(old(self).state(), *opcode),
        ensures
            (final(self).state(), consumed) == instruction::<M>(old(self).state(), *opcode),
    {
        proof {
            reveal(instruction);
            reveal(instruction_ok);
        }
        let (data, _) = self.fetch_operand(&opcode.mode);
        let data = data & self.stack_pointer;
        self.accumulator = data;
        self.index_x = data;
        self.stack_pointer = data;
        self.update_zero_negative_flags(data);
        opcode.cycles
    }

    /// TAS: SP = A & X; store SP & (high byte + 1) at the Y-indexed address.
    fn tas(&mut self, opcode: &OpCode) -> (consumed: u8)
        requires
            opcode.mnemonic == Mnemonic::Tas,
            instruction_ok::<M>(old(self).state(), *opcode),
        ensures
            (final(self).state(), consumed) == instruction::<M>(old(self).state(), *opcode),
    {
        proof {
            reveal(instruction);
            reveal(instruction_ok);
        }
        let data = self.accumulator & self.index_x;
        self.stack_pointer = data;
        let mem_address = self.read16(self.program_counter) + self.index_y as u16;
        let data = ((mem_address >> 8u16) as u8 + 1) & self.stack_pointer;
        self.write_byte(mem_address, data);
        opcode.cycles
    }

    /// AHX: store A & X & high byte at the Y-indexed address.
    fn ahx(&mut self, opcode: &OpCode) -> (consumed: u8)
        requires
            opcode.mnemonic == Mnemonic::Ahx,
            instruction_ok::<M>(old(self).state(), *opcode),
        ensures
            (final(self).state(), consumed) == instruction::<M>(old(self).state(), *opcode),
    {
        proof {
            reveal(instruction);
            reveal(instruction_ok);
        }
        if opcode.code == 0x93 {
            // Indirect Y
            let pos: u8 = self.read(self.program_counter);
            let mem_address = self.read16(pos as u16) + self.index_y as u16;
            let data = self.accumulator & self.index_x & (mem_address >> 8u16) as u8;
            self.write_byte(mem_address, data);
        } else {
            // Absolute Y
            let mem_address = self.read16(self.program_counter) + self.index_y as u16;
            let data = self.accumulator & self.index_x & (mem_address >> 8u16) as u8;
            self.write_byte(mem_address, data);
        }
        opcode.cycles
    }

    /// SHX: store X & (high byte + 1) at the Y-indexed address.
    fn shx(&mut self, opcode: &OpCode) -> (consumed: u8)
        requires
            opcode.mnemonic == Mnemonic::Shx,
            instruction_ok::<M>(old(self).state(), *opcode),
        ensures
            (final(self).state(), consumed) == instruction::<M>(old(self).state(), *opcode),
    {
        proof {
            reveal(instruction);
            reveal(instruction_ok);
        }
            let mem_address = self.read16(self.program_counter) + self.index_y as u16;
        let data = self.index_x & ((mem_address >> 8u16) as u8 + 1);
        self.write_byte(mem_address, data);
        opcode.cycles
    }
}

impl<M: Memory> Mos6502<M> {
    /// Runs the CPU for `cycles` cycles, as `model::run` describes: pending
    /// interrupts are served first, then instructions are fetched and carried
    /// out until the cycles are spent. Ends with `UnknownOpCode` at a byte that
    /// is no opcode and with `UnhandledOpCode` at an instruction that is not
    /// implemented; the program counter has then moved past that byte.
    pub fn execute(&mut self, cycles: u32) -> (r: Result<(), Error>)
        requires
            run::<M>(old(self).state(), cycles, 0) is Some,
        ensures
            run::<M>(old(self).state(), cycles, 0) == Some((final(self).state(), r)),
    {
        let ghost start = self.state();
        let mut stall_cycles: u32 = 0;
        let mut cpu_cycles: u32 = cycles;
        loop
            invariant
                run::<M>(self.state(), cpu_cycles, stall_cycles) == run::<M>(start, cycles, 0),
                run::<M>(start, cycles, 0) is Some,
                start == old(self).state(),
            decreases cpu_cycles, (if self.interrupt is Some { 1int } else { 0int }), stall_cycles,
        {
            if self.interrupt.is_some() {
                proof {
                    lemma_run_interrupt::<M>(self.state(), cpu_cycles, stall_cycles);
                }
                cpu_cycles = 0;
                stall_cycles = self.handle_interrupt() as u32;
                continue;
            }
            if stall_cycles > 0 {
                proof {
                    lemma_run_stall::<M>(self.state(), cpu_cycles, stall_cycles);
                }
                stall_cycles -= 1;
                continue;
            }
            if cpu_cycles == 0 {
                proof {
                    lemma_run_done::<M>(self.state());
                }
                return Ok(());
            }
            let interrupt_cycles = self.handle_interrupt();
            // Check if it would wrap
            if interrupt_cycles as u32 > cpu_cycles {
                stall_cycles = interrupt_cycles as u32 - cpu_cycles;
                cpu_cycles = 0;
            } else {
                cpu_cycles -= interrupt_cycles as u32;
            }
            if interrupt_cycles > 0 {
                continue;
            }
            let ghost before = self.state();
            proof {
                lemma_run_fetch::<M>(before, cpu_cycles);
            }
            let instruction = self.read(self.program_counter);
            self.program_counter += 1;
            let program_counter_state = self.program_counter;
            if let Some(opcode) = lookup_opcode(instruction) {
                proof {
                    lemma_opcode_table_entries(instruction);
                }
                let consumed_cycles: u8 = match opcode.mnemonic {
                    Mnemonic::Brk => {
                        self.interrupt = Some(Interrupt::BRK);
                        cpu_cycles = 0;
                        stall_cycles = self.handle_interrupt() as u32;
                        continue;
                    },
                    Mnemonic::Shy => {
                        return Err(Error::UnhandledOpCode(instruction));
                    },
                    _ => self.execute_instruction(&opcode),
                };
                proof {
                    lemma_instruction_consumes::<M>(fetched(before), opcode);
                }
                if ((#[verifier::truncate] (cpu_cycles as i32)) - consumed_cycles as i32) < 0 {
                    cpu_cycles = 0;
                    continue;
                } else {
                    cpu_cycles -= consumed_cycles as u32;
                }
                if program_counter_state == self.program_counter {
                    self.program_counter += (opcode.len - 1) as u16;
                }
            } else {
                return Err(Error::UnknownOpCode(instruction));
            }
        }
    }
}

// Checks, made on the current state, of what the instruction semantics ask
// for a step to return normally.
impl<M: Memory> Mos6502<M> {
    fn readable_at(&self, addr: u16) -> (r: bool)
        ensures
            r == read_ok::<M>(self.state(), addr),
    {
        self.bus.readable(addr)
    }

    fn writable_at(&self, addr: u16) -> (r: bool)
        ensures
            r == write_ok::<M>(self.state(), addr),
    {
        self.bus.writable(addr)
    }

    fn read16_ok_now(&self, addr: u16) -> (r: bool)
        ensures
            r == read16_ok::<M>(self.state(), addr),
    {
        addr < 0xFFFF && self.readable_at(addr) && self.readable_at(addr + 1)
    }

    fn absolute_address_ok_now(&self, mode: &AddressingMode, addr: u16) -> (r: bool)
        ensures
            r == absolute_address_ok::<M>(self.state(), *mode, addr),
    {
        match mode {
            AddressingMode::Implied | AddressingMode::Accumulator | AddressingMode::Indirect
            | AddressingMode::Relative => false,
            AddressingMode::Absolute | AddressingMode::AbsoluteX | AddressingMode::AbsoluteY => self.read16_ok_now(addr),
            AddressingMode::ZeroPage | AddressingMode::ZeroPageX | AddressingMode::ZeroPageY => self.readable_at(addr),
            AddressingMode::IndirectX => {
                if !self.readable_at(addr) {
                    return false;
                }
                let ptr = self.read(addr).wrapping_add(self.index_x) as u16;
                let next: u16 = (ptr / 256) * 256 + ((ptr % 256) as u8).wrapping_add(1) as u16;
                self.readable_at(ptr) && self.readable_at(next)
            },
            AddressingMode::IndirectY => {
                if !self.readable_at(addr) {
                    return false;
                }
                let ptr = self.read(addr).wrapping_add(self.index_y) as u16;
                let next: u16 = (ptr / 256) * 256 + ((ptr % 256) as u8).wrapping_add(1) as u16;
                self.readable_at(ptr) && self.readable_at(next)
            },
            _ => true,
        }
    }

    fn operand_address_ok_now(&self, mode: &AddressingMode) -> (r: bool)
        ensures
            r == operand_address_ok::<M>(self.state(), *mode),
    {
        match mode {
            AddressingMode::Immediate => true,
            _ => self.absolute_address_ok_now(mode, self.program_counter),
        }
    }

    fn operand_ok_now(&self, mode: &AddressingMode) -> (r: bool)
        ensures
            r == operand_ok::<M>(self.state(), *mode),
    {
        if !self.operand_address_ok_now(mode) {
            return false;
        }
        let (addr, _) = self.get_operand_address(mode);
        self.readable_at(addr)
    }

    fn rmw_ok_now(&self, mode: &AddressingMode) -> (r: bool)
        ensures
            r == rmw_ok::<M>(self.state(), *mode),
    {
        if *mode == AddressingMode::NoneAddressing {
            return true;
        }
        if !self.operand_address_ok_now(mode) {
            return false;
        }
        let (addr, _) = self.get_operand_address(mode);
        self.readable_at(addr) && self.writable_at(addr)
    }

    fn rw_ok_now(&self, mode: &AddressingMode) -> (r: bool)
        ensures
            r == rw_ok::<M>(self.state(), *mode),
    {
        if !self.operand_address_ok_now(mode) {
            return false;
        }
        let (addr, _) = self.get_operand_address(mode);
        self.readable_at(addr) && self.writable_at(addr)
    }

    fn store_ok_now(&self, mode: &AddressingMode) -> (r: bool)
        ensures
            r == store_ok::<M>(self.state(), *mode),
    {
        if !self.operand_address_ok_now(mode) {
            return false;
        }
        let (addr, _) = self.get_operand_address(mode);
        self.writable_at(addr)
    }

    fn push_ok_now(&self) -> (r: bool)
        ensures
            r == push_ok::<M>(self.state()),
    {
        self.writable_at(0x0100 + self.stack_pointer as u16)
    }

    fn pop_ok_now(&self) -> (r: bool)
        ensures
            r == pop_ok::<M>(self.state()),
    {
        self.readable_at(0x0100 + self.stack_pointer.wrapping_sub(1) as u16)
    }

    /// Whether the two pops of a word from `sp` are allowed, and the word.
    fn pop16_ok_now(&self, sp: u8) -> (r: (bool, u16))
        ensures
            r.0 == pop16_ok::<M>(self.state().with_sp(sp)),
            r.0 ==> r.1 == pop16::<M>(self.state().with_sp(sp)).1,
    {
        let a1: u16 = 0x0100 + sp.wrapping_sub(1) as u16;
        let a2: u16 = 0x0100 + sp.wrapping_sub(1).wrapping_sub(1) as u16;
        if self.readable_at(a1) && self.readable_at(a2) {
            let lo = self.read(a1);
            let hi = self.read(a2);
            (true, (hi as u16) * 256 + lo as u16)
        } else {
            (false, 0)
        }
    }

    fn indirect_target_ok_now(&self, addr: u16) -> (r: bool)
        ensures
            r == indirect_target_ok::<M>(self.state(), addr),
    {
        self.read16_ok_now(addr)
    }

    /// Whether the word that SHX, TAS and AHX index may be read, and, when it
    /// may, that word.
    fn unstable_base_now(&self, opcode: &OpCode) -> (r: (bool, u16))
        ensures
            r.0 == unstable_base_ok::<M>(self.state(), *opcode),
            r.0 ==> r.1 == unstable_base::<M>(self.state(), *opcode),
    {
        if opcode.mnemonic == Mnemonic::Ahx && opcode.code == 0x93 {
            if !self.readable_at(self.program_counter) {
                return (false, 0);
            }
            let pos = self.read(self.program_counter) as u16;
            if self.read16_ok_now(pos) {
                (true, self.read16(pos))
            } else {
                (false, 0)
            }
        } else if self.read16_ok_now(self.program_counter) {
            (true, self.read16(self.program_counter))
        } else {
            (false, 0)
        }
    }

    /// Whether carrying out `opcode` returns normally, for the instructions
    /// whose reads and writes can all be checked before any of them is made.
    #[verifier::rlimit(60)]
    #[verifier::spinoff_prover]
    fn instruction_ok_now(&self, opcode: &OpCode) -> (r: bool)
        requires
            is_handled(*opcode),
            opcode.mnemonic != Mnemonic::Jsr,
            opcode.mnemonic != Mnemonic::Sre,
            opcode.mnemonic != Mnemonic::Isc,
        ensures
            r == instruction_ok::<M>(self.state(), *opcode),
    {
        proof {
            reveal(instruction_ok);
        }
        let mode = &opcode.mode;
        match opcode.mnemonic {
            Mnemonic::Nop | Mnemonic::IllegalNop => {
                match opcode.code {
                    0x04 | 0x44 | 0x64 | 0x14 | 0x34 | 0x54 | 0x74 | 0xd4 | 0xf4 | 0x0c | 0x1c | 0x3c
                    | 0x5c | 0x7c | 0xdc | 0xfc => self.operand_ok_now(mode),
                    _ => true,
                }
            },
            Mnemonic::Adc | Mnemonic::Sbc | Mnemonic::And | Mnemonic::Eor | Mnemonic::Ora | Mnemonic::Cmp
            | Mnemonic::Cpy | Mnemonic::Cpx | Mnemonic::Bit | Mnemonic::Lda | Mnemonic::Ldx | Mnemonic::Ldy
            | Mnemonic::IllegalSbc | Mnemonic::Lax | Mnemonic::Lxa | Mnemonic::Las | Mnemonic::Axs
            | Mnemonic::Anc => self.operand_ok_now(mode),
            Mnemonic::Asl | Mnemonic::Lsr | Mnemonic::Rol | Mnemonic::Ror | Mnemonic::Rla | Mnemonic::Slo
            | Mnemonic::Rra => self.rmw_ok_now(mode),
            Mnemonic::Inc | Mnemonic::Dec | Mnemonic::Dcp => self.rw_ok_now(mode),
            Mnemonic::Jmp => {
                if !self.read16_ok_now(self.program_counter) {
                    return false;
                }
                opcode.code == 0x4c || self.indirect_target_ok_now(self.read16(self.program_counter))
            },
            Mnemonic::Rts => {
                let (ok, addr) = self.pop16_ok_now(self.stack_pointer);
                proof {
                    assert(self.state().with_sp(self.stack_pointer) == self.state());
                }
                ok && addr < 0xFFFF
            },
            Mnemonic::Rti => {
                if !self.pop_ok_now() {
                    return false;
                }
                let (ok, _) = self.pop16_ok_now(self.stack_pointer.wrapping_sub(1));
                ok
            },
            Mnemonic::Bne => self.status.contains(CpuFlags::Zero) || self.readable_at(self.program_counter),
            Mnemonic::Bvs => !self.status.contains(CpuFlags::Overflow) || self.readable_at(self.program_counter),
            Mnemonic::Bvc => self.status.contains(CpuFlags::Overflow) || self.readable_at(self.program_counter),
            Mnemonic::Bmi => !self.status.contains(CpuFlags::Negative) || self.readable_at(self.program_counter),
            Mnemonic::Beq => !self.status.contains(CpuFlags::Zero) || self.readable_at(self.program_counter),
            Mnemonic::Bcs => !self.status.contains(CpuFlags::Carry) || self.readable_at(self.program_counter),
            Mnemonic::Bcc => self.status.contains(CpuFlags::Carry) || self.readable_at(self.program_counter),
            Mnemonic::Bpl => self.status.contains(CpuFlags::Negative) || self.readable_at(self.program_counter),
            Mnemonic::Sta | Mnemonic::Stx | Mnemonic::Sty | Mnemonic::Sax => self.store_ok_now(mode),
            Mnemonic::Pha | Mnemonic::Php => self.push_ok_now(),
            Mnemonic::Pla | Mnemonic::Plp => self.pop_ok_now(),
            Mnemonic::Arr | Mnemonic::Alr => {
                if !self.operand_ok_now(mode) {
                    return false;
                }
                let (data, _) = self.fetch_operand(mode);
                proof {
                    let s = self.state();
                    let v = if opcode.mnemonic == Mnemonic::Arr { s.accumulator & data } else { data & s.accumulator };
                    assert(operand_address::<M>(s.with_a(v).set_zn(v), *mode) == operand_address::<M>(s, *mode));
                    assert(operand_address_ok::<M>(s.with_a(v).set_zn(v), *mode) == operand_address_ok::<M>(s, *mode));
                }
                self.rmw_ok_now(mode)
            },
            Mnemonic::Xaa => {
                proof {
                    let s = self.state();
                    let s1 = s.with_a(s.index_x).set_zn(s.index_x);
                    assert(operand_address::<M>(s1, *mode) == operand_address::<M>(s, *mode));
                    assert(operand_address_ok::<M>(s1, *mode) == operand_address_ok::<M>(s, *mode));
                }
                self.operand_ok_now(mode)
            },
            Mnemonic::Tas | Mnemonic::Ahx | Mnemonic::Shx => {
                proof {
                    let s = self.state();
                    let s1 = s.with_sp(s.accumulator & s.index_x);
                    assert(unstable_base::<M>(s1, *opcode) == unstable_base::<M>(s, *opcode));
                    assert(unstable_base_ok::<M>(s1, *opcode) == unstable_base_ok::<M>(s, *opcode));
                }
                let (ok, base) = self.unstable_base_now(opcode);
                if !ok || base as u32 + self.index_y as u32 > 0xFFFF {
                    return false;
                }
                let mem_address = base + self.index_y as u16;
                if opcode.mnemonic != Mnemonic::Ahx && (mem_address >> 8u16) >= 0xFF {
                    return false;
                }
                self.writable_at(mem_address)
            },
            _ => true,
        }
    }
}

impl<M: Memory> Mos6502<M> {
    /// Carries out `opcode` if it returns normally, checking each read and
    /// write before it is made; gives `None` at the first one that would not.
    #[verifier::rlimit(40)]
    fn try_instruction(&mut self, opcode: &OpCode) -> (r: Option<u8>)
        requires
            opcode_table(opcode.code) == Some(*opcode),
            is_handled(*opcode),
        ensures
            match r {
                Some(consumed) => instruction_ok::<M>(old(self).state(), *opcode) && (final(self).state(), consumed)
                    == instruction::<M>(old(self).state(), *opcode),
                None => !instruction_ok::<M>(old(self).state(), *opcode),
            },
    {
        proof {
            reveal(instruction);
            reveal(instruction_ok);
        }
        match opcode.mnemonic {
            Mnemonic::Jsr => {
                if self.program_counter > 0xFFFD {
                    return None;
                }
                let ret = self.program_counter + 2 - 1;
                if !self.push_ok_now() {
                    return None;
                }
                self.stack_push((ret / 256) as u8);
                if !self.push_ok_now() {
                    return None;
                }
                self.stack_push((ret % 256) as u8);
                if !self.read16_ok_now(self.program_counter) {
                    return None;
                }
                self.program_counter = self.read16(self.program_counter);
                Some(opcode.cycles)
            },
            Mnemonic::Sre => {
                if !self.rmw_ok_now(&opcode.mode) {
                    return None;
                }
                self.lsr(&opcode.mode);
                if !self.operand_ok_now(&opcode.mode) {
                    return None;
                }
                self.eor(&opcode.mode);
                Some(opcode.cycles)
            },
            Mnemonic::Isc => {
                if !self.rw_ok_now(&opcode.mode) {
                    return None;
                }
                self.inc(&opcode.mode);
                if !self.operand_ok_now(&opcode.mode) {
                    return None;
                }
                self.sbc(&opcode.mode);
                Some(opcode.cycles)
            },
            _ => {
                if self.instruction_ok_now(opcode) {
                    Some(self.execute_instruction(opcode))
                } else {
                    None
                }
            },
        }
    }

    /// Serves the pending interrupt, if any, checking each read and write
    /// before it is made; gives `None` at the first one that would not return
    /// normally.
    fn try_handle_interrupt(&mut self) -> (r: Option<u8>)
        ensures
            match r {
                Some(cycles) => handle_interrupt_ok::<M>(old(self).state()) && (final(self).state(), cycles)
                    == handle_interrupt::<M>(old(self).state()),
                None => !handle_interrupt_ok::<M>(old(self).state()),
            },
    {
        if let Some(interrupt) = self.interrupt.take() {
            let mut flags: Status = self.status;
            let vector: u16 = match interrupt {
                Interrupt::NMI => 0xFFFA,
                Interrupt::RESET => {
                    if !self.read16_ok_now(0xFFFC) {
                        return None;
                    }
                    self.reset();
                    return Some(8);
                },
                Interrupt::BRK => {
                    flags.insert(CpuFlags::Break);
                    0xFFFE
                },
                Interrupt::IRQ => {
                    flags.remove(CpuFlags::Break);
                    0xFFFE
                },
            };
            let cycles: u8 = if vector == 0xFFFA { 7 } else { 6 };
            let pc = self.program_counter;
            if !self.push_ok_now() {
                return None;
            }
            self.stack_push((pc / 256) as u8);
            if !self.push_ok_now() {
                return None;
            }
            self.stack_push((pc % 256) as u8);
            if !self.push_ok_now() {
                return None;
            }
            self.stack_push(flags.bits());
            if !self.read16_ok_now(vector) {
                return None;
            }
            self.program_counter = self.read16(vector);
            self.status.insert(CpuFlags::Interrupt);
            Some(cycles)
        } else {
            Some(0)
        }
    }

    /// Runs the CPU for `cycles` cycles like `execute`, but checks before each
    /// read and write, and before each sum, that it returns normally: gives
    /// `None` where the run would not (`model::run` is `None`), and otherwise
    /// what `execute` gives.
    pub fn try_execute(&mut self, cycles: u32) -> (r: Option<Result<(), Error>>)
        ensures
            match r {
                Some(result) => run::<M>(old(self).state(), cycles, 0) == Some((final(self).state(), result)),
                None => run::<M>(old(self).state(), cycles, 0) is None,
            },
    {
        let ghost start = self.state();
        let mut stall_cycles: u32 = 0;
        let mut cpu_cycles: u32 = cycles;
        loop
            invariant
                run::<M>(self.state(), cpu_cycles, stall_cycles) == run::<M>(start, cycles, 0),
                start == old(self).state(),
            decreases cpu_cycles, (if self.interrupt is Some { 1int } else { 0int }), stall_cycles,
        {
            if self.interrupt.is_some() {
                proof {
                    lemma_run_interrupt::<M>(self.state(), cpu_cycles, stall_cycles);
                }
                cpu_cycles = 0;
                match self.try_handle_interrupt() {
                    Some(cycles) => stall_cycles = cycles as u32,
                    None => return None,
                }
                continue;
            }
            if stall_cycles > 0 {
                proof {
                    lemma_run_stall::<M>(self.state(), cpu_cycles, stall_cycles);
                }
                stall_cycles -= 1;
                continue;
            }
            if cpu_cycles == 0 {
                proof {
                    lemma_run_done::<M>(self.state());
                }
                return Some(Ok(()));
            }
            let ghost before = self.state();
            proof {
                lemma_run_fetch::<M>(before, cpu_cycles);
            }
            if !(self.program_counter < 0xFFFF && self.readable_at(self.program_counter)) {
                return None;
            }
            let instruction = self.read(self.program_counter);
            self.program_counter += 1;
            let program_counter_state = self.program_counter;
            if let Some(opcode) = lookup_opcode(instruction) {
                proof {
                    lemma_opcode_table_entries(instruction);
                }
                let consumed_cycles: u8 = match opcode.mnemonic {
                    Mnemonic::Brk => {
                        self.interrupt = Some(Interrupt::BRK);
                        cpu_cycles = 0;
                        match self.try_handle_interrupt() {
                            Some(cycles) => stall_cycles = cycles as u32,
                            None => return None,
                        }
                        continue;
                    },
                    Mnemonic::Shy => {
                        return Some(Err(Error::UnhandledOpCode(instruction)));
                    },
                    _ => match self.try_instruction(&opcode) {
                        Some(consumed) => consumed,
                        None => return None,
                    },
                };
                proof {
                    lemma_instruction_consumes::<M>(fetched(before), opcode);
                }
                let diff: i64 = (#[verifier::truncate] (cpu_cycles as i32)) as i64 - consumed_cycles as i64;
                if diff < -2147483648i64 {
                    return None;
                }
                if diff < 0 {
                    cpu_cycles = 0;
                    continue;
                } else {
                    cpu_cycles -= consumed_cycles as u32;
                }
                if program_counter_state == self.program_counter {
                    if self.program_counter as u32 + (opcode.len - 1) as u32 > 0xFFFF {
                        return None;
                    }
                    self.program_counter += (opcode.len - 1) as u16;
                }
            } else {
                return Some(Err(Error::UnknownOpCode(instruction)));
            }
        }
    }
}

/// The CPU's view of memory is its bus.
impl<M: Memory> Memory for Mos6502<M> {
    type Model = M::Model;

    open spec fn model(&self) -> M::Model {
        self.bus.model()
    }

    open spec fn read_model(m: M::Model, addr: u16) -> u8 {
        M::read_model(m, addr)
    }

    open spec fn can_read(m: M::Model, addr: u16) -> bool {
        M::can_read(m, addr)
    }

    open spec fn can_write(m: M::Model, addr: u16) -> bool {
        M::can_write(m, addr)
    }

    open spec fn write_model(m: M::Model, addr: u16, data: u8) -> M::Model {
        M::write_model(m, addr, data)
    }

    fn mem_read(&self, addr: u16) -> (r: u8) {
        self.bus.mem_read(addr)
    }

    /// Writes through the bus; the registers and the pending interrupt stay
    /// as they were.
    fn mem_write(&mut self, addr: u16, data: u8)
        ensures
            final(self).state() == write_byte::<M>(old(self).state(), addr, data),
    {
        self.bus.mem_write(addr, data);
    }

    fn readable(&self, addr: u16) -> (r: bool) {
        self.bus.readable(addr)
    }

    fn writable(&self, addr: u16) -> (r: bool) {
        self.bus.writable(addr)
    }
}

/// Whether two addresses lie on different 256-byte pages.
fn page_crossed(addr1: u16, addr2: u16) -> (r: bool)
    ensures
        r == crate::model::page_crossed(addr1, addr2),
{
    (addr1 & 0xFF00) != (addr2 & 0xFF00)
}

} // verus!
