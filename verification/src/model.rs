//! The meaning of every instruction, as functions from one CPU state to the
//! next. The executable CPU in `cpu` is proved to follow these functions.
use vstd::prelude::*;
use crate::error::Error;
use crate::flags::{CpuFlags, default_status_bits, flag_mask, with_mask};
use crate::interrupts::Interrupt;
use crate::memory::{Memory, high_byte, low_byte, page_wrap_next, word};
use crate::ops::{AddressingMode, Mnemonic, OpCode, lemma_opcode_table_entries, opcode_table};

verus! {

/// What the CPU holds: its registers, a pending interrupt, and the model of
/// the memory on its bus.
pub struct CpuModel<V> {
    pub status: u8,
    pub accumulator: u8,
    pub index_x: u8,
    pub index_y: u8,
    pub program_counter: u16,
    pub stack_pointer: u8,
    pub interrupt: Option<Interrupt>,
    pub mem: V,
}

impl<V> CpuModel<V> {
    /// Whether `f` is set in the status register.
    pub open spec fn flag(self, f: CpuFlags) -> bool {
        self.status & flag_mask(f) != 0
    }

    /// The state with `f` set when `v` holds and cleared otherwise.
    pub open spec fn set_flag(self, f: CpuFlags, v: bool) -> Self {
        CpuModel { status: with_mask(self.status, flag_mask(f), v), ..self }
    }

    /// The Zero and Negative flags as `value` sets them: Zero when it is 0,
    /// Negative when its bit 7 is set.
    pub open spec fn set_zn(self, value: u8) -> Self {
        self.set_flag(CpuFlags::Zero, value == 0).set_flag(CpuFlags::Negative, (value & 0b1000_0000u8) != 0)
    }

    pub open spec fn with_a(self, v: u8) -> Self {
        CpuModel { accumulator: v, ..self }
    }

    pub open spec fn with_x(self, v: u8) -> Self {
        CpuModel { index_x: v, ..self }
    }

    pub open spec fn with_y(self, v: u8) -> Self {
        CpuModel { index_y: v, ..self }
    }

    pub open spec fn with_pc(self, v: u16) -> Self {
        CpuModel { program_counter: v, ..self }
    }

    pub open spec fn with_sp(self, v: u8) -> Self {
        CpuModel { stack_pointer: v, ..self }
    }
}

pub open spec fn wrapping_add_u8(a: u8, b: u8) -> u8 {
    ((a + b) % 256) as u8
}

pub open spec fn wrapping_sub_u8(a: u8, b: u8) -> u8 {
    ((a - b) % 256) as u8
}

pub open spec fn wrapping_add_u16(a: u16, b: u16) -> u16 {
    ((a + b) % 65536) as u16
}

// ---- memory ----

/// The byte at `addr`.
pub open spec fn read<M: Memory>(s: CpuModel<M::Model>, addr: u16) -> u8 {
    M::read_model(s.mem, addr)
}

pub open spec fn read_ok<M: Memory>(s: CpuModel<M::Model>, addr: u16) -> bool {
    M::can_read(s.mem, addr)
}

/// The little-endian word at `addr` and `addr + 1`.
pub open spec fn read16<M: Memory>(s: CpuModel<M::Model>, addr: u16) -> u16 {
    word(read::<M>(s, addr), read::<M>(s, (addr + 1) as u16))
}

pub open spec fn read16_ok<M: Memory>(s: CpuModel<M::Model>, addr: u16) -> bool {
    addr < 0xFFFF && read_ok::<M>(s, addr) && read_ok::<M>(s, (addr + 1) as u16)
}

/// The little-endian word at `addr`, its high byte from the same page.
pub open spec fn read16_wrap<M: Memory>(s: CpuModel<M::Model>, addr: u16) -> u16 {
    word(read::<M>(s, addr), read::<M>(s, page_wrap_next(addr)))
}

pub open spec fn read16_wrap_ok<M: Memory>(s: CpuModel<M::Model>, addr: u16) -> bool {
    read_ok::<M>(s, addr) && read_ok::<M>(s, page_wrap_next(addr))
}

/// The state after `data` is written at `addr`.
pub open spec fn write_byte<M: Memory>(s: CpuModel<M::Model>, addr: u16, data: u8) -> CpuModel<M::Model> {
    CpuModel { mem: M::write_model(s.mem, addr, data), ..s }
}

pub open spec fn write_ok<M: Memory>(s: CpuModel<M::Model>, addr: u16) -> bool {
    M::can_write(s.mem, addr)
}

// ---- addressing ----

/// Whether two addresses lie on different 256-byte pages.
pub open spec fn page_crossed(addr1: u16, addr2: u16) -> bool {
    (addr1 & 0xFF00u16) != (addr2 & 0xFF00u16)
}

/// The modes that the address logic knows; the others have no address.
pub open spec fn mode_supported(mode: AddressingMode) -> bool {
    match mode {
        AddressingMode::Implied | AddressingMode::Accumulator | AddressingMode::Indirect
        | AddressingMode::Relative => false,
        _ => true,
    }
}

/// The effective address of an operand whose bytes start at `addr`, and
/// whether indexing crossed a page.
pub open spec fn absolute_address<M: Memory>(s: CpuModel<M::Model>, mode: AddressingMode, addr: u16) -> (u16, bool) {
    match mode {
        AddressingMode::Immediate => (addr, false),
        AddressingMode::Absolute => (read16::<M>(s, addr), false),
        AddressingMode::ZeroPage => (read::<M>(s, addr) as u16, false),
        AddressingMode::AbsoluteX => {
            let base = read16::<M>(s, addr);
            let eff = wrapping_add_u16(base, s.index_x as u16);
            (eff, page_crossed(base, eff))
        },
        AddressingMode::AbsoluteY => {
            let base = read16::<M>(s, addr);
            let eff = wrapping_add_u16(base, s.index_y as u16);
            (eff, page_crossed(base, eff))
        },
        AddressingMode::ZeroPageX => (wrapping_add_u8(read::<M>(s, addr), s.index_x) as u16, false),
        AddressingMode::ZeroPageY => (wrapping_add_u8(read::<M>(s, addr), s.index_y) as u16, false),
        AddressingMode::IndirectX => {
            let ptr = wrapping_add_u8(read::<M>(s, addr), s.index_x);
            (read16_wrap::<M>(s, ptr as u16), false)
        },
        AddressingMode::IndirectY => {
            let ptr = wrapping_add_u8(read::<M>(s, addr), s.index_y);
            (read16_wrap::<M>(s, ptr as u16), false)
        },
        _ => (0, false),
    }
}

pub open spec fn absolute_address_ok<M: Memory>(s: CpuModel<M::Model>, mode: AddressingMode, addr: u16) -> bool {
    mode_supported(mode) && match mode {
        AddressingMode::Absolute | AddressingMode::AbsoluteX | AddressingMode::AbsoluteY => read16_ok::<M>(s, addr),
        AddressingMode::ZeroPage | AddressingMode::ZeroPageX | AddressingMode::ZeroPageY => read_ok::<M>(s, addr),
        AddressingMode::IndirectX => read_ok::<M>(s, addr)
            && read16_wrap_ok::<M>(s, wrapping_add_u8(read::<M>(s, addr), s.index_x) as u16),
        AddressingMode::IndirectY => read_ok::<M>(s, addr)
            && read16_wrap_ok::<M>(s, wrapping_add_u8(read::<M>(s, addr), s.index_y) as u16),
        _ => true,
    }
}

/// The effective address of the current instruction's operand, which starts
/// at the program counter.
pub open spec fn operand_address<M: Memory>(s: CpuModel<M::Model>, mode: AddressingMode) -> (u16, bool) {
    if mode == AddressingMode::Immediate {
        (s.program_counter, false)
    } else {
        absolute_address::<M>(s, mode, s.program_counter)
    }
}

pub open spec fn operand_address_ok<M: Memory>(s: CpuModel<M::Model>, mode: AddressingMode) -> bool {
    mode == AddressingMode::Immediate || absolute_address_ok::<M>(s, mode, s.program_counter)
}

/// The byte at the operand's effective address.
pub open spec fn operand<M: Memory>(s: CpuModel<M::Model>, mode: AddressingMode) -> u8 {
    read::<M>(s, operand_address::<M>(s, mode).0)
}

pub open spec fn operand_ok<M: Memory>(s: CpuModel<M::Model>, mode: AddressingMode) -> bool {
    operand_address_ok::<M>(s, mode) && read_ok::<M>(s, operand_address::<M>(s, mode).0)
}

// ---- stack ----

/// The address in page one that a stack pointer names.
pub open spec fn stack_address(sp: u8) -> u16 {
    (0x0100 + sp) as u16
}

/// Writes `data` where the stack pointer points, then moves it up by one.
pub open spec fn push<M: Memory>(s: CpuModel<M::Model>, data: u8) -> CpuModel<M::Model> {
    write_byte::<M>(s, stack_address(s.stack_pointer), data).with_sp(wrapping_add_u8(s.stack_pointer, 1))
}

pub open spec fn push_ok<M: Memory>(s: CpuModel<M::Model>) -> bool {
    write_ok::<M>(s, stack_address(s.stack_pointer))
}

/// Moves the stack pointer down by one, then reads where it points.
pub open spec fn pop<M: Memory>(s: CpuModel<M::Model>) -> (CpuModel<M::Model>, u8) {
    let sp = wrapping_sub_u8(s.stack_pointer, 1);
    (s.with_sp(sp), read::<M>(s, stack_address(sp)))
}

pub open spec fn pop_ok<M: Memory>(s: CpuModel<M::Model>) -> bool {
    read_ok::<M>(s, stack_address(wrapping_sub_u8(s.stack_pointer, 1)))
}

/// Pushes the high byte of `data`, then the low byte.
pub open spec fn push16<M: Memory>(s: CpuModel<M::Model>, data: u16) -> CpuModel<M::Model> {
    push::<M>(push::<M>(s, high_byte(data)), low_byte(data))
}

pub open spec fn push16_ok<M: Memory>(s: CpuModel<M::Model>, data: u16) -> bool {
    push_ok::<M>(s) && push_ok::<M>(push::<M>(s, high_byte(data)))
}

/// Pops the low byte, then the high byte.
pub open spec fn pop16<M: Memory>(s: CpuModel<M::Model>) -> (CpuModel<M::Model>, u16) {
    let (s1, lo) = pop::<M>(s);
    let (s2, hi) = pop::<M>(s1);
    (s2, word(lo, hi))
}

pub open spec fn pop16_ok<M: Memory>(s: CpuModel<M::Model>) -> bool {
    pop_ok::<M>(s) && pop_ok::<M>(pop::<M>(s).0)
}

// ---- arithmetic ----

/// Adds `value` and the carry to the accumulator, modulo 256. Carry is the
/// carry out of the sum `A + M + C`; Overflow is set when the operands share
/// a sign that the result lacks.
pub open spec fn add_to_accumulator<V>(s: CpuModel<V>, value: u8) -> CpuModel<V> {
    let c: u8 = if s.flag(CpuFlags::Carry) { 1 } else { 0 };
    let sum = wrapping_add_u8(wrapping_add_u8(s.accumulator, value), c);
    let s1 = s.set_flag(CpuFlags::Carry, s.accumulator + value + c > 255);
    let s2 = s1.set_flag(CpuFlags::Overflow, ((value ^ sum) & (sum ^ s.accumulator) & 0x80u8) != 0);
    s2.with_a(sum).set_zn(sum)
}

/// Subtracts `value` and the borrow (the clear carry) from the accumulator,
/// modulo 256. Carry is set when no borrow was needed (`A >= M + (1 - C)`);
/// Overflow is set when the operands differ in sign and the result's sign
/// differs from the accumulator's.
pub open spec fn sub_from_accumulator<V>(s: CpuModel<V>, value: u8) -> CpuModel<V> {
    let b: u8 = if s.flag(CpuFlags::Carry) { 0 } else { 1 };
    let diff = wrapping_sub_u8(wrapping_sub_u8(s.accumulator, value), b);
    let s1 = s.set_flag(CpuFlags::Carry, s.accumulator >= value + b);
    let s2 = s1.set_flag(CpuFlags::Overflow, ((s.accumulator ^ value) & (s.accumulator ^ diff) & 0x80u8) != 0);
    s2.with_a(diff).set_zn(diff)
}

/// The flags after comparing a register with `data`: Carry when the register
/// is at least `data`, Zero when they are equal, Negative from bit 7 of the
/// difference when they differ.
pub open spec fn compare_flags<V>(s: CpuModel<V>, target: u8, data: u8) -> CpuModel<V> {
    let negt = (wrapping_sub_u8(target, data) & 0b1000_0000u8) != 0;
    s.set_flag(CpuFlags::Carry, target >= data)
        .set_flag(CpuFlags::Zero, target == data)
        .set_flag(CpuFlags::Negative, target != data && negt)
}

// ---- shifts and rotations ----

/// Whether a shift or rotation works on the accumulator: the one-byte forms
/// carry no operand and have no addressing.
pub open spec fn rmw_on_accumulator(mode: AddressingMode) -> bool {
    mode == AddressingMode::NoneAddressing
}

/// Where a shift or rotation works, and the byte found there: the
/// accumulator (address 0 stands in) or the operand's effective address.
pub open spec fn rmw_source<M: Memory>(s: CpuModel<M::Model>, mode: AddressingMode) -> (u16, u8) {
    if rmw_on_accumulator(mode) {
        (0, s.accumulator)
    } else {
        let addr = operand_address::<M>(s, mode).0;
        (addr, read::<M>(s, addr))
    }
}

pub open spec fn rmw_ok<M: Memory>(s: CpuModel<M::Model>, mode: AddressingMode) -> bool {
    let addr = operand_address::<M>(s, mode).0;
    rmw_on_accumulator(mode) || (operand_address_ok::<M>(s, mode) && read_ok::<M>(s, addr) && write_ok::<M>(s, addr))
}

/// Stores the result of a shift or rotation back where it came from and sets
/// Zero and Negative from it.
pub open spec fn rmw_store<M: Memory>(s: CpuModel<M::Model>, mode: AddressingMode, addr: u16, data: u8) -> CpuModel<M::Model> {
    (if rmw_on_accumulator(mode) { s.with_a(data) } else { write_byte::<M>(s, addr, data) }).set_zn(data)
}

/// Arithmetic shift left: bit 7 goes to Carry.
pub open spec fn asl<M: Memory>(s: CpuModel<M::Model>, mode: AddressingMode) -> (CpuModel<M::Model>, u8) {
    let (addr, data) = rmw_source::<M>(s, mode);
    let s1 = s.set_flag(CpuFlags::Carry, data >> 7u8 == 1);
    let d = data << 1u8;
    (rmw_store::<M>(s1, mode, addr, d), d)
}

/// Logical shift right: bit 0 goes to Carry.
pub open spec fn lsr<M: Memory>(s: CpuModel<M::Model>, mode: AddressingMode) -> (CpuModel<M::Model>, u8) {
    let (addr, data) = rmw_source::<M>(s, mode);
    let s1 = s.set_flag(CpuFlags::Carry, data & 0b0000_0001u8 == 1);
    let d = data >> 1u8;
    (rmw_store::<M>(s1, mode, addr, d), d)
}

/// Rotate left: the old Carry enters at bit 0 and bit 7 goes to Carry.
pub open spec fn rol<M: Memory>(s: CpuModel<M::Model>, mode: AddressingMode) -> (CpuModel<M::Model>, u8) {
    let (addr, data) = rmw_source::<M>(s, mode);
    let carry = s.flag(CpuFlags::Carry);
    let s1 = s.set_flag(CpuFlags::Carry, data & 0b1000_0000u8 != 0);
    let d = if carry { (data << 1u8) | 0b0000_0001u8 } else { data << 1u8 };
    (rmw_store::<M>(s1, mode, addr, d), d)
}

/// Rotate right: the old Carry enters at bit 7 and bit 0 goes to Carry.
pub open spec fn ror<M: Memory>(s: CpuModel<M::Model>, mode: AddressingMode) -> (CpuModel<M::Model>, u8) {
    let (addr, data) = rmw_source::<M>(s, mode);
    let carry = s.flag(CpuFlags::Carry);
    let s1 = s.set_flag(CpuFlags::Carry, data & 0b0000_0001u8 == 1);
    let d = if carry { (data >> 1u8) | 0b1000_0000u8 } else { data >> 1u8 };
    (rmw_store::<M>(s1, mode, addr, d), d)
}

// ---- loads, stores, logic ----

pub open spec fn lda<M: Memory>(s: CpuModel<M::Model>, mode: AddressingMode) -> CpuModel<M::Model> {
    let v = operand::<M>(s, mode);
    s.with_a(v).set_zn(v)
}

pub open spec fn and<M: Memory>(s: CpuModel<M::Model>, mode: AddressingMode) -> CpuModel<M::Model> {
    let v = s.accumulator & operand::<M>(s, mode);
    s.with_a(v).set_zn(v)
}

pub open spec fn eor<M: Memory>(s: CpuModel<M::Model>, mode: AddressingMode) -> CpuModel<M::Model> {
    let v = s.accumulator ^ operand::<M>(s, mode);
    s.with_a(v).set_zn(v)
}

pub open spec fn ora<M: Memory>(s: CpuModel<M::Model>, mode: AddressingMode) -> CpuModel<M::Model> {
    let v = s.accumulator | operand::<M>(s, mode);
    s.with_a(v).set_zn(v)
}

/// Stores `value` at the operand's effective address.
pub open spec fn store<M: Memory>(s: CpuModel<M::Model>, mode: AddressingMode, value: u8) -> CpuModel<M::Model> {
    write_byte::<M>(s, operand_address::<M>(s, mode).0, value)
}

pub open spec fn store_ok<M: Memory>(s: CpuModel<M::Model>, mode: AddressingMode) -> bool {
    operand_address_ok::<M>(s, mode) && write_ok::<M>(s, operand_address::<M>(s, mode).0)
}

/// Adds `delta` (wrapping) to the byte at the operand's effective address and
/// sets Zero and Negative from the result.
pub open spec fn step_memory<M: Memory>(s: CpuModel<M::Model>, mode: AddressingMode, up: bool) -> (CpuModel<M::Model>, u8) {
    let addr = operand_address::<M>(s, mode).0;
    let old_v = read::<M>(s, addr);
    let v = if up { wrapping_add_u8(old_v, 1) } else { wrapping_sub_u8(old_v, 1) };
    (write_byte::<M>(s, addr, v).set_zn(v), v)
}

pub open spec fn rw_ok<M: Memory>(s: CpuModel<M::Model>, mode: AddressingMode) -> bool {
    let addr = operand_address::<M>(s, mode).0;
    operand_address_ok::<M>(s, mode) && read_ok::<M>(s, addr) && write_ok::<M>(s, addr)
}

/// Bit test: Zero from `A & M`, Negative and Overflow from bits 7 and 6 of M.
pub open spec fn bit<M: Memory>(s: CpuModel<M::Model>, mode: AddressingMode) -> CpuModel<M::Model> {
    let mask = operand::<M>(s, mode);
    s.set_flag(CpuFlags::Zero, s.accumulator & mask == 0)
        .set_flag(CpuFlags::Negative, mask & 0b1000_0000u8 != 0)
        .set_flag(CpuFlags::Overflow, mask & 0b0100_0000u8 != 0)
}

// ---- control flow ----

/// A branch: when taken, the signed offset at the program counter is added to
/// the address after it; one extra cycle for the branch and one more when it
/// lands on another page.
pub open spec fn branch<M: Memory>(s: CpuModel<M::Model>, condition: bool) -> (CpuModel<M::Model>, u8) {
    if condition {
        let jump = read::<M>(s, s.program_counter) as i8;
        let next = wrapping_add_u16(s.program_counter, 1);
        let jump_addr = wrapping_add_u16(next, jump as u16);
        (s.with_pc(jump_addr), if (next & 0xff00u16) != (jump_addr & 0xff00u16) { 2 } else { 1 })
    } else {
        (s, 0)
    }
}

pub open spec fn branch_ok<M: Memory>(s: CpuModel<M::Model>, condition: bool) -> bool {
    condition ==> read_ok::<M>(s, s.program_counter)
}

/// Jump to subroutine: pushes the address of the instruction's last byte,
/// then jumps to the address at the program counter.
pub open spec fn jsr<M: Memory>(s: CpuModel<M::Model>) -> CpuModel<M::Model> {
    let s1 = push16::<M>(s, (s.program_counter + 2 - 1) as u16);
    s1.with_pc(read16::<M>(s1, s.program_counter))
}

pub open spec fn jsr_ok<M: Memory>(s: CpuModel<M::Model>) -> bool {
    s.program_counter + 2 <= 0xFFFF && push16_ok::<M>(s, (s.program_counter + 2 - 1) as u16)
        && read16_ok::<M>(push16::<M>(s, (s.program_counter + 2 - 1) as u16), s.program_counter)
}

/// Return from subroutine: the popped address plus one.
pub open spec fn rts<M: Memory>(s: CpuModel<M::Model>) -> CpuModel<M::Model> {
    let (s1, addr) = pop16::<M>(s);
    s1.with_pc((addr + 1) as u16)
}

pub open spec fn rts_ok<M: Memory>(s: CpuModel<M::Model>) -> bool {
    pop16_ok::<M>(s) && pop16::<M>(s).1 < 0xFFFF
}

/// Pulls the status register.
pub open spec fn plp<M: Memory>(s: CpuModel<M::Model>) -> CpuModel<M::Model> {
    let (s1, v) = pop::<M>(s);
    CpuModel { status: v, ..s1 }
}

/// Return from interrupt: pulls the status (Break cleared, UNK set), then
/// the program counter.
pub open spec fn rti<M: Memory>(s: CpuModel<M::Model>) -> CpuModel<M::Model> {
    let s1 = plp::<M>(s).set_flag(CpuFlags::Break, false).set_flag(CpuFlags::UNK, true);
    let (s2, addr) = pop16::<M>(s1);
    s2.with_pc(addr)
}

pub open spec fn rti_ok<M: Memory>(s: CpuModel<M::Model>) -> bool {
    pop_ok::<M>(s) && pop16_ok::<M>(plp::<M>(s).set_flag(CpuFlags::Break, false).set_flag(CpuFlags::UNK, true))
}

/// The target of an indirect jump through `addr`: the low byte is at `addr`
/// and the high byte at `addr + 1`.
pub open spec fn indirect_target<M: Memory>(s: CpuModel<M::Model>, addr: u16) -> u16 {
    read16::<M>(s, addr)
}

pub open spec fn indirect_target_ok<M: Memory>(s: CpuModel<M::Model>, addr: u16) -> bool {
    read16_ok::<M>(s, addr)
}

// ---- interrupts ----

/// Reset: the stack pointer to $FD, the status to its default, X, Y and A to
/// 0, and the program counter to the word at $FFFC.
pub open spec fn reset<M: Memory>(s: CpuModel<M::Model>) -> CpuModel<M::Model> {
    CpuModel {
        stack_pointer: 0xFD,
        status: default_status_bits(),
        index_x: 0,
        index_y: 0,
        accumulator: 0,
        program_counter: read16::<M>(s, 0xFFFC),
        ..s
    }
}

pub open spec fn reset_ok<M: Memory>(s: CpuModel<M::Model>) -> bool {
    read16_ok::<M>(s, 0xFFFC)
}

/// Entering an interrupt handler: pushes the program counter and `pushed`
/// status, jumps through `vector` and sets Interrupt.
pub open spec fn enter_handler<M: Memory>(s: CpuModel<M::Model>, pushed: u8, vector: u16) -> CpuModel<M::Model> {
    let s1 = push::<M>(push16::<M>(s, s.program_counter), pushed);
    s1.with_pc(read16::<M>(s1, vector)).set_flag(CpuFlags::Interrupt, true)
}

pub open spec fn enter_handler_ok<M: Memory>(s: CpuModel<M::Model>, pushed: u8, vector: u16) -> bool {
    push16_ok::<M>(s, s.program_counter) && push_ok::<M>(push16::<M>(s, s.program_counter))
        && read16_ok::<M>(push::<M>(push16::<M>(s, s.program_counter), pushed), vector)
}

/// Serves the pending interrupt, if any, and gives the cycles it takes.
pub open spec fn handle_interrupt<M: Memory>(s: CpuModel<M::Model>) -> (CpuModel<M::Model>, u8) {
    let s0 = CpuModel { interrupt: None, ..s };
    match s.interrupt {
        None => (s, 0),
        Some(Interrupt::NMI) => (enter_handler::<M>(s0, s.status, 0xFFFA), 7),
        Some(Interrupt::BRK) => (
            enter_handler::<M>(s0, with_mask(s.status, flag_mask(CpuFlags::Break), true), 0xFFFE),
            6,
        ),
        Some(Interrupt::IRQ) => (
            enter_handler::<M>(s0, with_mask(s.status, flag_mask(CpuFlags::Break), false), 0xFFFE),
            6,
        ),
        Some(Interrupt::RESET) => (reset::<M>(s0), 8),
    }
}

pub open spec fn handle_interrupt_ok<M: Memory>(s: CpuModel<M::Model>) -> bool {
    let s0 = CpuModel { interrupt: None, ..s };
    match s.interrupt {
        None => true,
        Some(Interrupt::NMI) => enter_handler_ok::<M>(s0, s.status, 0xFFFA),
        Some(Interrupt::BRK) => enter_handler_ok::<M>(
            s0,
            with_mask(s.status, flag_mask(CpuFlags::Break), true),
            0xFFFE,
        ),
        Some(Interrupt::IRQ) => enter_handler_ok::<M>(
            s0,
            with_mask(s.status, flag_mask(CpuFlags::Break), false),
            0xFFFE,
        ),
        Some(Interrupt::RESET) => reset_ok::<M>(s0),
    }
}

// ---- instructions ----

/// The undocumented NOPs that read their operand (and pay for a page crossing).
pub open spec fn nop_reads(code: u8) -> bool {
    code == 0x04 || code == 0x44 || code == 0x64 || code == 0x14 || code == 0x34 || code == 0x54
        || code == 0x74 || code == 0xd4 || code == 0xf4 || code == 0x0c || code == 0x1c || code == 0x3c
        || code == 0x5c || code == 0x7c || code == 0xdc || code == 0xfc
}

/// `cycles`, plus one when `extra` holds.
pub open spec fn plus_one_if(cycles: u8, extra: bool) -> u8 {
    (cycles + if extra { 1int } else { 0int }) as u8
}

/// Whether the instruction reads its operand with the page-crossing penalty.
pub open spec fn page_penalty<M: Memory>(s: CpuModel<M::Model>, mode: AddressingMode) -> bool {
    operand_address::<M>(s, mode).1
}

/// The word that the undocumented SHX/TAS/AHX instructions index by Y.
pub open spec fn unstable_base<M: Memory>(s: CpuModel<M::Model>, op: OpCode) -> u16 {
    if op.mnemonic == Mnemonic::Ahx && op.code == 0x93 {
        read16::<M>(s, read::<M>(s, s.program_counter) as u16)
    } else {
        read16::<M>(s, s.program_counter)
    }
}

pub open spec fn unstable_base_ok<M: Memory>(s: CpuModel<M::Model>, op: OpCode) -> bool {
    if op.mnemonic == Mnemonic::Ahx && op.code == 0x93 {
        read_ok::<M>(s, s.program_counter) && read16_ok::<M>(s, read::<M>(s, s.program_counter) as u16)
    } else {
        read16_ok::<M>(s, s.program_counter)
    }
}

/// DCP: decrements memory, sets Carry (never clears it) when the result is at
/// most A, and sets Zero and Negative from `A - result`.
pub open spec fn dcp<M: Memory>(s: CpuModel<M::Model>, mode: AddressingMode) -> CpuModel<M::Model> {
    let addr = operand_address::<M>(s, mode).0;
    let data = wrapping_sub_u8(read::<M>(s, addr), 1);
    let s1 = write_byte::<M>(s, addr, data);
    let s2 = if data <= s1.accumulator { s1.set_flag(CpuFlags::Carry, true) } else { s1 };
    s2.set_zn(wrapping_sub_u8(s2.accumulator, data))
}

/// AXS: X becomes `(X & A) - M`; Carry is set (never cleared) when no borrow
/// occurs.
pub open spec fn axs<M: Memory>(s: CpuModel<M::Model>, mode: AddressingMode) -> CpuModel<M::Model> {
    let data = operand::<M>(s, mode);
    let x_and_a = s.index_x & s.accumulator;
    let result = wrapping_sub_u8(x_and_a, data);
    let s1 = if data <= x_and_a { s.set_flag(CpuFlags::Carry, true) } else { s };
    s1.set_zn(result).with_x(result)
}

/// Whether the loop carries out `op` itself: BRK raises an interrupt, and
/// SHY has no implementation.
pub open spec fn is_handled(op: OpCode) -> bool {
    op.mnemonic != Mnemonic::Brk && op.mnemonic != Mnemonic::Shy
}

#[verifier::opaque]
/// Carries out `op`, whose opcode byte has been fetched (the program counter
/// is at its first operand byte), and gives the cycles it takes.
pub open spec fn instruction<M: Memory>(s: CpuModel<M::Model>, op: OpCode) -> (CpuModel<M::Model>, u8) {
    let c = op.cycles;
    let mode = op.mode;
    match op.mnemonic {
        Mnemonic::Nop | Mnemonic::IllegalNop => if nop_reads(op.code) {
            (s, plus_one_if(c, page_penalty::<M>(s, mode)))
        } else {
            (s, c)
        },
        Mnemonic::Adc => (add_to_accumulator(s, operand::<M>(s, mode)), plus_one_if(c, page_penalty::<M>(s, mode))),
        Mnemonic::Sbc => (sub_from_accumulator(s, operand::<M>(s, mode)), plus_one_if(c, page_penalty::<M>(s, mode))),
        Mnemonic::And => (and::<M>(s, mode), plus_one_if(c, page_penalty::<M>(s, mode))),
        Mnemonic::Eor => (eor::<M>(s, mode), plus_one_if(c, page_penalty::<M>(s, mode))),
        Mnemonic::Ora => (ora::<M>(s, mode), plus_one_if(c, page_penalty::<M>(s, mode))),
        Mnemonic::Asl => (asl::<M>(s, mode).0, c),
        Mnemonic::Lsr => (lsr::<M>(s, mode).0, c),
        Mnemonic::Rol => (rol::<M>(s, mode).0, c),
        Mnemonic::Ror => (ror::<M>(s, mode).0, c),
        Mnemonic::Inc => (step_memory::<M>(s, mode, true).0, c),
        Mnemonic::Dec => (step_memory::<M>(s, mode, false).0, c),
        Mnemonic::Inx => (s.with_x(wrapping_add_u8(s.index_x, 1)).set_zn(wrapping_add_u8(s.index_x, 1)), c),
        Mnemonic::Iny => (s.with_y(wrapping_add_u8(s.index_y, 1)).set_zn(wrapping_add_u8(s.index_y, 1)), c),
        Mnemonic::Dex => (s.with_x(wrapping_sub_u8(s.index_x, 1)).set_zn(wrapping_sub_u8(s.index_x, 1)), c),
        Mnemonic::Dey => (s.with_y(wrapping_sub_u8(s.index_y, 1)).set_zn(wrapping_sub_u8(s.index_y, 1)), c),
        Mnemonic::Cmp => (compare_flags(s, s.accumulator, operand::<M>(s, mode)), plus_one_if(c, page_penalty::<M>(s, mode))),
        Mnemonic::Cpy => (compare_flags(s, s.index_y, operand::<M>(s, mode)), plus_one_if(c, page_penalty::<M>(s, mode))),
        Mnemonic::Cpx => (compare_flags(s, s.index_x, operand::<M>(s, mode)), plus_one_if(c, page_penalty::<M>(s, mode))),
        Mnemonic::Jmp => if op.code == 0x4c {
            (s.with_pc(read16::<M>(s, s.program_counter)), c)
        } else {
            (s.with_pc(indirect_target::<M>(s, read16::<M>(s, s.program_counter))), c)
        },
        Mnemonic::Jsr => (jsr::<M>(s), c),
        Mnemonic::Rts => (rts::<M>(s), c),
        Mnemonic::Rti => (rti::<M>(s), c),
        Mnemonic::Bne => { let (s1, e) = branch::<M>(s, !s.flag(CpuFlags::Zero)); (s1, (c + e) as u8) },
        Mnemonic::Bvs => { let (s1, e) = branch::<M>(s, s.flag(CpuFlags::Overflow)); (s1, (c + e) as u8) },
        Mnemonic::Bvc => { let (s1, e) = branch::<M>(s, !s.flag(CpuFlags::Overflow)); (s1, (c + e) as u8) },
        Mnemonic::Bmi => { let (s1, e) = branch::<M>(s, s.flag(CpuFlags::Negative)); (s1, (c + e) as u8) },
        Mnemonic::Beq => { let (s1, e) = branch::<M>(s, s.flag(CpuFlags::Zero)); (s1, (c + e) as u8) },
        Mnemonic::Bcs => { let (s1, e) = branch::<M>(s, s.flag(CpuFlags::Carry)); (s1, (c + e) as u8) },
        Mnemonic::Bcc => { let (s1, e) = branch::<M>(s, !s.flag(CpuFlags::Carry)); (s1, (c + e) as u8) },
        Mnemonic::Bpl => { let (s1, e) = branch::<M>(s, !s.flag(CpuFlags::Negative)); (s1, (c + e) as u8) },
        Mnemonic::Bit => (bit::<M>(s, mode), c),
        Mnemonic::Lda => (lda::<M>(s, mode), plus_one_if(c, page_penalty::<M>(s, mode))),
        Mnemonic::Ldx => {
            let v = operand::<M>(s, mode);
            (s.with_x(v).set_zn(v), plus_one_if(c, page_penalty::<M>(s, mode)))
        },
        Mnemonic::Ldy => {
            let v = operand::<M>(s, mode);
            (s.with_y(v).set_zn(v), plus_one_if(c, page_penalty::<M>(s, mode)))
        },
        Mnemonic::Sta => (store::<M>(s, mode, s.accumulator), c),
        Mnemonic::Stx => (store::<M>(s, mode, s.index_x), c),
        Mnemonic::Sty => (store::<M>(s, mode, s.index_y), c),
        Mnemonic::Cld => (s.set_flag(CpuFlags::Decimal, false), c),
        Mnemonic::Cli => (s.set_flag(CpuFlags::Interrupt, false), c),
        Mnemonic::Clv => (s.set_flag(CpuFlags::Overflow, false), c),
        Mnemonic::Clc => (s.set_flag(CpuFlags::Carry, false), c),
        Mnemonic::Sec => (s.set_flag(CpuFlags::Carry, true), c),
        Mnemonic::Sei => (s.set_flag(CpuFlags::Interrupt, true), c),
        Mnemonic::Sed => (s.set_flag(CpuFlags::Decimal, true), c),
        Mnemonic::Tax => (s.with_x(s.accumulator).set_zn(s.accumulator), c),
        Mnemonic::Tay => (s.with_y(s.accumulator).set_zn(s.accumulator), c),
        Mnemonic::Tsx => (s.with_x(s.stack_pointer).set_zn(s.stack_pointer), c),
        Mnemonic::Txa => (s.with_a(s.index_x).set_zn(s.index_x), c),
        Mnemonic::Txs => (s.with_sp(s.index_x), c),
        Mnemonic::Tya => (s.with_a(s.index_y).set_zn(s.index_y), c),
        Mnemonic::Pha => (push::<M>(s, s.accumulator), c),
        Mnemonic::Php => (push::<M>(s, s.status), c),
        Mnemonic::Pla => { let (s1, v) = pop::<M>(s); (s1.with_a(v).set_zn(v), c) },
        Mnemonic::Plp => (plp::<M>(s), c),
        Mnemonic::Dcp => (dcp::<M>(s, mode), c),
        Mnemonic::Rla => {
            let (s1, data) = rol::<M>(s, mode);
            let v = data & s1.accumulator;
            (s1.with_a(v).set_zn(v), c)
        },
        Mnemonic::Slo => {
            let (s1, data) = asl::<M>(s, mode);
            let v = data | s1.accumulator;
            (s1.with_a(v).set_zn(v), c)
        },
        Mnemonic::Sre => (eor::<M>(lsr::<M>(s, mode).0, mode), c),
        Mnemonic::Axs => (axs::<M>(s, mode), c),
        Mnemonic::Arr => {
            let v = s.accumulator & operand::<M>(s, mode);
            (ror::<M>(s.with_a(v).set_zn(v), mode).0, c)
        },
        Mnemonic::IllegalSbc => (sub_from_accumulator(s, operand::<M>(s, mode)), c),
        Mnemonic::Anc => {
            let v = operand::<M>(s, mode) & s.accumulator;
            let s1 = s.with_a(v).set_zn(v);
            (s1.set_flag(CpuFlags::Carry, s1.flag(CpuFlags::Negative)), c)
        },
        Mnemonic::Alr => {
            let v = operand::<M>(s, mode) & s.accumulator;
            (lsr::<M>(s.with_a(v).set_zn(v), mode).0, c)
        },
        Mnemonic::Rra => {
            let (s1, data) = ror::<M>(s, mode);
            (add_to_accumulator(s1, data), c)
        },
        Mnemonic::Isc => {
            let s1 = step_memory::<M>(s, mode, true).0;
            (sub_from_accumulator(s1, operand::<M>(s1, mode)), c)
        },
        Mnemonic::Lax => (lda::<M>(s, mode).with_a(s.index_x), c),
        Mnemonic::Sax => (store::<M>(s, mode, s.accumulator & s.index_x), c),
        Mnemonic::Lxa => {
            let s1 = lda::<M>(s, mode);
            (s1.with_x(s1.accumulator).set_zn(s1.accumulator), c)
        },
        Mnemonic::Xaa => {
            let s1 = s.with_a(s.index_x).set_zn(s.index_x);
            let v = operand::<M>(s1, mode) & s1.accumulator;
            (s1.with_a(v).set_zn(v), c)
        },
        Mnemonic::Las => {
            let data = operand::<M>(s, mode) & s.stack_pointer;
            (s.with_a(data).with_x(data).with_sp(data).set_zn(data), c)
        },
        Mnemonic::Tas => {
            let s1 = s.with_sp(s.accumulator & s.index_x);
            let mem_address = (unstable_base::<M>(s1, op) + s.index_y) as u16;
            let data = (((mem_address >> 8u16) as u8 + 1) as u8) & s1.stack_pointer;
            (write_byte::<M>(s1, mem_address, data), c)
        },
        Mnemonic::Ahx => {
            let mem_address = (unstable_base::<M>(s, op) + s.index_y) as u16;
            let data = s.accumulator & s.index_x & ((mem_address >> 8u16) as u8);
            (write_byte::<M>(s, mem_address, data), c)
        },
        Mnemonic::Shx => {
            let mem_address = (unstable_base::<M>(s, op) + s.index_y) as u16;
            let data = s.index_x & (((mem_address >> 8u16) as u8 + 1) as u8);
            (write_byte::<M>(s, mem_address, data), c)
        },
        Mnemonic::Brk | Mnemonic::Shy => (s, 0),
    }
}

#[verifier::opaque]
/// Whether carrying out `op` returns normally: every read and write it makes
/// is allowed and no sum overflows.
pub open spec fn instruction_ok<M: Memory>(s: CpuModel<M::Model>, op: OpCode) -> bool {
    let mode = op.mode;
    match op.mnemonic {
        Mnemonic::Nop | Mnemonic::IllegalNop => nop_reads(op.code) ==> operand_ok::<M>(s, mode),
        Mnemonic::Adc | Mnemonic::Sbc | Mnemonic::And | Mnemonic::Eor | Mnemonic::Ora | Mnemonic::Cmp
        | Mnemonic::Cpy | Mnemonic::Cpx | Mnemonic::Bit | Mnemonic::Lda | Mnemonic::Ldx | Mnemonic::Ldy
        | Mnemonic::IllegalSbc | Mnemonic::Lax | Mnemonic::Lxa | Mnemonic::Las => operand_ok::<M>(s, mode),
        Mnemonic::Axs | Mnemonic::Anc => operand_ok::<M>(s, mode),
        Mnemonic::Asl | Mnemonic::Lsr | Mnemonic::Rol | Mnemonic::Ror | Mnemonic::Rla | Mnemonic::Slo
        | Mnemonic::Rra => rmw_ok::<M>(s, mode),
        Mnemonic::Inc | Mnemonic::Dec | Mnemonic::Dcp => rw_ok::<M>(s, mode),
        Mnemonic::Jmp => read16_ok::<M>(s, s.program_counter) && (op.code != 0x4c
            ==> indirect_target_ok::<M>(s, read16::<M>(s, s.program_counter))),
        Mnemonic::Jsr => jsr_ok::<M>(s),
        Mnemonic::Rts => rts_ok::<M>(s),
        Mnemonic::Rti => rti_ok::<M>(s),
        Mnemonic::Bne => branch_ok::<M>(s, !s.flag(CpuFlags::Zero)),
        Mnemonic::Bvs => branch_ok::<M>(s, s.flag(CpuFlags::Overflow)),
        Mnemonic::Bvc => branch_ok::<M>(s, !s.flag(CpuFlags::Overflow)),
        Mnemonic::Bmi => branch_ok::<M>(s, s.flag(CpuFlags::Negative)),
        Mnemonic::Beq => branch_ok::<M>(s, s.flag(CpuFlags::Zero)),
        Mnemonic::Bcs => branch_ok::<M>(s, s.flag(CpuFlags::Carry)),
        Mnemonic::Bcc => branch_ok::<M>(s, !s.flag(CpuFlags::Carry)),
        Mnemonic::Bpl => branch_ok::<M>(s, !s.flag(CpuFlags::Negative)),
        Mnemonic::Sta | Mnemonic::Stx | Mnemonic::Sty | Mnemonic::Sax => store_ok::<M>(s, mode),
        Mnemonic::Pha | Mnemonic::Php => push_ok::<M>(s),
        Mnemonic::Pla | Mnemonic::Plp => pop_ok::<M>(s),
        Mnemonic::Sre => rmw_ok::<M>(s, mode) && operand_ok::<M>(lsr::<M>(s, mode).0, mode),
        Mnemonic::Arr => {
            let v = s.accumulator & operand::<M>(s, mode);
            operand_ok::<M>(s, mode) && rmw_ok::<M>(s.with_a(v).set_zn(v), mode)
        },
        Mnemonic::Alr => {
            let v = operand::<M>(s, mode) & s.accumulator;
            operand_ok::<M>(s, mode) && rmw_ok::<M>(s.with_a(v).set_zn(v), mode)
        },
        Mnemonic::Isc => rw_ok::<M>(s, mode) && operand_ok::<M>(step_memory::<M>(s, mode, true).0, mode),
        Mnemonic::Xaa => operand_ok::<M>(s.with_a(s.index_x).set_zn(s.index_x), mode),
        Mnemonic::Tas => {
            let s1 = s.with_sp(s.accumulator & s.index_x);
            let sum = unstable_base::<M>(s1, op) + s.index_y;
            unstable_base_ok::<M>(s1, op) && sum <= 0xFFFF && (sum as u16 >> 8u16) < 0xFF
                && write_ok::<M>(s1, sum as u16)
        },
        Mnemonic::Ahx => {
            let sum = unstable_base::<M>(s, op) + s.index_y;
            unstable_base_ok::<M>(s, op) && sum <= 0xFFFF && write_ok::<M>(s, sum as u16)
        },
        Mnemonic::Shx => {
            let sum = unstable_base::<M>(s, op) + s.index_y;
            unstable_base_ok::<M>(s, op) && sum <= 0xFFFF && (sum as u16 >> 8u16) < 0xFF
                && write_ok::<M>(s, sum as u16)
        },
        _ => true,
    }
}

/// The state after the opcode byte at the program counter is fetched.
pub open spec fn fetched<V>(s: CpuModel<V>) -> CpuModel<V> {
    s.with_pc((s.program_counter + 1) as u16)
}

#[verifier::opaque]
/// Runs the CPU for `cpu_cycles` cycles with `stall_cycles` cycles still to
/// wait, and gives the final state and how the run ended; `None` when the run
/// would not return normally (a read or write that the memory refuses, or an
/// overflow).
///
/// Each round, in order: a pending interrupt is served and the cycle budget
/// is dropped in favour of the cycles the interrupt takes; a stall cycle is
/// spent; the run ends when no cycle is left; otherwise one instruction is
/// fetched and carried out. BRK raises an interrupt that is served at once.
/// An instruction that takes more cycles than are left ends the budget; one
/// that does not move the program counter itself advances it past its
/// operand bytes.
pub open spec fn run<M: Memory>(s: CpuModel<M::Model>, cpu_cycles: u32, stall_cycles: u32) -> Option<(CpuModel<M::Model>, Result<(), Error>)>
    decreases cpu_cycles, (if s.interrupt is Some { 1int } else { 0int }), stall_cycles,
{
    if s.interrupt is Some {
        if handle_interrupt_ok::<M>(s) {
            let (s1, cycles) = handle_interrupt::<M>(s);
            run::<M>(s1, 0, cycles as u32)
        } else {
            None
        }
    } else if stall_cycles > 0 {
        run::<M>(s, cpu_cycles, (stall_cycles - 1) as u32)
    } else if cpu_cycles == 0 {
        Some((s, Ok(())))
    } else if !(read_ok::<M>(s, s.program_counter) && s.program_counter < 0xFFFF) {
        None
    } else {
        let code = read::<M>(s, s.program_counter);
        let s1 = fetched(s);
        match opcode_table(code) {
            None => Some((s1, Err(Error::UnknownOpCode(code)))),
            Some(op) => if op.mnemonic == Mnemonic::Brk {
                let s2 = CpuModel { interrupt: Some(Interrupt::BRK), ..s1 };
                if handle_interrupt_ok::<M>(s2) {
                    let (s3, cycles) = handle_interrupt::<M>(s2);
                    run::<M>(s3, 0, cycles as u32)
                } else {
                    None
                }
            } else if op.mnemonic == Mnemonic::Shy {
                Some((s1, Err(Error::UnhandledOpCode(code))))
            } else if !instruction_ok::<M>(s1, op) {
                None
            } else {
                let (s2, consumed) = instruction::<M>(s1, op);
                let diff = (cpu_cycles as i32) - consumed;
                if diff < i32::MIN {
                    None
                } else if diff < 0 {
                    run::<M>(s2, 0, 0)
                } else if s2.program_counter == s1.program_counter {
                    if s2.program_counter + (op.len - 1) > 0xFFFF {
                        None
                    } else {
                        proof { lemma_opcode_table_entries(code); lemma_instruction_consumes::<M>(s1, op); }
                        run::<M>(s2.with_pc((s2.program_counter + (op.len - 1)) as u16), (cpu_cycles - consumed) as u32, 0)
                    }
                } else {
                    proof { lemma_opcode_table_entries(code); lemma_instruction_consumes::<M>(s1, op); }
                    run::<M>(s2, (cpu_cycles - consumed) as u32, 0)
                }
            },
        }
    }
}

/// A table instruction that the loop carries out takes at least two cycles.
pub proof fn lemma_instruction_consumes<M: Memory>(s: CpuModel<M::Model>, op: OpCode)
    requires
        opcode_table(op.code) == Some(op),
    ensures
        instruction::<M>(s, op).1 >= 2 || !is_handled(op),
{
    reveal(instruction);
    lemma_opcode_table_entries(op.code);
}

/// A pending interrupt is served first, and the cycle budget is dropped.
pub proof fn lemma_run_interrupt<M: Memory>(s: CpuModel<M::Model>, cpu_cycles: u32, stall_cycles: u32)
    requires
        s.interrupt is Some,
    ensures
        run::<M>(s, cpu_cycles, stall_cycles) == if handle_interrupt_ok::<M>(s) {
            run::<M>(handle_interrupt::<M>(s).0, 0, handle_interrupt::<M>(s).1 as u32)
        } else {
            None
        },
{
    reveal_with_fuel(run, 1);
}

/// Without an interrupt, a stall cycle is spent next.
pub proof fn lemma_run_stall<M: Memory>(s: CpuModel<M::Model>, cpu_cycles: u32, stall_cycles: u32)
    requires
        s.interrupt is None,
        stall_cycles > 0,
    ensures
        run::<M>(s, cpu_cycles, stall_cycles) == run::<M>(s, cpu_cycles, (stall_cycles - 1) as u32),
{
    reveal_with_fuel(run, 1);
}

/// With no interrupt, no stall and no cycle left, the run ends well.
pub proof fn lemma_run_done<M: Memory>(s: CpuModel<M::Model>)
    requires
        s.interrupt is None,
    ensures
        run::<M>(s, 0, 0) == Some((s, Ok::<(), Error>(()))),
{
    reveal_with_fuel(run, 1);
}

/// Otherwise an instruction is fetched: what follows depends on its opcode.
pub proof fn lemma_run_fetch<M: Memory>(s: CpuModel<M::Model>, cpu_cycles: u32)
    requires
        s.interrupt is None,
        cpu_cycles > 0,
    ensures
        run::<M>(s, cpu_cycles, 0) is Some ==> read_ok::<M>(s, s.program_counter) && s.program_counter < 0xFFFF,
        read_ok::<M>(s, s.program_counter) && s.program_counter < 0xFFFF ==> {
            let code = read::<M>(s, s.program_counter);
            let s1 = fetched(s);
            match opcode_table(code) {
                None => run::<M>(s, cpu_cycles, 0) == Some((s1, Err::<(), Error>(Error::UnknownOpCode(code)))),
                Some(op) => if op.mnemonic == Mnemonic::Brk {
                    let s2 = CpuModel { interrupt: Some(Interrupt::BRK), ..s1 };
                    run::<M>(s, cpu_cycles, 0) == if handle_interrupt_ok::<M>(s2) {
                        run::<M>(handle_interrupt::<M>(s2).0, 0, handle_interrupt::<M>(s2).1 as u32)
                    } else {
                        None
                    }
                } else if op.mnemonic == Mnemonic::Shy {
                    run::<M>(s, cpu_cycles, 0) == Some((s1, Err::<(), Error>(Error::UnhandledOpCode(code))))
                } else {
                    run::<M>(s, cpu_cycles, 0) == run_after::<M>(s1, op, cpu_cycles)
                },
            }
        },
{
    reveal_with_fuel(run, 1);
}

/// How the run goes on after `op` has been fetched into `s1`.
pub open spec fn run_after<M: Memory>(s1: CpuModel<M::Model>, op: OpCode, cpu_cycles: u32) -> Option<(CpuModel<M::Model>, Result<(), Error>)> {
    if !instruction_ok::<M>(s1, op) {
        None
    } else {
        let (s2, consumed) = instruction::<M>(s1, op);
        let diff = (cpu_cycles as i32) - consumed;
        if diff < i32::MIN {
            None
        } else if diff < 0 {
            run::<M>(s2, 0, 0)
        } else if s2.program_counter == s1.program_counter {
            if s2.program_counter + (op.len - 1) > 0xFFFF {
                None
            } else {
                run::<M>(s2.with_pc((s2.program_counter + (op.len - 1)) as u16), (cpu_cycles - consumed) as u32, 0)
            }
        } else {
            run::<M>(s2, (cpu_cycles - consumed) as u32, 0)
        }
    }
}

} // verus!
