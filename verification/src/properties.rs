//! Properties that hold across instructions: what the stack gives back,
//! how subroutines and interrupts return, and what the flags mean.
use vstd::prelude::*;
use crate::flags::{CpuFlags, flag_mask, lemma_set_flag, with_mask};
use crate::interrupts::Interrupt;
use crate::bus::{Bus, bus_keys, lemma_read_after_write, lemma_write_keeps_regions, region_of};
use crate::memory::{Memory, high_byte, lemma_word_round_trip, low_byte};
use crate::ops::{AddressingMode, Mnemonic, OpCode, lemma_opcode_table_entries, opcode_table};
use crate::error::Error;
use crate::model::{
    fetched, instruction_ok, read_ok, lemma_instruction_consumes, lemma_run_done, lemma_run_fetch, run, absolute_address, absolute_address_ok, and, asl, bit, branch, eor, instruction, lda, lsr, operand,
    operand_address, ora, page_penalty, plp, plus_one_if, read, rmw_source, rmw_store, rol, ror, step_memory, store,
    wrapping_add_u16, write_byte, CpuModel, add_to_accumulator, compare_flags, handle_interrupt, handle_interrupt_ok, jsr, jsr_ok, pop, pop16,
    pop16_ok, pop_ok, push, push16, push16_ok, push_ok, read16, rti, rti_ok, rts, rts_ok, stack_address,
    sub_from_accumulator, wrapping_add_u8, wrapping_sub_u8,
};
use crate::nes::{NesDevice, NesDeviceModel, RAMChip, lemma_ram_read_after_write, ram_index};

verus! {

/// The registers of two states agree; their memory may differ.
pub open spec fn same_registers<V>(a: CpuModel<V>, b: CpuModel<V>) -> bool {
    &&& a.status == b.status
    &&& a.accumulator == b.accumulator
    &&& a.index_x == b.index_x
    &&& a.index_y == b.index_y
    &&& a.program_counter == b.program_counter
    &&& a.stack_pointer == b.stack_pointer
    &&& a.interrupt == b.interrupt
}

proof fn lemma_stack_cells_differ(a: u8, b: u8)
    requires
        a != b,
    ensures
        ram_index(stack_address(a)) != ram_index(stack_address(b)),
{
}

/// On every memory model that `inv` admits, the stack page behaves as RAM:
/// each of its cells can be read and written, a write keeps the memory
/// admitted, a read gives back the byte last written to the cell, and a write
/// leaves the other cells of the page as they were.
pub open spec fn stack_is_ram<M: Memory>(inv: spec_fn(M::Model) -> bool) -> bool {
    &&& forall|m: M::Model, a: u8, d: u8|
        #![trigger M::write_model(m, stack_address(a), d)]
        inv(m) ==> {
            &&& M::can_read(m, stack_address(a))
            &&& M::can_write(m, stack_address(a))
            &&& inv(M::write_model(m, stack_address(a), d))
            &&& M::read_model(M::write_model(m, stack_address(a), d), stack_address(a)) == d
        }
    &&& forall|m: M::Model, a: u8, d: u8, b: u8|
        #![trigger M::read_model(M::write_model(m, stack_address(a), d), stack_address(b))]
        inv(m) && a != b ==> M::read_model(M::write_model(m, stack_address(a), d), stack_address(b))
            == M::read_model(m, stack_address(b))
}

proof fn lemma_stack_cell<M: Memory>(inv: spec_fn(M::Model) -> bool, m: M::Model, a: u8, d: u8, b: u8)
    requires
        stack_is_ram::<M>(inv),
        inv(m),
    ensures
        M::can_write(m, stack_address(a)),
        M::can_read(m, stack_address(b)),
        inv(M::write_model(m, stack_address(a), d)),
        M::read_model(M::write_model(m, stack_address(a), d), stack_address(a)) == d,
        a != b ==> M::read_model(M::write_model(m, stack_address(a), d), stack_address(b)) == M::read_model(
            m,
            stack_address(b),
        ),
{
    assert(M::read_model(M::write_model(m, stack_address(b), d), stack_address(b)) == d);
    assert(M::read_model(M::write_model(m, stack_address(a), d), stack_address(a)) == d);
    if a != b {
        assert(M::read_model(M::write_model(m, stack_address(a), d), stack_address(b)) == M::read_model(
            m,
            stack_address(b),
        ));
    }
}

/// Work RAM keeps the stack page as RAM.
pub proof fn lemma_ram_chip_stack()
    ensures
        stack_is_ram::<RAMChip>(|m: Seq<u8>| m.len() == 2048),
{
    let inv = |m: Seq<u8>| m.len() == 2048;
    assert forall|m: Seq<u8>, a: u8, d: u8|
        #![trigger RAMChip::write_model(m, stack_address(a), d)]
        inv(m) implies {
        &&& RAMChip::can_read(m, stack_address(a))
        &&& RAMChip::can_write(m, stack_address(a))
        &&& inv(RAMChip::write_model(m, stack_address(a), d))
        &&& RAMChip::read_model(RAMChip::write_model(m, stack_address(a), d), stack_address(a)) == d
    } by {
        lemma_ram_read_after_write(m, stack_address(a), d, stack_address(a));
    }
    assert forall|m: Seq<u8>, a: u8, d: u8, b: u8| inv(m) && a != b implies #[trigger] RAMChip::read_model(
        RAMChip::write_model(m, stack_address(a), d),
        stack_address(b),
    ) == RAMChip::read_model(m, stack_address(b)) by {
        lemma_ram_read_after_write(m, stack_address(a), d, stack_address(b));
        lemma_stack_cells_differ(a, b);
    }
}

/// The memory model of a console bus whose stack page lies wholly in work
/// RAM: each stack address reaches a region whose device is work RAM.
pub open spec fn stack_in_work_ram(m: Seq<((u16, u16), NesDeviceModel)>) -> bool {
    forall|sp: u8|
        #[trigger] region_of(bus_keys(m), stack_address(sp)) matches Some(i) && m[i].1 matches NesDeviceModel::Ram(
            r,
        ) && r.len() == 2048
}

/// A console bus whose stack page lies in work RAM keeps it as RAM.
pub proof fn lemma_nes_bus_stack()
    ensures
        stack_is_ram::<Bus<NesDevice>>(|m: Seq<((u16, u16), NesDeviceModel)>| stack_in_work_ram(m)),
{
    let inv = |m: Seq<((u16, u16), NesDeviceModel)>| stack_in_work_ram(m);
    assert forall|m: Seq<((u16, u16), NesDeviceModel)>, a: u8, d: u8|
        #![trigger Bus::<NesDevice>::write_model(m, stack_address(a), d)]
        inv(m) implies {
        &&& Bus::<NesDevice>::can_read(m, stack_address(a))
        &&& Bus::<NesDevice>::can_write(m, stack_address(a))
        &&& inv(Bus::<NesDevice>::write_model(m, stack_address(a), d))
        &&& Bus::<NesDevice>::read_model(Bus::<NesDevice>::write_model(m, stack_address(a), d), stack_address(a))
            == d
    } by {
        lemma_bus_stack_write(m, a, d, a);
        let m1 = Bus::<NesDevice>::write_model(m, stack_address(a), d);
        assert forall|sp: u8| #[trigger] region_of(bus_keys(m1), stack_address(sp)) matches Some(i) && m1[i].1 matches NesDeviceModel::Ram(r) && r.len() == 2048 by {
            lemma_bus_stack_write(m, a, d, sp);
        }
    }
    assert forall|m: Seq<((u16, u16), NesDeviceModel)>, a: u8, d: u8, b: u8| inv(m) && a != b implies #[trigger] Bus::<
        NesDevice,
    >::read_model(Bus::<NesDevice>::write_model(m, stack_address(a), d), stack_address(b))
        == Bus::<NesDevice>::read_model(m, stack_address(b)) by {
        lemma_bus_stack_write(m, a, d, b);
    }
}

/// A write at the stack address of `a` on a console bus whose stack page is
/// in work RAM, seen from the stack address of `b`.
proof fn lemma_bus_stack_write(m: Seq<((u16, u16), NesDeviceModel)>, a: u8, d: u8, b: u8)
    requires
        stack_in_work_ram(m),
    ensures
        Bus::<NesDevice>::can_read(m, stack_address(a)),
        Bus::<NesDevice>::can_write(m, stack_address(a)),
        Bus::<NesDevice>::read_model(Bus::<NesDevice>::write_model(m, stack_address(a), d), stack_address(b))
            == if a == b { d } else { Bus::<NesDevice>::read_model(m, stack_address(b)) },
        ({
            let m1 = Bus::<NesDevice>::write_model(m, stack_address(a), d);
            region_of(bus_keys(m1), stack_address(b)) matches Some(i) && m1[i].1 matches NesDeviceModel::Ram(r)
                && r.len() == 2048
        }),
{
    let sa = stack_address(a);
    let sb = stack_address(b);
    assert(region_of(bus_keys(m), sa) is Some);
    assert(region_of(bus_keys(m), sb) is Some);
    let i = region_of(bus_keys(m), sa).unwrap();
    let j = region_of(bus_keys(m), sb).unwrap();
    lemma_read_after_write::<NesDevice>(m, sa, d, sb);
    lemma_write_keeps_regions::<NesDevice>(m, sa, d);
    if let NesDeviceModel::Ram(r) = m[i].1 {
        lemma_ram_read_after_write(r, sa, d, sb);
        if a != b {
            lemma_stack_cells_differ(a, b);
        }
    }
}

/// Popping right after a push gives back the pushed byte and leaves the
/// registers as they were before the push, on any memory whose stack page
/// behaves as RAM.
pub proof fn lemma_push_then_pop<M: Memory>(inv: spec_fn(M::Model) -> bool, s: CpuModel<M::Model>, data: u8)
    requires
        stack_is_ram::<M>(inv),
        inv(s.mem),
    ensures
        push_ok::<M>(s),
        pop_ok::<M>(push::<M>(s, data)),
        pop::<M>(push::<M>(s, data)).1 == data,
        same_registers(pop::<M>(push::<M>(s, data)).0, s),
        inv(pop::<M>(push::<M>(s, data)).0.mem),
{
    let sp = s.stack_pointer;
    lemma_stack_cell::<M>(inv, s.mem, sp, data, sp);
    lemma_stack_cell::<M>(inv, M::write_model(s.mem, stack_address(sp), data), sp, data, sp);
    assert(wrapping_sub_u8(wrapping_add_u8(sp, 1), 1) == sp);
}

/// Popping a word right after pushing it gives back the word and leaves the
/// registers as they were before the push, on any memory whose stack page
/// behaves as RAM.
pub proof fn lemma_push16_then_pop16<M: Memory>(inv: spec_fn(M::Model) -> bool, s: CpuModel<M::Model>, data: u16)
    requires
        stack_is_ram::<M>(inv),
        inv(s.mem),
    ensures
        push16_ok::<M>(s, data),
        pop16_ok::<M>(push16::<M>(s, data)),
        pop16::<M>(push16::<M>(s, data)).1 == data,
        same_registers(pop16::<M>(push16::<M>(s, data)).0, s),
        inv(push16::<M>(s, data).mem),
{
    let sp0 = s.stack_pointer;
    let sp1 = wrapping_add_u8(sp0, 1);
    let hi = high_byte(data);
    let lo = low_byte(data);
    let m1 = M::write_model(s.mem, stack_address(sp0), hi);
    lemma_stack_cell::<M>(inv, s.mem, sp0, hi, sp0);
    lemma_stack_cell::<M>(inv, m1, sp1, lo, sp1);
    lemma_stack_cell::<M>(inv, m1, sp1, lo, sp0);
    let m2 = M::write_model(m1, stack_address(sp1), lo);
    lemma_stack_cell::<M>(inv, m2, sp1, lo, sp0);
    lemma_stack_cell::<M>(inv, m2, sp0, lo, sp1);
    assert(sp0 != sp1);
    assert(wrapping_sub_u8(wrapping_add_u8(sp1, 1), 1) == sp1);
    assert(wrapping_sub_u8(sp1, 1) == sp0);
    lemma_word_round_trip(data, lo, hi);
}

/// A subroutine call followed by a return resumes after the call's operand
/// (two bytes past where the operand starts), with the stack pointer as it
/// was, on any memory whose stack page behaves as RAM.
pub proof fn lemma_jsr_then_rts<M: Memory>(inv: spec_fn(M::Model) -> bool, s: CpuModel<M::Model>)
    requires
        stack_is_ram::<M>(inv),
        inv(s.mem),
        jsr_ok::<M>(s),
    ensures
        rts_ok::<M>(jsr::<M>(s)),
        rts::<M>(jsr::<M>(s)).program_counter == s.program_counter + 2,
        rts::<M>(jsr::<M>(s)).stack_pointer == s.stack_pointer,
{
    let ret = (s.program_counter + 2 - 1) as u16;
    lemma_push16_then_pop16::<M>(inv, s, ret);
    let s1 = push16::<M>(s, ret);
    let s2 = s1.with_pc(read16::<M>(s1, s.program_counter));
    assert(pop16::<M>(s2) == (CpuModel { program_counter: s2.program_counter, ..pop16::<M>(s1).0 }, pop16::<M>(
        s1,
    ).1));
}

/// Returning from an NMI, IRQ or BRK handler resumes where the interrupt
/// came, with the stack pointer as it was and the status as it was, except
/// that Break is cleared and UNK set, on any memory whose stack page behaves
/// as RAM.
#[verifier::rlimit(50)]
pub proof fn lemma_interrupt_then_rti<M: Memory>(inv: spec_fn(M::Model) -> bool, s: CpuModel<M::Model>)
    requires
        stack_is_ram::<M>(inv),
        inv(s.mem),
        s.interrupt == Some(Interrupt::NMI) || s.interrupt == Some(Interrupt::IRQ) || s.interrupt == Some(
            Interrupt::BRK,
        ),
        handle_interrupt_ok::<M>(s),
    ensures
        rti_ok::<M>(handle_interrupt::<M>(s).0),
        rti::<M>(handle_interrupt::<M>(s).0).program_counter == s.program_counter,
        rti::<M>(handle_interrupt::<M>(s).0).stack_pointer == s.stack_pointer,
        rti::<M>(handle_interrupt::<M>(s).0).status == with_mask(
            with_mask(s.status, flag_mask(CpuFlags::Break), false),
            flag_mask(CpuFlags::UNK),
            true,
        ),
{
    let pc = s.program_counter;
    let sp0 = s.stack_pointer;
    let sp1 = wrapping_add_u8(sp0, 1);
    let sp2 = wrapping_add_u8(sp1, 1);
    let hi = high_byte(pc);
    let lo = low_byte(pc);
    let b = flag_mask(CpuFlags::Break);
    let st = s.status;
    let pushed = if s.interrupt == Some(Interrupt::BRK) {
        with_mask(st, b, true)
    } else if s.interrupt == Some(Interrupt::IRQ) {
        with_mask(st, b, false)
    } else {
        st
    };
    let m0 = s.mem;
    let m1 = M::write_model(m0, stack_address(sp0), hi);
    let m2 = M::write_model(m1, stack_address(sp1), lo);
    assert(sp0 != sp1 && sp1 != sp2 && sp0 != sp2);
    lemma_stack_cell::<M>(inv, m0, sp0, hi, sp0);
    lemma_stack_cell::<M>(inv, m1, sp1, lo, sp1);
    lemma_stack_cell::<M>(inv, m1, sp1, lo, sp0);
    lemma_stack_cell::<M>(inv, m2, sp2, pushed, sp2);
    lemma_stack_cell::<M>(inv, m2, sp2, pushed, sp1);
    lemma_stack_cell::<M>(inv, m2, sp2, pushed, sp0);
    let m3 = M::write_model(m2, stack_address(sp2), pushed);
    lemma_stack_cell::<M>(inv, m3, sp2, pushed, sp1);
    lemma_stack_cell::<M>(inv, m3, sp1, pushed, sp0);
    lemma_stack_cell::<M>(inv, m3, sp0, pushed, sp2);
    assert(wrapping_sub_u8(wrapping_add_u8(sp2, 1), 1) == sp2);
    assert(wrapping_sub_u8(sp2, 1) == sp1);
    assert(wrapping_sub_u8(sp1, 1) == sp0);
    lemma_word_round_trip(pc, lo, hi);
    let u = flag_mask(CpuFlags::UNK);
    assert(((st | b) & !b) == (st & !b)) by (bit_vector);
    assert(((st & !b) & !b) == (st & !b)) by (bit_vector);
}

/// After a value sets the Zero and Negative flags, Zero tells whether it is
/// 0 and Negative whether it is 128 or more; the other flags are kept.
pub proof fn lemma_zero_negative<V>(s: CpuModel<V>, value: u8, other: CpuFlags)
    ensures
        s.set_zn(value).flag(CpuFlags::Zero) == (value == 0),
        s.set_zn(value).flag(CpuFlags::Negative) == (value >= 128),
        other != CpuFlags::Zero && other != CpuFlags::Negative ==> s.set_zn(value).flag(other) == s.flag(other),
{
    let s1 = s.set_flag(CpuFlags::Zero, value == 0);
    lemma_set_flag(s.status, CpuFlags::Zero, value == 0, CpuFlags::Negative);
    lemma_set_flag(s.status, CpuFlags::Zero, value == 0, other);
    lemma_set_flag(s1.status, CpuFlags::Negative, (value & 0x80u8) != 0, CpuFlags::Zero);
    lemma_set_flag(s1.status, CpuFlags::Negative, (value & 0x80u8) != 0, other);
    assert(((value & 0x80u8) != 0) == (value >= 128)) by (bit_vector);
}

/// ADC leaves `A + M + C` modulo 256 in the accumulator; Carry tells whether
/// that sum exceeded 255, Overflow whether the operands share a sign that the
/// result lacks, and Zero and Negative describe the result.
pub proof fn lemma_add_with_carry<V>(s: CpuModel<V>, value: u8)
    ensures
        ({
            let c: int = if s.flag(CpuFlags::Carry) { 1 } else { 0 };
            let r = add_to_accumulator(s, value);
            &&& r.accumulator == (s.accumulator + value + c) % 256
            &&& r.flag(CpuFlags::Carry) == (s.accumulator + value + c > 255)
            &&& r.flag(CpuFlags::Overflow) == ((value ^ r.accumulator) & (s.accumulator ^ r.accumulator) & 0x80u8
                != 0)
            &&& r.flag(CpuFlags::Zero) == (r.accumulator == 0)
            &&& r.flag(CpuFlags::Negative) == (r.accumulator >= 128)
        }),
{
    let r = add_to_accumulator(s, value);
    let c: int = if s.flag(CpuFlags::Carry) { 1 } else { 0 };
    assert((((s.accumulator + value) % 256) + c) % 256 == (s.accumulator + value + c) % 256) by (nonlinear_arith)
        requires 0 <= c <= 1, 0 <= s.accumulator < 256, 0 <= value < 256;
    let sum = r.accumulator;
    let a = s.accumulator;
    let s1 = s.set_flag(CpuFlags::Carry, s.accumulator + value + c > 255);
    let s2 = s1.set_flag(CpuFlags::Overflow, ((value ^ sum) & (sum ^ a) & 0x80u8) != 0);
    lemma_set_flag(s.status, CpuFlags::Carry, s.accumulator + value + c > 255, CpuFlags::Overflow);
    lemma_set_flag(s1.status, CpuFlags::Overflow, ((value ^ sum) & (sum ^ a) & 0x80u8) != 0, CpuFlags::Carry);
    lemma_zero_negative(s2.with_a(sum), sum, CpuFlags::Carry);
    lemma_zero_negative(s2.with_a(sum), sum, CpuFlags::Overflow);
    assert((sum ^ a) == (a ^ sum)) by (bit_vector);
}

/// SBC leaves `A - M - (1 - C)` modulo 256 in the accumulator; Carry tells
/// whether no borrow was needed (the difference is not negative), Overflow
/// whether the operands differ in sign and the result's sign differs from
/// the accumulator's, and Zero and Negative describe the result.
pub proof fn lemma_subtract_with_carry<V>(s: CpuModel<V>, value: u8)
    ensures
        ({
            let b: int = if s.flag(CpuFlags::Carry) { 0 } else { 1 };
            let r = sub_from_accumulator(s, value);
            &&& r.accumulator == (s.accumulator - value - b) % 256
            &&& r.flag(CpuFlags::Carry) == (s.accumulator - value - b >= 0)
            &&& r.flag(CpuFlags::Overflow) == ((s.accumulator ^ value) & (s.accumulator ^ r.accumulator) & 0x80u8
                != 0)
            &&& r.flag(CpuFlags::Zero) == (r.accumulator == 0)
            &&& r.flag(CpuFlags::Negative) == (r.accumulator >= 128)
        }),
{
    let r = sub_from_accumulator(s, value);
    let bb: u8 = if s.flag(CpuFlags::Carry) { 0 } else { 1 };
    let b: int = bb as int;
    let a = s.accumulator as int;
    let v = value as int;
    assert((((a - v) % 256) - b) % 256 == (a - v - b) % 256) by (nonlinear_arith)
        requires 0 <= b <= 1, 0 <= a < 256, 0 <= v < 256;
    let diff = r.accumulator;
    let carry = s.accumulator >= value + bb;
    let ov = ((s.accumulator ^ value) & (s.accumulator ^ diff) & 0x80u8) != 0;
    let s1 = s.set_flag(CpuFlags::Carry, carry);
    let s2 = s1.set_flag(CpuFlags::Overflow, ov);
    lemma_set_flag(s.status, CpuFlags::Carry, carry, CpuFlags::Overflow);
    lemma_set_flag(s1.status, CpuFlags::Overflow, ov, CpuFlags::Carry);
    lemma_zero_negative(s2.with_a(diff), diff, CpuFlags::Carry);
    lemma_zero_negative(s2.with_a(diff), diff, CpuFlags::Overflow);
}

/// A comparison sets Carry when the register is at least the operand, Zero
/// when they are equal, and Negative when they differ and their difference
/// modulo 256 is 128 or more.
pub proof fn lemma_compare<V>(s: CpuModel<V>, target: u8, data: u8)
    ensures
        compare_flags(s, target, data).flag(CpuFlags::Carry) == (target >= data),
        compare_flags(s, target, data).flag(CpuFlags::Zero) == (target == data),
        compare_flags(s, target, data).flag(CpuFlags::Negative) == (target != data && (target - data) % 256 >= 128),
{
    let negt = (wrapping_sub_u8(target, data) & 0b1000_0000u8) != 0;
    let d = wrapping_sub_u8(target, data);
    assert(((d & 0b1000_0000u8) != 0) == (d >= 128)) by (bit_vector);
    let s1 = s.set_flag(CpuFlags::Carry, target >= data);
    let s2 = s1.set_flag(CpuFlags::Zero, target == data);
    lemma_set_flag(s.status, CpuFlags::Carry, target >= data, CpuFlags::Zero);
    lemma_set_flag(s1.status, CpuFlags::Zero, target == data, CpuFlags::Carry);
    lemma_set_flag(s2.status, CpuFlags::Negative, target != data && negt, CpuFlags::Carry);
    lemma_set_flag(s2.status, CpuFlags::Negative, target != data && negt, CpuFlags::Zero);
}

/// BIT: Negative takes bit 7 of the operand and Overflow bit 6; Zero tells
/// whether the accumulator and the operand share no set bit; every other
/// flag, every register and the memory stay as they were.
pub proof fn lemma_bit_flags<M: Memory>(s: CpuModel<M::Model>, mode: AddressingMode, other: CpuFlags)
    ensures
        ({
            let v = operand::<M>(s, mode);
            let r = bit::<M>(s, mode);
            &&& r.flag(CpuFlags::Negative) == (v >= 128)
            &&& r.flag(CpuFlags::Overflow) == (v % 128 >= 64)
            &&& r.flag(CpuFlags::Zero) == (s.accumulator & v == 0)
            &&& (other != CpuFlags::Negative && other != CpuFlags::Overflow && other != CpuFlags::Zero)
                ==> r.flag(other) == s.flag(other)
            &&& r.accumulator == s.accumulator && r.index_x == s.index_x && r.index_y == s.index_y
            &&& r.program_counter == s.program_counter && r.stack_pointer == s.stack_pointer
            &&& r.interrupt == s.interrupt && r.mem == s.mem
        }),
{
    let v = operand::<M>(s, mode);
    let s1 = s.set_flag(CpuFlags::Zero, s.accumulator & v == 0);
    let s2 = s1.set_flag(CpuFlags::Negative, v & 0b1000_0000u8 != 0);
    lemma_set_flag(s.status, CpuFlags::Zero, s.accumulator & v == 0, CpuFlags::Negative);
    lemma_set_flag(s.status, CpuFlags::Zero, s.accumulator & v == 0, CpuFlags::Overflow);
    lemma_set_flag(s.status, CpuFlags::Zero, s.accumulator & v == 0, other);
    lemma_set_flag(s1.status, CpuFlags::Negative, v & 0b1000_0000u8 != 0, CpuFlags::Zero);
    lemma_set_flag(s1.status, CpuFlags::Negative, v & 0b1000_0000u8 != 0, CpuFlags::Overflow);
    lemma_set_flag(s1.status, CpuFlags::Negative, v & 0b1000_0000u8 != 0, other);
    lemma_set_flag(s2.status, CpuFlags::Overflow, v & 0b0100_0000u8 != 0, CpuFlags::Zero);
    lemma_set_flag(s2.status, CpuFlags::Overflow, v & 0b0100_0000u8 != 0, CpuFlags::Negative);
    lemma_set_flag(s2.status, CpuFlags::Overflow, v & 0b0100_0000u8 != 0, other);
    assert((v & 0b1000_0000u8 != 0) == (v >= 128)) by (bit_vector);
    assert((v & 0b0100_0000u8 != 0) == (v % 128 >= 64)) by (bit_vector);
}

/// Where each addressing mode finds its operand, from the bytes that start at
/// `addr` (`b0`, and `b1` after it): zero page at `b0`, indexed by X or Y
/// within the zero page; absolute at the word `b0 + 256 * b1`, indexed by X
/// or Y modulo 65536 (a page is crossed when the high byte changes); indexed
/// indirect at the word held in the zero page at `b0` plus X, and indirect
/// indexed at the word held in the zero page at `b0` plus Y (the word's high
/// byte wraps within the zero page).
pub proof fn lemma_effective_address<M: Memory>(s: CpuModel<M::Model>, mode: AddressingMode, addr: u16)
    requires
        absolute_address_ok::<M>(s, mode, addr),
    ensures
        ({
            let (eff, crossed) = absolute_address::<M>(s, mode, addr);
            let b0 = read::<M>(s, addr) as int;
            let b1 = read::<M>(s, (addr + 1) as u16) as int;
            let base = b0 + 256 * b1;
            match mode {
                AddressingMode::Immediate => eff == addr && !crossed,
                AddressingMode::ZeroPage => eff == b0 && !crossed,
                AddressingMode::ZeroPageX => eff == (b0 + s.index_x) % 256 && !crossed,
                AddressingMode::ZeroPageY => eff == (b0 + s.index_y) % 256 && !crossed,
                AddressingMode::Absolute => eff == base && !crossed,
                AddressingMode::AbsoluteX => eff == (base + s.index_x) % 65536 && crossed == (base / 256 != eff
                    / 256),
                AddressingMode::AbsoluteY => eff == (base + s.index_y) % 65536 && crossed == (base / 256 != eff
                    / 256),
                AddressingMode::IndirectX => {
                    let p = (b0 + s.index_x) % 256;
                    eff == read::<M>(s, p as u16) + 256 * read::<M>(s, ((p + 1) % 256) as u16) && !crossed
                },
                AddressingMode::IndirectY => {
                    let p = (b0 + s.index_y) % 256;
                    eff == read::<M>(s, p as u16) + 256 * read::<M>(s, ((p + 1) % 256) as u16) && !crossed
                },
                _ => eff == 0 && !crossed,
            }
        }),
{
    let (eff, crossed) = absolute_address::<M>(s, mode, addr);
    match mode {
        AddressingMode::AbsoluteX | AddressingMode::AbsoluteY => {
            let base = read16::<M>(s, addr);
            assert(((base & 0xFF00u16) != (eff & 0xFF00u16)) == (base / 256 != eff / 256)) by (bit_vector);
        },
        _ => {},
    }
}

/// Serving an NMI, IRQ or BRK: the Interrupt flag ends set and every other
/// flag as it was; the program counter is the word at the interrupt's vector
/// ($FFFA for NMI, $FFFE for IRQ and BRK); three bytes are pushed; A, X and Y
/// stay; no interrupt is left pending; NMI takes 7 cycles, IRQ and BRK 6.
pub proof fn lemma_interrupt_entry<M: Memory>(s: CpuModel<M::Model>, other: CpuFlags)
    requires
        s.interrupt is Some,
        s.interrupt != Some(Interrupt::RESET),
    ensures
        ({
            let (r, cycles) = handle_interrupt::<M>(s);
            let vector: u16 = if s.interrupt == Some(Interrupt::NMI) { 0xFFFA } else { 0xFFFE };
            &&& r.flag(CpuFlags::Interrupt)
            &&& other != CpuFlags::Interrupt ==> r.flag(other) == s.flag(other)
            &&& r.program_counter == read::<M>(r, vector) + 256 * read::<M>(r, (vector + 1) as u16)
            &&& r.stack_pointer == (s.stack_pointer + 3) % 256
            &&& r.accumulator == s.accumulator && r.index_x == s.index_x && r.index_y == s.index_y
            &&& r.interrupt is None
            &&& cycles == if s.interrupt == Some(Interrupt::NMI) { 7u8 } else { 6u8 }
        }),
{
    let s0 = CpuModel { interrupt: None, ..s };
    let pushed = if s.interrupt == Some(Interrupt::BRK) {
        with_mask(s.status, flag_mask(CpuFlags::Break), true)
    } else if s.interrupt == Some(Interrupt::IRQ) {
        with_mask(s.status, flag_mask(CpuFlags::Break), false)
    } else {
        s.status
    };
    let vector: u16 = if s.interrupt == Some(Interrupt::NMI) { 0xFFFA } else { 0xFFFE };
    let s1 = push::<M>(push16::<M>(s0, s0.program_counter), pushed);
    lemma_set_flag(s1.status, CpuFlags::Interrupt, true, other);
    lemma_set_flag(s1.status, CpuFlags::Interrupt, true, CpuFlags::Interrupt);
}

/// The bytes that serving an NMI, IRQ or BRK pushes, on memory whose stack
/// page behaves as RAM: the high byte of the program counter at the stack
/// pointer, its low byte above it, then the status: with Break set for BRK,
/// with Break cleared for IRQ, and as it was for NMI.
pub proof fn lemma_interrupt_pushes<M: Memory>(inv: spec_fn(M::Model) -> bool, s: CpuModel<M::Model>)
    requires
        stack_is_ram::<M>(inv),
        inv(s.mem),
        s.interrupt is Some,
        s.interrupt != Some(Interrupt::RESET),
    ensures
        ({
            let r = handle_interrupt::<M>(s).0;
            let sp = s.stack_pointer;
            &&& read::<M>(r, stack_address(sp)) == s.program_counter / 256
            &&& read::<M>(r, stack_address(((sp + 1) % 256) as u8)) == s.program_counter % 256
            &&& read::<M>(r, stack_address(((sp + 2) % 256) as u8)) == if s.interrupt == Some(Interrupt::BRK) {
                s.status | 0x10u8
            } else if s.interrupt == Some(Interrupt::IRQ) {
                s.status & 0xEFu8
            } else {
                s.status
            }
        }),
{
    let pc = s.program_counter;
    let sp0 = s.stack_pointer;
    let sp1 = wrapping_add_u8(sp0, 1);
    let sp2 = wrapping_add_u8(sp1, 1);
    let hi = high_byte(pc);
    let lo = low_byte(pc);
    let st = s.status;
    let b = flag_mask(CpuFlags::Break);
    let pushed = if s.interrupt == Some(Interrupt::BRK) {
        with_mask(st, b, true)
    } else if s.interrupt == Some(Interrupt::IRQ) {
        with_mask(st, b, false)
    } else {
        st
    };
    let m0 = s.mem;
    let m1 = M::write_model(m0, stack_address(sp0), hi);
    let m2 = M::write_model(m1, stack_address(sp1), lo);
    assert(sp0 != sp1 && sp1 != sp2 && sp0 != sp2);
    lemma_stack_cell::<M>(inv, m0, sp0, hi, sp0);
    lemma_stack_cell::<M>(inv, m1, sp1, lo, sp1);
    lemma_stack_cell::<M>(inv, m1, sp1, lo, sp0);
    lemma_stack_cell::<M>(inv, m2, sp2, pushed, sp2);
    lemma_stack_cell::<M>(inv, m2, sp2, pushed, sp1);
    lemma_stack_cell::<M>(inv, m2, sp2, pushed, sp0);
    assert(sp1 == ((sp0 + 1) % 256) as u8);
    assert(sp2 == ((sp0 + 2) % 256) as u8);
    assert((st | b) == (st | 0x10u8));
    assert((st & !b) == (st & 0xEFu8)) by (bit_vector)
        requires b == 0x10u8;
}

/// RESET: the stack pointer becomes $FD, the status `UNK | Interrupt`
/// ($24), A, X and Y zero, and the program counter the word at $FFFC; it
/// takes 8 cycles and leaves memory as it was.
pub proof fn lemma_reset_entry<M: Memory>(s: CpuModel<M::Model>)
    requires
        s.interrupt == Some(Interrupt::RESET),
    ensures
        ({
            let (r, cycles) = handle_interrupt::<M>(s);
            &&& r.stack_pointer == 0xFD && r.status == 0x24
            &&& r.accumulator == 0 && r.index_x == 0 && r.index_y == 0
            &&& r.program_counter == read::<M>(s, 0xFFFC) + 256 * read::<M>(s, 0xFFFD)
            &&& r.mem == s.mem && r.interrupt is None
            &&& cycles == 8
        }),
{
}

/// Zero and Negative of `r` describe `v` (zero; bit 7 set), and every other
/// flag of `r` is as in `s`.
pub open spec fn zn_describes<V>(r: CpuModel<V>, s: CpuModel<V>, v: u8) -> bool {
    &&& r.flag(CpuFlags::Zero) == (v == 0)
    &&& r.flag(CpuFlags::Negative) == (v >= 128)
    &&& forall|f: CpuFlags|
        f != CpuFlags::Zero && f != CpuFlags::Negative ==> #[trigger] r.flag(f) == s.flag(f)
}

proof fn lemma_zn_describes<V>(s: CpuModel<V>, v: u8)
    ensures
        zn_describes(s.set_zn(v), s, v),
{
    assert forall|f: CpuFlags| f != CpuFlags::Zero && f != CpuFlags::Negative implies #[trigger] s.set_zn(v).flag(f)
        == s.flag(f) by {
        lemma_zero_negative(s, v, f);
    }
    lemma_zero_negative(s, v, CpuFlags::Carry);
}

/// The cycles of an instruction that pays one more when indexing crosses a
/// page.
pub open spec fn with_page_penalty<M: Memory>(s: CpuModel<M::Model>, op: OpCode) -> int {
    op.cycles + if operand_address::<M>(s, op.mode).1 { 1int } else { 0int }
}

/// Loads, register transfers and register steps: each writes one register
/// (A, X, Y or the stack pointer) with the value named below, sets Zero and
/// Negative from it (TXS alone leaves the flags), and changes nothing else;
/// loads take one more cycle when indexing crosses a page.
#[verifier::spinoff_prover]
#[verifier::rlimit(80)]
pub proof fn lemma_register_instructions<M: Memory>(s: CpuModel<M::Model>, op: OpCode)
    requires
        opcode_table(op.code) == Some(op),
        op.mnemonic == Mnemonic::Lda || op.mnemonic == Mnemonic::Ldx || op.mnemonic == Mnemonic::Ldy
            || op.mnemonic == Mnemonic::Tax || op.mnemonic == Mnemonic::Tay || op.mnemonic == Mnemonic::Tsx
            || op.mnemonic == Mnemonic::Txa || op.mnemonic == Mnemonic::Tya || op.mnemonic == Mnemonic::Txs
            || op.mnemonic == Mnemonic::Inx || op.mnemonic == Mnemonic::Iny || op.mnemonic == Mnemonic::Dex
            || op.mnemonic == Mnemonic::Dey,
    ensures
        ({
            let (r, cycles) = instruction::<M>(s, op);
            let v = operand::<M>(s, op.mode);
            match op.mnemonic {
                Mnemonic::Lda => r == CpuModel { accumulator: v, status: r.status, ..s } && zn_describes(r, s, v)
                    && cycles == with_page_penalty::<M>(s, op),
                Mnemonic::Ldx => r == CpuModel { index_x: v, status: r.status, ..s } && zn_describes(r, s, v)
                    && cycles == with_page_penalty::<M>(s, op),
                Mnemonic::Ldy => r == CpuModel { index_y: v, status: r.status, ..s } && zn_describes(r, s, v)
                    && cycles == with_page_penalty::<M>(s, op),
                Mnemonic::Tax => r == CpuModel { index_x: s.accumulator, status: r.status, ..s } && zn_describes(
                    r,
                    s,
                    s.accumulator,
                ) && cycles == op.cycles,
                Mnemonic::Tay => r == CpuModel { index_y: s.accumulator, status: r.status, ..s } && zn_describes(
                    r,
                    s,
                    s.accumulator,
                ) && cycles == op.cycles,
                Mnemonic::Tsx => r == CpuModel { index_x: s.stack_pointer, status: r.status, ..s } && zn_describes(
                    r,
                    s,
                    s.stack_pointer,
                ) && cycles == op.cycles,
                Mnemonic::Txa => r == CpuModel { accumulator: s.index_x, status: r.status, ..s } && zn_describes(
                    r,
                    s,
                    s.index_x,
                ) && cycles == op.cycles,
                Mnemonic::Tya => r == CpuModel { accumulator: s.index_y, status: r.status, ..s } && zn_describes(
                    r,
                    s,
                    s.index_y,
                ) && cycles == op.cycles,
                Mnemonic::Txs => r == CpuModel { stack_pointer: s.index_x, ..s } && cycles == op.cycles,
                Mnemonic::Inx => r == CpuModel { index_x: ((s.index_x + 1) % 256) as u8, status: r.status, ..s }
                    && zn_describes(r, s, r.index_x) && cycles == op.cycles,
                Mnemonic::Iny => r == CpuModel { index_y: ((s.index_y + 1) % 256) as u8, status: r.status, ..s }
                    && zn_describes(r, s, r.index_y) && cycles == op.cycles,
                Mnemonic::Dex => r == CpuModel { index_x: ((s.index_x + 255) % 256) as u8, status: r.status, ..s }
                    && zn_describes(r, s, r.index_x) && cycles == op.cycles,
                _ => r == CpuModel { index_y: ((s.index_y + 255) % 256) as u8, status: r.status, ..s }
                    && zn_describes(r, s, r.index_y) && cycles == op.cycles,
            }
        }),
{
    lemma_opcode_table_entries(op.code);
    let v = operand::<M>(s, op.mode);
    let c = op.cycles;
    match op.mnemonic {
        Mnemonic::Lda => {
            assert(instruction::<M>(s, op) == (lda::<M>(s, op.mode), plus_one_if(c, page_penalty::<M>(s, op.mode)))) by { reveal(instruction); }
            lemma_zn_describes(s.with_a(v), v);
        },
        Mnemonic::Ldx => {
            assert(instruction::<M>(s, op) == (s.with_x(v).set_zn(v), plus_one_if(c, page_penalty::<M>(s, op.mode)))) by { reveal(instruction); }
            lemma_zn_describes(s.with_x(v), v);
        },
        Mnemonic::Ldy => {
            assert(instruction::<M>(s, op) == (s.with_y(v).set_zn(v), plus_one_if(c, page_penalty::<M>(s, op.mode)))) by { reveal(instruction); }
            lemma_zn_describes(s.with_y(v), v);
        },
        Mnemonic::Tax => {
            assert(instruction::<M>(s, op) == (s.with_x(s.accumulator).set_zn(s.accumulator), c)) by { reveal(instruction); }
            lemma_zn_describes(s.with_x(s.accumulator), s.accumulator);
        },
        Mnemonic::Tay => {
            assert(instruction::<M>(s, op) == (s.with_y(s.accumulator).set_zn(s.accumulator), c)) by { reveal(instruction); }
            lemma_zn_describes(s.with_y(s.accumulator), s.accumulator);
        },
        Mnemonic::Tsx => {
            assert(instruction::<M>(s, op) == (s.with_x(s.stack_pointer).set_zn(s.stack_pointer), c)) by { reveal(instruction); }
            lemma_zn_describes(s.with_x(s.stack_pointer), s.stack_pointer);
        },
        Mnemonic::Txa => {
            assert(instruction::<M>(s, op) == (s.with_a(s.index_x).set_zn(s.index_x), c)) by { reveal(instruction); }
            lemma_zn_describes(s.with_a(s.index_x), s.index_x);
        },
        Mnemonic::Tya => {
            assert(instruction::<M>(s, op) == (s.with_a(s.index_y).set_zn(s.index_y), c)) by { reveal(instruction); }
            lemma_zn_describes(s.with_a(s.index_y), s.index_y);
        },
        Mnemonic::Txs => {
            assert(instruction::<M>(s, op) == (s.with_sp(s.index_x), c)) by { reveal(instruction); }
        },
        Mnemonic::Inx => {
            let d = wrapping_add_u8(s.index_x, 1);
            assert(instruction::<M>(s, op) == (s.with_x(d).set_zn(d), c)) by { reveal(instruction); }
            lemma_zn_describes(s.with_x(d), d);
        },
        Mnemonic::Iny => {
            let d = wrapping_add_u8(s.index_y, 1);
            assert(instruction::<M>(s, op) == (s.with_y(d).set_zn(d), c)) by { reveal(instruction); }
            lemma_zn_describes(s.with_y(d), d);
        },
        Mnemonic::Dex => {
            let d = wrapping_sub_u8(s.index_x, 1);
            assert(instruction::<M>(s, op) == (s.with_x(d).set_zn(d), c)) by { reveal(instruction); }
            lemma_zn_describes(s.with_x(d), d);
        },
        _ => {
            let d = wrapping_sub_u8(s.index_y, 1);
            assert(instruction::<M>(s, op) == (s.with_y(d).set_zn(d), c)) by { reveal(instruction); }
            lemma_zn_describes(s.with_y(d), d);
        },
    }
}

/// AND, EOR and ORA leave `A & M`, `A ^ M` and `A | M` in the accumulator
/// and set Zero and Negative from it; CMP, CPX and CPY compare A, X and Y
/// with M: Carry when the register is at least M, Zero when they are equal,
/// Negative from bit 7 of their difference modulo 256, other flags, the
/// registers and memory unchanged. All take one more cycle when indexing
/// crosses a page.
#[verifier::spinoff_prover]
#[verifier::rlimit(80)]
pub proof fn lemma_logic_and_compare<M: Memory>(s: CpuModel<M::Model>, op: OpCode, other: CpuFlags)
    requires
        opcode_table(op.code) == Some(op),
        op.mnemonic == Mnemonic::And || op.mnemonic == Mnemonic::Eor || op.mnemonic == Mnemonic::Ora
            || op.mnemonic == Mnemonic::Cmp || op.mnemonic == Mnemonic::Cpx || op.mnemonic == Mnemonic::Cpy,
    ensures
        ({
            let (r, cycles) = instruction::<M>(s, op);
            let v = operand::<M>(s, op.mode);
            let reg: u8 = if op.mnemonic == Mnemonic::Cmp {
                s.accumulator
            } else if op.mnemonic == Mnemonic::Cpx {
                s.index_x
            } else {
                s.index_y
            };
            &&& cycles == with_page_penalty::<M>(s, op)
            &&& match op.mnemonic {
                Mnemonic::And => r == CpuModel { accumulator: s.accumulator & v, status: r.status, ..s } && zn_describes(
                    r,
                    s,
                    s.accumulator & v,
                ),
                Mnemonic::Eor => r == CpuModel { accumulator: s.accumulator ^ v, status: r.status, ..s } && zn_describes(
                    r,
                    s,
                    s.accumulator ^ v,
                ),
                Mnemonic::Ora => r == CpuModel { accumulator: s.accumulator | v, status: r.status, ..s } && zn_describes(
                    r,
                    s,
                    s.accumulator | v,
                ),
                _ => {
                    &&& r == CpuModel { status: r.status, ..s }
                    &&& r.flag(CpuFlags::Carry) == (reg >= v)
                    &&& r.flag(CpuFlags::Zero) == (reg == v)
                    &&& r.flag(CpuFlags::Negative) == ((reg - v + 256) % 256 >= 128)
                    &&& (other != CpuFlags::Carry && other != CpuFlags::Zero && other != CpuFlags::Negative)
                        ==> r.flag(other) == s.flag(other)
                },
            }
        }),
{
    lemma_opcode_table_entries(op.code);
    let v = operand::<M>(s, op.mode);
    let c = op.cycles;
    match op.mnemonic {
        Mnemonic::And => {
            assert(instruction::<M>(s, op) == (and::<M>(s, op.mode), plus_one_if(c, page_penalty::<M>(s, op.mode)))) by { reveal(instruction); }
            lemma_zn_describes(s.with_a(s.accumulator & v), s.accumulator & v);
        },
        Mnemonic::Eor => {
            assert(instruction::<M>(s, op) == (eor::<M>(s, op.mode), plus_one_if(c, page_penalty::<M>(s, op.mode)))) by { reveal(instruction); }
            lemma_zn_describes(s.with_a(s.accumulator ^ v), s.accumulator ^ v);
        },
        Mnemonic::Ora => {
            assert(instruction::<M>(s, op) == (ora::<M>(s, op.mode), plus_one_if(c, page_penalty::<M>(s, op.mode)))) by { reveal(instruction); }
            lemma_zn_describes(s.with_a(s.accumulator | v), s.accumulator | v);
        },
        _ => {
            let reg: u8 = if op.mnemonic == Mnemonic::Cmp {
                s.accumulator
            } else if op.mnemonic == Mnemonic::Cpx {
                s.index_x
            } else {
                s.index_y
            };
            assert(instruction::<M>(s, op) == (compare_flags(s, reg, v), plus_one_if(c, page_penalty::<M>(s, op.mode)))) by { reveal(instruction); }
            lemma_compare(s, reg, v);
            let negt = (wrapping_sub_u8(reg, v) & 0b1000_0000u8) != 0;
            let s1 = s.set_flag(CpuFlags::Carry, reg >= v);
            let s2 = s1.set_flag(CpuFlags::Zero, reg == v);
            lemma_set_flag(s.status, CpuFlags::Carry, reg >= v, other);
            lemma_set_flag(s1.status, CpuFlags::Zero, reg == v, other);
            lemma_set_flag(s2.status, CpuFlags::Negative, reg != v && negt, other);
            assert((reg - v) % 256 == (reg - v + 256) % 256);
        },
    }
}

/// CLC, SEC, CLI, SEI, CLD, SED and CLV clear or set their one flag and
/// change nothing else.
#[verifier::spinoff_prover]
#[verifier::rlimit(80)]
pub proof fn lemma_flag_instructions<M: Memory>(s: CpuModel<M::Model>, op: OpCode, other: CpuFlags)
    requires
        op.mnemonic == Mnemonic::Clc || op.mnemonic == Mnemonic::Sec || op.mnemonic == Mnemonic::Cli
            || op.mnemonic == Mnemonic::Sei || op.mnemonic == Mnemonic::Cld || op.mnemonic == Mnemonic::Sed
            || op.mnemonic == Mnemonic::Clv,
    ensures
        ({
            let (r, cycles) = instruction::<M>(s, op);
            let (flag, value) = match op.mnemonic {
                Mnemonic::Clc => (CpuFlags::Carry, false),
                Mnemonic::Sec => (CpuFlags::Carry, true),
                Mnemonic::Cli => (CpuFlags::Interrupt, false),
                Mnemonic::Sei => (CpuFlags::Interrupt, true),
                Mnemonic::Cld => (CpuFlags::Decimal, false),
                Mnemonic::Sed => (CpuFlags::Decimal, true),
                _ => (CpuFlags::Overflow, false),
            };
            &&& r == CpuModel { status: r.status, ..s }
            &&& r.flag(flag) == value
            &&& other != flag ==> r.flag(other) == s.flag(other)
            &&& cycles == op.cycles
        }),
{
    let c = op.cycles;
    let (flag, value) = match op.mnemonic {
        Mnemonic::Clc => (CpuFlags::Carry, false),
        Mnemonic::Sec => (CpuFlags::Carry, true),
        Mnemonic::Cli => (CpuFlags::Interrupt, false),
        Mnemonic::Sei => (CpuFlags::Interrupt, true),
        Mnemonic::Cld => (CpuFlags::Decimal, false),
        Mnemonic::Sed => (CpuFlags::Decimal, true),
        _ => (CpuFlags::Overflow, false),
    };
    assert(instruction::<M>(s, op) == (s.set_flag(flag, value), c)) by { reveal(instruction); }
    lemma_set_flag(s.status, flag, value, other);
}

/// STA, STX and STY write A, X and Y at the operand's effective address and
/// change nothing else.
#[verifier::spinoff_prover]
#[verifier::rlimit(80)]
pub proof fn lemma_store_instructions<M: Memory>(s: CpuModel<M::Model>, op: OpCode)
    requires
        op.mnemonic == Mnemonic::Sta || op.mnemonic == Mnemonic::Stx || op.mnemonic == Mnemonic::Sty,
    ensures
        ({
            let (r, cycles) = instruction::<M>(s, op);
            let value = if op.mnemonic == Mnemonic::Sta {
                s.accumulator
            } else if op.mnemonic == Mnemonic::Stx {
                s.index_x
            } else {
                s.index_y
            };
            &&& r == CpuModel { mem: M::write_model(s.mem, operand_address::<M>(s, op.mode).0, value), ..s }
            &&& cycles == op.cycles
        }),
{
    let c = op.cycles;
    let value = if op.mnemonic == Mnemonic::Sta {
        s.accumulator
    } else if op.mnemonic == Mnemonic::Stx {
        s.index_x
    } else {
        s.index_y
    };
    assert(instruction::<M>(s, op) == (store::<M>(s, op.mode, value), c)) by { reveal(instruction); }
}

/// The conditional branches: BCC/BCS on Carry clear/set, BNE/BEQ on Zero,
/// BVC/BVS on Overflow, BPL/BMI on Negative. A taken branch moves the
/// program counter from the byte after the offset by the signed offset
/// (modulo 65536) and costs one more cycle, two when it lands on another
/// page; a branch not taken changes nothing. Registers, flags and memory
/// stay.
#[verifier::spinoff_prover]
#[verifier::rlimit(80)]
pub proof fn lemma_branch_instructions<M: Memory>(s: CpuModel<M::Model>, op: OpCode)
    requires
        opcode_table(op.code) == Some(op),
        op.mnemonic == Mnemonic::Bcc || op.mnemonic == Mnemonic::Bcs || op.mnemonic == Mnemonic::Bne
            || op.mnemonic == Mnemonic::Beq || op.mnemonic == Mnemonic::Bvc || op.mnemonic == Mnemonic::Bvs
            || op.mnemonic == Mnemonic::Bpl || op.mnemonic == Mnemonic::Bmi,
    ensures
        ({
            let (r, cycles) = instruction::<M>(s, op);
            let taken = match op.mnemonic {
                Mnemonic::Bcc => !s.flag(CpuFlags::Carry),
                Mnemonic::Bcs => s.flag(CpuFlags::Carry),
                Mnemonic::Bne => !s.flag(CpuFlags::Zero),
                Mnemonic::Beq => s.flag(CpuFlags::Zero),
                Mnemonic::Bvc => !s.flag(CpuFlags::Overflow),
                Mnemonic::Bvs => s.flag(CpuFlags::Overflow),
                Mnemonic::Bpl => !s.flag(CpuFlags::Negative),
                _ => s.flag(CpuFlags::Negative),
            };
            let offset = read::<M>(s, s.program_counter) as int;
            let next = (s.program_counter + 1) % 65536;
            let target = (next + offset + if offset >= 128 { 0xFF00int } else { 0int }) % 65536;
            if taken {
                &&& r == CpuModel { program_counter: target as u16, ..s }
                &&& cycles == op.cycles + if next / 256 != target / 256 { 2int } else { 1int }
            } else {
                r == s && cycles == op.cycles
            }
        }),
{
    lemma_opcode_table_entries(op.code);
    let c = op.cycles;
    let taken = match op.mnemonic {
        Mnemonic::Bcc => !s.flag(CpuFlags::Carry),
        Mnemonic::Bcs => s.flag(CpuFlags::Carry),
        Mnemonic::Bne => !s.flag(CpuFlags::Zero),
        Mnemonic::Beq => s.flag(CpuFlags::Zero),
        Mnemonic::Bvc => !s.flag(CpuFlags::Overflow),
        Mnemonic::Bvs => s.flag(CpuFlags::Overflow),
        Mnemonic::Bpl => !s.flag(CpuFlags::Negative),
        _ => s.flag(CpuFlags::Negative),
    };
    assert(instruction::<M>(s, op) == ({ let (s1, e) = branch::<M>(s, taken); (s1, (c + e) as u8) })) by { reveal(instruction); }
    let off = read::<M>(s, s.program_counter);
    let next = wrapping_add_u16(s.program_counter, 1);
    let jump = off as i8;
    let ju = jump as u16;
    assert(ju == (if off >= 128u8 { (off as u16) | 0xFF00u16 } else { off as u16 })) by (bit_vector)
        requires jump == off as i8, ju == jump as u16;
    assert(((off as u16) | 0xFF00u16) == off + 0xFF00) by (bit_vector);
    assert(ju as int == off + if off >= 128 { 0xFF00int } else { 0int });
    let jump_addr = wrapping_add_u16(next, ju);
    assert(((next & 0xff00u16) != (jump_addr & 0xff00u16)) == (next / 256 != jump_addr / 256)) by (bit_vector);
}

/// ASL, LSR, ROL and ROR on the accumulator (the one-byte forms) or on the
/// byte at the operand's effective address: ASL gives `2v mod 256` and
/// carries out bit 7; LSR gives `v / 2` and carries out bit 0; ROL gives
/// `2v + C mod 256` and carries out bit 7; ROR gives `v / 2 + 128 C` and
/// carries out bit 0. The result goes back where `v` came from, Zero and
/// Negative describe it, other flags and registers stay.
#[verifier::spinoff_prover]
#[verifier::rlimit(80)]
pub proof fn lemma_shift_instructions<M: Memory>(s: CpuModel<M::Model>, op: OpCode, other: CpuFlags)
    requires
        op.mnemonic == Mnemonic::Asl || op.mnemonic == Mnemonic::Lsr || op.mnemonic == Mnemonic::Rol
            || op.mnemonic == Mnemonic::Ror,
    ensures
        ({
            let (r, cycles) = instruction::<M>(s, op);
            let on_a = op.mode == AddressingMode::NoneAddressing;
            let addr = operand_address::<M>(s, op.mode).0;
            let v = if on_a { s.accumulator as int } else { read::<M>(s, addr) as int };
            let c: int = if s.flag(CpuFlags::Carry) { 1 } else { 0 };
            let (d, carry) = match op.mnemonic {
                Mnemonic::Asl => ((2 * v) % 256, v >= 128),
                Mnemonic::Lsr => (v / 2, v % 2 == 1),
                Mnemonic::Rol => ((2 * v + c) % 256, v >= 128),
                _ => (v / 2 + 128 * c, v % 2 == 1),
            };
            &&& if on_a {
                r == CpuModel { accumulator: d as u8, status: r.status, ..s }
            } else {
                r == CpuModel { mem: M::write_model(s.mem, addr, d as u8), status: r.status, ..s }
            }
            &&& r.flag(CpuFlags::Carry) == carry
            &&& r.flag(CpuFlags::Zero) == (d == 0)
            &&& r.flag(CpuFlags::Negative) == (d >= 128)
            &&& (other != CpuFlags::Carry && other != CpuFlags::Zero && other != CpuFlags::Negative) ==> r.flag(other)
                == s.flag(other)
            &&& cycles == op.cycles
        }),
{
    let mode = op.mode;
    let c = op.cycles;
    let (addr, data) = rmw_source::<M>(s, mode);
    let carry_in = s.flag(CpuFlags::Carry);
    let (carry, d): (bool, u8) = match op.mnemonic {
        Mnemonic::Asl => (data >> 7u8 == 1, data << 1u8),
        Mnemonic::Lsr => (data & 0b0000_0001u8 == 1, data >> 1u8),
        Mnemonic::Rol => (data & 0b1000_0000u8 != 0, if carry_in { (data << 1u8) | 0b0000_0001u8 } else { data << 1u8 }),
        _ => (data & 0b0000_0001u8 == 1, if carry_in { (data >> 1u8) | 0b1000_0000u8 } else { data >> 1u8 }),
    };
    let s1 = s.set_flag(CpuFlags::Carry, carry);
    match op.mnemonic {
        Mnemonic::Asl => { assert(instruction::<M>(s, op) == (asl::<M>(s, mode).0, c)) by { reveal(instruction); } },
        Mnemonic::Lsr => { assert(instruction::<M>(s, op) == (lsr::<M>(s, mode).0, c)) by { reveal(instruction); } },
        Mnemonic::Rol => { assert(instruction::<M>(s, op) == (rol::<M>(s, mode).0, c)) by { reveal(instruction); } },
        _ => { assert(instruction::<M>(s, op) == (ror::<M>(s, mode).0, c)) by { reveal(instruction); } },
    }
    assert(instruction::<M>(s, op) == (rmw_store::<M>(s1, mode, addr, d), c));
    assert((data >> 7u8 == 1) == (data >= 128)) by (bit_vector);
    assert((data & 0b1000_0000u8 != 0) == (data >= 128)) by (bit_vector);
    assert((data & 0b0000_0001u8 == 1) == (data % 2 == 1)) by (bit_vector);
    assert((data << 1u8) == (2 * data) % 256) by (bit_vector);
    assert(((data << 1u8) | 0b0000_0001u8) == (2 * data + 1) % 256) by (bit_vector);
    assert((data >> 1u8) == data / 2) by (bit_vector);
    assert(((data >> 1u8) | 0b1000_0000u8) == data / 2 + 128) by (bit_vector);
    lemma_set_flag(s.status, CpuFlags::Carry, carry, other);
    lemma_set_flag(s.status, CpuFlags::Carry, carry, CpuFlags::Carry);
    let t = if mode == AddressingMode::NoneAddressing { s1.with_a(d) } else { write_byte::<M>(s1, addr, d) };
    lemma_zero_negative(t, d, other);
    lemma_zero_negative(t, d, CpuFlags::Carry);
}

/// INC and DEC add one to, or take one from, the byte at the operand's
/// effective address (modulo 256), write it back, set Zero and Negative from
/// it and change nothing else.
#[verifier::spinoff_prover]
#[verifier::rlimit(80)]
pub proof fn lemma_memory_step_instructions<M: Memory>(s: CpuModel<M::Model>, op: OpCode)
    requires
        op.mnemonic == Mnemonic::Inc || op.mnemonic == Mnemonic::Dec,
    ensures
        ({
            let (r, cycles) = instruction::<M>(s, op);
            let addr = operand_address::<M>(s, op.mode).0;
            let v = read::<M>(s, addr) as int;
            let d = if op.mnemonic == Mnemonic::Inc { (v + 1) % 256 } else { (v + 255) % 256 };
            &&& r == CpuModel { mem: M::write_model(s.mem, addr, d as u8), status: r.status, ..s }
            &&& zn_describes(r, s, d as u8)
            &&& cycles == op.cycles
        }),
{
    let c = op.cycles;
    let addr = operand_address::<M>(s, op.mode).0;
    let v = read::<M>(s, addr);
    let up = op.mnemonic == Mnemonic::Inc;
    let d: u8 = if up { wrapping_add_u8(v, 1) } else { wrapping_sub_u8(v, 1) };
    assert(d as int == if up { (v + 1) % 256 } else { (v + 255) % 256 });
    assert(instruction::<M>(s, op) == (step_memory::<M>(s, op.mode, up).0, c)) by { reveal(instruction); }
    let w = write_byte::<M>(s, addr, d);
    assert(step_memory::<M>(s, op.mode, up).0 == w.set_zn(d));
    lemma_zn_describes(w, d);
    assert(w.status == s.status);
}

/// PHA and PHP write A, or the status, at $0100 plus the stack pointer and
/// move the stack pointer up by one; PLA and PLP move it down by one and take
/// A (with Zero and Negative from it), or the whole status, from $0100 plus
/// the new stack pointer; JMP absolute goes to the word after the opcode.
/// Nothing else changes.
#[verifier::spinoff_prover]
#[verifier::rlimit(80)]
pub proof fn lemma_stack_and_jump_instructions<M: Memory>(s: CpuModel<M::Model>, op: OpCode)
    requires
        op.mnemonic == Mnemonic::Pha || op.mnemonic == Mnemonic::Php || op.mnemonic == Mnemonic::Pla
            || op.mnemonic == Mnemonic::Plp || (op.mnemonic == Mnemonic::Jmp && op.code == 0x4c),
    ensures
        ({
            let (r, cycles) = instruction::<M>(s, op);
            let sp = s.stack_pointer;
            let up = ((sp + 1) % 256) as u8;
            let down = ((sp + 255) % 256) as u8;
            &&& cycles == op.cycles
            &&& match op.mnemonic {
                Mnemonic::Pha => r == CpuModel {
                    mem: M::write_model(s.mem, (0x0100 + sp) as u16, s.accumulator),
                    stack_pointer: up,
                    ..s
                },
                Mnemonic::Php => r == CpuModel {
                    mem: M::write_model(s.mem, (0x0100 + sp) as u16, s.status),
                    stack_pointer: up,
                    ..s
                },
                Mnemonic::Pla => {
                    let v = read::<M>(s, (0x0100 + down) as u16);
                    r == CpuModel { accumulator: v, stack_pointer: down, status: r.status, ..s } && zn_describes(
                        r,
                        s,
                        v,
                    )
                },
                Mnemonic::Plp => r == CpuModel {
                    status: read::<M>(s, (0x0100 + down) as u16),
                    stack_pointer: down,
                    ..s
                },
                _ => r == CpuModel {
                    program_counter: (read::<M>(s, s.program_counter) + 256 * read::<M>(
                        s,
                        (s.program_counter + 1) as u16,
                    )) as u16,
                    ..s
                },
            }
        }),
{
    let c = op.cycles;
    match op.mnemonic {
        Mnemonic::Pha => {
            assert(instruction::<M>(s, op) == (push::<M>(s, s.accumulator), c)) by { reveal(instruction); }
        },
        Mnemonic::Php => {
            assert(instruction::<M>(s, op) == (push::<M>(s, s.status), c)) by { reveal(instruction); }
        },
        Mnemonic::Pla => {
            assert(instruction::<M>(s, op) == ({ let (s1, v) = pop::<M>(s); (s1.with_a(v).set_zn(v), c) })) by { reveal(instruction); }
            let (s1, v) = pop::<M>(s);
            lemma_zn_describes(s1.with_a(v), v);
        },
        Mnemonic::Plp => {
            assert(instruction::<M>(s, op) == (plp::<M>(s), c)) by { reveal(instruction); }
        },
        _ => {
            assert(instruction::<M>(s, op) == (s.with_pc(read16::<M>(s, s.program_counter)), c)) by { reveal(instruction); }
        },
    }
}

/// ADC and SBC (and the undocumented SBC) take their operand at the
/// effective address: ADC leaves `A + M + C` modulo 256 with Carry telling
/// whether the sum exceeded 255 and Overflow whether two operands of one sign
/// gave a result of the other; SBC leaves `A - M - (1 - C)` modulo 256 with
/// Carry telling whether no borrow was needed and Overflow whether operands
/// of different signs gave a result whose sign differs from A's. Zero and
/// Negative describe the result; X, Y, the stack pointer, the program
/// counter and memory stay.
#[verifier::spinoff_prover]
#[verifier::rlimit(80)]
pub proof fn lemma_arithmetic_instructions<M: Memory>(s: CpuModel<M::Model>, op: OpCode)
    requires
        op.mnemonic == Mnemonic::Adc || op.mnemonic == Mnemonic::Sbc || op.mnemonic == Mnemonic::IllegalSbc,
    ensures
        ({
            let (r, _) = instruction::<M>(s, op);
            let v = operand::<M>(s, op.mode);
            let a = s.accumulator;
            let c: int = if s.flag(CpuFlags::Carry) { 1 } else { 0 };
            let res = r.accumulator;
            &&& r == CpuModel { accumulator: res, status: r.status, ..s }
            &&& if op.mnemonic == Mnemonic::Adc {
                &&& res == (a + v + c) % 256
                &&& r.flag(CpuFlags::Carry) == (a + v + c > 255)
                &&& r.flag(CpuFlags::Overflow) == ((a < 128) == (v < 128) && (res < 128) != (a < 128))
            } else {
                &&& res == (a - v - (1 - c)) % 256
                &&& r.flag(CpuFlags::Carry) == (a - v - (1 - c) >= 0)
                &&& r.flag(CpuFlags::Overflow) == ((a < 128) != (v < 128) && (res < 128) != (a < 128))
            }
            &&& r.flag(CpuFlags::Zero) == (res == 0)
            &&& r.flag(CpuFlags::Negative) == (res >= 128)
        }),
{
    let c = op.cycles;
    let v = operand::<M>(s, op.mode);
    let a = s.accumulator;
    if op.mnemonic == Mnemonic::Adc {
        assert(instruction::<M>(s, op) == (add_to_accumulator(s, v), plus_one_if(c, page_penalty::<M>(s, op.mode)))) by { reveal(instruction); }
        lemma_add_with_carry(s, v);
        let res = add_to_accumulator(s, v).accumulator;
        assert((((v ^ res) & (a ^ res) & 0x80u8) != 0) == ((a < 128) == (v < 128) && (res < 128) != (a < 128)))
            by (bit_vector);
    } else {
        if op.mnemonic == Mnemonic::Sbc {
            assert(instruction::<M>(s, op) == (sub_from_accumulator(s, v), plus_one_if(c, page_penalty::<M>(s, op.mode)))) by { reveal(instruction); }
        } else {
            assert(instruction::<M>(s, op) == (sub_from_accumulator(s, v), c)) by { reveal(instruction); }
        }
        lemma_subtract_with_carry(s, v);
        let res = sub_from_accumulator(s, v).accumulator;
        assert((((a ^ v) & (a ^ res) & 0x80u8) != 0) == ((a < 128) != (v < 128) && (res < 128) != (a < 128)))
            by (bit_vector);
    }
}

/// RTS pops the low byte of an address from $0100 plus the stack pointer
/// less one and the high byte from below it, and resumes one past that
/// address (below $FFFF; past it the sum overflows); RTI first pops the status (Break cleared, UNK set), then the
/// program counter in the same way, without adding one. A, X, Y and memory
/// stay.
#[verifier::spinoff_prover]
#[verifier::rlimit(80)]
pub proof fn lemma_return_instructions<M: Memory>(s: CpuModel<M::Model>, op: OpCode)
    requires
        op.mnemonic == Mnemonic::Rts || op.mnemonic == Mnemonic::Rti,
    ensures
        ({
            let (r, cycles) = instruction::<M>(s, op);
            let sp = s.stack_pointer as int;
            let at = |k: int| read::<M>(s, (0x0100 + (sp - k + 256) % 256) as u16) as int;
            &&& cycles == op.cycles
            &&& r.accumulator == s.accumulator && r.index_x == s.index_x && r.index_y == s.index_y
            &&& r.mem == s.mem && r.interrupt == s.interrupt
            &&& if op.mnemonic == Mnemonic::Rts {
                &&& at(1) + 256 * at(2) < 0xFFFF ==> r.program_counter == at(1) + 256 * at(2) + 1
                &&& r.stack_pointer == (sp - 2 + 256) % 256
                &&& r.status == s.status
            } else {
                &&& r.status == (read::<M>(s, (0x0100 + (sp + 255) % 256) as u16) | 0x20u8) & 0xEFu8
                &&& r.program_counter == at(2) + 256 * at(3)
                &&& r.stack_pointer == (sp - 3 + 256) % 256
            }
        }),
{
    let c = op.cycles;
    if op.mnemonic == Mnemonic::Rts {
        assert(instruction::<M>(s, op) == (rts::<M>(s), c)) by { reveal(instruction); }
    } else {
        assert(instruction::<M>(s, op) == (rti::<M>(s), c)) by { reveal(instruction); }
        let st = read::<M>(s, stack_address(wrapping_sub_u8(s.stack_pointer, 1)));
        assert(((st & !0x10u8) | 0x20u8) == ((st | 0x20u8) & 0xEFu8)) by (bit_vector);
    }
}

/// JSR, on memory whose stack page behaves as RAM: it pushes the address of
/// the last byte of its operand (high byte at $0100 plus the stack pointer,
/// low byte above it), moves the stack pointer up by two, and jumps to the
/// word at the operand. A, X, Y and the status stay.
#[verifier::spinoff_prover]
#[verifier::rlimit(80)]
pub proof fn lemma_jsr_instruction<M: Memory>(inv: spec_fn(M::Model) -> bool, s: CpuModel<M::Model>, op: OpCode)
    requires
        stack_is_ram::<M>(inv),
        inv(s.mem),
        op.mnemonic == Mnemonic::Jsr,
        s.program_counter + 2 <= 0xFFFF,
    ensures
        ({
            let (r, cycles) = instruction::<M>(s, op);
            let sp = s.stack_pointer as int;
            let ret = s.program_counter + 1;
            &&& cycles == op.cycles
            &&& read::<M>(r, (0x0100 + sp) as u16) == ret / 256
            &&& read::<M>(r, (0x0100 + (sp + 1) % 256) as u16) == ret % 256
            &&& r.stack_pointer == (sp + 2) % 256
            &&& r.program_counter == read::<M>(r, s.program_counter) + 256 * read::<M>(
                r,
                (s.program_counter + 1) as u16,
            )
            &&& r.accumulator == s.accumulator && r.index_x == s.index_x && r.index_y == s.index_y
            &&& r.status == s.status && r.interrupt == s.interrupt
        }),
{
    let c = op.cycles;
    assert(instruction::<M>(s, op) == (jsr::<M>(s), c)) by { reveal(instruction); }
    let ret = (s.program_counter + 2 - 1) as u16;
    let sp0 = s.stack_pointer;
    let sp1 = wrapping_add_u8(sp0, 1);
    let m1 = M::write_model(s.mem, stack_address(sp0), high_byte(ret));
    lemma_stack_cell::<M>(inv, s.mem, sp0, high_byte(ret), sp0);
    lemma_stack_cell::<M>(inv, m1, sp1, low_byte(ret), sp1);
    lemma_stack_cell::<M>(inv, m1, sp1, low_byte(ret), sp0);
    assert(sp0 != sp1);
}

/// One step of a run: with no interrupt pending and a budget of exactly the
/// cycles that the instruction at the program counter takes, the run fetches
/// its opcode byte, carries it out from the byte after it, and ends well; an
/// instruction that leaves the program counter at its operand has it moved
/// to the first byte after the instruction (`len` bytes on from its opcode).
/// BRK and the unimplemented SHY are not carried out this way.
pub proof fn lemma_run_one_instruction<M: Memory>(s: CpuModel<M::Model>, op: OpCode, cycles: u32)
    requires
        s.interrupt is None,
        read_ok::<M>(s, s.program_counter),
        s.program_counter + op.len <= 0xFFFF,
        opcode_table(read::<M>(s, s.program_counter)) == Some(op),
        op.mnemonic != Mnemonic::Brk && op.mnemonic != Mnemonic::Shy,
        instruction_ok::<M>(CpuModel { program_counter: (s.program_counter + 1) as u16, ..s }, op),
        instruction::<M>(CpuModel { program_counter: (s.program_counter + 1) as u16, ..s }, op).1 == cycles,
        instruction::<M>(CpuModel { program_counter: (s.program_counter + 1) as u16, ..s }, op).0.interrupt is None,
    ensures
        ({
            let s2 = instruction::<M>(CpuModel { program_counter: (s.program_counter + 1) as u16, ..s }, op).0;
            run::<M>(s, cycles, 0) == Some((
                if s2.program_counter == s.program_counter + 1 {
                    CpuModel { program_counter: (s.program_counter + op.len) as u16, ..s2 }
                } else {
                    s2
                },
                Ok::<(), Error>(()),
            ))
        }),
{
    let code = read::<M>(s, s.program_counter);
    lemma_opcode_table_entries(code);
    let s1 = fetched(s);
    lemma_instruction_consumes::<M>(s1, op);
    lemma_run_fetch::<M>(s, cycles);
    let s2 = instruction::<M>(s1, op).0;
    if s2.program_counter == s1.program_counter {
        lemma_run_done::<M>(s2.with_pc((s2.program_counter + (op.len - 1)) as u16));
    } else {
        lemma_run_done::<M>(s2);
    }
}

} // verus!
