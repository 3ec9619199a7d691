use rs6502::error::Error;
use rs6502::flags::Status;
use rs6502::interrupts::Interrupt;
use rs6502::memory::Memory;
use rs6502::bus::Bus;
use rs6502::nes::{NesDevice, RAMChip, Rom};
use rs6502::{CpuFlags, Mos6502};

/// A CPU whose whole address space is work RAM, with `program` stored at
/// `at` and the program counter there.
fn cpu_with(program: &[u8], at: u16) -> Mos6502<RAMChip> {
    let mut ram = RAMChip::new();
    for (i, b) in program.iter().enumerate() {
        ram.mem_write(at + i as u16, *b);
    }
    let mut cpu = Mos6502::new(ram);
    cpu.program_counter = at;
    cpu.stack_pointer = 0x10;
    cpu
}

#[test]
fn new_cpu_has_default_registers() {
    let cpu = Mos6502::new(RAMChip::new());
    assert_eq!(cpu.accumulator, 0);
    assert_eq!(cpu.index_x, 0);
    assert_eq!(cpu.index_y, 0);
    assert_eq!(cpu.program_counter, 0);
    assert_eq!(cpu.stack_pointer, 0);
    assert_eq!(cpu.status.bits(), 0b0010_0100);
    assert!(cpu.interrupt.is_none());
}

#[test]
fn lda_immediate_loads_and_sets_flags() {
    let mut cpu = cpu_with(&[0xa9, 0x05], 0x0600);
    assert_eq!(cpu.execute(2), Ok(()));
    assert_eq!(cpu.accumulator, 5);
    assert_eq!(cpu.program_counter, 0x0602);
    assert!(!cpu.status.contains(CpuFlags::Zero));
    assert!(!cpu.status.contains(CpuFlags::Negative));

    let mut cpu = cpu_with(&[0xa9, 0x00, 0xa9, 0x80], 0x0600);
    assert_eq!(cpu.execute(2), Ok(()));
    assert!(cpu.status.contains(CpuFlags::Zero));
    assert_eq!(cpu.execute(2), Ok(()));
    assert!(cpu.status.contains(CpuFlags::Negative));
    assert!(!cpu.status.contains(CpuFlags::Zero));
}

#[test]
fn sta_zero_page_stores_the_accumulator() {
    // LDA #$42; STA $10
    let mut cpu = cpu_with(&[0xa9, 0x42, 0x85, 0x10], 0x0600);
    assert_eq!(cpu.execute(5), Ok(()));
    assert_eq!(cpu.bus.mem_read(0x0010), 0x42);
    assert_eq!(cpu.program_counter, 0x0604);
}

#[test]
fn adc_adds_operand_and_carry() {
    // LDA #$05; ADC #$03
    let mut cpu = cpu_with(&[0xa9, 0x05, 0x69, 0x03], 0x0600);
    assert_eq!(cpu.execute(4), Ok(()));
    assert_eq!(cpu.accumulator, 8);
    // SEC; LDA #$05; ADC #$03
    let mut cpu = cpu_with(&[0x38, 0xa9, 0x05, 0x69, 0x03], 0x0600);
    assert_eq!(cpu.execute(6), Ok(()));
    assert_eq!(cpu.accumulator, 9);
    // LDA #$F0; ADC #$20: the sum wraps to $10 and carries out.
    let mut cpu = cpu_with(&[0xa9, 0xf0, 0x69, 0x20], 0x0600);
    assert_eq!(cpu.execute(4), Ok(()));
    assert_eq!(cpu.accumulator, 0x10);
    assert!(cpu.status.contains(CpuFlags::Carry));
    assert!(!cpu.status.contains(CpuFlags::Overflow));
    // LDA #$70; ADC #$10: $80, no carry out, but two positives gave a negative.
    let mut cpu = cpu_with(&[0xa9, 0x70, 0x69, 0x10], 0x0600);
    assert_eq!(cpu.execute(4), Ok(()));
    assert_eq!(cpu.accumulator, 0x80);
    assert!(!cpu.status.contains(CpuFlags::Carry));
    assert!(cpu.status.contains(CpuFlags::Overflow));
    assert!(cpu.status.contains(CpuFlags::Negative));
    // CLC; LDA #$FF; ADC #$01: zero, with a carry out.
    let mut cpu = cpu_with(&[0x18, 0xa9, 0xff, 0x69, 0x01], 0x0600);
    assert_eq!(cpu.execute(6), Ok(()));
    assert_eq!(cpu.accumulator, 0x00);
    assert!(cpu.status.contains(CpuFlags::Carry));
    assert!(cpu.status.contains(CpuFlags::Zero));
    assert!(!cpu.status.contains(CpuFlags::Negative));
    assert!(!cpu.status.contains(CpuFlags::Overflow));
}

#[test]
fn sbc_subtracts_with_borrow() {
    // SEC; LDA #$05; SBC #$03
    let mut cpu = cpu_with(&[0x38, 0xa9, 0x05, 0xe9, 0x03], 0x0600);
    assert_eq!(cpu.execute(6), Ok(()));
    assert_eq!(cpu.accumulator, 2);
    assert!(cpu.status.contains(CpuFlags::Carry));
    // CLC; LDA #$05; SBC #$03: one more is taken away.
    let mut cpu = cpu_with(&[0x18, 0xa9, 0x05, 0xe9, 0x03], 0x0600);
    assert_eq!(cpu.execute(6), Ok(()));
    assert_eq!(cpu.accumulator, 1);
    assert!(cpu.status.contains(CpuFlags::Carry));
    // SEC; LDA #$50; SBC #$B0: a borrow, and a positive minus a negative
    // gave a negative.
    let mut cpu = cpu_with(&[0x38, 0xa9, 0x50, 0xe9, 0xb0], 0x0600);
    assert_eq!(cpu.execute(6), Ok(()));
    assert_eq!(cpu.accumulator, 0xa0);
    assert!(!cpu.status.contains(CpuFlags::Carry));
    assert!(cpu.status.contains(CpuFlags::Overflow));
    assert!(cpu.status.contains(CpuFlags::Negative));
    assert!(!cpu.status.contains(CpuFlags::Zero));
    // SEC; LDA #$03; SBC #$03: zero, no borrow.
    let mut cpu = cpu_with(&[0x38, 0xa9, 0x03, 0xe9, 0x03], 0x0600);
    assert_eq!(cpu.execute(6), Ok(()));
    assert_eq!(cpu.accumulator, 0);
    assert!(cpu.status.contains(CpuFlags::Carry));
    assert!(cpu.status.contains(CpuFlags::Zero));
}

#[test]
fn logic_instructions() {
    // LDA #$0F; AND #$3C
    let mut cpu = cpu_with(&[0xa9, 0x0f, 0x29, 0x3c], 0x0600);
    assert_eq!(cpu.execute(4), Ok(()));
    assert_eq!(cpu.accumulator, 0x0c);
    // LDA #$0F; EOR #$FF
    let mut cpu = cpu_with(&[0xa9, 0x0f, 0x49, 0xff], 0x0600);
    assert_eq!(cpu.execute(4), Ok(()));
    assert_eq!(cpu.accumulator, 0xf0);
    assert!(cpu.status.contains(CpuFlags::Negative));
    // LDA #$0F; ORA #$F0
    let mut cpu = cpu_with(&[0xa9, 0x0f, 0x09, 0xf0], 0x0600);
    assert_eq!(cpu.execute(4), Ok(()));
    assert_eq!(cpu.accumulator, 0xff);
}

#[test]
fn transfers_and_increments() {
    // LDA #$FF; TAX; INX
    let mut cpu = cpu_with(&[0xa9, 0xff, 0xaa, 0xe8], 0x0600);
    assert_eq!(cpu.execute(6), Ok(()));
    assert_eq!(cpu.index_x, 0);
    assert!(cpu.status.contains(CpuFlags::Zero));
    // LDY #$01; DEY; DEY
    let mut cpu = cpu_with(&[0xa0, 0x01, 0x88, 0x88], 0x0600);
    assert_eq!(cpu.execute(6), Ok(()));
    assert_eq!(cpu.index_y, 0xff);
    assert!(cpu.status.contains(CpuFlags::Negative));
}

#[test]
fn branch_loop_counts_down() {
    // LDX #$03; loop: DEX; BNE loop
    let mut cpu = cpu_with(&[0xa2, 0x03, 0xca, 0xd0, 0xfd], 0x0600);
    // LDX 2 + (DEX 2 + BNE taken 3) * 2 + DEX 2 + BNE not taken 2
    assert_eq!(cpu.execute(2 + 5 * 2 + 4), Ok(()));
    assert_eq!(cpu.index_x, 0);
    assert_eq!(cpu.program_counter, 0x0605);
}

#[test]
fn compare_sets_carry_zero_negative() {
    // LDA #$10; CMP #$10
    let mut cpu = cpu_with(&[0xa9, 0x10, 0xc9, 0x10], 0x0600);
    assert_eq!(cpu.execute(4), Ok(()));
    assert!(cpu.status.contains(CpuFlags::Carry));
    assert!(cpu.status.contains(CpuFlags::Zero));
    assert!(!cpu.status.contains(CpuFlags::Negative));
    // LDA #$10; CMP #$20
    let mut cpu = cpu_with(&[0xa9, 0x10, 0xc9, 0x20], 0x0600);
    assert_eq!(cpu.execute(4), Ok(()));
    assert!(!cpu.status.contains(CpuFlags::Carry));
    assert!(!cpu.status.contains(CpuFlags::Zero));
    assert!(cpu.status.contains(CpuFlags::Negative));
}

#[test]
fn shifts_and_rotations() {
    // LDA #$81; ASL A
    let mut cpu = cpu_with(&[0xa9, 0x81, 0x0a], 0x0600);
    assert_eq!(cpu.execute(4), Ok(()));
    assert_eq!(cpu.accumulator, 0x02);
    assert!(cpu.status.contains(CpuFlags::Carry));
    // LDA #$81; LSR A
    let mut cpu = cpu_with(&[0xa9, 0x81, 0x4a], 0x0600);
    assert_eq!(cpu.execute(4), Ok(()));
    assert_eq!(cpu.accumulator, 0x40);
    assert!(cpu.status.contains(CpuFlags::Carry));
    // SEC; LDA #$02; ROR A
    let mut cpu = cpu_with(&[0x38, 0xa9, 0x02, 0x6a], 0x0600);
    assert_eq!(cpu.execute(6), Ok(()));
    assert_eq!(cpu.accumulator, 0x81);
    assert!(!cpu.status.contains(CpuFlags::Carry));
    // SEC; LDA #$80; ROL A: the carry enters at bit 0 and bit 7 leaves for Carry.
    let mut cpu = cpu_with(&[0x38, 0xa9, 0x80, 0x2a], 0x0600);
    assert_eq!(cpu.execute(6), Ok(()));
    assert_eq!(cpu.accumulator, 0x01);
    assert!(cpu.status.contains(CpuFlags::Carry));
    // CLC; LDA #$40; ROL A
    let mut cpu = cpu_with(&[0x18, 0xa9, 0x40, 0x2a], 0x0600);
    assert_eq!(cpu.execute(6), Ok(()));
    assert_eq!(cpu.accumulator, 0x80);
    assert!(!cpu.status.contains(CpuFlags::Carry));
    assert!(cpu.status.contains(CpuFlags::Negative));
    // LDA #$01; ASL $00: zero page address $0000 is memory, not the accumulator.
    let mut cpu = cpu_with(&[0xa9, 0x01, 0x06, 0x00], 0x0600);
    cpu.bus.mem_write(0x0000, 0x81);
    assert_eq!(cpu.execute(7), Ok(()));
    assert_eq!(cpu.bus.mem_read(0x0000), 0x02);
    assert_eq!(cpu.accumulator, 0x01);
    assert!(cpu.status.contains(CpuFlags::Carry));
    // CLC; ROL $00 with $00 = $80.
    let mut cpu = cpu_with(&[0x18, 0x26, 0x00], 0x0600);
    cpu.bus.mem_write(0x0000, 0x80);
    assert_eq!(cpu.execute(7), Ok(()));
    assert_eq!(cpu.bus.mem_read(0x0000), 0x00);
    assert!(cpu.status.contains(CpuFlags::Carry));
    assert!(cpu.status.contains(CpuFlags::Zero));
}

#[test]
fn subroutine_call_and_return() {
    // JSR $0610; LDX #$07 ... at $0610: LDA #$09; RTS
    let mut cpu = cpu_with(&[0x20, 0x10, 0x06, 0xa2, 0x07], 0x0600);
    cpu.bus.mem_write(0x0610, 0xa9);
    cpu.bus.mem_write(0x0611, 0x09);
    cpu.bus.mem_write(0x0612, 0x60);
    assert_eq!(cpu.execute(6 + 2 + 6 + 2), Ok(()));
    assert_eq!(cpu.accumulator, 9);
    assert_eq!(cpu.index_x, 7);
    assert_eq!(cpu.program_counter, 0x0605);
    assert_eq!(cpu.stack_pointer, 0x10);
}

#[test]
fn push_and_pull() {
    // LDA #$33; PHA; LDA #$00; PLA
    let mut cpu = cpu_with(&[0xa9, 0x33, 0x48, 0xa9, 0x00, 0x68], 0x0600);
    assert_eq!(cpu.execute(2 + 3 + 2 + 4), Ok(()));
    assert_eq!(cpu.accumulator, 0x33);
    assert_eq!(cpu.stack_pointer, 0x10);
    // The push wrote where the stack pointer pointed, then moved it up.
    assert_eq!(cpu.bus.mem_read(0x0110), 0x33);
}

#[test]
fn brk_jumps_through_the_irq_vector() {
    let mut cpu = cpu_with(&[0x00], 0x0600);
    cpu.bus.mem_write(0xfffe, 0x00);
    cpu.bus.mem_write(0xffff, 0x07);
    let status_before = cpu.status.bits();
    assert_eq!(cpu.execute(1), Ok(()));
    assert_eq!(cpu.program_counter, 0x0700);
    assert!(cpu.status.contains(CpuFlags::Interrupt));
    assert!(cpu.interrupt.is_none());
    // Pushed: the address after BRK (high byte, then low byte), then the
    // status with Break set.
    assert_eq!(cpu.bus.mem_read(0x0110), 0x06);
    assert_eq!(cpu.bus.mem_read(0x0111), 0x01);
    assert_eq!(cpu.bus.mem_read(0x0112), status_before | 0b0001_0000);
    assert_eq!(cpu.stack_pointer, 0x13);
}

#[test]
fn irq_pushes_status_with_break_cleared() {
    let mut cpu = cpu_with(&[0xea], 0x0600);
    cpu.bus.mem_write(0xfffe, 0x00);
    cpu.bus.mem_write(0xffff, 0x07);
    cpu.status = Status::from_bits_truncate(0b0011_0001);
    cpu.interrupt = Some(Interrupt::IRQ);
    assert_eq!(cpu.execute(100), Ok(()));
    assert_eq!(cpu.program_counter, 0x0700);
    assert_eq!(cpu.bus.mem_read(0x0110), 0x06);
    assert_eq!(cpu.bus.mem_read(0x0111), 0x00);
    assert_eq!(cpu.bus.mem_read(0x0112), 0b0010_0001);
    assert_eq!(cpu.stack_pointer, 0x13);
    assert!(cpu.status.contains(CpuFlags::Interrupt));
}

#[test]
fn nmi_then_rti_resumes() {
    let mut cpu = cpu_with(&[0xea], 0x0600);
    cpu.bus.mem_write(0xfffa, 0x00);
    cpu.bus.mem_write(0xfffb, 0x07);
    cpu.bus.mem_write(0x0700, 0x40); // RTI
    cpu.status = Status::from_bits_truncate(0b0001_0001);
    cpu.interrupt = Some(Interrupt::NMI);
    // The interrupt takes the whole budget: only the jump happens.
    assert_eq!(cpu.execute(100), Ok(()));
    assert_eq!(cpu.program_counter, 0x0700);
    assert_eq!(cpu.stack_pointer, 0x13);
    assert_eq!(cpu.execute(6), Ok(()));
    assert_eq!(cpu.program_counter, 0x0600);
    assert_eq!(cpu.stack_pointer, 0x10);
    // Break cleared, UNK set, Carry kept.
    assert_eq!(cpu.status.bits(), 0b0010_0001);
}

#[test]
fn reset_interrupt_and_reset() {
    let mut cpu = cpu_with(&[0xea], 0x0600);
    cpu.bus.mem_write(0xfffc, 0x34);
    cpu.bus.mem_write(0xfffd, 0x12);
    cpu.accumulator = 9;
    cpu.interrupt = Some(Interrupt::RESET);
    assert_eq!(cpu.execute(1), Ok(()));
    assert_eq!(cpu.program_counter, 0x1234);
    assert_eq!(cpu.stack_pointer, 0xfd);
    assert_eq!(cpu.accumulator, 0);
    assert_eq!(cpu.status.bits(), 0b0010_0100);

    let mut cpu = cpu_with(&[0xea], 0x0600);
    cpu.bus.mem_write(0xfffc, 0x00);
    cpu.bus.mem_write(0xfffd, 0xc0);
    cpu.index_x = 3;
    cpu.reset();
    assert_eq!(cpu.program_counter, 0xc000);
    assert_eq!(cpu.index_x, 0);
    assert_eq!(cpu.stack_pointer, 0xfd);
}

#[test]
fn unknown_and_unhandled_opcodes() {
    let mut cpu = cpu_with(&[0x02], 0x0600);
    assert_eq!(cpu.execute(10), Err(Error::UnknownOpCode(0x02)));
    assert_eq!(cpu.program_counter, 0x0601);

    let mut cpu = cpu_with(&[0x9c, 0x00, 0x02], 0x0600);
    assert_eq!(cpu.execute(10), Err(Error::UnhandledOpCode(0x9c)));
    assert_eq!(cpu.program_counter, 0x0601);
}

#[test]
fn jmp_indirect_reads_the_following_byte() {
    // JMP ($02FF): low byte from $02FF, high byte from $0300.
    let mut cpu = cpu_with(&[0x6c, 0xff, 0x02], 0x0600);
    cpu.bus.mem_write(0x02ff, 0x34);
    cpu.bus.mem_write(0x0200, 0x56);
    cpu.bus.mem_write(0x0300, 0x12);
    assert_eq!(cpu.execute(5), Ok(()));
    assert_eq!(cpu.program_counter, 0x1234);
}

#[test]
fn short_budget_stops_before_operand_skip() {
    // LDA $0010 takes 4 cycles; with 1 cycle left the budget ends and the
    // program counter is left at the operand.
    let mut cpu = cpu_with(&[0xad, 0x10, 0x00], 0x0600);
    cpu.bus.mem_write(0x0010, 0x77);
    assert_eq!(cpu.execute(1), Ok(()));
    assert_eq!(cpu.accumulator, 0x77);
    assert_eq!(cpu.program_counter, 0x0601);
}

#[test]
fn page_crossing_costs_a_cycle() {
    // LDX #$01; LDA $06FF,X reads $0700 across a page: 2 + 5 cycles.
    let mut cpu = cpu_with(&[0xa2, 0x01, 0xbd, 0xff, 0x06, 0xa9, 0x01], 0x0600);
    cpu.bus.mem_write(0x0700, 0x55);
    assert_eq!(cpu.execute(7), Ok(()));
    assert_eq!(cpu.accumulator, 0x55);
    assert_eq!(cpu.program_counter, 0x0605);
}

#[test]
fn indexed_indirect_addressing() {
    // LDX #$04; LDA ($20,X): pointer at $24/$25 -> $0345.
    let mut cpu = cpu_with(&[0xa2, 0x04, 0xa1, 0x20], 0x0600);
    cpu.bus.mem_write(0x0024, 0x45);
    cpu.bus.mem_write(0x0025, 0x03);
    cpu.bus.mem_write(0x0345, 0x66);
    assert_eq!(cpu.execute(8), Ok(()));
    assert_eq!(cpu.accumulator, 0x66);
    // LDY #$01; LDA ($20),Y: the pointer at $20 + Y = $21/$22 -> $0346.
    let mut cpu = cpu_with(&[0xa0, 0x01, 0xb1, 0x20], 0x0600);
    cpu.bus.mem_write(0x0020, 0x45);
    cpu.bus.mem_write(0x0021, 0x46);
    cpu.bus.mem_write(0x0022, 0x03);
    cpu.bus.mem_write(0x0346, 0x67);
    assert_eq!(cpu.execute(7), Ok(()));
    assert_eq!(cpu.accumulator, 0x67);
}

#[test]
fn undocumented_dcp_and_lax() {
    // LDA #$05; DCP $10 with $10 = 6: memory becomes 5, Carry and Zero set.
    let mut cpu = cpu_with(&[0xa9, 0x05, 0xc7, 0x10], 0x0600);
    cpu.bus.mem_write(0x0010, 0x06);
    assert_eq!(cpu.execute(7), Ok(()));
    assert_eq!(cpu.bus.mem_read(0x0010), 0x05);
    assert!(cpu.status.contains(CpuFlags::Carry));
    assert!(cpu.status.contains(CpuFlags::Zero));
    // LDX #$09; LAX $10: A ends as X.
    let mut cpu = cpu_with(&[0xa2, 0x09, 0xa7, 0x10], 0x0600);
    cpu.bus.mem_write(0x0010, 0x42);
    assert_eq!(cpu.execute(5), Ok(()));
    assert_eq!(cpu.accumulator, 0x09);
}

#[test]
fn cpu_reads_and_writes_through_its_bus() {
    let mut cpu = Mos6502::new(RAMChip::new());
    cpu.mem_write(0x0042, 0x99);
    assert_eq!(cpu.mem_read(0x0042), 0x99);
    assert_eq!(cpu.bus.mem_read(0x0842), 0x99);
}

#[test]
fn try_execute_matches_execute() {
    // LDX #$03; loop: DEX; BNE loop
    let program = [0xa2, 0x03, 0xca, 0xd0, 0xfd];
    let mut a = cpu_with(&program, 0x0600);
    let mut b = cpu_with(&program, 0x0600);
    assert_eq!(a.execute(16), Ok(()));
    assert_eq!(b.try_execute(16), Some(Ok(())));
    assert_eq!(a.index_x, b.index_x);
    assert_eq!(a.program_counter, b.program_counter);
    assert_eq!(a.status.bits(), b.status.bits());

    let mut c = cpu_with(&[0x02], 0x0600);
    assert_eq!(c.try_execute(10), Some(Err(Error::UnknownOpCode(0x02))));
}

#[test]
fn try_execute_stops_before_a_bad_access() {
    // A cartridge of one bank, filled with zero bytes after the header.
    let mut raw = vec![0x4e, 0x45, 0x53, 0x1a, 1, 0, 0, 0];
    raw.resize(16 + 16384, 0);
    let rom = Rom::new(&raw).unwrap();
    let mut bus: Bus<NesDevice> = Bus::new();
    assert_eq!(bus.map_region(0x0000, 0x1fff, NesDevice::Ram(RAMChip::new())), Ok(()));
    assert_eq!(bus.map_region(0x8000, 0xffff, NesDevice::Cartridge(rom)), Ok(()));
    // LDA #$01; STA $8000: the store would write to ROM.
    bus.mem_write(0x0600, 0xa9);
    bus.mem_write(0x0601, 0x01);
    bus.mem_write(0x0602, 0x8d);
    bus.mem_write(0x0603, 0x00);
    bus.mem_write(0x0604, 0x80);
    let mut cpu = Mos6502::new(bus);
    cpu.program_counter = 0x0600;
    assert_eq!(cpu.try_execute(100), None);
    assert_eq!(cpu.accumulator, 1);

    // A JSR whose operand runs past $FFFF.
    let mut cpu = cpu_with(&[], 0x0600);
    cpu.bus.mem_write(0xfffe, 0x20);
    cpu.program_counter = 0xfffe;
    assert_eq!(cpu.try_execute(10), None);
}
