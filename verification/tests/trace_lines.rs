use rs6502::memory::Memory;
use rs6502::nes::RAMChip;
use rs6502::trace::Trace;
use rs6502::Mos6502;

fn cpu_with(program: &[u8], at: u16) -> Mos6502<RAMChip> {
    let mut ram = RAMChip::new();
    for (i, b) in program.iter().enumerate() {
        ram.mem_write(at + i as u16, *b);
    }
    let mut cpu = Mos6502::new(ram);
    cpu.program_counter = at;
    cpu.stack_pointer = 0xfd;
    cpu
}

fn expected(listing: &str, a: u8, x: u8, y: u8, p: u8, sp: u8, m2: u8, m3: u8) -> String {
    format!(
        "{:47} A:{:02X} X:{:02X} Y:{:02X} P:{:08b} SP:{:02X} | 02H: {:02X} 03H: {:02X}",
        listing, a, x, y, p, sp, m2, m3
    )
}

#[test]
fn trace_absolute_jump() {
    let cpu = cpu_with(&[0x4c, 0xf5, 0xc5], 0x0600);
    assert_eq!(cpu.trace(), expected("0600  4C F5 C5  JMP $C5F5", 0, 0, 0, 0x24, 0xfd, 0, 0));
}

#[test]
fn trace_immediate_and_accumulator() {
    let mut cpu = cpu_with(&[0xa9, 0x05, 0x0a], 0x0600);
    assert_eq!(cpu.trace(), expected("0600  A9 05     LDA #$05", 0, 0, 0, 0x24, 0xfd, 0, 0));
    assert_eq!(cpu.execute(2), Ok(()));
    assert_eq!(cpu.trace(), expected("0602  0A        ASL A", 5, 0, 0, 0x24, 0xfd, 0, 0));
}

#[test]
fn trace_zero_page_and_memory_bytes() {
    let mut cpu = cpu_with(&[0x85, 0x02, 0xea], 0x0600);
    cpu.bus.mem_write(0x0002, 0x42);
    cpu.bus.mem_write(0x0003, 0x17);
    cpu.accumulator = 0x99;
    assert_eq!(cpu.trace(), expected("0600  85 02     STA $02 = 42", 0x99, 0, 0, 0x24, 0xfd, 0x42, 0x17));
    assert_eq!(cpu.execute(3), Ok(()));
    assert_eq!(cpu.trace(), expected("0602  EA        NOP", 0x99, 0, 0, 0x24, 0xfd, 0x99, 0x17));
}

#[test]
fn trace_indexed_and_indirect() {
    // LDA $0300,X with X = 2
    let mut cpu = cpu_with(&[0xbd, 0x00, 0x03], 0x0600);
    cpu.index_x = 2;
    cpu.bus.mem_write(0x0302, 0x7f);
    assert_eq!(cpu.trace(), expected("0600  BD 00 03  LDA $0300,X @ 0302 = 7F", 0, 2, 0, 0x24, 0xfd, 0, 0));
    // LDA ($20),Y with Y = 1: the pointer at $21/$22 is $0346
    let mut cpu = cpu_with(&[0xb1, 0x20], 0x0600);
    cpu.index_y = 1;
    cpu.bus.mem_write(0x0021, 0x46);
    cpu.bus.mem_write(0x0022, 0x03);
    cpu.bus.mem_write(0x0346, 0x11);
    assert_eq!(
        cpu.trace(),
        expected("0600  B1 20     LDA ($20),Y = 0345 @ 0346 = 11", 0, 0, 1, 0x24, 0xfd, 0, 0)
    );
    // LDA ($20,X) with X = 4: pointer at $24
    let mut cpu = cpu_with(&[0xa1, 0x20], 0x0600);
    cpu.index_x = 4;
    cpu.bus.mem_write(0x0024, 0x00);
    cpu.bus.mem_write(0x0025, 0x04);
    cpu.bus.mem_write(0x0400, 0x5a);
    assert_eq!(
        cpu.trace(),
        expected("0600  A1 20     LDA ($20,X) @ 24 = 0400 = 5A", 0, 4, 0, 0x24, 0xfd, 0, 0)
    );
}

#[test]
fn trace_branch_and_indirect_jump() {
    // BNE -3 at $0610 lands at $0612 - 3 = $060F.
    let cpu = cpu_with(&[0xd0, 0xfd], 0x0610);
    assert_eq!(cpu.trace(), expected("0610  D0 FD     BNE $060F", 0, 0, 0, 0x24, 0xfd, 0, 0));
    // JMP ($02FF): the high byte of the target is at $0300.
    let mut cpu = cpu_with(&[0x6c, 0xff, 0x02], 0x0600);
    cpu.bus.mem_write(0x02ff, 0x34);
    cpu.bus.mem_write(0x0300, 0x12);
    cpu.bus.mem_write(0x0200, 0x56);
    assert_eq!(cpu.trace(), expected("0600  6C FF 02  JMP ($02FF) = 1234", 0, 0, 0, 0x24, 0xfd, 0, 0));
    // An undocumented NOP keeps its star.
    let cpu = cpu_with(&[0x04, 0x10], 0x0600);
    assert_eq!(cpu.trace(), expected("0600  04 10    *NOP $10 = 00", 0, 0, 0, 0x24, 0xfd, 0, 0));
}
