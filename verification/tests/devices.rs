use rs6502::bus::Bus;
use rs6502::error::Error;
use rs6502::flags::Status;
use rs6502::memory::Memory;
use rs6502::nes::{Mirroring, NesDevice, RAMChip, Rom};
use rs6502::ops::{lookup_opcode, AddressingMode, Mnemonic};
use rs6502::CpuFlags;

fn ines(prg_banks: u8, chr_banks: u8, flags6: u8, flags7: u8) -> Vec<u8> {
    let mut raw = vec![0x4e, 0x45, 0x53, 0x1a, prg_banks, chr_banks, flags6, flags7];
    raw.resize(16, 0);
    if flags6 & 0b100 != 0 {
        raw.resize(16 + 512, 0xee);
    }
    for i in 0..(prg_banks as usize * 16384) {
        raw.push((i % 251) as u8);
    }
    for _ in 0..(chr_banks as usize * 8192) {
        raw.push(0xcc);
    }
    raw
}

#[test]
fn status_flags() {
    let mut s = Status::default();
    assert_eq!(s.bits(), 0b0010_0100);
    assert!(s.contains(CpuFlags::Interrupt));
    assert!(s.contains(CpuFlags::UNK));
    assert!(!s.contains(CpuFlags::Carry));
    s.insert(CpuFlags::Carry);
    assert!(s.contains(CpuFlags::Carry));
    assert_eq!(s.bits(), 0b0010_0101);
    s.remove(CpuFlags::Interrupt);
    assert!(!s.contains(CpuFlags::Interrupt));
    assert_eq!(s.bits(), 0b0010_0001);
    s.set(CpuFlags::Negative, true);
    assert_eq!(s.bits(), 0b1010_0001);
    assert_eq!(CpuFlags::Overflow.bits(), 0b0100_0000);
    assert_eq!(Status::from_bits_truncate(0xff).bits(), 0xff);
}

#[test]
fn ram_is_mirrored_every_2k() {
    let mut ram = RAMChip::new();
    assert_eq!(ram.mem_read(0x0123), 0);
    ram.mem_write(0x0001, 0xab);
    assert_eq!(ram.mem_read(0x0001), 0xab);
    assert_eq!(ram.mem_read(0x0801), 0xab);
    assert_eq!(ram.mem_read(0x1801), 0xab);
    assert_eq!(ram.mem_read(0x0002), 0);
}

#[test]
fn words_and_signed_bytes() {
    let mut ram = RAMChip::new();
    ram.mem_write_u16(0x0010, 0xbeef);
    assert_eq!(ram.mem_read(0x0010), 0xef);
    assert_eq!(ram.mem_read(0x0011), 0xbe);
    assert_eq!(ram.mem_read_u16(0x0010), 0xbeef);
    // The high byte of the wrapping read comes from the start of the page.
    ram.mem_write(0x00ff, 0x34);
    ram.mem_write(0x0000, 0x12);
    ram.mem_write(0x0100, 0x99);
    assert_eq!(ram.mem_read_u16_wrap(0x00ff), 0x1234);
    assert_eq!(ram.mem_read_u16(0x00ff), 0x9934);
    ram.mem_write_signed(0x0020, -1);
    assert_eq!(ram.mem_read(0x0020), 0xff);
    assert_eq!(ram.mem_read_signed(0x0020), -1);
    ram.mem_write_signed(0x0020, 127);
    assert_eq!(ram.mem_read_signed(0x0020), 127);
    ram.mem_write_signed(0x0020, -128);
    assert_eq!(ram.mem_read(0x0020), 0x80);
    assert_eq!(ram.mem_read_signed(0x0020), -128);
}

#[test]
fn rom_reads_an_ines_file() {
    let raw = ines(1, 1, 0b0000_0001, 0b0001_0000);
    let rom = Rom::new(&raw).unwrap();
    assert_eq!(rom.prg_rom.len(), 16384);
    assert_eq!(rom.chr_rom.len(), 8192);
    assert_eq!(rom.prg_rom[0], 0);
    assert_eq!(rom.prg_rom[300], (300 % 251) as u8);
    assert_eq!(rom.chr_rom[0], 0xcc);
    assert_eq!(rom.mapper, 0b0001_0000);
    assert_eq!(rom.screen_mirroring, Mirroring::Vertical);
    // One bank: $C000 mirrors $8000; below $8000 the cartridge reads 0.
    assert_eq!(rom.mem_read(0x8000 + 300), (300 % 251) as u8);
    assert_eq!(rom.mem_read(0xc000 + 300), (300 % 251) as u8);
    assert_eq!(rom.mem_read(0x1234), 0);
}

#[test]
fn rom_header_variants() {
    let raw = ines(2, 0, 0b0000_1100 | 0b0101_0000, 0b0010_0000);
    let rom = Rom::new(&raw).unwrap();
    assert_eq!(rom.prg_rom.len(), 32768);
    assert_eq!(rom.chr_rom.len(), 0);
    assert_eq!(rom.mapper, 0b0010_0101);
    assert_eq!(rom.screen_mirroring, Mirroring::FourScreen);
    // The trainer is skipped.
    assert_eq!(rom.prg_rom[0], 0);
    assert_eq!(rom.mem_read(0xc000), (16384 % 251) as u8);

    let raw = ines(1, 0, 0, 0);
    assert_eq!(Rom::new(&raw).unwrap().screen_mirroring, Mirroring::Horizontal);
}

#[test]
fn rom_rejects_bad_files() {
    let mut raw = ines(1, 1, 0, 0);
    raw[0] = b'X';
    assert_eq!(Rom::new(&raw).err().unwrap(), "File is not in iNES format");
    let raw = ines(1, 1, 0, 0b0000_1000);
    assert_eq!(Rom::new(&raw).err().unwrap(), "NES2.0 format is unsupported");
}

#[test]
fn bus_maps_and_routes() {
    let mut bus: Bus<RAMChip> = Bus::new();
    assert_eq!(bus.mem_read(0x0000), 0);
    assert_eq!(bus.get_region_place(0x0000), None);
    assert_eq!(bus.map_region(0x0000, 0x1fff, RAMChip::new()), Ok(()));
    assert_eq!(bus.map_region(0x6000, 0x7fff, RAMChip::new()), Ok(()));
    assert_eq!(bus.get_region_place(0x1000), Some((0x0000, 0x1fff)));
    assert_eq!(bus.get_region_place(0x6000), Some((0x6000, 0x7fff)));
    assert_eq!(bus.get_region_place(0x5000), None);
    assert_eq!(bus.get_region_key(0x0100, 0x0200), Some((0x0000, 0x1fff)));
    assert_eq!(bus.get_region_key(0x1000, 0x2000), None);
    bus.mem_write(0x0005, 7);
    assert_eq!(bus.mem_read(0x0805), 7);
    assert_eq!(bus.mem_read(0x6005), 0);
    // Writes where nothing is mapped are dropped; reads there give 0.
    bus.mem_write(0x5000, 9);
    assert_eq!(bus.mem_read(0x5000), 0);
}

#[test]
fn bus_refuses_a_region_inside_a_mapped_one() {
    let mut bus: Bus<RAMChip> = Bus::new();
    assert_eq!(bus.map_region(0x0000, 0x1fff, RAMChip::new()), Ok(()));
    assert_eq!(
        bus.map_region(0x0100, 0x0200, RAMChip::new()),
        Err(Error::MemoryMapConflict((0x0000, 0x1fff)))
    );
    // A region that only overlaps is accepted; the first mapped region wins.
    assert_eq!(bus.map_region(0x1000, 0x3fff, RAMChip::new()), Ok(()));
    bus.mem_write(0x1000, 3);
    assert_eq!(bus.mem_read(0x0000), 3);
    assert_eq!(bus.get_region_place(0x2000), Some((0x1000, 0x3fff)));
}

#[test]
fn nes_bus_with_ram_and_cartridge() {
    let rom = Rom::new(&ines(1, 0, 0, 0)).unwrap();
    let mut bus: Bus<NesDevice> = Bus::new();
    assert_eq!(bus.map_region(0x0000, 0x1fff, NesDevice::Ram(RAMChip::new())), Ok(()));
    assert_eq!(bus.map_region(0x8000, 0xffff, NesDevice::Cartridge(rom)), Ok(()));
    bus.mem_write(0x0700, 0x11);
    assert_eq!(bus.mem_read(0x0f00), 0x11);
    assert_eq!(bus.mem_read(0x8005), 5);
    assert_eq!(bus.mem_read(0xc005), 5);
}

#[test]
fn opcode_table_entries() {
    let op = lookup_opcode(0xa9).unwrap();
    assert_eq!(op.mnemonic, Mnemonic::Lda);
    assert_eq!(op.mode, AddressingMode::Immediate);
    assert_eq!((op.code, op.len, op.cycles), (0xa9, 2, 2));
    let op = lookup_opcode(0x6c).unwrap();
    assert_eq!(op.mnemonic.name(), "JMP");
    assert_eq!((op.len, op.cycles), (3, 5));
    let op = lookup_opcode(0xc7).unwrap();
    assert_eq!(op.mnemonic.name(), "*DCP");
    assert!(lookup_opcode(0x02).is_none());
    let known = (0..=255u8).filter(|c| lookup_opcode(*c).is_some()).count();
    assert_eq!(known, 244);
    for c in 0..=255u8 {
        if let Some(op) = lookup_opcode(c) {
            assert_eq!(op.code, c);
            assert!(op.len >= 1 && op.len <= 3);
            assert!(op.cycles >= 2 && op.cycles <= 8);
        }
    }
}

#[test]
fn error_messages() {
    assert_eq!(Error::Other.text(), "an error occurred");
    assert_eq!(Error::UnknownOpCode(0xab).text(), "unknown opcode: 0xAB");
    // A single digit is right-aligned in a field of two.
    assert_eq!(Error::UnknownOpCode(0x02).text(), "unknown opcode: 0x 2");
    assert_eq!(Error::UnhandledOpCode(0x9c).text(), "unhandled opcode: 0x9C");
    assert_eq!(
        Error::MemoryMapConflict((0x0000, 0x1fff)).text(),
        "memory region is already mapped: $0000-$1FFF"
    );
}
