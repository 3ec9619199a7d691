use rs6502::bus::Bus;
use rs6502::memory::Memory;

/// 64 KiB of RAM with a cartridge's program ROM at $8000 and above.
struct RAMChip {
    prg_rom: Vec<u8>,
    _chr_rom: Vec<u8>,
    memory: Vec<u8>,
}

impl RAMChip {
    fn new(prg_rom: Vec<u8>, _chr_rom: Vec<u8>) -> Self {
        RAMChip { memory: vec![0; 0xFFFF], prg_rom, _chr_rom }
    }
}

/// The byte that the chip holds at `addr`: program ROM from $8000 on (a
/// single 16 KiB bank shows twice), RAM below.
fn chip_read(memory: &[u8], prg_rom: &[u8], addr: u16) -> u8 {
    let mut addr = addr;
    match addr {
        0x8000..=0xFFFF => {
            addr -= 0x8000;
            if prg_rom.len() == 0x4000 && addr >= 0x4000 {
                addr = addr % 0x4000;
            }
            prg_rom[addr as usize]
        }
        _ => memory[addr as usize],
    }
}

impl Memory for RAMChip {
    // The model is the RAM and the program ROM, which is what reads observe.
    type Model = (Vec<u8>, Vec<u8>);
    fn model(&self) -> (Vec<u8>, Vec<u8>) {
        (self.memory.clone(), self.prg_rom.clone())
    }
    fn read_model(m: (Vec<u8>, Vec<u8>), addr: u16) -> u8 {
        chip_read(&m.0, &m.1, addr)
    }
    fn can_read(m: (Vec<u8>, Vec<u8>), addr: u16) -> bool {
        match addr {
            0x8000..=0xFFFF => {
                let offset = (addr - 0x8000) as usize;
                offset < m.1.len() || (m.1.len() == 0x4000 && offset % 0x4000 < m.1.len())
            }
            _ => (addr as usize) < m.0.len(),
        }
    }
    fn can_write(m: (Vec<u8>, Vec<u8>), addr: u16) -> bool {
        addr < 0x8000 && (addr as usize) < m.0.len()
    }
    fn write_model(m: (Vec<u8>, Vec<u8>), addr: u16, data: u8) -> (Vec<u8>, Vec<u8>) {
        let (mut memory, prg_rom) = m;
        memory[addr as usize] = data;
        (memory, prg_rom)
    }
    fn readable(&self, addr: u16) -> bool {
        Self::can_read(self.model(), addr)
    }
    fn writable(&self, addr: u16) -> bool {
        Self::can_write(self.model(), addr)
    }
    fn mem_read(&self, addr: u16) -> u8 {
        chip_read(&self.memory, &self.prg_rom, addr)
    }
    fn mem_write(&mut self, addr: u16, data: u8) {
        match addr {
            0x8000..=0xFFFF => panic!("write to cartridge rom"),
            _ => self.memory[addr as usize] = data,
        }
    }
}

#[test]
fn test_signed() {
    let mut bus = Bus::new();
    let ram = RAMChip::new(vec![], vec![]);

    bus.map_region(0, 0xFFFF, ram).unwrap(); // Add ram chip
    bus.mem_write_signed(0x01ff, -45);
    bus.mem_write_signed(0x01fe, 56);
    bus.mem_write(0x01fd, 224);

    let signed_a = bus.mem_read_signed(0x01ff);
    let signed_b = bus.mem_read_signed(0x01fe);
    let unsigned_c = bus.mem_read(0x01fd);
    let signed_c = bus.mem_read_signed(0x01fd);
    assert_eq!(signed_a, -45);
    assert_eq!(signed_b, 56);
    assert_eq!(unsigned_c, 224);
    assert_eq!(signed_c, -32);
}
