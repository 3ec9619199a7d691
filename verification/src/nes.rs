use vstd::prelude::*;
use crate::bus::{Bus, bus_keys, lemma_read_after_write, region_of};
use crate::memory::{Memory, byte_of_signed, lemma_signed_byte_round_trip, signed_of_byte};

verus! {

/// The bytes that open an iNES file: "NES" and an end-of-file byte.
pub open spec fn ines_tag() -> Seq<u8> {
    seq![0x4eu8, 0x45u8, 0x53u8, 0x1au8]
}

/// The size of one bank of program ROM.
pub const PRG_ROM_PAGE_SIZE: usize = 16384;
/// The size of one bank of character ROM.
pub const CHR_ROM_PAGE_SIZE: usize = 8192;

/// How the cartridge lays out the name tables.
#[derive(Copy, Clone, Debug, PartialEq, Eq, Structural)]
pub enum Mirroring {
    Vertical,
    Horizontal,
    FourScreen,
}

/// Whether the file starts with the iNES tag.
pub open spec fn has_ines_tag(raw: Seq<u8>) -> bool {
    raw.len() >= 4 && raw.subrange(0, 4) == ines_tag()
}

/// The format version in the header: 0 for iNES, 2 for NES 2.0.
pub open spec fn ines_version(raw: Seq<u8>) -> u8 {
    (raw[7] >> 2u8) & 0b11u8
}

/// The mapper number, whose nibbles are spread over header bytes 6 and 7.
pub open spec fn ines_mapper(raw: Seq<u8>) -> u8 {
    (raw[7] & 0b1111_0000u8) | (raw[6] >> 4u8)
}

/// The name-table layout that header byte 6 asks for.
pub open spec fn ines_mirroring(raw: Seq<u8>) -> Mirroring {
    if raw[6] & 0b1000u8 != 0 {
        Mirroring::FourScreen
    } else if raw[6] & 0b1u8 != 0 {
        Mirroring::Vertical
    } else {
        Mirroring::Horizontal
    }
}

/// Where the program ROM starts: after the 16-byte header and, when header
/// byte 6 says so, a 512-byte trainer.
pub open spec fn prg_rom_start(raw: Seq<u8>) -> int {
    16 + if raw[6] & 0b100u8 != 0 { 512int } else { 0int }
}

/// The size of the program ROM: header byte 4 counts its 16 KiB banks.
pub open spec fn prg_rom_size(raw: Seq<u8>) -> int {
    raw[4] * 16384
}

/// The size of the character ROM: header byte 5 counts its 8 KiB banks.
pub open spec fn chr_rom_size(raw: Seq<u8>) -> int {
    raw[5] * 8192
}

/// Whether the file is long enough for what its header announces.
pub open spec fn ines_fits(raw: Seq<u8>) -> bool {
    prg_rom_start(raw) + prg_rom_size(raw) + chr_rom_size(raw) <= raw.len()
}

/// A cartridge read from an iNES file.
pub struct Rom {
    pub prg_rom: Vec<u8>,
    pub chr_rom: Vec<u8>,
    pub mapper: u8,
    pub screen_mirroring: Mirroring,
}

/// The index into program ROM of `addr` (at or above $8000). A single 16 KiB
/// bank is mirrored at $C000.
pub open spec fn prg_rom_index(len: int, addr: u16) -> int {
    let rom_addr = addr - 0x8000;
    if len == 0x4000 && rom_addr >= 0x4000 {
        rom_addr % 0x4000
    } else {
        rom_addr
    }
}

impl Rom {
    /// Reads a cartridge from the bytes of an iNES file.
    ///
    /// The tag is checked first, then the format version; both must hold for
    /// the file to be read.
    pub fn new(raw: &[u8]) -> (r: Result<Rom, String>)
        requires
            raw@.len() >= 4,
            has_ines_tag(raw@) ==> raw@.len() >= 8,
            has_ines_tag(raw@) && ines_version(raw@) == 0 ==> ines_fits(raw@),
        ensures
            !has_ines_tag(raw@) ==> (r matches Err(e) && e@ == "File is not in iNES format"@),
            has_ines_tag(raw@) && ines_version(raw@) != 0 ==> (r matches Err(e) && e@
                == "NES2.0 format is unsupported"@),
            has_ines_tag(raw@) && ines_version(raw@) == 0 ==> (r matches Ok(rom) && {
                let start = prg_rom_start(raw@);
                let chr_start = start + prg_rom_size(raw@);
                &&& rom.prg_rom@ == raw@.subrange(start, chr_start)
                &&& rom.chr_rom@ == raw@.subrange(chr_start, chr_start + chr_rom_size(raw@))
                &&& rom.mapper == ines_mapper(raw@)
                &&& rom.screen_mirroring == ines_mirroring(raw@)
            }),
    {
        proof {
            reveal_strlit("File is not in iNES format");
            reveal_strlit("NES2.0 format is unsupported");
        }
        if !(raw[0] == 0x4e && raw[1] == 0x45 && raw[2] == 0x53 && raw[3] == 0x1a) {
            proof {
                if has_ines_tag(raw@) {
                    assert(raw@[0] == raw@.subrange(0, 4)[0]);
                    assert(raw@[1] == raw@.subrange(0, 4)[1]);
                    assert(raw@[2] == raw@.subrange(0, 4)[2]);
                    assert(raw@[3] == raw@.subrange(0, 4)[3]);
                }
            }
            return Err("File is not in iNES format".to_owned());
        }
        assert(raw@.subrange(0, 4) =~= ines_tag());
        let mapper = (raw[7] & 0b1111_0000) | (raw[6] >> 4);

        let ines_ver = (raw[7] >> 2) & 0b11;
        if ines_ver != 0 {
            return Err("NES2.0 format is unsupported".to_owned());
        }

        let four_screen = raw[6] & 0b1000 != 0;
        let vertical_mirroring = raw[6] & 0b1 != 0;
        let screen_mirroring = match (four_screen, vertical_mirroring) {
            (true, _) => Mirroring::FourScreen,
            (false, true) => Mirroring::Vertical,
            (false, false) => Mirroring::Horizontal,
        };

        let prg_rom_size = raw[4] as usize * PRG_ROM_PAGE_SIZE;
        let chr_rom_size = raw[5] as usize * CHR_ROM_PAGE_SIZE;

        let skip_trainer = raw[6] & 0b100 != 0;

        let prg_rom_start: usize = 16 + if skip_trainer { 512 } else { 0 };
        let chr_rom_start: usize = prg_rom_start + prg_rom_size;

        let prg_rom = vstd::slice::slice_to_vec(&raw[prg_rom_start..(prg_rom_start + prg_rom_size)]);
        let chr_rom = vstd::slice::slice_to_vec(&raw[chr_rom_start..(chr_rom_start + chr_rom_size)]);
        Ok(Rom { prg_rom, chr_rom, mapper, screen_mirroring })
    }
}

impl Memory for Rom {
    /// The program ROM; the rest of the cartridge is not on the CPU's bus.
    type Model = Seq<u8>;

    open spec fn model(&self) -> Seq<u8> {
        self.prg_rom@
    }

    /// Program ROM answers at $8000 and above; below, the cartridge reads 0.
    open spec fn read_model(m: Seq<u8>, addr: u16) -> u8 {
        if addr >= 0x8000 {
            m[prg_rom_index(m.len() as int, addr)]
        } else {
            0
        }
    }

    /// A read at $8000 or above needs program ROM at its index.
    open spec fn can_read(m: Seq<u8>, addr: u16) -> bool {
        addr < 0x8000 || prg_rom_index(m.len() as int, addr) < m.len()
    }

    /// ROM cannot be written.
    open spec fn can_write(m: Seq<u8>, addr: u16) -> bool {
        false
    }

    open spec fn write_model(m: Seq<u8>, addr: u16, data: u8) -> Seq<u8> {
        m
    }

    fn mem_read(&self, addr: u16) -> (r: u8) {
        if addr >= 0x8000 {
            let mut rom_addr = addr - 0x8000;
            if self.prg_rom.len() == 0x4000 && rom_addr >= 0x4000 {
                rom_addr = rom_addr % 0x4000;
            }
            self.prg_rom[rom_addr as usize]
        } else {
            0
        }
    }

    fn mem_write(&mut self, addr: u16, data: u8) {
    }

    fn readable(&self, addr: u16) -> (r: bool) {
        if addr >= 0x8000 {
            let mut rom_addr = addr - 0x8000;
            if self.prg_rom.len() == 0x4000 && rom_addr >= 0x4000 {
                rom_addr = rom_addr % 0x4000;
            }
            (rom_addr as usize) < self.prg_rom.len()
        } else {
            true
        }
    }

    fn writable(&self, addr: u16) -> (r: bool) {
        false
    }
}

/// The console's 2 KiB of work RAM, mirrored over the first 8 KiB of the bus.
pub struct RAMChip {
    memory: [u8; 2048],
}

/// The cell of work RAM that `addr` reaches: its low 11 bits.
pub open spec fn ram_index(addr: u16) -> int {
    (addr % 2048) as int
}

impl RAMChip {
    /// RAM with every byte zero.
    pub fn new() -> (r: RAMChip)
        ensures
            r.model() == Seq::new(2048, |i: int| 0u8),
    {
        let r = RAMChip { memory: [0; 2048] };
        assert(r.memory@ =~= Seq::new(2048, |i: int| 0u8));
        r
    }
}

impl RAMChip {
    /// Work RAM holds 2048 bytes.
    pub proof fn lemma_model_len(&self)
        ensures
            self.model().len() == 2048,
    {
    }
}

impl Memory for RAMChip {
    type Model = Seq<u8>;

    closed spec fn model(&self) -> Seq<u8> {
        self.memory@
    }

    open spec fn read_model(m: Seq<u8>, addr: u16) -> u8 {
        m[ram_index(addr)]
    }

    open spec fn can_read(m: Seq<u8>, addr: u16) -> bool {
        true
    }

    open spec fn can_write(m: Seq<u8>, addr: u16) -> bool {
        true
    }

    open spec fn write_model(m: Seq<u8>, addr: u16, data: u8) -> Seq<u8> {
        m.update(ram_index(addr), data)
    }

    fn mem_read(&self, addr: u16) -> (r: u8) {
        let mirror_down_addr = addr & 0b00000111_11111111;
        assert(mirror_down_addr == addr % 2048) by (bit_vector)
            requires
                mirror_down_addr == addr & 0b00000111_11111111u16,
        ;
        self.memory[mirror_down_addr as usize]
    }

    fn mem_write(&mut self, addr: u16, data: u8) {
        let mirror_down_addr = addr & 0b111_1111_1111;
        assert(mirror_down_addr == addr % 2048) by (bit_vector)
            requires
                mirror_down_addr == addr & 0b111_1111_1111u16,
        ;
        self.memory[mirror_down_addr as usize] = data;
    }

    fn readable(&self, addr: u16) -> (r: bool) {
        true
    }

    fn writable(&self, addr: u16) -> (r: bool) {
        true
    }
}

/// A device that the console maps on the CPU's bus.
pub enum NesDevice {
    Ram(RAMChip),
    Cartridge(Rom),
}

/// What a mapped device holds.
pub enum NesDeviceModel {
    Ram(Seq<u8>),
    Cartridge(Seq<u8>),
}

impl Memory for NesDevice {
    type Model = NesDeviceModel;

    open spec fn model(&self) -> NesDeviceModel {
        match self {
            NesDevice::Ram(ram) => NesDeviceModel::Ram(ram.model()),
            NesDevice::Cartridge(rom) => NesDeviceModel::Cartridge(rom.model()),
        }
    }

    open spec fn read_model(m: NesDeviceModel, addr: u16) -> u8 {
        match m {
            NesDeviceModel::Ram(r) => RAMChip::read_model(r, addr),
            NesDeviceModel::Cartridge(r) => Rom::read_model(r, addr),
        }
    }

    open spec fn can_read(m: NesDeviceModel, addr: u16) -> bool {
        match m {
            NesDeviceModel::Ram(r) => RAMChip::can_read(r, addr),
            NesDeviceModel::Cartridge(r) => Rom::can_read(r, addr),
        }
    }

    open spec fn can_write(m: NesDeviceModel, addr: u16) -> bool {
        match m {
            NesDeviceModel::Ram(r) => RAMChip::can_write(r, addr),
            NesDeviceModel::Cartridge(r) => Rom::can_write(r, addr),
        }
    }

    open spec fn write_model(m: NesDeviceModel, addr: u16, data: u8) -> NesDeviceModel {
        match m {
            NesDeviceModel::Ram(r) => NesDeviceModel::Ram(RAMChip::write_model(r, addr, data)),
            NesDeviceModel::Cartridge(r) => NesDeviceModel::Cartridge(Rom::write_model(r, addr, data)),
        }
    }

    fn mem_read(&self, addr: u16) -> (r: u8) {
        match self {
            NesDevice::Ram(ram) => ram.mem_read(addr),
            NesDevice::Cartridge(rom) => rom.mem_read(addr),
        }
    }

    fn mem_write(&mut self, addr: u16, data: u8) {
        match self {
            NesDevice::Ram(ram) => ram.mem_write(addr, data),
            NesDevice::Cartridge(rom) => rom.mem_write(addr, data),
        }
    }

    fn readable(&self, addr: u16) -> (r: bool) {
        match self {
            NesDevice::Ram(ram) => ram.readable(addr),
            NesDevice::Cartridge(rom) => rom.readable(addr),
        }
    }

    fn writable(&self, addr: u16) -> (r: bool) {
        match self {
            NesDevice::Ram(ram) => ram.writable(addr),
            NesDevice::Cartridge(rom) => rom.writable(addr),
        }
    }
}

/// Work RAM gives back what was last written to a cell, at every address
/// that mirrors it, and a write leaves the other cells as they were.
pub proof fn lemma_ram_read_after_write(m: Seq<u8>, addr: u16, data: u8, other: u16)
    requires
        m.len() == 2048,
    ensures
        RAMChip::read_model(RAMChip::write_model(m, addr, data), other) == if ram_index(other)
            == ram_index(addr) {
            data
        } else {
            RAMChip::read_model(m, other)
        },
        RAMChip::write_model(m, addr, data).len() == 2048,
{
}

/// A cartridge with a single 16 KiB bank shows it twice: from $C000 on, reads
/// repeat those from $8000; and no read of such a cartridge panics.
pub proof fn lemma_single_bank_mirrored(m: Seq<u8>, addr: u16)
    requires
        m.len() == 0x4000,
        addr >= 0xC000,
    ensures
        Rom::read_model(m, addr) == Rom::read_model(m, (addr - 0x4000) as u16),
        Rom::can_read(m, addr),
        Rom::can_read(m, (addr - 0x4000) as u16),
{
}

/// On a bus, a byte written to an address that reaches work RAM reads back
/// as written, and so does a signed value written with its two's-complement
/// byte.
pub proof fn lemma_bus_ram_round_trip(m: Seq<((u16, u16), Seq<u8>)>, addr: u16, data: u8, value: i8)
    requires
        region_of(bus_keys(m), addr) matches Some(i) ==> m[i].1.len() == 2048,
        region_of(bus_keys(m), addr) is Some,
    ensures
        Bus::<RAMChip>::can_write(m, addr),
        Bus::<RAMChip>::read_model(Bus::<RAMChip>::write_model(m, addr, data), addr) == data,
        signed_of_byte(
            Bus::<RAMChip>::read_model(Bus::<RAMChip>::write_model(m, addr, byte_of_signed(value)), addr),
        ) == value,
{
    lemma_read_after_write::<RAMChip>(m, addr, data, addr);
    lemma_read_after_write::<RAMChip>(m, addr, byte_of_signed(value), addr);
    lemma_signed_byte_round_trip(value, 0);
}

/// What the header of an iNES file says, bit by bit: bit 3 of byte 6 asks
/// for four-screen mirroring whatever bit 0 says, and otherwise bit 0 chooses
/// vertical (set) or horizontal (clear) mirroring; bit 2 of byte 6 announces a
/// 512-byte trainer before the program ROM; the mapper's low nibble is the
/// high nibble of byte 6 and its high nibble the high nibble of byte 7; the
/// format version is bits 2 and 3 of byte 7.
pub proof fn lemma_ines_header(raw: Seq<u8>)
    requires
        raw.len() >= 8,
    ensures
        ines_mirroring(raw) == if (raw[6] / 8) % 2 == 1 {
            Mirroring::FourScreen
        } else if raw[6] % 2 == 1 {
            Mirroring::Vertical
        } else {
            Mirroring::Horizontal
        },
        prg_rom_start(raw) == 16 + 512 * ((raw[6] / 4) % 2),
        ines_mapper(raw) == (raw[7] / 16) * 16 + raw[6] / 16,
        ines_version(raw) == (raw[7] / 4) % 4,
{
    let b6 = raw[6];
    let b7 = raw[7];
    assert((b6 & 0b1000u8 != 0) == ((b6 / 8) % 2 == 1)) by (bit_vector);
    assert((b6 & 0b1u8 != 0) == (b6 % 2 == 1)) by (bit_vector);
    assert((b6 & 0b100u8 != 0) == ((b6 / 4) % 2 == 1)) by (bit_vector);
    assert(((b7 & 0b1111_0000u8) | (b6 >> 4u8)) == (b7 / 16) * 16 + b6 / 16) by (bit_vector);
    assert(((b7 >> 2u8) & 0b11u8) == (b7 / 4) % 4) by (bit_vector);
}

/// Work RAM holds 2048 cells: the addresses below $0800 reach distinct cells
/// (a write to one leaves every other as it was), and every address reads
/// the same cell as the address $0800 below it.
pub proof fn lemma_ram_layout(m: Seq<u8>, a: u16, b: u16, d: u8)
    requires
        m.len() == 2048,
    ensures
        a < 0x800 && b < 0x800 && a != b ==> RAMChip::read_model(RAMChip::write_model(m, a, d), b)
            == RAMChip::read_model(m, b),
        RAMChip::read_model(RAMChip::write_model(m, a, d), a) == d,
        a >= 0x800 ==> RAMChip::read_model(m, a) == RAMChip::read_model(m, (a - 0x800) as u16),
{
}

/// Program ROM is read from $8000 on: with two banks, `addr` reads byte
/// `addr - $8000`; with one bank, byte `(addr - $8000) mod $4000`. ROM takes
/// no write.
pub proof fn lemma_rom_layout(m: Seq<u8>, addr: u16)
    requires
        m.len() == 0x4000 || m.len() == 0x8000,
        addr >= 0x8000,
    ensures
        Rom::can_read(m, addr),
        Rom::read_model(m, addr) == m[(addr - 0x8000) % (m.len() as int)],
        !Rom::can_write(m, addr),
{
}

} // verus!
