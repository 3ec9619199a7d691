use vstd::prelude::*;

verus! {

/// A byte read as a two's-complement signed value.
pub open spec fn signed_of_byte(b: u8) -> i8 {
    if b < 128 { b as i8 } else { (b - 256) as i8 }
}

/// The two's-complement byte of a signed value.
pub open spec fn byte_of_signed(d: i8) -> u8 {
    if d < 0 { (256 + d) as u8 } else { d as u8 }
}

/// The little-endian 16-bit word made of a low and a high byte.
pub open spec fn word(lo: u8, hi: u8) -> u16 {
    (hi * 256 + lo) as u16
}

/// The low byte of a word.
pub open spec fn low_byte(w: u16) -> u8 {
    (w % 256) as u8
}

/// The high byte of a word.
pub open spec fn high_byte(w: u16) -> u8 {
    (w / 256) as u8
}

/// The address after `addr` within its 256-byte page: the low byte wraps
/// around and the high byte stays.
pub open spec fn page_wrap_next(addr: u16) -> u16 {
    ((addr / 256) * 256 + (addr % 256 + 1) % 256) as u16
}

/// A device that answers reads and writes of bytes at 16-bit addresses.
///
/// A device is described by its `Model`: what reads can observe of it. The
/// four spec functions over the model say what a read returns, where a read
/// or a write is allowed (elsewhere the device would panic), and what a write
/// leaves behind.
pub trait Memory: Sized {
    type Model;

    spec fn model(&self) -> Self::Model;

    /// The byte that a read at `addr` returns.
    spec fn read_model(m: Self::Model, addr: u16) -> u8;

    /// Whether a read at `addr` returns normally.
    spec fn can_read(m: Self::Model, addr: u16) -> bool;

    /// Whether a write at `addr` returns normally.
    spec fn can_write(m: Self::Model, addr: u16) -> bool;

    /// The device after `data` is written at `addr`.
    spec fn write_model(m: Self::Model, addr: u16, data: u8) -> Self::Model;

    fn mem_read(&self, addr: u16) -> (r: u8)
        requires
            Self::can_read(self.model(), addr),
        ensures
            r == Self::read_model(self.model(), addr),
    ;

    fn mem_write(&mut self, addr: u16, data: u8)
        requires
            Self::can_write(old(self).model(), addr),
        ensures
            final(self).model() == Self::write_model(old(self).model(), addr, data),
    ;

    /// Whether a read at `addr` would return normally.
    fn readable(&self, addr: u16) -> (r: bool)
        ensures
            r == Self::can_read(self.model(), addr),
    ;

    /// Whether a write at `addr` would return normally.
    fn writable(&self, addr: u16) -> (r: bool)
        ensures
            r == Self::can_write(self.model(), addr),
    ;

    /// Reads the byte at `addr` as a two's-complement signed value.
    fn mem_read_signed(&self, addr: u16) -> (r: i8)
        requires
            Self::can_read(self.model(), addr),
        ensures
            r == signed_of_byte(Self::read_model(self.model(), addr)),
    {
        let data = self.mem_read(addr);
        let wide: i16 = -(256 - data as i16);
        assert((wide as i8) == signed_of_byte(data)) by (bit_vector)
            requires
                wide == -(256 - data as i16),
        ;
        wide as i8
    }

    /// Writes the two's-complement byte of `data` at `addr`.
    fn mem_write_signed(&mut self, addr: u16, data: i8)
        requires
            Self::can_write(old(self).model(), addr),
        ensures
            final(self).model() == Self::write_model(old(self).model(), addr, byte_of_signed(data)),
    {
        if data < 0 {
            let data = (256 + data as i16) as u8;
            self.mem_write(addr, data);
        } else {
            self.mem_write(addr, data as u8)
        }
    }

    /// Reads the little-endian word at `addr` and `addr + 1`.
    fn mem_read_u16(&self, addr: u16) -> (r: u16)
        requires
            addr < 0xFFFF,
            Self::can_read(self.model(), addr),
            Self::can_read(self.model(), (addr + 1) as u16),
        ensures
            r == word(
                Self::read_model(self.model(), addr),
                Self::read_model(self.model(), (addr + 1) as u16),
            ),
    {
        let lo = self.mem_read(addr);
        let hi = self.mem_read(addr + 1);
        (hi as u16) * 256 + (lo as u16)
    }

    /// Reads the little-endian word at `addr`, taking its high byte from the
    /// next address within the same page.
    fn mem_read_u16_wrap(&self, addr: u16) -> (r: u16)
        requires
            Self::can_read(self.model(), addr),
            Self::can_read(self.model(), page_wrap_next(addr)),
        ensures
            r == word(
                Self::read_model(self.model(), addr),
                Self::read_model(self.model(), page_wrap_next(addr)),
            ),
    {
        let addr_hi: u16 = addr / 256;
        let mut addr_lo: u8 = (addr % 256) as u8;
        addr_lo = addr_lo.wrapping_add(1);
        let next_addr: u16 = addr_hi * 256 + addr_lo as u16;
        let lo = self.mem_read(addr);
        let hi = self.mem_read(next_addr);
        (hi as u16) * 256 + (lo as u16)
    }

    /// Writes `data` little-endian at `addr` and `addr + 1`.
    fn mem_write_u16(&mut self, addr: u16, data: u16)
        requires
            addr < 0xFFFF,
            Self::can_write(old(self).model(), addr),
            Self::can_write(
                Self::write_model(old(self).model(), addr, low_byte(data)),
                (addr + 1) as u16,
            ),
        ensures
            final(self).model() == Self::write_model(
                Self::write_model(old(self).model(), addr, low_byte(data)),
                (addr + 1) as u16,
                high_byte(data),
            ),
    {
        let lo = (data % 256) as u8;
        let hi = (data / 256) as u8;
        self.mem_write(addr, lo);
        self.mem_write(addr + 1, hi);
    }
}

/// Reading back the signed value of a written byte gives that value, and
/// the other way round.
pub proof fn lemma_signed_byte_round_trip(d: i8, b: u8)
    ensures
        signed_of_byte(byte_of_signed(d)) == d,
        byte_of_signed(signed_of_byte(b)) == b,
{
}

/// A word is made again from its low and high bytes, and its bytes are
/// those it was made of.
pub proof fn lemma_word_round_trip(w: u16, lo: u8, hi: u8)
    ensures
        word(low_byte(w), high_byte(w)) == w,
        low_byte(word(lo, hi)) == lo,
        high_byte(word(lo, hi)) == hi,
{
}

} // verus!
