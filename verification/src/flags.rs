use vstd::prelude::*;

verus! {

/// The bits of the processor status register.
#[derive(Copy, Clone, Debug, PartialEq, Eq, Structural)]
pub enum CpuFlags {
    Carry,
    Zero,
    Interrupt,
    Decimal,
    Break,
    UNK,
    Overflow,
    Negative,
}

/// The bit of the status register that a flag occupies.
pub open spec fn flag_mask(flag: CpuFlags) -> u8 {
    match flag {
        CpuFlags::Carry => 0b0000_0001,
        CpuFlags::Zero => 0b0000_0010,
        CpuFlags::Interrupt => 0b0000_0100,
        CpuFlags::Decimal => 0b0000_1000,
        CpuFlags::Break => 0b0001_0000,
        CpuFlags::UNK => 0b0010_0000,
        CpuFlags::Overflow => 0b0100_0000,
        CpuFlags::Negative => 0b1000_0000,
    }
}

/// The value of the status register at power-up and after a reset:
/// `UNK | Interrupt`.
pub open spec fn default_status_bits() -> u8 {
    0b0010_0100
}

/// The register `bits` with the bits of `mask` set when `value` holds and
/// cleared otherwise.
pub open spec fn with_mask(bits: u8, mask: u8, value: bool) -> u8 {
    if value { bits | mask } else { bits & !mask }
}

impl CpuFlags {
    /// The bit of the status register that this flag occupies.
    pub fn bits(self) -> (r: u8)
        ensures
            r == flag_mask(self),
    {
        match self {
            CpuFlags::Carry => 0b0000_0001,
            CpuFlags::Zero => 0b0000_0010,
            CpuFlags::Interrupt => 0b0000_0100,
            CpuFlags::Decimal => 0b0000_1000,
            CpuFlags::Break => 0b0001_0000,
            CpuFlags::UNK => 0b0010_0000,
            CpuFlags::Overflow => 0b0100_0000,
            CpuFlags::Negative => 0b1000_0000,
        }
    }
}

/// The processor status register: a set of `CpuFlags` kept as one byte.
#[derive(Copy, Clone, Debug, PartialEq, Eq, Structural)]
pub struct Status {
    pub bits: u8,
}

impl Status {
    /// Whether `flag` is set.
    pub open spec fn has(self, flag: CpuFlags) -> bool {
        self.bits & flag_mask(flag) != 0
    }

    /// The register with the flags that are set in `bits` (every bit of the
    /// byte is a flag, so none is dropped).
    pub fn from_bits_truncate(bits: u8) -> (r: Status)
        ensures
            r.bits == bits,
    {
        Status { bits }
    }

    /// The register as a byte.
    pub fn bits(&self) -> (r: u8)
        ensures
            r == self.bits,
    {
        self.bits
    }

    /// Whether `flag` is set.
    pub fn contains(&self, flag: CpuFlags) -> (r: bool)
        ensures
            r == self.has(flag),
    {
        self.bits & flag.bits() != 0
    }

    /// Sets `flag`, leaving the other flags as they were.
    pub fn insert(&mut self, flag: CpuFlags)
        ensures
            final(self).bits == with_mask(old(self).bits, flag_mask(flag), true),
    {
        self.bits = self.bits | flag.bits();
    }

    /// Clears `flag`, leaving the other flags as they were.
    pub fn remove(&mut self, flag: CpuFlags)
        ensures
            final(self).bits == with_mask(old(self).bits, flag_mask(flag), false),
    {
        self.bits = self.bits & !flag.bits();
    }

    /// Sets `flag` when `value` holds and clears it otherwise.
    pub fn set(&mut self, flag: CpuFlags, value: bool)
        ensures
            final(self).bits == with_mask(old(self).bits, flag_mask(flag), value),
    {
        if value {
            self.insert(flag);
        } else {
            self.remove(flag);
        }
    }
}

impl Default for Status {
    /// `UNK | Interrupt`, the register's value at power-up.
    fn default() -> (r: Status)
        ensures
            r.bits == default_status_bits(),
    {
        Status { bits: 0b0010_0100 }
    }
}

/// After `flag` is set or cleared, the register reports it so, and every
/// other flag keeps its value.
pub proof fn lemma_set_flag(bits: u8, flag: CpuFlags, value: bool, other: CpuFlags)
    ensures
        (Status { bits: with_mask(bits, flag_mask(flag), value) }).has(flag) == value,
        other != flag ==> (Status { bits: with_mask(bits, flag_mask(flag), value) }).has(other)
            == (Status { bits }).has(other),
{
    let m = flag_mask(flag);
    let o = flag_mask(other);
    assert(m != 0);
    assert(((bits | m) & m != 0) && ((bits & !m) & m == 0)) by (bit_vector)
        requires m != 0;
    if other != flag {
        assert(o != m);
        assert(o == 1 || o == 2 || o == 4 || o == 8 || o == 16 || o == 32 || o == 64 || o == 128);
        assert(m == 1 || m == 2 || m == 4 || m == 8 || m == 16 || m == 32 || m == 64 || m == 128);
        assert(o & m == 0) by (bit_vector)
            requires
                o != m,
                o == 1 || o == 2 || o == 4 || o == 8 || o == 16 || o == 32 || o == 64 || o == 128,
                m == 1 || m == 2 || m == 4 || m == 8 || m == 16 || m == 32 || m == 64 || m == 128;
        assert(((bits | m) & o != 0) == (bits & o != 0) && ((bits & !m) & o != 0) == (bits & o != 0))
            by (bit_vector)
            requires o & m == 0;
    }
}

} // verus!
