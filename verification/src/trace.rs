//! The one-line trace of the CPU's next instruction, in the layout of the
//! well-known `nestest` log.
use vstd::prelude::*;
use crate::cpu::Mos6502;
use crate::memory::Memory;
use crate::model::{
    CpuModel, absolute_address, absolute_address_ok, indirect_target, indirect_target_ok, read, read16,
    read16_ok, read_ok, wrapping_add_u8,
};
use crate::ops::{AddressingMode, Mnemonic, OpCode, lookup_opcode, mnemonic_text, opcode_table};

verus! {

// ---- text ----

/// The upper-case hexadecimal digit of `d` (below 16).
pub open spec fn hex_digit(d: nat) -> char {
    if d == 0 { '0' } else if d == 1 { '1' } else if d == 2 { '2' } else if d == 3 { '3' }
    else if d == 4 { '4' } else if d == 5 { '5' } else if d == 6 { '6' } else if d == 7 { '7' }
    else if d == 8 { '8' } else if d == 9 { '9' } else if d == 10 { 'A' } else if d == 11 { 'B' }
    else if d == 12 { 'C' } else if d == 13 { 'D' } else if d == 14 { 'E' } else { 'F' }
}

/// The number of hexadecimal digits that `v` needs.
pub open spec fn hex_len(v: nat) -> nat
    decreases v,
{
    if v < 16 { 1 } else { 1 + hex_len(v / 16) }
}

/// The last `n` hexadecimal digits of `v`.
pub open spec fn hex_fixed(v: nat, n: nat) -> Seq<char>
    decreases n,
{
    if n == 0 { seq![] } else { hex_fixed(v / 16, (n - 1) as nat).push(hex_digit(v % 16)) }
}

/// `v` in upper-case hexadecimal, with leading zeros up to `width` digits.
#[verifier::opaque]
pub open spec fn hex(v: nat, width: nat) -> Seq<char> {
    hex_fixed(v, if hex_len(v) < width { width } else { hex_len(v) })
}

/// The eight bits of `b` as `0` and `1`, the highest first.
#[verifier::opaque]
pub open spec fn bin8(b: u8) -> Seq<char> {
    Seq::new(8, |i: int| if (b >> ((7 - i) as u8)) & 1u8 == 1u8 { '1' } else { '0' })
}

pub open spec fn spaces(n: nat) -> Seq<char> {
    Seq::new(n, |i: int| ' ')
}

/// `t` followed by spaces up to `width` characters.
#[verifier::opaque]
pub open spec fn pad_right(t: Seq<char>, width: nat) -> Seq<char> {
    if t.len() < width { t + spaces((width - t.len()) as nat) } else { t }
}

/// `t` preceded by spaces up to `width` characters.
#[verifier::opaque]
pub open spec fn pad_left(t: Seq<char>, width: nat) -> Seq<char> {
    if t.len() < width { spaces((width - t.len()) as nat) + t } else { t }
}

fn hex_digit_char(d: usize) -> (c: char)
    requires
        d < 16,
    ensures
        c == hex_digit(d as nat),
{
    if d == 0 { '0' } else if d == 1 { '1' } else if d == 2 { '2' } else if d == 3 { '3' }
    else if d == 4 { '4' } else if d == 5 { '5' } else if d == 6 { '6' } else if d == 7 { '7' }
    else if d == 8 { '8' } else if d == 9 { '9' } else if d == 10 { 'A' } else if d == 11 { 'B' }
    else if d == 12 { 'C' } else if d == 13 { 'D' } else if d == 14 { 'E' } else { 'F' }
}

/// Appends `text`.
pub fn push_text(out: &mut Vec<char>, text: &[char])
    ensures
        final(out)@ == old(out)@ + text@,
{
    let mut i: usize = 0;
    while i < text.len()
        invariant
            0 <= i <= text@.len(),
            out@ == old(out)@ + text@.subrange(0, i as int),
        decreases text@.len() - i,
    {
        out.push(text[i]);
        i = i + 1;
        assert(text@.subrange(0, i as int) =~= text@.subrange(0, (i - 1) as int).push(text@[i - 1]));
    }
    assert(text@.subrange(0, i as int) =~= text@);
}

/// Appends `v` in hexadecimal with at least `width` digits.
pub fn push_hex(out: &mut Vec<char>, v: usize, width: usize)
    requires
        width <= 16,
    ensures
        final(out)@ == old(out)@ + hex(v as nat, width as nat),
{
    reveal(hex);
    proof {
        lemma_hex_len_bound(v as nat);
    }
    let mut n: usize = 1;
    let mut t: usize = v;
    while t >= 16
        invariant
            hex_len(v as nat) == n + hex_len(t as nat) - 1,
            1 <= n,
            hex_len(v as nat) <= (if v == 0 { 1 } else { v as nat }),
            hex_len(t as nat) >= 1,
        decreases t,
    {
        assert(hex_len(t as nat) == 1 + hex_len(t as nat / 16));
        t = t / 16;
        n = n + 1;
    }
    if n < width {
        n = width;
    }
    let ghost total = n as nat;
    let mut digits: Vec<char> = Vec::new();
    let mut t: usize = v;
    let mut k: usize = 0;
    while k < n
        invariant
            0 <= k <= n,
            n == total,
            hex_fixed(v as nat, total) =~= hex_fixed(t as nat, (total - k) as nat) + digits@.reverse(),
        decreases n - k,
    {
        proof {
            assert(hex_fixed(t as nat, (total - k) as nat) == hex_fixed(t as nat / 16, (total - k - 1) as nat).push(
                hex_digit(t as nat % 16),
            ));
            assert(digits@.push(hex_digit(t as nat % 16)).reverse() =~= seq![hex_digit(t as nat % 16)] + digits@.reverse());
        }
        digits.push(hex_digit_char(t % 16));
        t = t / 16;
        k = k + 1;
    }
    assert(hex_fixed(t as nat, 0) =~= seq![]);
    let mut j: usize = digits.len();
    while j > 0
        invariant
            0 <= j <= digits@.len(),
            out@ == old(out)@ + digits@.reverse().subrange(0, (digits@.len() - j) as int),
        decreases j,
    {
        j = j - 1;
        out.push(digits[j]);
        assert(digits@.reverse().subrange(0, (digits@.len() - j) as int) =~= digits@.reverse().subrange(
            0,
            (digits@.len() - j - 1) as int,
        ).push(digits@[j as int]));
    }
    assert(digits@.reverse().subrange(0, digits@.len() as int) =~= digits@.reverse());
}

/// A number needs at most as many hexadecimal digits as its value (or one).
proof fn lemma_hex_len_bound(v: nat)
    ensures
        1 <= hex_len(v) <= (if v == 0 { 1 } else { v }),
    decreases v,
{
    if v >= 16 {
        lemma_hex_len_bound(v / 16);
    }
}

/// Appends the eight bits of `b`, the highest first.
pub fn push_bin8(out: &mut Vec<char>, b: u8)
    ensures
        final(out)@ == old(out)@ + bin8(b),
{
    reveal(bin8);
    let mut i: u8 = 0;
    while i < 8
        invariant
            0 <= i <= 8,
            out@ == old(out)@ + bin8(b).subrange(0, i as int),
        decreases 8 - i,
    {
        proof {
            reveal(bin8);
        }
        let c = if (b >> (7 - i)) & 1 == 1 { '1' } else { '0' };
        out.push(c);
        i = i + 1;
        assert(bin8(b).subrange(0, i as int) =~= bin8(b).subrange(0, (i - 1) as int).push(c));
    }
    assert(bin8(b).subrange(0, 8) =~= bin8(b)) by {
        reveal(bin8);
    }
}

/// Appends `piece` followed by spaces up to `width` characters.
pub fn push_padded_right(out: &mut Vec<char>, piece: &Vec<char>, width: usize)
    ensures
        final(out)@ == old(out)@ + pad_right(piece@, width as nat),
{
    reveal(pad_right);
    push_text(out, piece.as_slice());
    let mut k: usize = piece.len();
    while k < width
        invariant
            piece@.len() <= k <= (if piece@.len() < width { width as int } else { piece@.len() as int }),
            out@ == old(out)@ + piece@ + spaces((k - piece@.len()) as nat),
        decreases width - k,
    {
        out.push(' ');
        k = k + 1;
        assert(spaces((k - piece@.len()) as nat) =~= spaces((k - 1 - piece@.len()) as nat).push(' '));
    }
    assert(piece@.len() < width ==> k == width);
    assert(spaces(0) =~= seq![]);
}

/// Appends spaces up to `width` characters, then `piece`.
pub fn push_padded_left(out: &mut Vec<char>, piece: &Vec<char>, width: usize)
    ensures
        final(out)@ == old(out)@ + pad_left(piece@, width as nat),
{
    reveal(pad_left);
    let mut k: usize = piece.len();
    while k < width
        invariant
            piece@.len() <= k <= (if piece@.len() < width { width as int } else { piece@.len() as int }),
            out@ == old(out)@ + spaces((k - piece@.len()) as nat),
        decreases width - k,
    {
        out.push(' ');
        k = k + 1;
        assert(spaces((k - piece@.len()) as nat) =~= spaces((k - 1 - piece@.len()) as nat).push(' '));
    }
    assert(spaces(0) =~= seq![]);
    push_text(out, piece.as_slice());
}

/// Appends the assembler name of `m`.
pub fn push_mnemonic(out: &mut Vec<char>, m: Mnemonic)
    ensures
        final(out)@ == old(out)@ + mnemonic_text(m),
{
    reveal(mnemonic_text);
    match m {
        Mnemonic::Adc => push_text(out, &['A', 'D', 'C']),
        Mnemonic::And => push_text(out, &['A', 'N', 'D']),
        Mnemonic::Asl => push_text(out, &['A', 'S', 'L']),
        Mnemonic::Bcc => push_text(out, &['B', 'C', 'C']),
        Mnemonic::Bcs => push_text(out, &['B', 'C', 'S']),
        Mnemonic::Beq => push_text(out, &['B', 'E', 'Q']),
        Mnemonic::Bit => push_text(out, &['B', 'I', 'T']),
        Mnemonic::Bmi => push_text(out, &['B', 'M', 'I']),
        Mnemonic::Bne => push_text(out, &['B', 'N', 'E']),
        Mnemonic::Bpl => push_text(out, &['B', 'P', 'L']),
        Mnemonic::Brk => push_text(out, &['B', 'R', 'K']),
        Mnemonic::Bvc => push_text(out, &['B', 'V', 'C']),
        Mnemonic::Bvs => push_text(out, &['B', 'V', 'S']),
        Mnemonic::Clc => push_text(out, &['C', 'L', 'C']),
        Mnemonic::Cld => push_text(out, &['C', 'L', 'D']),
        Mnemonic::Cli => push_text(out, &['C', 'L', 'I']),
        Mnemonic::Clv => push_text(out, &['C', 'L', 'V']),
        Mnemonic::Cmp => push_text(out, &['C', 'M', 'P']),
        Mnemonic::Cpx => push_text(out, &['C', 'P', 'X']),
        Mnemonic::Cpy => push_text(out, &['C', 'P', 'Y']),
        Mnemonic::Dec => push_text(out, &['D', 'E', 'C']),
        Mnemonic::Dex => push_text(out, &['D', 'E', 'X']),
        Mnemonic::Dey => push_text(out, &['D', 'E', 'Y']),
        Mnemonic::Eor => push_text(out, &['E', 'O', 'R']),
        Mnemonic::Inc => push_text(out, &['I', 'N', 'C']),
        Mnemonic::Inx => push_text(out, &['I', 'N', 'X']),
        Mnemonic::Iny => push_text(out, &['I', 'N', 'Y']),
        Mnemonic::Jmp => push_text(out, &['J', 'M', 'P']),
        Mnemonic::Jsr => push_text(out, &['J', 'S', 'R']),
        Mnemonic::Lda => push_text(out, &['L', 'D', 'A']),
        Mnemonic::Ldx => push_text(out, &['L', 'D', 'X']),
        Mnemonic::Ldy => push_text(out, &['L', 'D', 'Y']),
        Mnemonic::Lsr => push_text(out, &['L', 'S', 'R']),
        Mnemonic::Nop => push_text(out, &['N', 'O', 'P']),
        Mnemonic::Ora => push_text(out, &['O', 'R', 'A']),
        Mnemonic::Pha => push_text(out, &['P', 'H', 'A']),
        Mnemonic::Php => push_text(out, &['P', 'H', 'P']),
        Mnemonic::Pla => push_text(out, &['P', 'L', 'A']),
        Mnemonic::Plp => push_text(out, &['P', 'L', 'P']),
        Mnemonic::Rol => push_text(out, &['R', 'O', 'L']),
        Mnemonic::Ror => push_text(out, &['R', 'O', 'R']),
        Mnemonic::Rti => push_text(out, &['R', 'T', 'I']),
        Mnemonic::Rts => push_text(out, &['R', 'T', 'S']),
        Mnemonic::Sbc => push_text(out, &['S', 'B', 'C']),
        Mnemonic::Sec => push_text(out, &['S', 'E', 'C']),
        Mnemonic::Sed => push_text(out, &['S', 'E', 'D']),
        Mnemonic::Sei => push_text(out, &['S', 'E', 'I']),
        Mnemonic::Sta => push_text(out, &['S', 'T', 'A']),
        Mnemonic::Stx => push_text(out, &['S', 'T', 'X']),
        Mnemonic::Sty => push_text(out, &['S', 'T', 'Y']),
        Mnemonic::Tax => push_text(out, &['T', 'A', 'X']),
        Mnemonic::Tay => push_text(out, &['T', 'A', 'Y']),
        Mnemonic::Tsx => push_text(out, &['T', 'S', 'X']),
        Mnemonic::Txa => push_text(out, &['T', 'X', 'A']),
        Mnemonic::Txs => push_text(out, &['T', 'X', 'S']),
        Mnemonic::Tya => push_text(out, &['T', 'Y', 'A']),
        Mnemonic::Dcp => push_text(out, &['*', 'D', 'C', 'P']),
        Mnemonic::Rla => push_text(out, &['*', 'R', 'L', 'A']),
        Mnemonic::Slo => push_text(out, &['*', 'S', 'L', 'O']),
        Mnemonic::Sre => push_text(out, &['*', 'S', 'R', 'E']),
        Mnemonic::IllegalNop => push_text(out, &['*', 'N', 'O', 'P']),
        Mnemonic::Axs => push_text(out, &['*', 'A', 'X', 'S']),
        Mnemonic::Arr => push_text(out, &['*', 'A', 'R', 'R']),
        Mnemonic::IllegalSbc => push_text(out, &['*', 'S', 'B', 'C']),
        Mnemonic::Anc => push_text(out, &['*', 'A', 'N', 'C']),
        Mnemonic::Alr => push_text(out, &['*', 'A', 'L', 'R']),
        Mnemonic::Rra => push_text(out, &['*', 'R', 'R', 'A']),
        Mnemonic::Isc => push_text(out, &['*', 'I', 'S', 'C']),
        Mnemonic::Lax => push_text(out, &['*', 'L', 'A', 'X']),
        Mnemonic::Sax => push_text(out, &['*', 'S', 'A', 'X']),
        Mnemonic::Lxa => push_text(out, &['*', 'L', 'X', 'A']),
        Mnemonic::Xaa => push_text(out, &['*', 'X', 'A', 'A']),
        Mnemonic::Las => push_text(out, &['*', 'L', 'A', 'S']),
        Mnemonic::Tas => push_text(out, &['*', 'T', 'A', 'S']),
        Mnemonic::Ahx => push_text(out, &['*', 'A', 'H', 'X']),
        Mnemonic::Shx => push_text(out, &['*', 'S', 'H', 'X']),
        Mnemonic::Shy => push_text(out, &['*', 'S', 'H', 'Y']),
    }
}

// ---- the trace line ----

/// Something that can describe itself in one line of text.
pub trait Trace: Sized {
    /// Whether producing the line returns normally.
    spec fn can_trace(&self) -> bool;

    /// The line.
    spec fn trace_text(&self) -> Seq<char>;

    fn trace(&self) -> (r: String)
        requires
            self.can_trace(),
        ensures
            r@ == self.trace_text(),
    ;
}

/// The instruction at the program counter, from the opcode table.
pub open spec fn traced_op<M: Memory>(s: CpuModel<M::Model>) -> OpCode {
    opcode_table(read::<M>(s, s.program_counter))->Some_0
}

/// The effective address of the traced instruction's operand and the byte
/// stored there; `(0, 0)` for immediate operands and for instructions that
/// handle their operand themselves.
pub open spec fn traced_memory<M: Memory>(s: CpuModel<M::Model>, op: OpCode) -> (u16, u8) {
    if op.mode == AddressingMode::Immediate || op.mode == AddressingMode::NoneAddressing {
        (0, 0)
    } else {
        let addr = absolute_address::<M>(s, op.mode, (s.program_counter + 1) as u16).0;
        (addr, read::<M>(s, addr))
    }
}

/// Where a branch at `pc` with offset byte `offset` lands, computed in `usize`.
pub open spec fn branch_target(pc: u16, offset: u8) -> usize {
    let base = pc + 2;
    let off = (offset as i8) as usize;
    if base + off > usize::MAX {
        (base + off - usize::MAX - 1) as usize
    } else {
        (base + off) as usize
    }
}

/// `#$nn`: an immediate operand.
pub open spec fn text_immediate(value: nat) -> Seq<char> {
    seq!['#', '$'] + hex(value, 2)
}

/// `$addr = nn`: a direct address and the byte there.
pub open spec fn text_direct(addr: nat, width: nat, stored: nat) -> Seq<char> {
    seq!['$'] + hex(addr, width) + seq![' ', '=', ' '] + hex(stored, 2)
}

/// `$base,R @ addr = nn`: an indexed address, where it lands and the byte there.
pub open spec fn text_indexed(base: nat, width: nat, reg: char, addr: nat, stored: nat) -> Seq<char> {
    seq!['$'] + hex(base, width) + seq![',', reg, ' ', '@', ' '] + hex(addr, width) + seq![' ', '=', ' '] + hex(stored, 2)
}

/// `($nn,X) @ pp = addr = vv`.
pub open spec fn text_indirect_x(operand: nat, ptr: nat, addr: nat, value: nat) -> Seq<char> {
    seq!['(', '$'] + hex(operand, 2) + seq![',', 'X', ')', ' ', '@', ' '] + hex(ptr, 2) + seq![' ', '=', ' '] + hex(
        addr,
        4,
    ) + seq![' ', '=', ' '] + hex(value, 2)
}

/// `($nn),Y = base @ addr = vv`.
pub open spec fn text_indirect_y(operand: nat, base: nat, addr: nat, value: nat) -> Seq<char> {
    seq!['(', '$'] + hex(operand, 2) + seq![')', ',', 'Y', ' ', '=', ' '] + hex(base, 4) + seq![' ', '@', ' '] + hex(
        addr,
        4,
    ) + seq![' ', '=', ' '] + hex(value, 2)
}

/// `$addr`: a jump or branch target.
pub open spec fn text_target(addr: nat) -> Seq<char> {
    seq!['$'] + hex(addr, 4)
}

/// `($addr) = target`: an indirect jump.
pub open spec fn text_jump_indirect(addr: nat, target: nat) -> Seq<char> {
    seq!['(', '$'] + hex(addr, 4) + seq![')', ' ', '=', ' '] + hex(target, 4)
}

/// The operand as the trace shows it.
pub open spec fn traced_operand<M: Memory>(s: CpuModel<M::Model>, op: OpCode) -> Seq<char> {
    let pc = s.program_counter;
    let mem_addr = traced_memory::<M>(s, op).0 as nat;
    let stored = traced_memory::<M>(s, op).1 as nat;
    if op.len == 1 {
        if op.code == 0x0a || op.code == 0x4a || op.code == 0x2a || op.code == 0x6a {
            seq!['A']
        } else {
            seq![]
        }
    } else if op.len == 2 {
        let address = read::<M>(s, (pc + 1) as u16);
        match op.mode {
            AddressingMode::Immediate => text_immediate(address as nat),
            AddressingMode::ZeroPage => text_direct(mem_addr, 2, stored),
            AddressingMode::ZeroPageX => text_indexed(address as nat, 2, 'X', mem_addr, stored),
            AddressingMode::ZeroPageY => text_indexed(address as nat, 2, 'Y', mem_addr, stored),
            AddressingMode::IndirectX => {
                let ax = wrapping_add_u8(address, s.index_x);
                let ptr = read16::<M>(s, ax as u16);
                text_indirect_x(address as nat, ax as nat, ptr as nat, read::<M>(s, ptr) as nat)
            },
            AddressingMode::IndirectY => text_indirect_y(
                address as nat,
                ((mem_addr - s.index_y) % 65536) as nat,
                mem_addr,
                stored,
            ),
            _ => text_target(branch_target(pc, address) as nat),
        }
    } else if op.len == 3 {
        let address = read16::<M>(s, (pc + 1) as u16);
        match op.mode {
            AddressingMode::Absolute => text_direct(mem_addr, 4, stored),
            AddressingMode::AbsoluteX => text_indexed(address as nat, 4, 'X', mem_addr, stored),
            AddressingMode::AbsoluteY => text_indexed(address as nat, 4, 'Y', mem_addr, stored),
            _ => if op.code == 0x6c {
                text_jump_indirect(address as nat, indirect_target::<M>(s, address) as nat)
            } else {
                text_target(address as nat)
            },
        }
    } else {
        seq![]
    }
}

/// The modes that the trace knows for an instruction of `len` bytes; the
/// others make it panic.
pub open spec fn traced_mode_known(len: u8, mode: AddressingMode) -> bool {
    if len == 2 {
        match mode {
            AddressingMode::Immediate | AddressingMode::ZeroPage | AddressingMode::ZeroPageX
            | AddressingMode::ZeroPageY | AddressingMode::IndirectX | AddressingMode::IndirectY
            | AddressingMode::NoneAddressing => true,
            _ => false,
        }
    } else if len == 3 {
        match mode {
            AddressingMode::Absolute | AddressingMode::AbsoluteX | AddressingMode::AbsoluteY
            | AddressingMode::NoneAddressing => true,
            _ => false,
        }
    } else {
        true
    }
}

/// Whether tracing returns normally: the byte at the program counter is an
/// opcode, and every read the trace makes is allowed without an address
/// running past $FFFF.
pub open spec fn trace_ok<M: Memory>(s: CpuModel<M::Model>) -> bool {
    let pc = s.program_counter;
    let op = traced_op::<M>(s);
    &&& read_ok::<M>(s, pc)
    &&& opcode_table(read::<M>(s, pc)) is Some
    &&& (op.mode == AddressingMode::Immediate || op.mode == AddressingMode::NoneAddressing || (pc < 0xFFFF
        && absolute_address_ok::<M>(s, op.mode, (pc + 1) as u16) && read_ok::<M>(s, traced_memory::<M>(s, op).0)))
    &&& traced_mode_known(op.len, op.mode)
    &&& op.len == 2 ==> pc < 0xFFFF && read_ok::<M>(s, (pc + 1) as u16) && (op.mode == AddressingMode::IndirectX ==> {
        let ax = wrapping_add_u8(read::<M>(s, (pc + 1) as u16), s.index_x);
        read16_ok::<M>(s, ax as u16) && read_ok::<M>(s, read16::<M>(s, ax as u16))
    })
    &&& op.len == 3 ==> pc < 0xFFFE && read_ok::<M>(s, (pc + 1) as u16) && read_ok::<M>(s, (pc + 2) as u16) && (
    op.mode == AddressingMode::NoneAddressing && op.code == 0x6c ==> indirect_target_ok::<M>(
        s,
        read16::<M>(s, (pc + 1) as u16),
    ))
    &&& read_ok::<M>(s, 2)
    &&& read_ok::<M>(s, 3)
}

/// The instruction's bytes in hexadecimal, separated by spaces.
pub open spec fn traced_bytes<M: Memory>(s: CpuModel<M::Model>, op: OpCode) -> Seq<char> {
    let pc = s.program_counter;
    let first = hex(op.code as nat, 2);
    if op.len == 2 {
        first + seq![' '] + hex(read::<M>(s, (pc + 1) as u16) as nat, 2)
    } else if op.len == 3 {
        first + seq![' '] + hex(read::<M>(s, (pc + 1) as u16) as nat, 2) + seq![' '] + hex(
            read::<M>(s, (pc + 2) as u16) as nat,
            2,
        )
    } else {
        first
    }
}

/// The disassembly: address, bytes, mnemonic and operand.
pub open spec fn traced_assembly<M: Memory>(s: CpuModel<M::Model>, op: OpCode) -> Seq<char> {
    let prefix = hex(s.program_counter as nat, 4) + seq![' ', ' '] + pad_right(traced_bytes::<M>(s, op), 8) + seq![' ']
        + pad_left(mnemonic_text(op.mnemonic), 4);
    let operand = traced_operand::<M>(s, op);
    if operand.len() == 0 { prefix } else { prefix + seq![' '] + operand }
}

/// The trace line: the disassembly of the next instruction, then the
/// registers and the bytes at $02 and $03.
pub open spec fn trace_line<M: Memory>(s: CpuModel<M::Model>) -> Seq<char> {
    pad_right(traced_assembly::<M>(s, traced_op::<M>(s)), 47) + seq![' ', 'A', ':'] + hex(s.accumulator as nat, 2)
        + seq![' ', 'X', ':'] + hex(s.index_x as nat, 2) + seq![' ', 'Y', ':'] + hex(s.index_y as nat, 2)
        + seq![' ', 'P', ':'] + bin8(s.status) + seq![' ', 'S', 'P', ':'] + hex(s.stack_pointer as nat, 2)
        + seq![' ', '|', ' ', '0', '2', 'H', ':', ' '] + hex(read::<M>(s, 2) as nat, 2)
        + seq![' ', '0', '3', 'H', ':', ' '] + hex(read::<M>(s, 3) as nat, 2)
}

/// `String::push` from std: appends one character to the string.
#[verifier::external_body]
fn push_char(s: &mut String, c: char)
    ensures
        final(s)@ == old(s)@.push(c),
{
    s.push(c);
}

/// The string of the characters in `chars`.
pub(crate) fn string_of_chars(chars: &Vec<char>) -> (r: String)
    ensures
        r@ == chars@,
{
    let mut r = String::new();
    let mut i: usize = 0;
    while i < chars.len()
        invariant
            0 <= i <= chars@.len(),
            r@ == chars@.subrange(0, i as int),
        decreases chars@.len() - i,
    {
        push_char(&mut r, chars[i]);
        i = i + 1;
        assert(chars@.subrange(0, i as int) =~= chars@.subrange(0, (i - 1) as int).push(chars@[i - 1]));
    }
    assert(chars@.subrange(0, i as int) =~= chars@);
    r
}

fn push_text_immediate(value: u8) -> (r: Vec<char>)
    ensures
        r@ == text_immediate(value as nat),
{
    let mut r: Vec<char> = Vec::new();
    push_text(&mut r, &['#', '$']);
    push_hex(&mut r, value as usize, 2);
    assert(r@ =~= text_immediate(value as nat));
    r
}

fn push_text_direct(addr: u16, width: usize, stored: u8) -> (r: Vec<char>)
    requires
        width <= 16,
    ensures
        r@ == text_direct(addr as nat, width as nat, stored as nat),
{
    let mut r: Vec<char> = Vec::new();
    r.push('$');
    push_hex(&mut r, addr as usize, width);
    push_text(&mut r, &[' ', '=', ' ']);
    push_hex(&mut r, stored as usize, 2);
    assert(r@ =~= text_direct(addr as nat, width as nat, stored as nat));
    r
}

fn push_text_indexed(base: u16, width: usize, reg: char, addr: u16, stored: u8) -> (r: Vec<char>)
    requires
        width <= 16,
    ensures
        r@ == text_indexed(base as nat, width as nat, reg, addr as nat, stored as nat),
{
    let mut r: Vec<char> = Vec::new();
    r.push('$');
    push_hex(&mut r, base as usize, width);
    push_text(&mut r, &[',', reg, ' ', '@', ' ']);
    push_hex(&mut r, addr as usize, width);
    push_text(&mut r, &[' ', '=', ' ']);
    push_hex(&mut r, stored as usize, 2);
    assert(r@ =~= text_indexed(base as nat, width as nat, reg, addr as nat, stored as nat));
    r
}

fn push_text_indirect_x(operand: u8, ptr: u8, addr: u16, value: u8) -> (r: Vec<char>)
    ensures
        r@ == text_indirect_x(operand as nat, ptr as nat, addr as nat, value as nat),
{
    let mut r: Vec<char> = Vec::new();
    push_text(&mut r, &['(', '$']);
    push_hex(&mut r, operand as usize, 2);
    push_text(&mut r, &[',', 'X', ')', ' ', '@', ' ']);
    push_hex(&mut r, ptr as usize, 2);
    push_text(&mut r, &[' ', '=', ' ']);
    push_hex(&mut r, addr as usize, 4);
    push_text(&mut r, &[' ', '=', ' ']);
    push_hex(&mut r, value as usize, 2);
    assert(r@ =~= text_indirect_x(operand as nat, ptr as nat, addr as nat, value as nat));
    r
}

fn push_text_indirect_y(operand: u8, base: u16, addr: u16, value: u8) -> (r: Vec<char>)
    ensures
        r@ == text_indirect_y(operand as nat, base as nat, addr as nat, value as nat),
{
    let mut r: Vec<char> = Vec::new();
    push_text(&mut r, &['(', '$']);
    push_hex(&mut r, operand as usize, 2);
    push_text(&mut r, &[')', ',', 'Y', ' ', '=', ' ']);
    push_hex(&mut r, base as usize, 4);
    push_text(&mut r, &[' ', '@', ' ']);
    push_hex(&mut r, addr as usize, 4);
    push_text(&mut r, &[' ', '=', ' ']);
    push_hex(&mut r, value as usize, 2);
    assert(r@ =~= text_indirect_y(operand as nat, base as nat, addr as nat, value as nat));
    r
}

fn push_text_target(addr: usize) -> (r: Vec<char>)
    ensures
        r@ == text_target(addr as nat),
{
    let mut r: Vec<char> = Vec::new();
    r.push('$');
    push_hex(&mut r, addr, 4);
    assert(r@ =~= text_target(addr as nat));
    r
}

fn push_text_jump_indirect(addr: u16, target: u16) -> (r: Vec<char>)
    ensures
        r@ == text_jump_indirect(addr as nat, target as nat),
{
    let mut r: Vec<char> = Vec::new();
    push_text(&mut r, &['(', '$']);
    push_hex(&mut r, addr as usize, 4);
    push_text(&mut r, &[')', ' ', '=', ' ']);
    push_hex(&mut r, target as usize, 4);
    assert(r@ =~= text_jump_indirect(addr as nat, target as nat));
    r
}

impl<M: Memory> Mos6502<M> {
    /// The operand of `op`, the instruction at the program counter, as the
    /// trace shows it; `mem_addr` and `stored` are its effective address and
    /// the byte there.
    #[verifier::rlimit(40)]
    fn trace_operand(&self, op: &OpCode, mem_addr: u16, stored: u8, bytes: &mut Vec<char>) -> (r: Vec<char>)
        requires
            trace_ok::<M>(self.state()),
            *op == traced_op::<M>(self.state()),
            (mem_addr, stored) == traced_memory::<M>(self.state(), *op),
            old(bytes)@ == hex(op.code as nat, 2),
        ensures
            r@ == traced_operand::<M>(self.state(), *op),
            final(bytes)@ == traced_bytes::<M>(self.state(), *op),
    {
        let begin = self.program_counter;
        let mut tmp: Vec<char> = Vec::new();
        if op.len == 1 {
            if op.code == 0x0a || op.code == 0x4a || op.code == 0x2a || op.code == 0x6a {
                tmp.push('A');
            }
        } else if op.len == 2 {
            let address = self.read(begin + 1);
            bytes.push(' ');
            push_hex(bytes, address as usize, 2);
            tmp = match op.mode {
                AddressingMode::Immediate => push_text_immediate(address),
                AddressingMode::ZeroPage => push_text_direct(mem_addr, 2, stored),
                AddressingMode::ZeroPageX => push_text_indexed(address as u16, 2, 'X', mem_addr, stored),
                AddressingMode::ZeroPageY => push_text_indexed(address as u16, 2, 'Y', mem_addr, stored),
                AddressingMode::IndirectX => {
                    let ax = address.wrapping_add(self.index_x);
                    let ptr = self.read16(ax as u16);
                    push_text_indirect_x(address, ax, ptr, self.read(ptr))
                },
                AddressingMode::IndirectY => {
                    push_text_indirect_y(address, mem_addr.wrapping_sub(self.index_y as u16), mem_addr, stored)
                },
                _ => {
                    let address: usize = (begin as usize + 2).wrapping_add((address as i8) as usize);
                    push_text_target(address)
                },
            };
        } else if op.len == 3 {
            let address_lo = self.read(begin + 1);
            let address_hi = self.read(begin + 2);
            bytes.push(' ');
            push_hex(bytes, address_lo as usize, 2);
            bytes.push(' ');
            push_hex(bytes, address_hi as usize, 2);

            let address = self.read16(begin + 1);
            tmp = match op.mode {
                AddressingMode::Absolute => push_text_direct(mem_addr, 4, stored),
                AddressingMode::AbsoluteX => push_text_indexed(address, 4, 'X', mem_addr, stored),
                AddressingMode::AbsoluteY => push_text_indexed(address, 4, 'Y', mem_addr, stored),
                _ => {
                    if op.code == 0x6c {
                        let jmp_addr = self.read16(address);
                        push_text_jump_indirect(address, jmp_addr)
                    } else {
                        push_text_target(address as usize)
                    }
                },
            };
        }
        tmp
    }
}

impl<M: Memory> Trace for Mos6502<M> {
    open spec fn can_trace(&self) -> bool {
        trace_ok::<M>(self.state())
    }

    open spec fn trace_text(&self) -> Seq<char> {
        trace_line::<M>(self.state())
    }

    fn trace(&self) -> (r: String) {
        let begin = self.program_counter;
        let code = self.read(begin);
        let op = lookup_opcode(code).unwrap();

        let (mem_addr, stored_value) = match op.mode {
            AddressingMode::Immediate | AddressingMode::NoneAddressing => (0u16, 0u8),
            _ => {
                let (addr, _) = self.get_absolute_address(&op.mode, begin + 1);
                (addr, self.read(addr))
            },
        };

        proof {
            crate::ops::lemma_opcode_table_entries(code);
        }
        assert(op == traced_op::<M>(self.state()));
        let mut hex_dump: Vec<char> = Vec::new();
        push_hex(&mut hex_dump, code as usize, 2);
        assert(hex_dump@ =~= hex(op.code as nat, 2));
        let tmp = self.trace_operand(&op, mem_addr, stored_value, &mut hex_dump);

        let mut asm_str: Vec<char> = Vec::new();
        push_hex(&mut asm_str, begin as usize, 4);
        assert(asm_str@ =~= hex(begin as nat, 4));
        push_text(&mut asm_str, &[' ', ' ']);
        push_padded_right(&mut asm_str, &hex_dump, 8);
        asm_str.push(' ');
        let mut name: Vec<char> = Vec::new();
        push_mnemonic(&mut name, op.mnemonic);
        push_padded_left(&mut asm_str, &name, 4);
        if tmp.len() > 0 {
            asm_str.push(' ');
            push_text(&mut asm_str, tmp.as_slice());
        }

        assert(asm_str@ == traced_assembly::<M>(self.state(), op));
        let mut line: Vec<char> = Vec::new();
        push_padded_right(&mut line, &asm_str, 47);
        assert(line@ =~= pad_right(asm_str@, 47));
        push_text(&mut line, &[' ', 'A', ':']);
        push_hex(&mut line, self.accumulator as usize, 2);
        push_text(&mut line, &[' ', 'X', ':']);
        push_hex(&mut line, self.index_x as usize, 2);
        push_text(&mut line, &[' ', 'Y', ':']);
        push_hex(&mut line, self.index_y as usize, 2);
        push_text(&mut line, &[' ', 'P', ':']);
        push_bin8(&mut line, self.status.bits());
        push_text(&mut line, &[' ', 'S', 'P', ':']);
        push_hex(&mut line, self.stack_pointer as usize, 2);
        push_text(&mut line, &[' ', '|', ' ', '0', '2', 'H', ':', ' ']);
        push_hex(&mut line, self.read(0x0002) as usize, 2);
        push_text(&mut line, &[' ', '0', '3', 'H', ':', ' ']);
        push_hex(&mut line, self.read(0x0003) as usize, 2);
        string_of_chars(&line)
    }
}

} // verus!
