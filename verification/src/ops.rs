use vstd::prelude::*;

verus! {

/// Mode used to obtain the proper address for an operand during an instruction.
#[derive(Copy, Clone, Debug, PartialEq, Eq, Structural)]
pub enum AddressingMode {
    /// No operand provided (e.g. INX)
    Implied,
    /// Accumulator operand A 1 byte instruction (e.g. ROL)
    Accumulator,
    /// Operand is 1 byte and is at the current PC (e.g. LDA #$05 -> Load $05 to the accumulator)
    Immediate,
    /// Operand is the LSB of the EA, MSB is $00.
    ///
    /// $0000 - $00FF (LDA $56 -> EA $0056 => $1D : Load from $0056 to the accumulator)
    ZeroPage,
    /// Operand is added with no carry to the index register X.
    ///
    /// The result is the LSB of the EA. MSB is $00.
    ZeroPageX,
    /// Operand is added with no carry to the index register Y.
    ///
    /// The result is the LSB of the EA. MSB is $00.
    ZeroPageY,
    /// Operand is the 2 byte effective address.
    Absolute,
    /// Operand is added to the index register X. The result is the EA.
    AbsoluteX,
    /// Operand is added to the index register Y. The result is the EA.
    AbsoluteY,
    /// The operand contains the LSB of the EA.
    ///
    /// The address $aaaa + $0001 contains the MSB of the EA.
    ///
    /// 2 byte address (($aaaa + $0001) * $100) + $aaaa contains the EA.
    Indirect,
    /// The operand $aa is added with no carry to the index register.
    ///
    /// The resulting zero page address $aa + X contains the LSB of the EA.
    ///
    /// The address $aa + X + $01 contains the MSB of the EA.
    IndirectX,
    /// The operand $aa is added with no carry to the index register.
    ///
    /// The resulting zero page address $aa + Y contains the LSB of the EA.
    ///
    /// The address $aa + Y + $01 contains the MSB of the EA.
    IndirectY,
    /// The operand $aa is added to the LSB of the PC as an offset.
    Relative,
    /// The instruction reads no operand through the addressing logic: implied
    /// and accumulator forms, branches and jumps, which handle their operand
    /// themselves.
    NoneAddressing,
}

/// The instructions of the 6502, with the undocumented ones that NES
/// software uses.
#[derive(Copy, Clone, Debug, PartialEq, Eq, Structural)]
pub enum Mnemonic {
    Adc,
    And,
    Asl,
    Bcc,
    Bcs,
    Beq,
    Bit,
    Bmi,
    Bne,
    Bpl,
    Brk,
    Bvc,
    Bvs,
    Clc,
    Cld,
    Cli,
    Clv,
    Cmp,
    Cpx,
    Cpy,
    Dec,
    Dex,
    Dey,
    Eor,
    Inc,
    Inx,
    Iny,
    Jmp,
    Jsr,
    Lda,
    Ldx,
    Ldy,
    Lsr,
    Nop,
    Ora,
    Pha,
    Php,
    Pla,
    Plp,
    Rol,
    Ror,
    Rti,
    Rts,
    Sbc,
    Sec,
    Sed,
    Sei,
    Sta,
    Stx,
    Sty,
    Tax,
    Tay,
    Tsx,
    Txa,
    Txs,
    Tya,
    Dcp,
    Rla,
    Slo,
    Sre,
    IllegalNop,
    Axs,
    Arr,
    IllegalSbc,
    Anc,
    Alr,
    Rra,
    Isc,
    Lax,
    Sax,
    Lxa,
    Xaa,
    Las,
    Tas,
    Ahx,
    Shx,
    Shy,
}

impl Mnemonic {
    /// The assembler name; undocumented instructions carry a leading `*`.
    pub fn name(self) -> (r: &'static str)
        ensures
            r@ == mnemonic_text(self),
    {
        proof {
            reveal(mnemonic_text);
        }
        match self {
            Mnemonic::Adc => {
                proof {
                    reveal_strlit("ADC");
                }
                "ADC"
            },
            Mnemonic::And => {
                proof {
                    reveal_strlit("AND");
                }
                "AND"
            },
            Mnemonic::Asl => {
                proof {
                    reveal_strlit("ASL");
                }
                "ASL"
            },
            Mnemonic::Bcc => {
                proof {
                    reveal_strlit("BCC");
                }
                "BCC"
            },
            Mnemonic::Bcs => {
                proof {
                    reveal_strlit("BCS");
                }
                "BCS"
            },
            Mnemonic::Beq => {
                proof {
                    reveal_strlit("BEQ");
                }
                "BEQ"
            },
            Mnemonic::Bit => {
                proof {
                    reveal_strlit("BIT");
                }
                "BIT"
            },
            Mnemonic::Bmi => {
                proof {
                    reveal_strlit("BMI");
                }
                "BMI"
            },
            Mnemonic::Bne => {
                proof {
                    reveal_strlit("BNE");
                }
                "BNE"
            },
            Mnemonic::Bpl => {
                proof {
                    reveal_strlit("BPL");
                }
                "BPL"
            },
            Mnemonic::Brk => {
                proof {
                    reveal_strlit("BRK");
                }
                "BRK"
            },
            Mnemonic::Bvc => {
                proof {
                    reveal_strlit("BVC");
                }
                "BVC"
            },
            Mnemonic::Bvs => {
                proof {
                    reveal_strlit("BVS");
                }
                "BVS"
            },
            Mnemonic::Clc => {
                proof {
                    reveal_strlit("CLC");
                }
                "CLC"
            },
            Mnemonic::Cld => {
                proof {
                    reveal_strlit("CLD");
                }
                "CLD"
            },
            Mnemonic::Cli => {
                proof {
                    reveal_strlit("CLI");
                }
                "CLI"
            },
            Mnemonic::Clv => {
                proof {
                    reveal_strlit("CLV");
                }
                "CLV"
            },
            Mnemonic::Cmp => {
                proof {
                    reveal_strlit("CMP");
                }
                "CMP"
            },
            Mnemonic::Cpx => {
                proof {
                    reveal_strlit("CPX");
                }
                "CPX"
            },
            Mnemonic::Cpy => {
                proof {
                    reveal_strlit("CPY");
                }
                "CPY"
            },
            Mnemonic::Dec => {
                proof {
                    reveal_strlit("DEC");
                }
                "DEC"
            },
            Mnemonic::Dex => {
                proof {
                    reveal_strlit("DEX");
                }
                "DEX"
            },
            Mnemonic::Dey => {
                proof {
                    reveal_strlit("DEY");
                }
                "DEY"
            },
            Mnemonic::Eor => {
                proof {
                    reveal_strlit("EOR");
                }
                "EOR"
            },
            Mnemonic::Inc => {
                proof {
                    reveal_strlit("INC");
                }
                "INC"
            },
            Mnemonic::Inx => {
                proof {
                    reveal_strlit("INX");
                }
                "INX"
            },
            Mnemonic::Iny => {
                proof {
                    reveal_strlit("INY");
                }
                "INY"
            },
            Mnemonic::Jmp => {
                proof {
                    reveal_strlit("JMP");
                }
                "JMP"
            },
            Mnemonic::Jsr => {
                proof {
                    reveal_strlit("JSR");
                }
                "JSR"
            },
            Mnemonic::Lda => {
                proof {
                    reveal_strlit("LDA");
                }
                "LDA"
            },
            Mnemonic::Ldx => {
                proof {
                    reveal_strlit("LDX");
                }
                "LDX"
            },
            Mnemonic::Ldy => {
                proof {
                    reveal_strlit("LDY");
                }
                "LDY"
            },
            Mnemonic::Lsr => {
                proof {
                    reveal_strlit("LSR");
                }
                "LSR"
            },
            Mnemonic::Nop => {
                proof {
                    reveal_strlit("NOP");
                }
                "NOP"
            },
            Mnemonic::Ora => {
                proof {
                    reveal_strlit("ORA");
                }
                "ORA"
            },
            Mnemonic::Pha => {
                proof {
                    reveal_strlit("PHA");
                }
                "PHA"
            },
            Mnemonic::Php => {
                proof {
                    reveal_strlit("PHP");
                }
                "PHP"
            },
            Mnemonic::Pla => {
                proof {
                    reveal_strlit("PLA");
                }
                "PLA"
            },
            Mnemonic::Plp => {
                proof {
                    reveal_strlit("PLP");
                }
                "PLP"
            },
            Mnemonic::Rol => {
                proof {
                    reveal_strlit("ROL");
                }
                "ROL"
            },
            Mnemonic::Ror => {
                proof {
                    reveal_strlit("ROR");
                }
                "ROR"
            },
            Mnemonic::Rti => {
                proof {
                    reveal_strlit("RTI");
                }
                "RTI"
            },
            Mnemonic::Rts => {
                proof {
                    reveal_strlit("RTS");
                }
                "RTS"
            },
            Mnemonic::Sbc => {
                proof {
                    reveal_strlit("SBC");
                }
                "SBC"
            },
            Mnemonic::Sec => {
                proof {
                    reveal_strlit("SEC");
                }
                "SEC"
            },
            Mnemonic::Sed => {
                proof {
                    reveal_strlit("SED");
                }
                "SED"
            },
            Mnemonic::Sei => {
                proof {
                    reveal_strlit("SEI");
                }
                "SEI"
            },
            Mnemonic::Sta => {
                proof {
                    reveal_strlit("STA");
                }
                "STA"
            },
            Mnemonic::Stx => {
                proof {
                    reveal_strlit("STX");
                }
                "STX"
            },
            Mnemonic::Sty => {
                proof {
                    reveal_strlit("STY");
                }
                "STY"
            },
            Mnemonic::Tax => {
                proof {
                    reveal_strlit("TAX");
                }
                "TAX"
            },
            Mnemonic::Tay => {
                proof {
                    reveal_strlit("TAY");
                }
                "TAY"
            },
            Mnemonic::Tsx => {
                proof {
                    reveal_strlit("TSX");
                }
                "TSX"
            },
            Mnemonic::Txa => {
                proof {
                    reveal_strlit("TXA");
                }
                "TXA"
            },
            Mnemonic::Txs => {
                proof {
                    reveal_strlit("TXS");
                }
                "TXS"
            },
            Mnemonic::Tya => {
                proof {
                    reveal_strlit("TYA");
                }
                "TYA"
            },
            Mnemonic::Dcp => {
                proof {
                    reveal_strlit("*DCP");
                }
                "*DCP"
            },
            Mnemonic::Rla => {
                proof {
                    reveal_strlit("*RLA");
                }
                "*RLA"
            },
            Mnemonic::Slo => {
                proof {
                    reveal_strlit("*SLO");
                }
                "*SLO"
            },
            Mnemonic::Sre => {
                proof {
                    reveal_strlit("*SRE");
                }
                "*SRE"
            },
            Mnemonic::IllegalNop => {
                proof {
                    reveal_strlit("*NOP");
                }
                "*NOP"
            },
            Mnemonic::Axs => {
                proof {
                    reveal_strlit("*AXS");
                }
                "*AXS"
            },
            Mnemonic::Arr => {
                proof {
                    reveal_strlit("*ARR");
                }
                "*ARR"
            },
            Mnemonic::IllegalSbc => {
                proof {
                    reveal_strlit("*SBC");
                }
                "*SBC"
            },
            Mnemonic::Anc => {
                proof {
                    reveal_strlit("*ANC");
                }
                "*ANC"
            },
            Mnemonic::Alr => {
                proof {
                    reveal_strlit("*ALR");
                }
                "*ALR"
            },
            Mnemonic::Rra => {
                proof {
                    reveal_strlit("*RRA");
                }
                "*RRA"
            },
            Mnemonic::Isc => {
                proof {
                    reveal_strlit("*ISC");
                }
                "*ISC"
            },
            Mnemonic::Lax => {
                proof {
                    reveal_strlit("*LAX");
                }
                "*LAX"
            },
            Mnemonic::Sax => {
                proof {
                    reveal_strlit("*SAX");
                }
                "*SAX"
            },
            Mnemonic::Lxa => {
                proof {
                    reveal_strlit("*LXA");
                }
                "*LXA"
            },
            Mnemonic::Xaa => {
                proof {
                    reveal_strlit("*XAA");
                }
                "*XAA"
            },
            Mnemonic::Las => {
                proof {
                    reveal_strlit("*LAS");
                }
                "*LAS"
            },
            Mnemonic::Tas => {
                proof {
                    reveal_strlit("*TAS");
                }
                "*TAS"
            },
            Mnemonic::Ahx => {
                proof {
                    reveal_strlit("*AHX");
                }
                "*AHX"
            },
            Mnemonic::Shx => {
                proof {
                    reveal_strlit("*SHX");
                }
                "*SHX"
            },
            Mnemonic::Shy => {
                proof {
                    reveal_strlit("*SHY");
                }
                "*SHY"
            },
        }
    }
}

/// The assembler name of a mnemonic.
#[verifier::opaque]
pub open spec fn mnemonic_text(m: Mnemonic) -> Seq<char> {
    match m {
        Mnemonic::Adc => seq!['A', 'D', 'C'],
        Mnemonic::And => seq!['A', 'N', 'D'],
        Mnemonic::Asl => seq!['A', 'S', 'L'],
        Mnemonic::Bcc => seq!['B', 'C', 'C'],
        Mnemonic::Bcs => seq!['B', 'C', 'S'],
        Mnemonic::Beq => seq!['B', 'E', 'Q'],
        Mnemonic::Bit => seq!['B', 'I', 'T'],
        Mnemonic::Bmi => seq!['B', 'M', 'I'],
        Mnemonic::Bne => seq!['B', 'N', 'E'],
        Mnemonic::Bpl => seq!['B', 'P', 'L'],
        Mnemonic::Brk => seq!['B', 'R', 'K'],
        Mnemonic::Bvc => seq!['B', 'V', 'C'],
        Mnemonic::Bvs => seq!['B', 'V', 'S'],
        Mnemonic::Clc => seq!['C', 'L', 'C'],
        Mnemonic::Cld => seq!['C', 'L', 'D'],
        Mnemonic::Cli => seq!['C', 'L', 'I'],
        Mnemonic::Clv => seq!['C', 'L', 'V'],
        Mnemonic::Cmp => seq!['C', 'M', 'P'],
        Mnemonic::Cpx => seq!['C', 'P', 'X'],
        Mnemonic::Cpy => seq!['C', 'P', 'Y'],
        Mnemonic::Dec => seq!['D', 'E', 'C'],
        Mnemonic::Dex => seq!['D', 'E', 'X'],
        Mnemonic::Dey => seq!['D', 'E', 'Y'],
        Mnemonic::Eor => seq!['E', 'O', 'R'],
        Mnemonic::Inc => seq!['I', 'N', 'C'],
        Mnemonic::Inx => seq!['I', 'N', 'X'],
        Mnemonic::Iny => seq!['I', 'N', 'Y'],
        Mnemonic::Jmp => seq!['J', 'M', 'P'],
        Mnemonic::Jsr => seq!['J', 'S', 'R'],
        Mnemonic::Lda => seq!['L', 'D', 'A'],
        Mnemonic::Ldx => seq!['L', 'D', 'X'],
        Mnemonic::Ldy => seq!['L', 'D', 'Y'],
        Mnemonic::Lsr => seq!['L', 'S', 'R'],
        Mnemonic::Nop => seq!['N', 'O', 'P'],
        Mnemonic::Ora => seq!['O', 'R', 'A'],
        Mnemonic::Pha => seq!['P', 'H', 'A'],
        Mnemonic::Php => seq!['P', 'H', 'P'],
        Mnemonic::Pla => seq!['P', 'L', 'A'],
        Mnemonic::Plp => seq!['P', 'L', 'P'],
        Mnemonic::Rol => seq!['R', 'O', 'L'],
        Mnemonic::Ror => seq!['R', 'O', 'R'],
        Mnemonic::Rti => seq!['R', 'T', 'I'],
        Mnemonic::Rts => seq!['R', 'T', 'S'],
        Mnemonic::Sbc => seq!['S', 'B', 'C'],
        Mnemonic::Sec => seq!['S', 'E', 'C'],
        Mnemonic::Sed => seq!['S', 'E', 'D'],
        Mnemonic::Sei => seq!['S', 'E', 'I'],
        Mnemonic::Sta => seq!['S', 'T', 'A'],
        Mnemonic::Stx => seq!['S', 'T', 'X'],
        Mnemonic::Sty => seq!['S', 'T', 'Y'],
        Mnemonic::Tax => seq!['T', 'A', 'X'],
        Mnemonic::Tay => seq!['T', 'A', 'Y'],
        Mnemonic::Tsx => seq!['T', 'S', 'X'],
        Mnemonic::Txa => seq!['T', 'X', 'A'],
        Mnemonic::Txs => seq!['T', 'X', 'S'],
        Mnemonic::Tya => seq!['T', 'Y', 'A'],
        Mnemonic::Dcp => seq!['*', 'D', 'C', 'P'],
        Mnemonic::Rla => seq!['*', 'R', 'L', 'A'],
        Mnemonic::Slo => seq!['*', 'S', 'L', 'O'],
        Mnemonic::Sre => seq!['*', 'S', 'R', 'E'],
        Mnemonic::IllegalNop => seq!['*', 'N', 'O', 'P'],
        Mnemonic::Axs => seq!['*', 'A', 'X', 'S'],
        Mnemonic::Arr => seq!['*', 'A', 'R', 'R'],
        Mnemonic::IllegalSbc => seq!['*', 'S', 'B', 'C'],
        Mnemonic::Anc => seq!['*', 'A', 'N', 'C'],
        Mnemonic::Alr => seq!['*', 'A', 'L', 'R'],
        Mnemonic::Rra => seq!['*', 'R', 'R', 'A'],
        Mnemonic::Isc => seq!['*', 'I', 'S', 'C'],
        Mnemonic::Lax => seq!['*', 'L', 'A', 'X'],
        Mnemonic::Sax => seq!['*', 'S', 'A', 'X'],
        Mnemonic::Lxa => seq!['*', 'L', 'X', 'A'],
        Mnemonic::Xaa => seq!['*', 'X', 'A', 'A'],
        Mnemonic::Las => seq!['*', 'L', 'A', 'S'],
        Mnemonic::Tas => seq!['*', 'T', 'A', 'S'],
        Mnemonic::Ahx => seq!['*', 'A', 'H', 'X'],
        Mnemonic::Shx => seq!['*', 'S', 'H', 'X'],
        Mnemonic::Shy => seq!['*', 'S', 'H', 'Y'],
    }
}

/// One entry of the opcode table.
#[derive(Copy, Clone, Debug, PartialEq, Eq, Structural)]
pub struct OpCode {
    pub code: u8,
    pub mnemonic: Mnemonic,
    /// The length of the instruction in bytes, opcode included.
    pub len: u8,
    /// The cycles the instruction takes, before any extra cycle.
    pub cycles: u8,
    pub mode: AddressingMode,
}

/// The table entry made of these fields.
pub open spec fn op_entry(code: u8, mnemonic: Mnemonic, len: u8, cycles: u8, mode: AddressingMode) -> OpCode {
    OpCode { code, mnemonic, len, cycles, mode }
}

impl OpCode {
    pub fn new(code: u8, mnemonic: Mnemonic, len: u8, cycles: u8, mode: AddressingMode) -> (r: OpCode)
        ensures
            r == op_entry(code, mnemonic, len, cycles, mode),
    {
        OpCode { code, mnemonic, len, cycles, mode }
    }
}

/// The opcode table: the instruction that each opcode byte encodes. The
/// bytes that halt a real 6502 have no entry.
pub open spec fn opcode_table(code: u8) -> Option<OpCode> {
    match code {
        0x00 => Some(op_entry(0x00, Mnemonic::Brk, 1, 7, AddressingMode::NoneAddressing)),
        0x01 => Some(op_entry(0x01, Mnemonic::Ora, 2, 6, AddressingMode::IndirectX)),
        0x03 => Some(op_entry(0x03, Mnemonic::Slo, 2, 8, AddressingMode::IndirectX)),
        0x04 => Some(op_entry(0x04, Mnemonic::IllegalNop, 2, 3, AddressingMode::ZeroPage)),
        0x05 => Some(op_entry(0x05, Mnemonic::Ora, 2, 3, AddressingMode::ZeroPage)),
        0x06 => Some(op_entry(0x06, Mnemonic::Asl, 2, 5, AddressingMode::ZeroPage)),
        0x07 => Some(op_entry(0x07, Mnemonic::Slo, 2, 5, AddressingMode::ZeroPage)),
        0x08 => Some(op_entry(0x08, Mnemonic::Php, 1, 3, AddressingMode::NoneAddressing)),
        0x09 => Some(op_entry(0x09, Mnemonic::Ora, 2, 2, AddressingMode::Immediate)),
        0x0a => Some(op_entry(0x0a, Mnemonic::Asl, 1, 2, AddressingMode::NoneAddressing)),
        0x0b => Some(op_entry(0x0b, Mnemonic::Anc, 2, 2, AddressingMode::Immediate)),
        0x0c => Some(op_entry(0x0c, Mnemonic::IllegalNop, 3, 4, AddressingMode::Absolute)),
        0x0d => Some(op_entry(0x0d, Mnemonic::Ora, 3, 4, AddressingMode::Absolute)),
        0x0e => Some(op_entry(0x0e, Mnemonic::Asl, 3, 6, AddressingMode::Absolute)),
        0x0f => Some(op_entry(0x0f, Mnemonic::Slo, 3, 6, AddressingMode::Absolute)),
        0x10 => Some(op_entry(0x10, Mnemonic::Bpl, 2, 2, AddressingMode::NoneAddressing)),
        0x11 => Some(op_entry(0x11, Mnemonic::Ora, 2, 5, AddressingMode::IndirectY)),
        0x13 => Some(op_entry(0x13, Mnemonic::Slo, 2, 8, AddressingMode::IndirectY)),
        0x14 => Some(op_entry(0x14, Mnemonic::IllegalNop, 2, 4, AddressingMode::ZeroPageX)),
        0x15 => Some(op_entry(0x15, Mnemonic::Ora, 2, 4, AddressingMode::ZeroPageX)),
        0x16 => Some(op_entry(0x16, Mnemonic::Asl, 2, 6, AddressingMode::ZeroPageX)),
        0x17 => Some(op_entry(0x17, Mnemonic::Slo, 2, 6, AddressingMode::ZeroPageX)),
        0x18 => Some(op_entry(0x18, Mnemonic::Clc, 1, 2, AddressingMode::NoneAddressing)),
        0x19 => Some(op_entry(0x19, Mnemonic::Ora, 3, 4, AddressingMode::AbsoluteY)),
        0x1a => Some(op_entry(0x1a, Mnemonic::IllegalNop, 1, 2, AddressingMode::NoneAddressing)),
        0x1b => Some(op_entry(0x1b, Mnemonic::Slo, 3, 7, AddressingMode::AbsoluteY)),
        0x1c => Some(op_entry(0x1c, Mnemonic::IllegalNop, 3, 4, AddressingMode::AbsoluteX)),
        0x1d => Some(op_entry(0x1d, Mnemonic::Ora, 3, 4, AddressingMode::AbsoluteX)),
        0x1e => Some(op_entry(0x1e, Mnemonic::Asl, 3, 7, AddressingMode::AbsoluteX)),
        0x1f => Some(op_entry(0x1f, Mnemonic::Slo, 3, 7, AddressingMode::AbsoluteX)),
        0x20 => Some(op_entry(0x20, Mnemonic::Jsr, 3, 6, AddressingMode::NoneAddressing)),
        0x21 => Some(op_entry(0x21, Mnemonic::And, 2, 6, AddressingMode::IndirectX)),
        0x23 => Some(op_entry(0x23, Mnemonic::Rla, 2, 8, AddressingMode::IndirectX)),
        0x24 => Some(op_entry(0x24, Mnemonic::Bit, 2, 3, AddressingMode::ZeroPage)),
        0x25 => Some(op_entry(0x25, Mnemonic::And, 2, 3, AddressingMode::ZeroPage)),
        0x26 => Some(op_entry(0x26, Mnemonic::Rol, 2, 5, AddressingMode::ZeroPage)),
        0x27 => Some(op_entry(0x27, Mnemonic::Rla, 2, 5, AddressingMode::ZeroPage)),
        0x28 => Some(op_entry(0x28, Mnemonic::Plp, 1, 4, AddressingMode::NoneAddressing)),
        0x29 => Some(op_entry(0x29, Mnemonic::And, 2, 2, AddressingMode::Immediate)),
        0x2a => Some(op_entry(0x2a, Mnemonic::Rol, 1, 2, AddressingMode::NoneAddressing)),
        0x2b => Some(op_entry(0x2b, Mnemonic::Anc, 2, 2, AddressingMode::Immediate)),
        0x2c => Some(op_entry(0x2c, Mnemonic::Bit, 3, 4, AddressingMode::Absolute)),
        0x2d => Some(op_entry(0x2d, Mnemonic::And, 3, 4, AddressingMode::Absolute)),
        0x2e => Some(op_entry(0x2e, Mnemonic::Rol, 3, 6, AddressingMode::Absolute)),
        0x2f => Some(op_entry(0x2f, Mnemonic::Rla, 3, 6, AddressingMode::Absolute)),
        0x30 => Some(op_entry(0x30, Mnemonic::Bmi, 2, 2, AddressingMode::NoneAddressing)),
        0x31 => Some(op_entry(0x31, Mnemonic::And, 2, 5, AddressingMode::IndirectY)),
        0x33 => Some(op_entry(0x33, Mnemonic::Rla, 2, 8, AddressingMode::IndirectY)),
        0x34 => Some(op_entry(0x34, Mnemonic::IllegalNop, 2, 4, AddressingMode::ZeroPageX)),
        0x35 => Some(op_entry(0x35, Mnemonic::And, 2, 4, AddressingMode::ZeroPageX)),
        0x36 => Some(op_entry(0x36, Mnemonic::Rol, 2, 6, AddressingMode::ZeroPageX)),
        0x37 => Some(op_entry(0x37, Mnemonic::Rla, 2, 6, AddressingMode::ZeroPageX)),
        0x38 => Some(op_entry(0x38, Mnemonic::Sec, 1, 2, AddressingMode::NoneAddressing)),
        0x39 => Some(op_entry(0x39, Mnemonic::And, 3, 4, AddressingMode::AbsoluteY)),
        0x3a => Some(op_entry(0x3a, Mnemonic::IllegalNop, 1, 2, AddressingMode::NoneAddressing)),
        0x3b => Some(op_entry(0x3b, Mnemonic::Rla, 3, 7, AddressingMode::AbsoluteY)),
        0x3c => Some(op_entry(0x3c, Mnemonic::IllegalNop, 3, 4, AddressingMode::AbsoluteX)),
        0x3d => Some(op_entry(0x3d, Mnemonic::And, 3, 4, AddressingMode::AbsoluteX)),
        0x3e => Some(op_entry(0x3e, Mnemonic::Rol, 3, 7, AddressingMode::AbsoluteX)),
        0x3f => Some(op_entry(0x3f, Mnemonic::Rla, 3, 7, AddressingMode::AbsoluteX)),
        0x40 => Some(op_entry(0x40, Mnemonic::Rti, 1, 6, AddressingMode::NoneAddressing)),
        0x41 => Some(op_entry(0x41, Mnemonic::Eor, 2, 6, AddressingMode::IndirectX)),
        0x43 => Some(op_entry(0x43, Mnemonic::Sre, 2, 8, AddressingMode::IndirectX)),
        0x44 => Some(op_entry(0x44, Mnemonic::IllegalNop, 2, 3, AddressingMode::ZeroPage)),
        0x45 => Some(op_entry(0x45, Mnemonic::Eor, 2, 3, AddressingMode::ZeroPage)),
        0x46 => Some(op_entry(0x46, Mnemonic::Lsr, 2, 5, AddressingMode::ZeroPage)),
        0x47 => Some(op_entry(0x47, Mnemonic::Sre, 2, 5, AddressingMode::ZeroPage)),
        0x48 => Some(op_entry(0x48, Mnemonic::Pha, 1, 3, AddressingMode::NoneAddressing)),
        0x49 => Some(op_entry(0x49, Mnemonic::Eor, 2, 2, AddressingMode::Immediate)),
        0x4a => Some(op_entry(0x4a, Mnemonic::Lsr, 1, 2, AddressingMode::NoneAddressing)),
        0x4b => Some(op_entry(0x4b, Mnemonic::Alr, 2, 2, AddressingMode::Immediate)),
        0x4c => Some(op_entry(0x4c, Mnemonic::Jmp, 3, 3, AddressingMode::NoneAddressing)),
        0x4d => Some(op_entry(0x4d, Mnemonic::Eor, 3, 4, AddressingMode::Absolute)),
        0x4e => Some(op_entry(0x4e, Mnemonic::Lsr, 3, 6, AddressingMode::Absolute)),
        0x4f => Some(op_entry(0x4f, Mnemonic::Sre, 3, 6, AddressingMode::Absolute)),
        0x50 => Some(op_entry(0x50, Mnemonic::Bvc, 2, 2, AddressingMode::NoneAddressing)),
        0x51 => Some(op_entry(0x51, Mnemonic::Eor, 2, 5, AddressingMode::IndirectY)),
        0x53 => Some(op_entry(0x53, Mnemonic::Sre, 2, 8, AddressingMode::IndirectY)),
        0x54 => Some(op_entry(0x54, Mnemonic::IllegalNop, 2, 4, AddressingMode::ZeroPageX)),
        0x55 => Some(op_entry(0x55, Mnemonic::Eor, 2, 4, AddressingMode::ZeroPageX)),
        0x56 => Some(op_entry(0x56, Mnemonic::Lsr, 2, 6, AddressingMode::ZeroPageX)),
        0x57 => Some(op_entry(0x57, Mnemonic::Sre, 2, 6, AddressingMode::ZeroPageX)),
        0x58 => Some(op_entry(0x58, Mnemonic::Cli, 1, 2, AddressingMode::NoneAddressing)),
        0x59 => Some(op_entry(0x59, Mnemonic::Eor, 3, 4, AddressingMode::AbsoluteY)),
        0x5a => Some(op_entry(0x5a, Mnemonic::IllegalNop, 1, 2, AddressingMode::NoneAddressing)),
        0x5b => Some(op_entry(0x5b, Mnemonic::Sre, 3, 7, AddressingMode::AbsoluteY)),
        0x5c => Some(op_entry(0x5c, Mnemonic::IllegalNop, 3, 4, AddressingMode::AbsoluteX)),
        0x5d => Some(op_entry(0x5d, Mnemonic::Eor, 3, 4, AddressingMode::AbsoluteX)),
        0x5e => Some(op_entry(0x5e, Mnemonic::Lsr, 3, 7, AddressingMode::AbsoluteX)),
        0x5f => Some(op_entry(0x5f, Mnemonic::Sre, 3, 7, AddressingMode::AbsoluteX)),
        0x60 => Some(op_entry(0x60, Mnemonic::Rts, 1, 6, AddressingMode::NoneAddressing)),
        0x61 => Some(op_entry(0x61, Mnemonic::Adc, 2, 6, AddressingMode::IndirectX)),
        0x63 => Some(op_entry(0x63, Mnemonic::Rra, 2, 8, AddressingMode::IndirectX)),
        0x64 => Some(op_entry(0x64, Mnemonic::IllegalNop, 2, 3, AddressingMode::ZeroPage)),
        0x65 => Some(op_entry(0x65, Mnemonic::Adc, 2, 3, AddressingMode::ZeroPage)),
        0x66 => Some(op_entry(0x66, Mnemonic::Ror, 2, 5, AddressingMode::ZeroPage)),
        0x67 => Some(op_entry(0x67, Mnemonic::Rra, 2, 5, AddressingMode::ZeroPage)),
        0x68 => Some(op_entry(0x68, Mnemonic::Pla, 1, 4, AddressingMode::NoneAddressing)),
        0x69 => Some(op_entry(0x69, Mnemonic::Adc, 2, 2, AddressingMode::Immediate)),
        0x6a => Some(op_entry(0x6a, Mnemonic::Ror, 1, 2, AddressingMode::NoneAddressing)),
        0x6b => Some(op_entry(0x6b, Mnemonic::Arr, 2, 2, AddressingMode::Immediate)),
        0x6c => Some(op_entry(0x6c, Mnemonic::Jmp, 3, 5, AddressingMode::NoneAddressing)),
        0x6d => Some(op_entry(0x6d, Mnemonic::Adc, 3, 4, AddressingMode::Absolute)),
        0x6e => Some(op_entry(0x6e, Mnemonic::Ror, 3, 6, AddressingMode::Absolute)),
        0x6f => Some(op_entry(0x6f, Mnemonic::Rra, 3, 6, AddressingMode::Absolute)),
        0x70 => Some(op_entry(0x70, Mnemonic::Bvs, 2, 2, AddressingMode::NoneAddressing)),
        0x71 => Some(op_entry(0x71, Mnemonic::Adc, 2, 5, AddressingMode::IndirectY)),
        0x73 => Some(op_entry(0x73, Mnemonic::Rra, 2, 8, AddressingMode::IndirectY)),
        0x74 => Some(op_entry(0x74, Mnemonic::IllegalNop, 2, 4, AddressingMode::ZeroPageX)),
        0x75 => Some(op_entry(0x75, Mnemonic::Adc, 2, 4, AddressingMode::ZeroPageX)),
        0x76 => Some(op_entry(0x76, Mnemonic::Ror, 2, 6, AddressingMode::ZeroPageX)),
        0x77 => Some(op_entry(0x77, Mnemonic::Rra, 2, 6, AddressingMode::ZeroPageX)),
        0x78 => Some(op_entry(0x78, Mnemonic::Sei, 1, 2, AddressingMode::NoneAddressing)),
        0x79 => Some(op_entry(0x79, Mnemonic::Adc, 3, 4, AddressingMode::AbsoluteY)),
        0x7a => Some(op_entry(0x7a, Mnemonic::IllegalNop, 1, 2, AddressingMode::NoneAddressing)),
        0x7b => Some(op_entry(0x7b, Mnemonic::Rra, 3, 7, AddressingMode::AbsoluteY)),
        0x7c => Some(op_entry(0x7c, Mnemonic::IllegalNop, 3, 4, AddressingMode::AbsoluteX)),
        0x7d => Some(op_entry(0x7d, Mnemonic::Adc, 3, 4, AddressingMode::AbsoluteX)),
        0x7e => Some(op_entry(0x7e, Mnemonic::Ror, 3, 7, AddressingMode::AbsoluteX)),
        0x7f => Some(op_entry(0x7f, Mnemonic::Rra, 3, 7, AddressingMode::AbsoluteX)),
        0x80 => Some(op_entry(0x80, Mnemonic::IllegalNop, 2, 2, AddressingMode::Immediate)),
        0x81 => Some(op_entry(0x81, Mnemonic::Sta, 2, 6, AddressingMode::IndirectX)),
        0x82 => Some(op_entry(0x82, Mnemonic::IllegalNop, 2, 2, AddressingMode::Immediate)),
        0x83 => Some(op_entry(0x83, Mnemonic::Sax, 2, 6, AddressingMode::IndirectX)),
        0x84 => Some(op_entry(0x84, Mnemonic::Sty, 2, 3, AddressingMode::ZeroPage)),
        0x85 => Some(op_entry(0x85, Mnemonic::Sta, 2, 3, AddressingMode::ZeroPage)),
        0x86 => Some(op_entry(0x86, Mnemonic::Stx, 2, 3, AddressingMode::ZeroPage)),
        0x87 => Some(op_entry(0x87, Mnemonic::Sax, 2, 3, AddressingMode::ZeroPage)),
        0x88 => Some(op_entry(0x88, Mnemonic::Dey, 1, 2, AddressingMode::NoneAddressing)),
        0x89 => Some(op_entry(0x89, Mnemonic::IllegalNop, 2, 2, AddressingMode::Immediate)),
        0x8a => Some(op_entry(0x8a, Mnemonic::Txa, 1, 2, AddressingMode::NoneAddressing)),
        0x8b => Some(op_entry(0x8b, Mnemonic::Xaa, 2, 3, AddressingMode::Immediate)),
        0x8c => Some(op_entry(0x8c, Mnemonic::Sty, 3, 4, AddressingMode::Absolute)),
        0x8d => Some(op_entry(0x8d, Mnemonic::Sta, 3, 4, AddressingMode::Absolute)),
        0x8e => Some(op_entry(0x8e, Mnemonic::Stx, 3, 4, AddressingMode::Absolute)),
        0x8f => Some(op_entry(0x8f, Mnemonic::Sax, 3, 4, AddressingMode::Absolute)),
        0x90 => Some(op_entry(0x90, Mnemonic::Bcc, 2, 2, AddressingMode::NoneAddressing)),
        0x91 => Some(op_entry(0x91, Mnemonic::Sta, 2, 6, AddressingMode::IndirectY)),
        0x93 => Some(op_entry(0x93, Mnemonic::Ahx, 2, 8, AddressingMode::IndirectY)),
        0x94 => Some(op_entry(0x94, Mnemonic::Sty, 2, 4, AddressingMode::ZeroPageX)),
        0x95 => Some(op_entry(0x95, Mnemonic::Sta, 2, 4, AddressingMode::ZeroPageX)),
        0x96 => Some(op_entry(0x96, Mnemonic::Stx, 2, 4, AddressingMode::ZeroPageY)),
        0x97 => Some(op_entry(0x97, Mnemonic::Sax, 2, 4, AddressingMode::ZeroPageY)),
        0x98 => Some(op_entry(0x98, Mnemonic::Tya, 1, 2, AddressingMode::NoneAddressing)),
        0x99 => Some(op_entry(0x99, Mnemonic::Sta, 3, 5, AddressingMode::AbsoluteY)),
        0x9a => Some(op_entry(0x9a, Mnemonic::Txs, 1, 2, AddressingMode::NoneAddressing)),
        0x9b => Some(op_entry(0x9b, Mnemonic::Tas, 3, 2, AddressingMode::AbsoluteY)),
        0x9c => Some(op_entry(0x9c, Mnemonic::Shy, 3, 4, AddressingMode::AbsoluteX)),
        0x9d => Some(op_entry(0x9d, Mnemonic::Sta, 3, 5, AddressingMode::AbsoluteX)),
        0x9e => Some(op_entry(0x9e, Mnemonic::Shx, 3, 4, AddressingMode::AbsoluteY)),
        0x9f => Some(op_entry(0x9f, Mnemonic::Ahx, 3, 4, AddressingMode::AbsoluteY)),
        0xa0 => Some(op_entry(0xa0, Mnemonic::Ldy, 2, 2, AddressingMode::Immediate)),
        0xa1 => Some(op_entry(0xa1, Mnemonic::Lda, 2, 6, AddressingMode::IndirectX)),
        0xa2 => Some(op_entry(0xa2, Mnemonic::Ldx, 2, 2, AddressingMode::Immediate)),
        0xa3 => Some(op_entry(0xa3, Mnemonic::Lax, 2, 6, AddressingMode::IndirectX)),
        0xa4 => Some(op_entry(0xa4, Mnemonic::Ldy, 2, 3, AddressingMode::ZeroPage)),
        0xa5 => Some(op_entry(0xa5, Mnemonic::Lda, 2, 3, AddressingMode::ZeroPage)),
        0xa6 => Some(op_entry(0xa6, Mnemonic::Ldx, 2, 3, AddressingMode::ZeroPage)),
        0xa7 => Some(op_entry(0xa7, Mnemonic::Lax, 2, 3, AddressingMode::ZeroPage)),
        0xa8 => Some(op_entry(0xa8, Mnemonic::Tay, 1, 2, AddressingMode::NoneAddressing)),
        0xa9 => Some(op_entry(0xa9, Mnemonic::Lda, 2, 2, AddressingMode::Immediate)),
        0xaa => Some(op_entry(0xaa, Mnemonic::Tax, 1, 2, AddressingMode::NoneAddressing)),
        0xab => Some(op_entry(0xab, Mnemonic::Lxa, 2, 3, AddressingMode::Immediate)),
        0xac => Some(op_entry(0xac, Mnemonic::Ldy, 3, 4, AddressingMode::Absolute)),
        0xad => Some(op_entry(0xad, Mnemonic::Lda, 3, 4, AddressingMode::Absolute)),
        0xae => Some(op_entry(0xae, Mnemonic::Ldx, 3, 4, AddressingMode::Absolute)),
        0xaf => Some(op_entry(0xaf, Mnemonic::Lax, 3, 4, AddressingMode::Absolute)),
        0xb0 => Some(op_entry(0xb0, Mnemonic::Bcs, 2, 2, AddressingMode::NoneAddressing)),
        0xb1 => Some(op_entry(0xb1, Mnemonic::Lda, 2, 5, AddressingMode::IndirectY)),
        0xb3 => Some(op_entry(0xb3, Mnemonic::Lax, 2, 5, AddressingMode::IndirectY)),
        0xb4 => Some(op_entry(0xb4, Mnemonic::Ldy, 2, 4, AddressingMode::ZeroPageX)),
        0xb5 => Some(op_entry(0xb5, Mnemonic::Lda, 2, 4, AddressingMode::ZeroPageX)),
        0xb6 => Some(op_entry(0xb6, Mnemonic::Ldx, 2, 4, AddressingMode::ZeroPageY)),
        0xb7 => Some(op_entry(0xb7, Mnemonic::Lax, 2, 4, AddressingMode::ZeroPageY)),
        0xb8 => Some(op_entry(0xb8, Mnemonic::Clv, 1, 2, AddressingMode::NoneAddressing)),
        0xb9 => Some(op_entry(0xb9, Mnemonic::Lda, 3, 4, AddressingMode::AbsoluteY)),
        0xba => Some(op_entry(0xba, Mnemonic::Tsx, 1, 2, AddressingMode::NoneAddressing)),
        0xbb => Some(op_entry(0xbb, Mnemonic::Las, 3, 2, AddressingMode::AbsoluteY)),
        0xbc => Some(op_entry(0xbc, Mnemonic::Ldy, 3, 4, AddressingMode::AbsoluteX)),
        0xbd => Some(op_entry(0xbd, Mnemonic::Lda, 3, 4, AddressingMode::AbsoluteX)),
        0xbe => Some(op_entry(0xbe, Mnemonic::Ldx, 3, 4, AddressingMode::AbsoluteY)),
        0xbf => Some(op_entry(0xbf, Mnemonic::Lax, 3, 4, AddressingMode::AbsoluteY)),
        0xc0 => Some(op_entry(0xc0, Mnemonic::Cpy, 2, 2, AddressingMode::Immediate)),
        0xc1 => Some(op_entry(0xc1, Mnemonic::Cmp, 2, 6, AddressingMode::IndirectX)),
        0xc2 => Some(op_entry(0xc2, Mnemonic::IllegalNop, 2, 2, AddressingMode::Immediate)),
        0xc3 => Some(op_entry(0xc3, Mnemonic::Dcp, 2, 8, AddressingMode::IndirectX)),
        0xc4 => Some(op_entry(0xc4, Mnemonic::Cpy, 2, 3, AddressingMode::ZeroPage)),
        0xc5 => Some(op_entry(0xc5, Mnemonic::Cmp, 2, 3, AddressingMode::ZeroPage)),
        0xc6 => Some(op_entry(0xc6, Mnemonic::Dec, 2, 5, AddressingMode::ZeroPage)),
        0xc7 => Some(op_entry(0xc7, Mnemonic::Dcp, 2, 5, AddressingMode::ZeroPage)),
        0xc8 => Some(op_entry(0xc8, Mnemonic::Iny, 1, 2, AddressingMode::NoneAddressing)),
        0xc9 => Some(op_entry(0xc9, Mnemonic::Cmp, 2, 2, AddressingMode::Immediate)),
        0xca => Some(op_entry(0xca, Mnemonic::Dex, 1, 2, AddressingMode::NoneAddressing)),
        0xcb => Some(op_entry(0xcb, Mnemonic::Axs, 2, 2, AddressingMode::Immediate)),
        0xcc => Some(op_entry(0xcc, Mnemonic::Cpy, 3, 4, AddressingMode::Absolute)),
        0xcd => Some(op_entry(0xcd, Mnemonic::Cmp, 3, 4, AddressingMode::Absolute)),
        0xce => Some(op_entry(0xce, Mnemonic::Dec, 3, 6, AddressingMode::Absolute)),
        0xcf => Some(op_entry(0xcf, Mnemonic::Dcp, 3, 6, AddressingMode::Absolute)),
        0xd0 => Some(op_entry(0xd0, Mnemonic::Bne, 2, 2, AddressingMode::NoneAddressing)),
        0xd1 => Some(op_entry(0xd1, Mnemonic::Cmp, 2, 5, AddressingMode::IndirectY)),
        0xd3 => Some(op_entry(0xd3, Mnemonic::Dcp, 2, 8, AddressingMode::IndirectY)),
        0xd4 => Some(op_entry(0xd4, Mnemonic::IllegalNop, 2, 4, AddressingMode::ZeroPageX)),
        0xd5 => Some(op_entry(0xd5, Mnemonic::Cmp, 2, 4, AddressingMode::ZeroPageX)),
        0xd6 => Some(op_entry(0xd6, Mnemonic::Dec, 2, 6, AddressingMode::ZeroPageX)),
        0xd7 => Some(op_entry(0xd7, Mnemonic::Dcp, 2, 6, AddressingMode::ZeroPageX)),
        0xd8 => Some(op_entry(0xd8, Mnemonic::Cld, 1, 2, AddressingMode::NoneAddressing)),
        0xd9 => Some(op_entry(0xd9, Mnemonic::Cmp, 3, 4, AddressingMode::AbsoluteY)),
        0xda => Some(op_entry(0xda, Mnemonic::IllegalNop, 1, 2, AddressingMode::NoneAddressing)),
        0xdb => Some(op_entry(0xdb, Mnemonic::Dcp, 3, 7, AddressingMode::AbsoluteY)),
        0xdc => Some(op_entry(0xdc, Mnemonic::IllegalNop, 3, 4, AddressingMode::AbsoluteX)),
        0xdd => Some(op_entry(0xdd, Mnemonic::Cmp, 3, 4, AddressingMode::AbsoluteX)),
        0xde => Some(op_entry(0xde, Mnemonic::Dec, 3, 7, AddressingMode::AbsoluteX)),
        0xdf => Some(op_entry(0xdf, Mnemonic::Dcp, 3, 7, AddressingMode::AbsoluteX)),
        0xe0 => Some(op_entry(0xe0, Mnemonic::Cpx, 2, 2, AddressingMode::Immediate)),
        0xe1 => Some(op_entry(0xe1, Mnemonic::Sbc, 2, 6, AddressingMode::IndirectX)),
        0xe2 => Some(op_entry(0xe2, Mnemonic::IllegalNop, 2, 2, AddressingMode::Immediate)),
        0xe3 => Some(op_entry(0xe3, Mnemonic::Isc, 2, 8, AddressingMode::IndirectX)),
        0xe4 => Some(op_entry(0xe4, Mnemonic::Cpx, 2, 3, AddressingMode::ZeroPage)),
        0xe5 => Some(op_entry(0xe5, Mnemonic::Sbc, 2, 3, AddressingMode::ZeroPage)),
        0xe6 => Some(op_entry(0xe6, Mnemonic::Inc, 2, 5, AddressingMode::ZeroPage)),
        0xe7 => Some(op_entry(0xe7, Mnemonic::Isc, 2, 5, AddressingMode::ZeroPage)),
        0xe8 => Some(op_entry(0xe8, Mnemonic::Inx, 1, 2, AddressingMode::NoneAddressing)),
        0xe9 => Some(op_entry(0xe9, Mnemonic::Sbc, 2, 2, AddressingMode::Immediate)),
        0xea => Some(op_entry(0xea, Mnemonic::Nop, 1, 2, AddressingMode::NoneAddressing)),
        0xeb => Some(op_entry(0xeb, Mnemonic::IllegalSbc, 2, 2, AddressingMode::Immediate)),
        0xec => Some(op_entry(0xec, Mnemonic::Cpx, 3, 4, AddressingMode::Absolute)),
        0xed => Some(op_entry(0xed, Mnemonic::Sbc, 3, 4, AddressingMode::Absolute)),
        0xee => Some(op_entry(0xee, Mnemonic::Inc, 3, 6, AddressingMode::Absolute)),
        0xef => Some(op_entry(0xef, Mnemonic::Isc, 3, 6, AddressingMode::Absolute)),
        0xf0 => Some(op_entry(0xf0, Mnemonic::Beq, 2, 2, AddressingMode::NoneAddressing)),
        0xf1 => Some(op_entry(0xf1, Mnemonic::Sbc, 2, 5, AddressingMode::IndirectY)),
        0xf3 => Some(op_entry(0xf3, Mnemonic::Isc, 2, 8, AddressingMode::IndirectY)),
        0xf4 => Some(op_entry(0xf4, Mnemonic::IllegalNop, 2, 4, AddressingMode::ZeroPageX)),
        0xf5 => Some(op_entry(0xf5, Mnemonic::Sbc, 2, 4, AddressingMode::ZeroPageX)),
        0xf6 => Some(op_entry(0xf6, Mnemonic::Inc, 2, 6, AddressingMode::ZeroPageX)),
        0xf7 => Some(op_entry(0xf7, Mnemonic::Isc, 2, 6, AddressingMode::ZeroPageX)),
        0xf8 => Some(op_entry(0xf8, Mnemonic::Sed, 1, 2, AddressingMode::NoneAddressing)),
        0xf9 => Some(op_entry(0xf9, Mnemonic::Sbc, 3, 4, AddressingMode::AbsoluteY)),
        0xfa => Some(op_entry(0xfa, Mnemonic::IllegalNop, 1, 2, AddressingMode::NoneAddressing)),
        0xfb => Some(op_entry(0xfb, Mnemonic::Isc, 3, 7, AddressingMode::AbsoluteY)),
        0xfc => Some(op_entry(0xfc, Mnemonic::IllegalNop, 3, 4, AddressingMode::AbsoluteX)),
        0xfd => Some(op_entry(0xfd, Mnemonic::Sbc, 3, 4, AddressingMode::AbsoluteX)),
        0xfe => Some(op_entry(0xfe, Mnemonic::Inc, 3, 7, AddressingMode::AbsoluteX)),
        0xff => Some(op_entry(0xff, Mnemonic::Isc, 3, 7, AddressingMode::AbsoluteX)),
        _ => None,
    }
}

/// Looks `code` up in the opcode table.
pub fn lookup_opcode(code: u8) -> (r: Option<OpCode>)
    ensures
        r == opcode_table(code),
{
    match code {
        0x00 => Some(OpCode::new(0x00, Mnemonic::Brk, 1, 7, AddressingMode::NoneAddressing)),
        0x01 => Some(OpCode::new(0x01, Mnemonic::Ora, 2, 6, AddressingMode::IndirectX)),
        0x03 => Some(OpCode::new(0x03, Mnemonic::Slo, 2, 8, AddressingMode::IndirectX)),
        0x04 => Some(OpCode::new(0x04, Mnemonic::IllegalNop, 2, 3, AddressingMode::ZeroPage)),
        0x05 => Some(OpCode::new(0x05, Mnemonic::Ora, 2, 3, AddressingMode::ZeroPage)),
        0x06 => Some(OpCode::new(0x06, Mnemonic::Asl, 2, 5, AddressingMode::ZeroPage)),
        0x07 => Some(OpCode::new(0x07, Mnemonic::Slo, 2, 5, AddressingMode::ZeroPage)),
        0x08 => Some(OpCode::new(0x08, Mnemonic::Php, 1, 3, AddressingMode::NoneAddressing)),
        0x09 => Some(OpCode::new(0x09, Mnemonic::Ora, 2, 2, AddressingMode::Immediate)),
        0x0a => Some(OpCode::new(0x0a, Mnemonic::Asl, 1, 2, AddressingMode::NoneAddressing)),
        0x0b => Some(OpCode::new(0x0b, Mnemonic::Anc, 2, 2, AddressingMode::Immediate)),
        0x0c => Some(OpCode::new(0x0c, Mnemonic::IllegalNop, 3, 4, AddressingMode::Absolute)),
        0x0d => Some(OpCode::new(0x0d, Mnemonic::Ora, 3, 4, AddressingMode::Absolute)),
        0x0e => Some(OpCode::new(0x0e, Mnemonic::Asl, 3, 6, AddressingMode::Absolute)),
        0x0f => Some(OpCode::new(0x0f, Mnemonic::Slo, 3, 6, AddressingMode::Absolute)),
        0x10 => Some(OpCode::new(0x10, Mnemonic::Bpl, 2, 2, AddressingMode::NoneAddressing)),
        0x11 => Some(OpCode::new(0x11, Mnemonic::Ora, 2, 5, AddressingMode::IndirectY)),
        0x13 => Some(OpCode::new(0x13, Mnemonic::Slo, 2, 8, AddressingMode::IndirectY)),
        0x14 => Some(OpCode::new(0x14, Mnemonic::IllegalNop, 2, 4, AddressingMode::ZeroPageX)),
        0x15 => Some(OpCode::new(0x15, Mnemonic::Ora, 2, 4, AddressingMode::ZeroPageX)),
        0x16 => Some(OpCode::new(0x16, Mnemonic::Asl, 2, 6, AddressingMode::ZeroPageX)),
        0x17 => Some(OpCode::new(0x17, Mnemonic::Slo, 2, 6, AddressingMode::ZeroPageX)),
        0x18 => Some(OpCode::new(0x18, Mnemonic::Clc, 1, 2, AddressingMode::NoneAddressing)),
        0x19 => Some(OpCode::new(0x19, Mnemonic::Ora, 3, 4, AddressingMode::AbsoluteY)),
        0x1a => Some(OpCode::new(0x1a, Mnemonic::IllegalNop, 1, 2, AddressingMode::NoneAddressing)),
        0x1b => Some(OpCode::new(0x1b, Mnemonic::Slo, 3, 7, AddressingMode::AbsoluteY)),
        0x1c => Some(OpCode::new(0x1c, Mnemonic::IllegalNop, 3, 4, AddressingMode::AbsoluteX)),
        0x1d => Some(OpCode::new(0x1d, Mnemonic::Ora, 3, 4, AddressingMode::AbsoluteX)),
        0x1e => Some(OpCode::new(0x1e, Mnemonic::Asl, 3, 7, AddressingMode::AbsoluteX)),
        0x1f => Some(OpCode::new(0x1f, Mnemonic::Slo, 3, 7, AddressingMode::AbsoluteX)),
        0x20 => Some(OpCode::new(0x20, Mnemonic::Jsr, 3, 6, AddressingMode::NoneAddressing)),
        0x21 => Some(OpCode::new(0x21, Mnemonic::And, 2, 6, AddressingMode::IndirectX)),
        0x23 => Some(OpCode::new(0x23, Mnemonic::Rla, 2, 8, AddressingMode::IndirectX)),
        0x24 => Some(OpCode::new(0x24, Mnemonic::Bit, 2, 3, AddressingMode::ZeroPage)),
        0x25 => Some(OpCode::new(0x25, Mnemonic::And, 2, 3, AddressingMode::ZeroPage)),
        0x26 => Some(OpCode::new(0x26, Mnemonic::Rol, 2, 5, AddressingMode::ZeroPage)),
        0x27 => Some(OpCode::new(0x27, Mnemonic::Rla, 2, 5, AddressingMode::ZeroPage)),
        0x28 => Some(OpCode::new(0x28, Mnemonic::Plp, 1, 4, AddressingMode::NoneAddressing)),
        0x29 => Some(OpCode::new(0x29, Mnemonic::And, 2, 2, AddressingMode::Immediate)),
        0x2a => Some(OpCode::new(0x2a, Mnemonic::Rol, 1, 2, AddressingMode::NoneAddressing)),
        0x2b => Some(OpCode::new(0x2b, Mnemonic::Anc, 2, 2, AddressingMode::Immediate)),
        0x2c => Some(OpCode::new(0x2c, Mnemonic::Bit, 3, 4, AddressingMode::Absolute)),
        0x2d => Some(OpCode::new(0x2d, Mnemonic::And, 3, 4, AddressingMode::Absolute)),
        0x2e => Some(OpCode::new(0x2e, Mnemonic::Rol, 3, 6, AddressingMode::Absolute)),
        0x2f => Some(OpCode::new(0x2f, Mnemonic::Rla, 3, 6, AddressingMode::Absolute)),
        0x30 => Some(OpCode::new(0x30, Mnemonic::Bmi, 2, 2, AddressingMode::NoneAddressing)),
        0x31 => Some(OpCode::new(0x31, Mnemonic::And, 2, 5, AddressingMode::IndirectY)),
        0x33 => Some(OpCode::new(0x33, Mnemonic::Rla, 2, 8, AddressingMode::IndirectY)),
        0x34 => Some(OpCode::new(0x34, Mnemonic::IllegalNop, 2, 4, AddressingMode::ZeroPageX)),
        0x35 => Some(OpCode::new(0x35, Mnemonic::And, 2, 4, AddressingMode::ZeroPageX)),
        0x36 => Some(OpCode::new(0x36, Mnemonic::Rol, 2, 6, AddressingMode::ZeroPageX)),
        0x37 => Some(OpCode::new(0x37, Mnemonic::Rla, 2, 6, AddressingMode::ZeroPageX)),
        0x38 => Some(OpCode::new(0x38, Mnemonic::Sec, 1, 2, AddressingMode::NoneAddressing)),
        0x39 => Some(OpCode::new(0x39, Mnemonic::And, 3, 4, AddressingMode::AbsoluteY)),
        0x3a => Some(OpCode::new(0x3a, Mnemonic::IllegalNop, 1, 2, AddressingMode::NoneAddressing)),
        0x3b => Some(OpCode::new(0x3b, Mnemonic::Rla, 3, 7, AddressingMode::AbsoluteY)),
        0x3c => Some(OpCode::new(0x3c, Mnemonic::IllegalNop, 3, 4, AddressingMode::AbsoluteX)),
        0x3d => Some(OpCode::new(0x3d, Mnemonic::And, 3, 4, AddressingMode::AbsoluteX)),
        0x3e => Some(OpCode::new(0x3e, Mnemonic::Rol, 3, 7, AddressingMode::AbsoluteX)),
        0x3f => Some(OpCode::new(0x3f, Mnemonic::Rla, 3, 7, AddressingMode::AbsoluteX)),
        0x40 => Some(OpCode::new(0x40, Mnemonic::Rti, 1, 6, AddressingMode::NoneAddressing)),
        0x41 => Some(OpCode::new(0x41, Mnemonic::Eor, 2, 6, AddressingMode::IndirectX)),
        0x43 => Some(OpCode::new(0x43, Mnemonic::Sre, 2, 8, AddressingMode::IndirectX)),
        0x44 => Some(OpCode::new(0x44, Mnemonic::IllegalNop, 2, 3, AddressingMode::ZeroPage)),
        0x45 => Some(OpCode::new(0x45, Mnemonic::Eor, 2, 3, AddressingMode::ZeroPage)),
        0x46 => Some(OpCode::new(0x46, Mnemonic::Lsr, 2, 5, AddressingMode::ZeroPage)),
        0x47 => Some(OpCode::new(0x47, Mnemonic::Sre, 2, 5, AddressingMode::ZeroPage)),
        0x48 => Some(OpCode::new(0x48, Mnemonic::Pha, 1, 3, AddressingMode::NoneAddressing)),
        0x49 => Some(OpCode::new(0x49, Mnemonic::Eor, 2, 2, AddressingMode::Immediate)),
        0x4a => Some(OpCode::new(0x4a, Mnemonic::Lsr, 1, 2, AddressingMode::NoneAddressing)),
        0x4b => Some(OpCode::new(0x4b, Mnemonic::Alr, 2, 2, AddressingMode::Immediate)),
        0x4c => Some(OpCode::new(0x4c, Mnemonic::Jmp, 3, 3, AddressingMode::NoneAddressing)),
        0x4d => Some(OpCode::new(0x4d, Mnemonic::Eor, 3, 4, AddressingMode::Absolute)),
        0x4e => Some(OpCode::new(0x4e, Mnemonic::Lsr, 3, 6, AddressingMode::Absolute)),
        0x4f => Some(OpCode::new(0x4f, Mnemonic::Sre, 3, 6, AddressingMode::Absolute)),
        0x50 => Some(OpCode::new(0x50, Mnemonic::Bvc, 2, 2, AddressingMode::NoneAddressing)),
        0x51 => Some(OpCode::new(0x51, Mnemonic::Eor, 2, 5, AddressingMode::IndirectY)),
        0x53 => Some(OpCode::new(0x53, Mnemonic::Sre, 2, 8, AddressingMode::IndirectY)),
        0x54 => Some(OpCode::new(0x54, Mnemonic::IllegalNop, 2, 4, AddressingMode::ZeroPageX)),
        0x55 => Some(OpCode::new(0x55, Mnemonic::Eor, 2, 4, AddressingMode::ZeroPageX)),
        0x56 => Some(OpCode::new(0x56, Mnemonic::Lsr, 2, 6, AddressingMode::ZeroPageX)),
        0x57 => Some(OpCode::new(0x57, Mnemonic::Sre, 2, 6, AddressingMode::ZeroPageX)),
        0x58 => Some(OpCode::new(0x58, Mnemonic::Cli, 1, 2, AddressingMode::NoneAddressing)),
        0x59 => Some(OpCode::new(0x59, Mnemonic::Eor, 3, 4, AddressingMode::AbsoluteY)),
        0x5a => Some(OpCode::new(0x5a, Mnemonic::IllegalNop, 1, 2, AddressingMode::NoneAddressing)),
        0x5b => Some(OpCode::new(0x5b, Mnemonic::Sre, 3, 7, AddressingMode::AbsoluteY)),
        0x5c => Some(OpCode::new(0x5c, Mnemonic::IllegalNop, 3, 4, AddressingMode::AbsoluteX)),
        0x5d => Some(OpCode::new(0x5d, Mnemonic::Eor, 3, 4, AddressingMode::AbsoluteX)),
        0x5e => Some(OpCode::new(0x5e, Mnemonic::Lsr, 3, 7, AddressingMode::AbsoluteX)),
        0x5f => Some(OpCode::new(0x5f, Mnemonic::Sre, 3, 7, AddressingMode::AbsoluteX)),
        0x60 => Some(OpCode::new(0x60, Mnemonic::Rts, 1, 6, AddressingMode::NoneAddressing)),
        0x61 => Some(OpCode::new(0x61, Mnemonic::Adc, 2, 6, AddressingMode::IndirectX)),
        0x63 => Some(OpCode::new(0x63, Mnemonic::Rra, 2, 8, AddressingMode::IndirectX)),
        0x64 => Some(OpCode::new(0x64, Mnemonic::IllegalNop, 2, 3, AddressingMode::ZeroPage)),
        0x65 => Some(OpCode::new(0x65, Mnemonic::Adc, 2, 3, AddressingMode::ZeroPage)),
        0x66 => Some(OpCode::new(0x66, Mnemonic::Ror, 2, 5, AddressingMode::ZeroPage)),
        0x67 => Some(OpCode::new(0x67, Mnemonic::Rra, 2, 5, AddressingMode::ZeroPage)),
        0x68 => Some(OpCode::new(0x68, Mnemonic::Pla, 1, 4, AddressingMode::NoneAddressing)),
        0x69 => Some(OpCode::new(0x69, Mnemonic::Adc, 2, 2, AddressingMode::Immediate)),
        0x6a => Some(OpCode::new(0x6a, Mnemonic::Ror, 1, 2, AddressingMode::NoneAddressing)),
        0x6b => Some(OpCode::new(0x6b, Mnemonic::Arr, 2, 2, AddressingMode::Immediate)),
        0x6c => Some(OpCode::new(0x6c, Mnemonic::Jmp, 3, 5, AddressingMode::NoneAddressing)),
        0x6d => Some(OpCode::new(0x6d, Mnemonic::Adc, 3, 4, AddressingMode::Absolute)),
        0x6e => Some(OpCode::new(0x6e, Mnemonic::Ror, 3, 6, AddressingMode::Absolute)),
        0x6f => Some(OpCode::new(0x6f, Mnemonic::Rra, 3, 6, AddressingMode::Absolute)),
        0x70 => Some(OpCode::new(0x70, Mnemonic::Bvs, 2, 2, AddressingMode::NoneAddressing)),
        0x71 => Some(OpCode::new(0x71, Mnemonic::Adc, 2, 5, AddressingMode::IndirectY)),
        0x73 => Some(OpCode::new(0x73, Mnemonic::Rra, 2, 8, AddressingMode::IndirectY)),
        0x74 => Some(OpCode::new(0x74, Mnemonic::IllegalNop, 2, 4, AddressingMode::ZeroPageX)),
        0x75 => Some(OpCode::new(0x75, Mnemonic::Adc, 2, 4, AddressingMode::ZeroPageX)),
        0x76 => Some(OpCode::new(0x76, Mnemonic::Ror, 2, 6, AddressingMode::ZeroPageX)),
        0x77 => Some(OpCode::new(0x77, Mnemonic::Rra, 2, 6, AddressingMode::ZeroPageX)),
        0x78 => Some(OpCode::new(0x78, Mnemonic::Sei, 1, 2, AddressingMode::NoneAddressing)),
        0x79 => Some(OpCode::new(0x79, Mnemonic::Adc, 3, 4, AddressingMode::AbsoluteY)),
        0x7a => Some(OpCode::new(0x7a, Mnemonic::IllegalNop, 1, 2, AddressingMode::NoneAddressing)),
        0x7b => Some(OpCode::new(0x7b, Mnemonic::Rra, 3, 7, AddressingMode::AbsoluteY)),
        0x7c => Some(OpCode::new(0x7c, Mnemonic::IllegalNop, 3, 4, AddressingMode::AbsoluteX)),
        0x7d => Some(OpCode::new(0x7d, Mnemonic::Adc, 3, 4, AddressingMode::AbsoluteX)),
        0x7e => Some(OpCode::new(0x7e, Mnemonic::Ror, 3, 7, AddressingMode::AbsoluteX)),
        0x7f => Some(OpCode::new(0x7f, Mnemonic::Rra, 3, 7, AddressingMode::AbsoluteX)),
        0x80 => Some(OpCode::new(0x80, Mnemonic::IllegalNop, 2, 2, AddressingMode::Immediate)),
        0x81 => Some(OpCode::new(0x81, Mnemonic::Sta, 2, 6, AddressingMode::IndirectX)),
        0x82 => Some(OpCode::new(0x82, Mnemonic::IllegalNop, 2, 2, AddressingMode::Immediate)),
        0x83 => Some(OpCode::new(0x83, Mnemonic::Sax, 2, 6, AddressingMode::IndirectX)),
        0x84 => Some(OpCode::new(0x84, Mnemonic::Sty, 2, 3, AddressingMode::ZeroPage)),
        0x85 => Some(OpCode::new(0x85, Mnemonic::Sta, 2, 3, AddressingMode::ZeroPage)),
        0x86 => Some(OpCode::new(0x86, Mnemonic::Stx, 2, 3, AddressingMode::ZeroPage)),
        0x87 => Some(OpCode::new(0x87, Mnemonic::Sax, 2, 3, AddressingMode::ZeroPage)),
        0x88 => Some(OpCode::new(0x88, Mnemonic::Dey, 1, 2, AddressingMode::NoneAddressing)),
        0x89 => Some(OpCode::new(0x89, Mnemonic::IllegalNop, 2, 2, AddressingMode::Immediate)),
        0x8a => Some(OpCode::new(0x8a, Mnemonic::Txa, 1, 2, AddressingMode::NoneAddressing)),
        0x8b => Some(OpCode::new(0x8b, Mnemonic::Xaa, 2, 3, AddressingMode::Immediate)),
        0x8c => Some(OpCode::new(0x8c, Mnemonic::Sty, 3, 4, AddressingMode::Absolute)),
        0x8d => Some(OpCode::new(0x8d, Mnemonic::Sta, 3, 4, AddressingMode::Absolute)),
        0x8e => Some(OpCode::new(0x8e, Mnemonic::Stx, 3, 4, AddressingMode::Absolute)),
        0x8f => Some(OpCode::new(0x8f, Mnemonic::Sax, 3, 4, AddressingMode::Absolute)),
        0x90 => Some(OpCode::new(0x90, Mnemonic::Bcc, 2, 2, AddressingMode::NoneAddressing)),
        0x91 => Some(OpCode::new(0x91, Mnemonic::Sta, 2, 6, AddressingMode::IndirectY)),
        0x93 => Some(OpCode::new(0x93, Mnemonic::Ahx, 2, 8, AddressingMode::IndirectY)),
        0x94 => Some(OpCode::new(0x94, Mnemonic::Sty, 2, 4, AddressingMode::ZeroPageX)),
        0x95 => Some(OpCode::new(0x95, Mnemonic::Sta, 2, 4, AddressingMode::ZeroPageX)),
        0x96 => Some(OpCode::new(0x96, Mnemonic::Stx, 2, 4, AddressingMode::ZeroPageY)),
        0x97 => Some(OpCode::new(0x97, Mnemonic::Sax, 2, 4, AddressingMode::ZeroPageY)),
        0x98 => Some(OpCode::new(0x98, Mnemonic::Tya, 1, 2, AddressingMode::NoneAddressing)),
        0x99 => Some(OpCode::new(0x99, Mnemonic::Sta, 3, 5, AddressingMode::AbsoluteY)),
        0x9a => Some(OpCode::new(0x9a, Mnemonic::Txs, 1, 2, AddressingMode::NoneAddressing)),
        0x9b => Some(OpCode::new(0x9b, Mnemonic::Tas, 3, 2, AddressingMode::AbsoluteY)),
        0x9c => Some(OpCode::new(0x9c, Mnemonic::Shy, 3, 4, AddressingMode::AbsoluteX)),
        0x9d => Some(OpCode::new(0x9d, Mnemonic::Sta, 3, 5, AddressingMode::AbsoluteX)),
        0x9e => Some(OpCode::new(0x9e, Mnemonic::Shx, 3, 4, AddressingMode::AbsoluteY)),
        0x9f => Some(OpCode::new(0x9f, Mnemonic::Ahx, 3, 4, AddressingMode::AbsoluteY)),
        0xa0 => Some(OpCode::new(0xa0, Mnemonic::Ldy, 2, 2, AddressingMode::Immediate)),
        0xa1 => Some(OpCode::new(0xa1, Mnemonic::Lda, 2, 6, AddressingMode::IndirectX)),
        0xa2 => Some(OpCode::new(0xa2, Mnemonic::Ldx, 2, 2, AddressingMode::Immediate)),
        0xa3 => Some(OpCode::new(0xa3, Mnemonic::Lax, 2, 6, AddressingMode::IndirectX)),
        0xa4 => Some(OpCode::new(0xa4, Mnemonic::Ldy, 2, 3, AddressingMode::ZeroPage)),
        0xa5 => Some(OpCode::new(0xa5, Mnemonic::Lda, 2, 3, AddressingMode::ZeroPage)),
        0xa6 => Some(OpCode::new(0xa6, Mnemonic::Ldx, 2, 3, AddressingMode::ZeroPage)),
        0xa7 => Some(OpCode::new(0xa7, Mnemonic::Lax, 2, 3, AddressingMode::ZeroPage)),
        0xa8 => Some(OpCode::new(0xa8, Mnemonic::Tay, 1, 2, AddressingMode::NoneAddressing)),
        0xa9 => Some(OpCode::new(0xa9, Mnemonic::Lda, 2, 2, AddressingMode::Immediate)),
        0xaa => Some(OpCode::new(0xaa, Mnemonic::Tax, 1, 2, AddressingMode::NoneAddressing)),
        0xab => Some(OpCode::new(0xab, Mnemonic::Lxa, 2, 3, AddressingMode::Immediate)),
        0xac => Some(OpCode::new(0xac, Mnemonic::Ldy, 3, 4, AddressingMode::Absolute)),
        0xad => Some(OpCode::new(0xad, Mnemonic::Lda, 3, 4, AddressingMode::Absolute)),
        0xae => Some(OpCode::new(0xae, Mnemonic::Ldx, 3, 4, AddressingMode::Absolute)),
        0xaf => Some(OpCode::new(0xaf, Mnemonic::Lax, 3, 4, AddressingMode::Absolute)),
        0xb0 => Some(OpCode::new(0xb0, Mnemonic::Bcs, 2, 2, AddressingMode::NoneAddressing)),
        0xb1 => Some(OpCode::new(0xb1, Mnemonic::Lda, 2, 5, AddressingMode::IndirectY)),
        0xb3 => Some(OpCode::new(0xb3, Mnemonic::Lax, 2, 5, AddressingMode::IndirectY)),
        0xb4 => Some(OpCode::new(0xb4, Mnemonic::Ldy, 2, 4, AddressingMode::ZeroPageX)),
        0xb5 => Some(OpCode::new(0xb5, Mnemonic::Lda, 2, 4, AddressingMode::ZeroPageX)),
        0xb6 => Some(OpCode::new(0xb6, Mnemonic::Ldx, 2, 4, AddressingMode::ZeroPageY)),
        0xb7 => Some(OpCode::new(0xb7, Mnemonic::Lax, 2, 4, AddressingMode::ZeroPageY)),
        0xb8 => Some(OpCode::new(0xb8, Mnemonic::Clv, 1, 2, AddressingMode::NoneAddressing)),
        0xb9 => Some(OpCode::new(0xb9, Mnemonic::Lda, 3, 4, AddressingMode::AbsoluteY)),
        0xba => Some(OpCode::new(0xba, Mnemonic::Tsx, 1, 2, AddressingMode::NoneAddressing)),
        0xbb => Some(OpCode::new(0xbb, Mnemonic::Las, 3, 2, AddressingMode::AbsoluteY)),
        0xbc => Some(OpCode::new(0xbc, Mnemonic::Ldy, 3, 4, AddressingMode::AbsoluteX)),
        0xbd => Some(OpCode::new(0xbd, Mnemonic::Lda, 3, 4, AddressingMode::AbsoluteX)),
        0xbe => Some(OpCode::new(0xbe, Mnemonic::Ldx, 3, 4, AddressingMode::AbsoluteY)),
        0xbf => Some(OpCode::new(0xbf, Mnemonic::Lax, 3, 4, AddressingMode::AbsoluteY)),
        0xc0 => Some(OpCode::new(0xc0, Mnemonic::Cpy, 2, 2, AddressingMode::Immediate)),
        0xc1 => Some(OpCode::new(0xc1, Mnemonic::Cmp, 2, 6, AddressingMode::IndirectX)),
        0xc2 => Some(OpCode::new(0xc2, Mnemonic::IllegalNop, 2, 2, AddressingMode::Immediate)),
        0xc3 => Some(OpCode::new(0xc3, Mnemonic::Dcp, 2, 8, AddressingMode::IndirectX)),
        0xc4 => Some(OpCode::new(0xc4, Mnemonic::Cpy, 2, 3, AddressingMode::ZeroPage)),
        0xc5 => Some(OpCode::new(0xc5, Mnemonic::Cmp, 2, 3, AddressingMode::ZeroPage)),
        0xc6 => Some(OpCode::new(0xc6, Mnemonic::Dec, 2, 5, AddressingMode::ZeroPage)),
        0xc7 => Some(OpCode::new(0xc7, Mnemonic::Dcp, 2, 5, AddressingMode::ZeroPage)),
        0xc8 => Some(OpCode::new(0xc8, Mnemonic::Iny, 1, 2, AddressingMode::NoneAddressing)),
        0xc9 => Some(OpCode::new(0xc9, Mnemonic::Cmp, 2, 2, AddressingMode::Immediate)),
        0xca => Some(OpCode::new(0xca, Mnemonic::Dex, 1, 2, AddressingMode::NoneAddressing)),
        0xcb => Some(OpCode::new(0xcb, Mnemonic::Axs, 2, 2, AddressingMode::Immediate)),
        0xcc => Some(OpCode::new(0xcc, Mnemonic::Cpy, 3, 4, AddressingMode::Absolute)),
        0xcd => Some(OpCode::new(0xcd, Mnemonic::Cmp, 3, 4, AddressingMode::Absolute)),
        0xce => Some(OpCode::new(0xce, Mnemonic::Dec, 3, 6, AddressingMode::Absolute)),
        0xcf => Some(OpCode::new(0xcf, Mnemonic::Dcp, 3, 6, AddressingMode::Absolute)),
        0xd0 => Some(OpCode::new(0xd0, Mnemonic::Bne, 2, 2, AddressingMode::NoneAddressing)),
        0xd1 => Some(OpCode::new(0xd1, Mnemonic::Cmp, 2, 5, AddressingMode::IndirectY)),
        0xd3 => Some(OpCode::new(0xd3, Mnemonic::Dcp, 2, 8, AddressingMode::IndirectY)),
        0xd4 => Some(OpCode::new(0xd4, Mnemonic::IllegalNop, 2, 4, AddressingMode::ZeroPageX)),
        0xd5 => Some(OpCode::new(0xd5, Mnemonic::Cmp, 2, 4, AddressingMode::ZeroPageX)),
        0xd6 => Some(OpCode::new(0xd6, Mnemonic::Dec, 2, 6, AddressingMode::ZeroPageX)),
        0xd7 => Some(OpCode::new(0xd7, Mnemonic::Dcp, 2, 6, AddressingMode::ZeroPageX)),
        0xd8 => Some(OpCode::new(0xd8, Mnemonic::Cld, 1, 2, AddressingMode::NoneAddressing)),
        0xd9 => Some(OpCode::new(0xd9, Mnemonic::Cmp, 3, 4, AddressingMode::AbsoluteY)),
        0xda => Some(OpCode::new(0xda, Mnemonic::IllegalNop, 1, 2, AddressingMode::NoneAddressing)),
        0xdb => Some(OpCode::new(0xdb, Mnemonic::Dcp, 3, 7, AddressingMode::AbsoluteY)),
        0xdc => Some(OpCode::new(0xdc, Mnemonic::IllegalNop, 3, 4, AddressingMode::AbsoluteX)),
        0xdd => Some(OpCode::new(0xdd, Mnemonic::Cmp, 3, 4, AddressingMode::AbsoluteX)),
        0xde => Some(OpCode::new(0xde, Mnemonic::Dec, 3, 7, AddressingMode::AbsoluteX)),
        0xdf => Some(OpCode::new(0xdf, Mnemonic::Dcp, 3, 7, AddressingMode::AbsoluteX)),
        0xe0 => Some(OpCode::new(0xe0, Mnemonic::Cpx, 2, 2, AddressingMode::Immediate)),
        0xe1 => Some(OpCode::new(0xe1, Mnemonic::Sbc, 2, 6, AddressingMode::IndirectX)),
        0xe2 => Some(OpCode::new(0xe2, Mnemonic::IllegalNop, 2, 2, AddressingMode::Immediate)),
        0xe3 => Some(OpCode::new(0xe3, Mnemonic::Isc, 2, 8, AddressingMode::IndirectX)),
        0xe4 => Some(OpCode::new(0xe4, Mnemonic::Cpx, 2, 3, AddressingMode::ZeroPage)),
        0xe5 => Some(OpCode::new(0xe5, Mnemonic::Sbc, 2, 3, AddressingMode::ZeroPage)),
        0xe6 => Some(OpCode::new(0xe6, Mnemonic::Inc, 2, 5, AddressingMode::ZeroPage)),
        0xe7 => Some(OpCode::new(0xe7, Mnemonic::Isc, 2, 5, AddressingMode::ZeroPage)),
        0xe8 => Some(OpCode::new(0xe8, Mnemonic::Inx, 1, 2, AddressingMode::NoneAddressing)),
        0xe9 => Some(OpCode::new(0xe9, Mnemonic::Sbc, 2, 2, AddressingMode::Immediate)),
        0xea => Some(OpCode::new(0xea, Mnemonic::Nop, 1, 2, AddressingMode::NoneAddressing)),
        0xeb => Some(OpCode::new(0xeb, Mnemonic::IllegalSbc, 2, 2, AddressingMode::Immediate)),
        0xec => Some(OpCode::new(0xec, Mnemonic::Cpx, 3, 4, AddressingMode::Absolute)),
        0xed => Some(OpCode::new(0xed, Mnemonic::Sbc, 3, 4, AddressingMode::Absolute)),
        0xee => Some(OpCode::new(0xee, Mnemonic::Inc, 3, 6, AddressingMode::Absolute)),
        0xef => Some(OpCode::new(0xef, Mnemonic::Isc, 3, 6, AddressingMode::Absolute)),
        0xf0 => Some(OpCode::new(0xf0, Mnemonic::Beq, 2, 2, AddressingMode::NoneAddressing)),
        0xf1 => Some(OpCode::new(0xf1, Mnemonic::Sbc, 2, 5, AddressingMode::IndirectY)),
        0xf3 => Some(OpCode::new(0xf3, Mnemonic::Isc, 2, 8, AddressingMode::IndirectY)),
        0xf4 => Some(OpCode::new(0xf4, Mnemonic::IllegalNop, 2, 4, AddressingMode::ZeroPageX)),
        0xf5 => Some(OpCode::new(0xf5, Mnemonic::Sbc, 2, 4, AddressingMode::ZeroPageX)),
        0xf6 => Some(OpCode::new(0xf6, Mnemonic::Inc, 2, 6, AddressingMode::ZeroPageX)),
        0xf7 => Some(OpCode::new(0xf7, Mnemonic::Isc, 2, 6, AddressingMode::ZeroPageX)),
        0xf8 => Some(OpCode::new(0xf8, Mnemonic::Sed, 1, 2, AddressingMode::NoneAddressing)),
        0xf9 => Some(OpCode::new(0xf9, Mnemonic::Sbc, 3, 4, AddressingMode::AbsoluteY)),
        0xfa => Some(OpCode::new(0xfa, Mnemonic::IllegalNop, 1, 2, AddressingMode::NoneAddressing)),
        0xfb => Some(OpCode::new(0xfb, Mnemonic::Isc, 3, 7, AddressingMode::AbsoluteY)),
        0xfc => Some(OpCode::new(0xfc, Mnemonic::IllegalNop, 3, 4, AddressingMode::AbsoluteX)),
        0xfd => Some(OpCode::new(0xfd, Mnemonic::Sbc, 3, 4, AddressingMode::AbsoluteX)),
        0xfe => Some(OpCode::new(0xfe, Mnemonic::Inc, 3, 7, AddressingMode::AbsoluteX)),
        0xff => Some(OpCode::new(0xff, Mnemonic::Isc, 3, 7, AddressingMode::AbsoluteX)),
        _ => None,
    }
}

/// Every entry of the table is filed under its own code, is one to three
/// bytes long and takes two to eight cycles.
pub proof fn lemma_opcode_table_entries(code: u8)
    ensures
        opcode_table(code) matches Some(op) ==> op.code == code && 1 <= op.len <= 3 && 2 <= op.cycles <= 8,
{
}

/// The documented arithmetic, logic, load and store opcodes follow the
/// 6502's encoding: for a code whose two low bits are 01 (other than $89,
/// which has no documented meaning), bits 7..5 choose the operation (ORA,
/// AND, EOR, ADC, STA, LDA, CMP, SBC) and bits 4..2 the addressing mode
/// ((zp,X), zp, #imm, abs, (zp),Y, zp,X, abs,Y, abs,X), which fixes the
/// length; the cycles are 6, 3, 2, 4, 5, 4, 4, 4 by mode, one more for a store
/// through (zp),Y, abs,Y or abs,X.
pub proof fn lemma_alu_opcode_encoding(code: u8)
    requires
        code % 4 == 1,
        code != 0x89,
    ensures
        ({
            let op_index = code / 32;
            let mode_index = (code / 4) % 8;
            let store_extra: int = if op_index == 4 && (mode_index == 4 || mode_index >= 6) { 1 } else { 0 };
            opcode_table(code) matches Some(op) && {
                &&& op.mnemonic == seq![
                    Mnemonic::Ora,
                    Mnemonic::And,
                    Mnemonic::Eor,
                    Mnemonic::Adc,
                    Mnemonic::Sta,
                    Mnemonic::Lda,
                    Mnemonic::Cmp,
                    Mnemonic::Sbc,
                ][op_index as int]
                &&& op.mode == seq![
                    AddressingMode::IndirectX,
                    AddressingMode::ZeroPage,
                    AddressingMode::Immediate,
                    AddressingMode::Absolute,
                    AddressingMode::IndirectY,
                    AddressingMode::ZeroPageX,
                    AddressingMode::AbsoluteY,
                    AddressingMode::AbsoluteX,
                ][mode_index as int]
                &&& op.len == seq![2u8, 2, 2, 3, 2, 2, 3, 3][mode_index as int]
                &&& op.cycles == seq![6int, 3, 2, 4, 5, 4, 4, 4][mode_index as int] + store_extra
            }
        }),
{
}

} // verus!
