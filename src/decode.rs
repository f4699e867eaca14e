use vstd::prelude::*;
use crate::cpu_6505::{self, AccessType, AddressMode, Instruction, Mnemonic};

verus! {

/// The documented 6502 instruction set: mnemonic and addressing mode of each
/// opcode, `None` for the undocumented ones.
pub open spec fn decode_spec(opcode: u8) -> Option<Instruction> {
    match opcode {
        0x00 => Some(Instruction { name: Mnemonic::Brk, mode: AddressMode::Special }),
        0x01 => Some(Instruction { name: Mnemonic::Ora, mode: AddressMode::XIndexedIndirect(AccessType::Read) }),
        0x05 => Some(Instruction { name: Mnemonic::Ora, mode: AddressMode::ZeroPage(AccessType::Read) }),
        0x06 => Some(Instruction { name: Mnemonic::Asl, mode: AddressMode::ZeroPage(AccessType::ReadModifyWrite) }),
        0x08 => Some(Instruction { name: Mnemonic::Php, mode: AddressMode::Special }),
        0x09 => Some(Instruction { name: Mnemonic::Ora, mode: AddressMode::Immediate }),
        0x0A => Some(Instruction { name: Mnemonic::Asl, mode: AddressMode::Accumulator }),
        0x0D => Some(Instruction { name: Mnemonic::Ora, mode: AddressMode::Absolute(AccessType::Read) }),
        0x0E => Some(Instruction { name: Mnemonic::Asl, mode: AddressMode::Absolute(AccessType::ReadModifyWrite) }),
        0x10 => Some(Instruction { name: Mnemonic::Bpl, mode: AddressMode::Relative }),
        0x11 => Some(Instruction { name: Mnemonic::Ora, mode: AddressMode::IndirectIndexedY(AccessType::Read) }),
        0x15 => Some(Instruction { name: Mnemonic::Ora, mode: AddressMode::ZeroPageIndexedX(AccessType::Read) }),
        0x16 => Some(Instruction { name: Mnemonic::Asl, mode: AddressMode::ZeroPageIndexedX(AccessType::ReadModifyWrite) }),
        0x18 => Some(Instruction { name: Mnemonic::Clc, mode: AddressMode::Implied }),
        0x19 => Some(Instruction { name: Mnemonic::Ora, mode: AddressMode::AbsoluteIndexedY(AccessType::Read) }),
        0x1D => Some(Instruction { name: Mnemonic::Ora, mode: AddressMode::AbsoluteIndexedX(AccessType::Read) }),
        0x1E => Some(Instruction { name: Mnemonic::Asl, mode: AddressMode::AbsoluteIndexedX(AccessType::ReadModifyWrite) }),
        0x20 => Some(Instruction { name: Mnemonic::Jsr, mode: AddressMode::Special }),
        0x21 => Some(Instruction { name: Mnemonic::And, mode: AddressMode::XIndexedIndirect(AccessType::Read) }),
        0x24 => Some(Instruction { name: Mnemonic::Bit, mode: AddressMode::ZeroPage(AccessType::Read) }),
        0x25 => Some(Instruction { name: Mnemonic::And, mode: AddressMode::ZeroPage(AccessType::Read) }),
        0x26 => Some(Instruction { name: Mnemonic::Rol, mode: AddressMode::ZeroPage(AccessType::ReadModifyWrite) }),
        0x28 => Some(Instruction { name: Mnemonic::Plp, mode: AddressMode::Special }),
        0x29 => Some(Instruction { name: Mnemonic::And, mode: AddressMode::Immediate }),
        0x2A => Some(Instruction { name: Mnemonic::Rol, mode: AddressMode::Accumulator }),
        0x2C => Some(Instruction { name: Mnemonic::Bit, mode: AddressMode::Absolute(AccessType::Read) }),
        0x2D => Some(Instruction { name: Mnemonic::And, mode: AddressMode::Absolute(AccessType::Read) }),
        0x2E => Some(Instruction { name: Mnemonic::Rol, mode: AddressMode::Absolute(AccessType::ReadModifyWrite) }),
        0x30 => Some(Instruction { name: Mnemonic::Bmi, mode: AddressMode::Relative }),
        0x31 => Some(Instruction { name: Mnemonic::And, mode: AddressMode::IndirectIndexedY(AccessType::Read) }),
        0x35 => Some(Instruction { name: Mnemonic::And, mode: AddressMode::ZeroPageIndexedX(AccessType::Read) }),
        0x36 => Some(Instruction { name: Mnemonic::Rol, mode: AddressMode::ZeroPageIndexedX(AccessType::ReadModifyWrite) }),
        0x38 => Some(Instruction { name: Mnemonic::Sec, mode: AddressMode::Implied }),
        0x39 => Some(Instruction { name: Mnemonic::And, mode: AddressMode::AbsoluteIndexedY(AccessType::Read) }),
        0x3D => Some(Instruction { name: Mnemonic::And, mode: AddressMode::AbsoluteIndexedX(AccessType::Read) }),
        0x3E => Some(Instruction { name: Mnemonic::Rol, mode: AddressMode::AbsoluteIndexedX(AccessType::ReadModifyWrite) }),
        0x40 => Some(Instruction { name: Mnemonic::Rti, mode: AddressMode::Special }),
        0x41 => Some(Instruction { name: Mnemonic::Eor, mode: AddressMode::XIndexedIndirect(AccessType::Read) }),
        0x45 => Some(Instruction { name: Mnemonic::Eor, mode: AddressMode::ZeroPage(AccessType::Read) }),
        0x46 => Some(Instruction { name: Mnemonic::Lsr, mode: AddressMode::ZeroPage(AccessType::ReadModifyWrite) }),
        0x48 => Some(Instruction { name: Mnemonic::Pha, mode: AddressMode::Special }),
        0x49 => Some(Instruction { name: Mnemonic::Eor, mode: AddressMode::Immediate }),
        0x4A => Some(Instruction { name: Mnemonic::Lsr, mode: AddressMode::Accumulator }),
        0x4C => Some(Instruction { name: Mnemonic::Jmp, mode: AddressMode::Absolute(AccessType::Read) }),
        0x4D => Some(Instruction { name: Mnemonic::Eor, mode: AddressMode::Absolute(AccessType::Read) }),
        0x4E => Some(Instruction { name: Mnemonic::Lsr, mode: AddressMode::Absolute(AccessType::ReadModifyWrite) }),
        0x50 => Some(Instruction { name: Mnemonic::Bvc, mode: AddressMode::Relative }),
        0x51 => Some(Instruction { name: Mnemonic::Eor, mode: AddressMode::IndirectIndexedY(AccessType::Read) }),
        0x55 => Some(Instruction { name: Mnemonic::Eor, mode: AddressMode::ZeroPageIndexedX(AccessType::Read) }),
        0x56 => Some(Instruction { name: Mnemonic::Lsr, mode: AddressMode::ZeroPageIndexedX(AccessType::ReadModifyWrite) }),
        0x58 => Some(Instruction { name: Mnemonic::Cli, mode: AddressMode::Implied }),
        0x59 => Some(Instruction { name: Mnemonic::Eor, mode: AddressMode::AbsoluteIndexedY(AccessType::Read) }),
        0x5D => Some(Instruction { name: Mnemonic::Eor, mode: AddressMode::AbsoluteIndexedX(AccessType::Read) }),
        0x5E => Some(Instruction { name: Mnemonic::Lsr, mode: AddressMode::AbsoluteIndexedX(AccessType::ReadModifyWrite) }),
        0x60 => Some(Instruction { name: Mnemonic::Rts, mode: AddressMode::Special }),
        0x61 => Some(Instruction { name: Mnemonic::Adc, mode: AddressMode::XIndexedIndirect(AccessType::Read) }),
        0x65 => Some(Instruction { name: Mnemonic::Adc, mode: AddressMode::ZeroPage(AccessType::Read) }),
        0x66 => Some(Instruction { name: Mnemonic::Ror, mode: AddressMode::ZeroPage(AccessType::ReadModifyWrite) }),
        0x68 => Some(Instruction { name: Mnemonic::Pla, mode: AddressMode::Special }),
        0x69 => Some(Instruction { name: Mnemonic::Adc, mode: AddressMode::Immediate }),
        0x6A => Some(Instruction { name: Mnemonic::Ror, mode: AddressMode::Accumulator }),
        0x6C => Some(Instruction { name: Mnemonic::Jmp, mode: AddressMode::Indirect }),
        0x6D => Some(Instruction { name: Mnemonic::Adc, mode: AddressMode::Absolute(AccessType::Read) }),
        0x6E => Some(Instruction { name: Mnemonic::Ror, mode: AddressMode::Absolute(AccessType::ReadModifyWrite) }),
        0x70 => Some(Instruction { name: Mnemonic::Bvs, mode: AddressMode::Relative }),
        0x71 => Some(Instruction { name: Mnemonic::Adc, mode: AddressMode::IndirectIndexedY(AccessType::Read) }),
        0x75 => Some(Instruction { name: Mnemonic::Adc, mode: AddressMode::ZeroPageIndexedX(AccessType::Read) }),
        0x76 => Some(Instruction { name: Mnemonic::Ror, mode: AddressMode::ZeroPageIndexedX(AccessType::ReadModifyWrite) }),
        0x78 => Some(Instruction { name: Mnemonic::Sei, mode: AddressMode::Implied }),
        0x79 => Some(Instruction { name: Mnemonic::Adc, mode: AddressMode::AbsoluteIndexedY(AccessType::Read) }),
        0x7D => Some(Instruction { name: Mnemonic::Adc, mode: AddressMode::AbsoluteIndexedX(AccessType::Read) }),
        0x7E => Some(Instruction { name: Mnemonic::Ror, mode: AddressMode::AbsoluteIndexedX(AccessType::ReadModifyWrite) }),
        0x81 => Some(Instruction { name: Mnemonic::Sta, mode: AddressMode::XIndexedIndirect(AccessType::Write) }),
        0x84 => Some(Instruction { name: Mnemonic::Sty, mode: AddressMode::ZeroPage(AccessType::Write) }),
        0x85 => Some(Instruction { name: Mnemonic::Sta, mode: AddressMode::ZeroPage(AccessType::Write) }),
        0x86 => Some(Instruction { name: Mnemonic::Stx, mode: AddressMode::ZeroPage(AccessType::Write) }),
        0x88 => Some(Instruction { name: Mnemonic::Dey, mode: AddressMode::Implied }),
        0x8A => Some(Instruction { name: Mnemonic::Txa, mode: AddressMode::Implied }),
        0x8C => Some(Instruction { name: Mnemonic::Sty, mode: AddressMode::Absolute(AccessType::Write) }),
        0x8D => Some(Instruction { name: Mnemonic::Sta, mode: AddressMode::Absolute(AccessType::Write) }),
        0x8E => Some(Instruction { name: Mnemonic::Stx, mode: AddressMode::Absolute(AccessType::Write) }),
        0x90 => Some(Instruction { name: Mnemonic::Bcc, mode: AddressMode::Relative }),
        0x91 => Some(Instruction { name: Mnemonic::Sta, mode: AddressMode::IndirectIndexedY(AccessType::Write) }),
        0x94 => Some(Instruction { name: Mnemonic::Sty, mode: AddressMode::ZeroPageIndexedX(AccessType::Write) }),
        0x95 => Some(Instruction { name: Mnemonic::Sta, mode: AddressMode::ZeroPageIndexedX(AccessType::Write) }),
        0x96 => Some(Instruction { name: Mnemonic::Stx, mode: AddressMode::ZeroPageIndexedY(AccessType::Write) }),
        0x98 => Some(Instruction { name: Mnemonic::Tya, mode: AddressMode::Implied }),
        0x99 => Some(Instruction { name: Mnemonic::Sta, mode: AddressMode::AbsoluteIndexedY(AccessType::Write) }),
        0x9A => Some(Instruction { name: Mnemonic::Txs, mode: AddressMode::Implied }),
        0x9D => Some(Instruction { name: Mnemonic::Sta, mode: AddressMode::AbsoluteIndexedX(AccessType::Write) }),
        0xA0 => Some(Instruction { name: Mnemonic::Ldy, mode: AddressMode::Immediate }),
        0xA1 => Some(Instruction { name: Mnemonic::Lda, mode: AddressMode::XIndexedIndirect(AccessType::Read) }),
        0xA2 => Some(Instruction { name: Mnemonic::Ldx, mode: AddressMode::Immediate }),
        0xA4 => Some(Instruction { name: Mnemonic::Ldy, mode: AddressMode::ZeroPage(AccessType::Read) }),
        0xA5 => Some(Instruction { name: Mnemonic::Lda, mode: AddressMode::ZeroPage(AccessType::Read) }),
        0xA6 => Some(Instruction { name: Mnemonic::Ldx, mode: AddressMode::ZeroPage(AccessType::Read) }),
        0xA8 => Some(Instruction { name: Mnemonic::Tay, mode: AddressMode::Implied }),
        0xA9 => Some(Instruction { name: Mnemonic::Lda, mode: AddressMode::Immediate }),
        0xAA => Some(Instruction { name: Mnemonic::Tax, mode: AddressMode::Implied }),
        0xAC => Some(Instruction { name: Mnemonic::Ldy, mode: AddressMode::Absolute(AccessType::Read) }),
        0xAD => Some(Instruction { name: Mnemonic::Lda, mode: AddressMode::Absolute(AccessType::Read) }),
        0xAE => Some(Instruction { name: Mnemonic::Ldx, mode: AddressMode::Absolute(AccessType::Read) }),
        0xB0 => Some(Instruction { name: Mnemonic::Bcs, mode: AddressMode::Relative }),
        0xB1 => Some(Instruction { name: Mnemonic::Lda, mode: AddressMode::IndirectIndexedY(AccessType::Read) }),
        0xB4 => Some(Instruction { name: Mnemonic::Ldy, mode: AddressMode::ZeroPageIndexedX(AccessType::Read) }),
        0xB5 => Some(Instruction { name: Mnemonic::Lda, mode: AddressMode::ZeroPageIndexedX(AccessType::Read) }),
        0xB6 => Some(Instruction { name: Mnemonic::Ldx, mode: AddressMode::ZeroPageIndexedY(AccessType::Read) }),
        0xB8 => Some(Instruction { name: Mnemonic::Clv, mode: AddressMode::Implied }),
        0xB9 => Some(Instruction { name: Mnemonic::Lda, mode: AddressMode::AbsoluteIndexedY(AccessType::Read) }),
        0xBA => Some(Instruction { name: Mnemonic::Tsx, mode: AddressMode::Implied }),
        0xBC => Some(Instruction { name: Mnemonic::Ldy, mode: AddressMode::AbsoluteIndexedX(AccessType::Read) }),
        0xBD => Some(Instruction { name: Mnemonic::Lda, mode: AddressMode::AbsoluteIndexedX(AccessType::Read) }),
        0xBE => Some(Instruction { name: Mnemonic::Ldx, mode: AddressMode::AbsoluteIndexedY(AccessType::Read) }),
        0xC0 => Some(Instruction { name: Mnemonic::Cpy, mode: AddressMode::Immediate }),
        0xC1 => Some(Instruction { name: Mnemonic::Cmp, mode: AddressMode::XIndexedIndirect(AccessType::Read) }),
        0xC4 => Some(Instruction { name: Mnemonic::Cpy, mode: AddressMode::ZeroPage(AccessType::Read) }),
        0xC5 => Some(Instruction { name: Mnemonic::Cmp, mode: AddressMode::ZeroPage(AccessType::Read) }),
        0xC6 => Some(Instruction { name: Mnemonic::Dec, mode: AddressMode::ZeroPage(AccessType::ReadModifyWrite) }),
        0xC8 => Some(Instruction { name: Mnemonic::Iny, mode: AddressMode::Implied }),
        0xC9 => Some(Instruction { name: Mnemonic::Cmp, mode: AddressMode::Immediate }),
        0xCA => Some(Instruction { name: Mnemonic::Dex, mode: AddressMode::Implied }),
        0xCC => Some(Instruction { name: Mnemonic::Cpy, mode: AddressMode::Absolute(AccessType::Read) }),
        0xCD => Some(Instruction { name: Mnemonic::Cmp, mode: AddressMode::Absolute(AccessType::Read) }),
        0xCE => Some(Instruction { name: Mnemonic::Dec, mode: AddressMode::Absolute(AccessType::ReadModifyWrite) }),
        0xD0 => Some(Instruction { name: Mnemonic::Bne, mode: AddressMode::Relative }),
        0xD1 => Some(Instruction { name: Mnemonic::Cmp, mode: AddressMode::IndirectIndexedY(AccessType::Read) }),
        0xD5 => Some(Instruction { name: Mnemonic::Cmp, mode: AddressMode::ZeroPageIndexedX(AccessType::Read) }),
        0xD6 => Some(Instruction { name: Mnemonic::Dec, mode: AddressMode::ZeroPageIndexedX(AccessType::ReadModifyWrite) }),
        0xD8 => Some(Instruction { name: Mnemonic::Cld, mode: AddressMode::Implied }),
        0xD9 => Some(Instruction { name: Mnemonic::Cmp, mode: AddressMode::AbsoluteIndexedY(AccessType::Read) }),
        0xDD => Some(Instruction { name: Mnemonic::Cmp, mode: AddressMode::AbsoluteIndexedX(AccessType::Read) }),
        0xDE => Some(Instruction { name: Mnemonic::Dec, mode: AddressMode::AbsoluteIndexedX(AccessType::ReadModifyWrite) }),
        0xE0 => Some(Instruction { name: Mnemonic::Cpx, mode: AddressMode::Immediate }),
        0xE1 => Some(Instruction { name: Mnemonic::Sbc, mode: AddressMode::XIndexedIndirect(AccessType::Read) }),
        0xE4 => Some(Instruction { name: Mnemonic::Cpx, mode: AddressMode::ZeroPage(AccessType::Read) }),
        0xE5 => Some(Instruction { name: Mnemonic::Sbc, mode: AddressMode::ZeroPage(AccessType::Read) }),
        0xE6 => Some(Instruction { name: Mnemonic::Inc, mode: AddressMode::ZeroPage(AccessType::ReadModifyWrite) }),
        0xE8 => Some(Instruction { name: Mnemonic::Inx, mode: AddressMode::Implied }),
        0xE9 => Some(Instruction { name: Mnemonic::Sbc, mode: AddressMode::Immediate }),
        0xEA => Some(Instruction { name: Mnemonic::Nop, mode: AddressMode::Implied }),
        0xEC => Some(Instruction { name: Mnemonic::Cpx, mode: AddressMode::Absolute(AccessType::Read) }),
        0xED => Some(Instruction { name: Mnemonic::Sbc, mode: AddressMode::Absolute(AccessType::Read) }),
        0xEE => Some(Instruction { name: Mnemonic::Inc, mode: AddressMode::Absolute(AccessType::ReadModifyWrite) }),
        0xF0 => Some(Instruction { name: Mnemonic::Beq, mode: AddressMode::Relative }),
        0xF1 => Some(Instruction { name: Mnemonic::Sbc, mode: AddressMode::IndirectIndexedY(AccessType::Read) }),
        0xF5 => Some(Instruction { name: Mnemonic::Sbc, mode: AddressMode::ZeroPageIndexedX(AccessType::Read) }),
        0xF6 => Some(Instruction { name: Mnemonic::Inc, mode: AddressMode::ZeroPageIndexedX(AccessType::ReadModifyWrite) }),
        0xF8 => Some(Instruction { name: Mnemonic::Sed, mode: AddressMode::Implied }),
        0xF9 => Some(Instruction { name: Mnemonic::Sbc, mode: AddressMode::AbsoluteIndexedY(AccessType::Read) }),
        0xFD => Some(Instruction { name: Mnemonic::Sbc, mode: AddressMode::AbsoluteIndexedX(AccessType::Read) }),
        0xFE => Some(Instruction { name: Mnemonic::Inc, mode: AddressMode::AbsoluteIndexedX(AccessType::ReadModifyWrite) }),
        _ => None,
    }
}

/// The operations of the opcodes `aaabbb01`, by `aaa`.
pub open spec fn group_one_name(aaa: int) -> Mnemonic {
    if aaa == 0 { Mnemonic::Ora }
    else if aaa == 1 { Mnemonic::And }
    else if aaa == 2 { Mnemonic::Eor }
    else if aaa == 3 { Mnemonic::Adc }
    else if aaa == 4 { Mnemonic::Sta }
    else if aaa == 5 { Mnemonic::Lda }
    else if aaa == 6 { Mnemonic::Cmp }
    else { Mnemonic::Sbc }
}

/// The addressing modes of the opcodes `aaabbb01`, by `bbb`.
pub open spec fn group_one_mode(bbb: int, access: AccessType) -> AddressMode {
    if bbb == 0 { AddressMode::XIndexedIndirect(access) }
    else if bbb == 1 { AddressMode::ZeroPage(access) }
    else if bbb == 2 { AddressMode::Immediate }
    else if bbb == 3 { AddressMode::Absolute(access) }
    else if bbb == 4 { AddressMode::IndirectIndexedY(access) }
    else if bbb == 5 { AddressMode::ZeroPageIndexedX(access) }
    else if bbb == 6 { AddressMode::AbsoluteIndexedY(access) }
    else { AddressMode::AbsoluteIndexedX(access) }
}

/// The shifts, rotations, increment and decrement of the opcodes `aaabbb10`, by `aaa`.
pub open spec fn group_two_rmw_name(aaa: int) -> Mnemonic {
    if aaa == 0 { Mnemonic::Asl }
    else if aaa == 1 { Mnemonic::Rol }
    else if aaa == 2 { Mnemonic::Lsr }
    else if aaa == 3 { Mnemonic::Ror }
    else if aaa == 6 { Mnemonic::Dec }
    else { Mnemonic::Inc }
}

/// Their memory addressing modes, by `bbb` (odd).
pub open spec fn group_two_rmw_mode(bbb: int) -> AddressMode {
    if bbb == 1 { AddressMode::ZeroPage(AccessType::ReadModifyWrite) }
    else if bbb == 3 { AddressMode::Absolute(AccessType::ReadModifyWrite) }
    else if bbb == 5 { AddressMode::ZeroPageIndexedX(AccessType::ReadModifyWrite) }
    else { AddressMode::AbsoluteIndexedX(AccessType::ReadModifyWrite) }
}

/// Decodes an opcode of the documented 6502 instruction set into its mnemonic and
/// addressing mode; `None` for the undocumented opcodes. The ALU group
/// `aaabbb01` and the read-modify-write part of group `aaabbb10` follow the
/// regular layout of the opcode matrix; no documented opcode ends in `11`.
pub fn decode(opcode: u8) -> (r: Option<Instruction>)
    ensures
        r == decode_spec(opcode),
        r matches Some(i) ==> cpu_6505::valid_instruction(i),
        opcode % 4 == 1 && opcode != 0x89 ==> r == Some(Instruction {
            name: group_one_name(opcode as int / 32),
            mode: group_one_mode((opcode as int / 4) % 8, if opcode / 32 == 4 { AccessType::Write } else { AccessType::Read }),
        }),
        opcode % 4 == 2 && (opcode / 4) % 2 == 1 && opcode / 32 != 4 && opcode / 32 != 5 ==> r == Some(Instruction {
            name: group_two_rmw_name(opcode as int / 32),
            mode: group_two_rmw_mode((opcode as int / 4) % 8),
        }),
        opcode % 4 == 3 ==> r is None,
{
    match opcode {
        0x00 => Some(Instruction { name: Mnemonic::Brk, mode: AddressMode::Special }),
        0x01 => Some(Instruction { name: Mnemonic::Ora, mode: AddressMode::XIndexedIndirect(AccessType::Read) }),
        0x05 => Some(Instruction { name: Mnemonic::Ora, mode: AddressMode::ZeroPage(AccessType::Read) }),
        0x06 => Some(Instruction { name: Mnemonic::Asl, mode: AddressMode::ZeroPage(AccessType::ReadModifyWrite) }),
        0x08 => Some(Instruction { name: Mnemonic::Php, mode: AddressMode::Special }),
        0x09 => Some(Instruction { name: Mnemonic::Ora, mode: AddressMode::Immediate }),
        0x0A => Some(Instruction { name: Mnemonic::Asl, mode: AddressMode::Accumulator }),
        0x0D => Some(Instruction { name: Mnemonic::Ora, mode: AddressMode::Absolute(AccessType::Read) }),
        0x0E => Some(Instruction { name: Mnemonic::Asl, mode: AddressMode::Absolute(AccessType::ReadModifyWrite) }),
        0x10 => Some(Instruction { name: Mnemonic::Bpl, mode: AddressMode::Relative }),
        0x11 => Some(Instruction { name: Mnemonic::Ora, mode: AddressMode::IndirectIndexedY(AccessType::Read) }),
        0x15 => Some(Instruction { name: Mnemonic::Ora, mode: AddressMode::ZeroPageIndexedX(AccessType::Read) }),
        0x16 => Some(Instruction { name: Mnemonic::Asl, mode: AddressMode::ZeroPageIndexedX(AccessType::ReadModifyWrite) }),
        0x18 => Some(Instruction { name: Mnemonic::Clc, mode: AddressMode::Implied }),
        0x19 => Some(Instruction { name: Mnemonic::Ora, mode: AddressMode::AbsoluteIndexedY(AccessType::Read) }),
        0x1D => Some(Instruction { name: Mnemonic::Ora, mode: AddressMode::AbsoluteIndexedX(AccessType::Read) }),
        0x1E => Some(Instruction { name: Mnemonic::Asl, mode: AddressMode::AbsoluteIndexedX(AccessType::ReadModifyWrite) }),
        0x20 => Some(Instruction { name: Mnemonic::Jsr, mode: AddressMode::Special }),
        0x21 => Some(Instruction { name: Mnemonic::And, mode: AddressMode::XIndexedIndirect(AccessType::Read) }),
        0x24 => Some(Instruction { name: Mnemonic::Bit, mode: AddressMode::ZeroPage(AccessType::Read) }),
        0x25 => Some(Instruction { name: Mnemonic::And, mode: AddressMode::ZeroPage(AccessType::Read) }),
        0x26 => Some(Instruction { name: Mnemonic::Rol, mode: AddressMode::ZeroPage(AccessType::ReadModifyWrite) }),
        0x28 => Some(Instruction { name: Mnemonic::Plp, mode: AddressMode::Special }),
        0x29 => Some(Instruction { name: Mnemonic::And, mode: AddressMode::Immediate }),
        0x2A => Some(Instruction { name: Mnemonic::Rol, mode: AddressMode::Accumulator }),
        0x2C => Some(Instruction { name: Mnemonic::Bit, mode: AddressMode::Absolute(AccessType::Read) }),
        0x2D => Some(Instruction { name: Mnemonic::And, mode: AddressMode::Absolute(AccessType::Read) }),
        0x2E => Some(Instruction { name: Mnemonic::Rol, mode: AddressMode::Absolute(AccessType::ReadModifyWrite) }),
        0x30 => Some(Instruction { name: Mnemonic::Bmi, mode: AddressMode::Relative }),
        0x31 => Some(Instruction { name: Mnemonic::And, mode: AddressMode::IndirectIndexedY(AccessType::Read) }),
        0x35 => Some(Instruction { name: Mnemonic::And, mode: AddressMode::ZeroPageIndexedX(AccessType::Read) }),
        0x36 => Some(Instruction { name: Mnemonic::Rol, mode: AddressMode::ZeroPageIndexedX(AccessType::ReadModifyWrite) }),
        0x38 => Some(Instruction { name: Mnemonic::Sec, mode: AddressMode::Implied }),
        0x39 => Some(Instruction { name: Mnemonic::And, mode: AddressMode::AbsoluteIndexedY(AccessType::Read) }),
        0x3D => Some(Instruction { name: Mnemonic::And, mode: AddressMode::AbsoluteIndexedX(AccessType::Read) }),
        0x3E => Some(Instruction { name: Mnemonic::Rol, mode: AddressMode::AbsoluteIndexedX(AccessType::ReadModifyWrite) }),
        0x40 => Some(Instruction { name: Mnemonic::Rti, mode: AddressMode::Special }),
        0x41 => Some(Instruction { name: Mnemonic::Eor, mode: AddressMode::XIndexedIndirect(AccessType::Read) }),
        0x45 => Some(Instruction { name: Mnemonic::Eor, mode: AddressMode::ZeroPage(AccessType::Read) }),
        0x46 => Some(Instruction { name: Mnemonic::Lsr, mode: AddressMode::ZeroPage(AccessType::ReadModifyWrite) }),
        0x48 => Some(Instruction { name: Mnemonic::Pha, mode: AddressMode::Special }),
        0x49 => Some(Instruction { name: Mnemonic::Eor, mode: AddressMode::Immediate }),
        0x4A => Some(Instruction { name: Mnemonic::Lsr, mode: AddressMode::Accumulator }),
        0x4C => Some(Instruction { name: Mnemonic::Jmp, mode: AddressMode::Absolute(AccessType::Read) }),
        0x4D => Some(Instruction { name: Mnemonic::Eor, mode: AddressMode::Absolute(AccessType::Read) }),
        0x4E => Some(Instruction { name: Mnemonic::Lsr, mode: AddressMode::Absolute(AccessType::ReadModifyWrite) }),
        0x50 => Some(Instruction { name: Mnemonic::Bvc, mode: AddressMode::Relative }),
        0x51 => Some(Instruction { name: Mnemonic::Eor, mode: AddressMode::IndirectIndexedY(AccessType::Read) }),
        0x55 => Some(Instruction { name: Mnemonic::Eor, mode: AddressMode::ZeroPageIndexedX(AccessType::Read) }),
        0x56 => Some(Instruction { name: Mnemonic::Lsr, mode: AddressMode::ZeroPageIndexedX(AccessType::ReadModifyWrite) }),
        0x58 => Some(Instruction { name: Mnemonic::Cli, mode: AddressMode::Implied }),
        0x59 => Some(Instruction { name: Mnemonic::Eor, mode: AddressMode::AbsoluteIndexedY(AccessType::Read) }),
        0x5D => Some(Instruction { name: Mnemonic::Eor, mode: AddressMode::AbsoluteIndexedX(AccessType::Read) }),
        0x5E => Some(Instruction { name: Mnemonic::Lsr, mode: AddressMode::AbsoluteIndexedX(AccessType::ReadModifyWrite) }),
        0x60 => Some(Instruction { name: Mnemonic::Rts, mode: AddressMode::Special }),
        0x61 => Some(Instruction { name: Mnemonic::Adc, mode: AddressMode::XIndexedIndirect(AccessType::Read) }),
        0x65 => Some(Instruction { name: Mnemonic::Adc, mode: AddressMode::ZeroPage(AccessType::Read) }),
        0x66 => Some(Instruction { name: Mnemonic::Ror, mode: AddressMode::ZeroPage(AccessType::ReadModifyWrite) }),
        0x68 => Some(Instruction { name: Mnemonic::Pla, mode: AddressMode::Special }),
        0x69 => Some(Instruction { name: Mnemonic::Adc, mode: AddressMode::Immediate }),
        0x6A => Some(Instruction { name: Mnemonic::Ror, mode: AddressMode::Accumulator }),
        0x6C => Some(Instruction { name: Mnemonic::Jmp, mode: AddressMode::Indirect }),
        0x6D => Some(Instruction { name: Mnemonic::Adc, mode: AddressMode::Absolute(AccessType::Read) }),
        0x6E => Some(Instruction { name: Mnemonic::Ror, mode: AddressMode::Absolute(AccessType::ReadModifyWrite) }),
        0x70 => Some(Instruction { name: Mnemonic::Bvs, mode: AddressMode::Relative }),
        0x71 => Some(Instruction { name: Mnemonic::Adc, mode: AddressMode::IndirectIndexedY(AccessType::Read) }),
        0x75 => Some(Instruction { name: Mnemonic::Adc, mode: AddressMode::ZeroPageIndexedX(AccessType::Read) }),
        0x76 => Some(Instruction { name: Mnemonic::Ror, mode: AddressMode::ZeroPageIndexedX(AccessType::ReadModifyWrite) }),
        0x78 => Some(Instruction { name: Mnemonic::Sei, mode: AddressMode::Implied }),
        0x79 => Some(Instruction { name: Mnemonic::Adc, mode: AddressMode::AbsoluteIndexedY(AccessType::Read) }),
        0x7D => Some(Instruction { name: Mnemonic::Adc, mode: AddressMode::AbsoluteIndexedX(AccessType::Read) }),
        0x7E => Some(Instruction { name: Mnemonic::Ror, mode: AddressMode::AbsoluteIndexedX(AccessType::ReadModifyWrite) }),
        0x81 => Some(Instruction { name: Mnemonic::Sta, mode: AddressMode::XIndexedIndirect(AccessType::Write) }),
        0x84 => Some(Instruction { name: Mnemonic::Sty, mode: AddressMode::ZeroPage(AccessType::Write) }),
        0x85 => Some(Instruction { name: Mnemonic::Sta, mode: AddressMode::ZeroPage(AccessType::Write) }),
        0x86 => Some(Instruction { name: Mnemonic::Stx, mode: AddressMode::ZeroPage(AccessType::Write) }),
        0x88 => Some(Instruction { name: Mnemonic::Dey, mode: AddressMode::Implied }),
        0x8A => Some(Instruction { name: Mnemonic::Txa, mode: AddressMode::Implied }),
        0x8C => Some(Instruction { name: Mnemonic::Sty, mode: AddressMode::Absolute(AccessType::Write) }),
        0x8D => Some(Instruction { name: Mnemonic::Sta, mode: AddressMode::Absolute(AccessType::Write) }),
        0x8E => Some(Instruction { name: Mnemonic::Stx, mode: AddressMode::Absolute(AccessType::Write) }),
        0x90 => Some(Instruction { name: Mnemonic::Bcc, mode: AddressMode::Relative }),
        0x91 => Some(Instruction { name: Mnemonic::Sta, mode: AddressMode::IndirectIndexedY(AccessType::Write) }),
        0x94 => Some(Instruction { name: Mnemonic::Sty, mode: AddressMode::ZeroPageIndexedX(AccessType::Write) }),
        0x95 => Some(Instruction { name: Mnemonic::Sta, mode: AddressMode::ZeroPageIndexedX(AccessType::Write) }),
        0x96 => Some(Instruction { name: Mnemonic::Stx, mode: AddressMode::ZeroPageIndexedY(AccessType::Write) }),
        0x98 => Some(Instruction { name: Mnemonic::Tya, mode: AddressMode::Implied }),
        0x99 => Some(Instruction { name: Mnemonic::Sta, mode: AddressMode::AbsoluteIndexedY(AccessType::Write) }),
        0x9A => Some(Instruction { name: Mnemonic::Txs, mode: AddressMode::Implied }),
        0x9D => Some(Instruction { name: Mnemonic::Sta, mode: AddressMode::AbsoluteIndexedX(AccessType::Write) }),
        0xA0 => Some(Instruction { name: Mnemonic::Ldy, mode: AddressMode::Immediate }),
        0xA1 => Some(Instruction { name: Mnemonic::Lda, mode: AddressMode::XIndexedIndirect(AccessType::Read) }),
        0xA2 => Some(Instruction { name: Mnemonic::Ldx, mode: AddressMode::Immediate }),
        0xA4 => Some(Instruction { name: Mnemonic::Ldy, mode: AddressMode::ZeroPage(AccessType::Read) }),
        0xA5 => Some(Instruction { name: Mnemonic::Lda, mode: AddressMode::ZeroPage(AccessType::Read) }),
        0xA6 => Some(Instruction { name: Mnemonic::Ldx, mode: AddressMode::ZeroPage(AccessType::Read) }),
        0xA8 => Some(Instruction { name: Mnemonic::Tay, mode: AddressMode::Implied }),
        0xA9 => Some(Instruction { name: Mnemonic::Lda, mode: AddressMode::Immediate }),
        0xAA => Some(Instruction { name: Mnemonic::Tax, mode: AddressMode::Implied }),
        0xAC => Some(Instruction { name: Mnemonic::Ldy, mode: AddressMode::Absolute(AccessType::Read) }),
        0xAD => Some(Instruction { name: Mnemonic::Lda, mode: AddressMode::Absolute(AccessType::Read) }),
        0xAE => Some(Instruction { name: Mnemonic::Ldx, mode: AddressMode::Absolute(AccessType::Read) }),
        0xB0 => Some(Instruction { name: Mnemonic::Bcs, mode: AddressMode::Relative }),
        0xB1 => Some(Instruction { name: Mnemonic::Lda, mode: AddressMode::IndirectIndexedY(AccessType::Read) }),
        0xB4 => Some(Instruction { name: Mnemonic::Ldy, mode: AddressMode::ZeroPageIndexedX(AccessType::Read) }),
        0xB5 => Some(Instruction { name: Mnemonic::Lda, mode: AddressMode::ZeroPageIndexedX(AccessType::Read) }),
        0xB6 => Some(Instruction { name: Mnemonic::Ldx, mode: AddressMode::ZeroPageIndexedY(AccessType::Read) }),
        0xB8 => Some(Instruction { name: Mnemonic::Clv, mode: AddressMode::Implied }),
        0xB9 => Some(Instruction { name: Mnemonic::Lda, mode: AddressMode::AbsoluteIndexedY(AccessType::Read) }),
        0xBA => Some(Instruction { name: Mnemonic::Tsx, mode: AddressMode::Implied }),
        0xBC => Some(Instruction { name: Mnemonic::Ldy, mode: AddressMode::AbsoluteIndexedX(AccessType::Read) }),
        0xBD => Some(Instruction { name: Mnemonic::Lda, mode: AddressMode::AbsoluteIndexedX(AccessType::Read) }),
        0xBE => Some(Instruction { name: Mnemonic::Ldx, mode: AddressMode::AbsoluteIndexedY(AccessType::Read) }),
        0xC0 => Some(Instruction { name: Mnemonic::Cpy, mode: AddressMode::Immediate }),
        0xC1 => Some(Instruction { name: Mnemonic::Cmp, mode: AddressMode::XIndexedIndirect(AccessType::Read) }),
        0xC4 => Some(Instruction { name: Mnemonic::Cpy, mode: AddressMode::ZeroPage(AccessType::Read) }),
        0xC5 => Some(Instruction { name: Mnemonic::Cmp, mode: AddressMode::ZeroPage(AccessType::Read) }),
        0xC6 => Some(Instruction { name: Mnemonic::Dec, mode: AddressMode::ZeroPage(AccessType::ReadModifyWrite) }),
        0xC8 => Some(Instruction { name: Mnemonic::Iny, mode: AddressMode::Implied }),
        0xC9 => Some(Instruction { name: Mnemonic::Cmp, mode: AddressMode::Immediate }),
        0xCA => Some(Instruction { name: Mnemonic::Dex, mode: AddressMode::Implied }),
        0xCC => Some(Instruction { name: Mnemonic::Cpy, mode: AddressMode::Absolute(AccessType::Read) }),
        0xCD => Some(Instruction { name: Mnemonic::Cmp, mode: AddressMode::Absolute(AccessType::Read) }),
        0xCE => Some(Instruction { name: Mnemonic::Dec, mode: AddressMode::Absolute(AccessType::ReadModifyWrite) }),
        0xD0 => Some(Instruction { name: Mnemonic::Bne, mode: AddressMode::Relative }),
        0xD1 => Some(Instruction { name: Mnemonic::Cmp, mode: AddressMode::IndirectIndexedY(AccessType::Read) }),
        0xD5 => Some(Instruction { name: Mnemonic::Cmp, mode: AddressMode::ZeroPageIndexedX(AccessType::Read) }),
        0xD6 => Some(Instruction { name: Mnemonic::Dec, mode: AddressMode::ZeroPageIndexedX(AccessType::ReadModifyWrite) }),
        0xD8 => Some(Instruction { name: Mnemonic::Cld, mode: AddressMode::Implied }),
        0xD9 => Some(Instruction { name: Mnemonic::Cmp, mode: AddressMode::AbsoluteIndexedY(AccessType::Read) }),
        0xDD => Some(Instruction { name: Mnemonic::Cmp, mode: AddressMode::AbsoluteIndexedX(AccessType::Read) }),
        0xDE => Some(Instruction { name: Mnemonic::Dec, mode: AddressMode::AbsoluteIndexedX(AccessType::ReadModifyWrite) }),
        0xE0 => Some(Instruction { name: Mnemonic::Cpx, mode: AddressMode::Immediate }),
        0xE1 => Some(Instruction { name: Mnemonic::Sbc, mode: AddressMode::XIndexedIndirect(AccessType::Read) }),
        0xE4 => Some(Instruction { name: Mnemonic::Cpx, mode: AddressMode::ZeroPage(AccessType::Read) }),
        0xE5 => Some(Instruction { name: Mnemonic::Sbc, mode: AddressMode::ZeroPage(AccessType::Read) }),
        0xE6 => Some(Instruction { name: Mnemonic::Inc, mode: AddressMode::ZeroPage(AccessType::ReadModifyWrite) }),
        0xE8 => Some(Instruction { name: Mnemonic::Inx, mode: AddressMode::Implied }),
        0xE9 => Some(Instruction { name: Mnemonic::Sbc, mode: AddressMode::Immediate }),
        0xEA => Some(Instruction { name: Mnemonic::Nop, mode: AddressMode::Implied }),
        0xEC => Some(Instruction { name: Mnemonic::Cpx, mode: AddressMode::Absolute(AccessType::Read) }),
        0xED => Some(Instruction { name: Mnemonic::Sbc, mode: AddressMode::Absolute(AccessType::Read) }),
        0xEE => Some(Instruction { name: Mnemonic::Inc, mode: AddressMode::Absolute(AccessType::ReadModifyWrite) }),
        0xF0 => Some(Instruction { name: Mnemonic::Beq, mode: AddressMode::Relative }),
        0xF1 => Some(Instruction { name: Mnemonic::Sbc, mode: AddressMode::IndirectIndexedY(AccessType::Read) }),
        0xF5 => Some(Instruction { name: Mnemonic::Sbc, mode: AddressMode::ZeroPageIndexedX(AccessType::Read) }),
        0xF6 => Some(Instruction { name: Mnemonic::Inc, mode: AddressMode::ZeroPageIndexedX(AccessType::ReadModifyWrite) }),
        0xF8 => Some(Instruction { name: Mnemonic::Sed, mode: AddressMode::Implied }),
        0xF9 => Some(Instruction { name: Mnemonic::Sbc, mode: AddressMode::AbsoluteIndexedY(AccessType::Read) }),
        0xFD => Some(Instruction { name: Mnemonic::Sbc, mode: AddressMode::AbsoluteIndexedX(AccessType::Read) }),
        0xFE => Some(Instruction { name: Mnemonic::Inc, mode: AddressMode::AbsoluteIndexedX(AccessType::ReadModifyWrite) }),
        _ => None,
    }
}

} // verus!
