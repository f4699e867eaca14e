use vstd::prelude::*;

verus! {

/// Bits of the processor status register.
pub const FLAG_CARRY: u8 = 1;
pub const FLAG_ZERO: u8 = 2;
pub const FLAG_INTERRUPT: u8 = 4;
pub const FLAG_DECIMAL: u8 = 8;
pub const FLAG_BREAK: u8 = 16;
pub const FLAG_UNUSED: u8 = 32;
pub const FLAG_OVERFLOW: u8 = 64;
pub const FLAG_NEGATIVE: u8 = 128;

/// Fixed addresses of the 6502 address space.
pub const STACK: u16 = 0x0100;
pub const NMI_VECTOR: u16 = 0xFFFA;
pub const RES_VECTOR: u16 = 0xFFFC;
pub const IRQ_VECTOR: u16 = 0xFFFE;

/// One access on the address bus: a read of an address (with the byte that came back)
/// or a write of a byte to an address.
#[derive(Clone, Copy, Debug, PartialEq, Eq, Structural)]
pub enum BusOp {
    Read(u16, u8),
    Write(u16, u8),
}

/// What a CPU is wired to. Every access is recorded in a history, so that
/// the bus traffic of the CPU can be stated exactly, and each access states
/// what it does to the devices behind the bus (`read_post`, `write_post`).
///
/// The specification items have defaults only so that a bus written outside
/// verified code (a test harness) compiles with `read` and `write` alone;
/// nothing is proved of such a bus, and a verified implementation must define
/// them, since no body can meet the contracts with the defaults.
pub trait AddressBus: Sized {
    /// Every access made so far, oldest first.
    open spec fn trace(&self) -> Seq<BusOp> {
        Seq::empty()
    }

    /// The invariant of the devices behind the bus, kept by every access.
    open spec fn valid(&self) -> bool {
        true
    }

    /// A read of `addr` that returned `r` leaves the bus as `after`.
    open spec fn read_post(&self, addr: u16, r: u8, after: Self) -> bool {
        true
    }

    /// A write of `value` to `addr` leaves the bus as `after`.
    open spec fn write_post(&self, addr: u16, value: u8, after: Self) -> bool {
        true
    }

    fn read(&mut self, addr: u16) -> (r: u8)
        requires
            old(self).valid(),
        ensures
            final(self).valid(),
            final(self).trace() == old(self).trace().push(BusOp::Read(addr, r)),
            old(self).read_post(addr, r, *final(self)),
    ;

    fn write(&mut self, addr: u16, value: u8)
        requires
            old(self).valid(),
        ensures
            final(self).valid(),
            final(self).trace() == old(self).trace().push(BusOp::Write(addr, value)),
            old(self).write_post(addr, value, *final(self)),
    ;
}

#[derive(Clone, Copy, Debug, PartialEq, Eq, Structural)]
pub struct Instruction {
    pub name: Mnemonic,
    pub mode: AddressMode,
}

#[derive(Clone, Copy, Debug, PartialEq, Eq, Structural)]
pub enum AddressMode {
    Special,
    Implied,
    Accumulator,
    Immediate,
    Absolute(AccessType),
    ZeroPage(AccessType),
    ZeroPageIndexedX(AccessType),
    ZeroPageIndexedY(AccessType),
    AbsoluteIndexedX(AccessType),
    AbsoluteIndexedY(AccessType),
    Relative,
    XIndexedIndirect(AccessType),
    IndirectIndexedY(AccessType),
    Indirect,
}

#[derive(Clone, Copy, Debug, PartialEq, Eq, Structural)]
pub enum AccessType {
    Read,
    ReadModifyWrite,
    Write,
}

#[derive(Clone, Copy, Debug, PartialEq, Eq, Structural)]
pub enum Mnemonic {
    Brk,
    Ora,
    Asl,
    Php,
    Bpl,
    Clc,
    Jsr,
    And,
    Bit,
    Rol,
    Plp,
    Bmi,
    Sec,
    Rti,
    Eor,
    Lsr,
    Pha,
    Jmp,
    Bvc,
    Cli,
    Rts,
    Adc,
    Ror,
    Pla,
    Bvs,
    Sei,
    Sta,
    Sty,
    Stx,
    Dey,
    Txa,
    Bcc,
    Tya,
    Txs,
    Ldy,
    Lda,
    Ldx,
    Tay,
    Tax,
    Bcs,
    Clv,
    Tsx,
    Cpy,
    Cmp,
    Dec,
    Iny,
    Dex,
    Bne,
    Cld,
    Cpx,
    Sbc,
    Inc,
    Inx,
    Nop,
    Beq,
    Sed,
}

/// The mnemonics that read an operand and act on registers.
pub open spec fn is_read_op(m: Mnemonic) -> bool {
    matches!(m, Mnemonic::Lda | Mnemonic::Ldx | Mnemonic::Ldy | Mnemonic::Ora | Mnemonic::Eor
        | Mnemonic::And | Mnemonic::Cmp | Mnemonic::Cpx | Mnemonic::Cpy | Mnemonic::Adc
        | Mnemonic::Sbc | Mnemonic::Bit)
}

/// The mnemonics that store a register.
pub open spec fn is_write_op(m: Mnemonic) -> bool {
    matches!(m, Mnemonic::Sta | Mnemonic::Stx | Mnemonic::Sty)
}

/// The read-modify-write mnemonics.
pub open spec fn is_rmw_op(m: Mnemonic) -> bool {
    matches!(m, Mnemonic::Asl | Mnemonic::Lsr | Mnemonic::Rol | Mnemonic::Ror | Mnemonic::Inc
        | Mnemonic::Dec)
}

/// The conditional branches.
pub open spec fn is_branch_op(m: Mnemonic) -> bool {
    matches!(m, Mnemonic::Bne | Mnemonic::Beq | Mnemonic::Bpl | Mnemonic::Bmi | Mnemonic::Bcs
        | Mnemonic::Bcc | Mnemonic::Bvc | Mnemonic::Bvs)
}

/// The one-byte instructions that only act on registers and flags.
pub open spec fn is_implied_op(m: Mnemonic) -> bool {
    matches!(m, Mnemonic::Sei | Mnemonic::Cli | Mnemonic::Sed | Mnemonic::Cld | Mnemonic::Clc
        | Mnemonic::Clv | Mnemonic::Tay | Mnemonic::Tax | Mnemonic::Txa | Mnemonic::Tya
        | Mnemonic::Txs | Mnemonic::Tsx | Mnemonic::Inx | Mnemonic::Iny | Mnemonic::Dex
        | Mnemonic::Dey | Mnemonic::Nop | Mnemonic::Sec)
}

/// The instructions with their own bus sequence: subroutine and interrupt
/// control and the stack pushes and pulls.
pub open spec fn is_special_op(m: Mnemonic) -> bool {
    matches!(m, Mnemonic::Jsr | Mnemonic::Rts | Mnemonic::Brk | Mnemonic::Rti | Mnemonic::Php
        | Mnemonic::Pha | Mnemonic::Pla | Mnemonic::Plp)
}

/// The pairs of mnemonic and addressing mode that the CPU executes.
pub open spec fn valid_instruction(i: Instruction) -> bool {
    match i.mode {
        AddressMode::Special => is_special_op(i.name),
        AddressMode::Implied => is_implied_op(i.name),
        AddressMode::Accumulator => is_rmw_op(i.name) && !matches!(i.name, Mnemonic::Inc | Mnemonic::Dec),
        AddressMode::Immediate => is_read_op(i.name),
        AddressMode::Relative => is_branch_op(i.name),
        AddressMode::Indirect => i.name == Mnemonic::Jmp,
        AddressMode::Absolute(AccessType::Read) => is_read_op(i.name) || i.name == Mnemonic::Jmp,
        AddressMode::XIndexedIndirect(AccessType::ReadModifyWrite)
        | AddressMode::IndirectIndexedY(AccessType::ReadModifyWrite) => false,
        AddressMode::Absolute(a) | AddressMode::ZeroPage(a) | AddressMode::ZeroPageIndexedX(a)
        | AddressMode::ZeroPageIndexedY(a) | AddressMode::AbsoluteIndexedX(a)
        | AddressMode::AbsoluteIndexedY(a) | AddressMode::XIndexedIndirect(a)
        | AddressMode::IndirectIndexedY(a) => match a {
            AccessType::Read => is_read_op(i.name),
            AccessType::Write => is_write_op(i.name),
            AccessType::ReadModifyWrite => is_rmw_op(i.name),
        },
    }
}

} // verus!
