use vstd::prelude::*;
use crate::alu;
use crate::arith;
use crate::cpu_6505::{
    self, AccessType, AddressBus, AddressMode, BusOp, Instruction, Mnemonic,
    FLAG_BREAK, FLAG_CARRY, FLAG_DECIMAL, FLAG_INTERRUPT, FLAG_NEGATIVE, FLAG_OVERFLOW,
    FLAG_UNUSED, FLAG_ZERO, IRQ_VECTOR, RES_VECTOR, STACK,
};
use crate::decode::{self, decode};

verus! {

/// The programmer-visible registers.
pub struct Registers {
    pub a: u8,
    pub x: u8,
    pub y: u8,
    pub sp: u8,
    pub sr: u8,
}

/// A 6502 core that advances one bus cycle per call of `cycle`.
///
/// `step` is the micro-cycle of the instruction in progress: 1 fetches the
/// opcode, the following ones carry out the addressing mode.
pub struct MOS6502<T: AddressBus> {
    pub pc: u16,
    pub sr: u8,
    pub sp: u8,
    pub a: u8,
    pub x: u8,
    pub y: u8,
    /// The operand of a read-modify-write instruction between its read and write.
    pub tmp: u8,
    pub step: u8,
    /// Bus cycles since power-on, wrapping.
    pub cycles: u32,
    /// The effective address as it is assembled.
    pub addr: u16,
    /// Indexing carried out of the low byte of `addr`; the high byte is fixed a cycle later.
    pub addr_invalid: bool,
    /// The pointer of the indirect modes as it is assembled.
    pub ptr: u16,
    /// Indexing carried out of the low byte of `ptr`.
    pub ptr_invalid: bool,
    /// The opcode of the instruction in progress.
    pub opcode: u8,
    pub instruction: Instruction,
    /// Set when an opcode outside the documented set was fetched; the core then stops.
    pub jammed: bool,
    pub bus: T,
}

/// A memory addressing mode whose access kind is read-modify-write.
pub open spec fn is_rmw_mode(m: AddressMode) -> bool {
    match m {
        AddressMode::Absolute(AccessType::ReadModifyWrite)
        | AddressMode::ZeroPage(AccessType::ReadModifyWrite)
        | AddressMode::ZeroPageIndexedX(AccessType::ReadModifyWrite)
        | AddressMode::ZeroPageIndexedY(AccessType::ReadModifyWrite)
        | AddressMode::AbsoluteIndexedX(AccessType::ReadModifyWrite)
        | AddressMode::AbsoluteIndexedY(AccessType::ReadModifyWrite) => true,
        _ => false,
    }
}

/// A memory addressing mode whose access kind is write.
pub open spec fn is_write_mode(m: AddressMode) -> bool {
    match m {
        AddressMode::Absolute(AccessType::Write)
        | AddressMode::ZeroPage(AccessType::Write)
        | AddressMode::ZeroPageIndexedX(AccessType::Write)
        | AddressMode::ZeroPageIndexedY(AccessType::Write)
        | AddressMode::AbsoluteIndexedX(AccessType::Write)
        | AddressMode::AbsoluteIndexedY(AccessType::Write)
        | AddressMode::XIndexedIndirect(AccessType::Write)
        | AddressMode::IndirectIndexedY(AccessType::Write) => true,
        _ => false,
    }
}

/// An instruction whose last cycle reads an operand and acts on the registers.
pub open spec fn is_read_instruction(i: Instruction) -> bool {
    match i.mode {
        AddressMode::Immediate
        | AddressMode::ZeroPage(AccessType::Read)
        | AddressMode::ZeroPageIndexedX(AccessType::Read)
        | AddressMode::ZeroPageIndexedY(AccessType::Read)
        | AddressMode::AbsoluteIndexedX(AccessType::Read)
        | AddressMode::AbsoluteIndexedY(AccessType::Read)
        | AddressMode::XIndexedIndirect(AccessType::Read)
        | AddressMode::IndirectIndexedY(AccessType::Read) => true,
        AddressMode::Absolute(AccessType::Read) => i.name != Mnemonic::Jmp,
        _ => false,
    }
}

/// A mode whose operand (or pointer to it) is a zero-page address.
pub open spec fn zero_page_operand(m: AddressMode) -> bool {
    m is ZeroPage || m is ZeroPageIndexedX || m is ZeroPageIndexedY || m is XIndexedIndirect
        || m is IndirectIndexedY
}

/// A mode whose operand is a full address in the two bytes after the opcode.
pub open spec fn absolute_operand(m: AddressMode) -> bool {
    m is Absolute || m is AbsoluteIndexedX || m is AbsoluteIndexedY || m is Indirect
}

/// Whether a conditional branch is taken under status `sr`.
pub open spec fn branch_taken(name: Mnemonic, sr: u8) -> bool {
    match name {
        Mnemonic::Bne => !alu::flag(sr, FLAG_ZERO),
        Mnemonic::Beq => alu::flag(sr, FLAG_ZERO),
        Mnemonic::Bpl => !alu::flag(sr, FLAG_NEGATIVE),
        Mnemonic::Bmi => alu::flag(sr, FLAG_NEGATIVE),
        Mnemonic::Bcc => !alu::flag(sr, FLAG_CARRY),
        Mnemonic::Bcs => alu::flag(sr, FLAG_CARRY),
        Mnemonic::Bvc => !alu::flag(sr, FLAG_OVERFLOW),
        Mnemonic::Bvs => alu::flag(sr, FLAG_OVERFLOW),
        _ => false,
    }
}

/// Where JMP (p) takes the high byte of its destination: the pointer's low byte
/// wraps within its page.
pub open spec fn indirect_high_address(p: u16) -> u16 {
    (p & 0xFF00) | (if p & 0xFF == 0xFF { 0 } else { (p & 0xFF) + 1 }) as u16
}

/// JMP through a pointer at the end of a page takes the high byte of its
/// destination from the start of that same page, never from the next page.
pub proof fn lemma_jmp_indirect_page_wrap(p: u16)
    requires
        p & 0xFF == 0xFF,
    ensures
        indirect_high_address(p) == p & 0xFF00,
        indirect_high_address(p) as int != p as int + 1,
{
    assert((p & 0xFF00) | 0u16 == p & 0xFF00) by (bit_vector);
    assert(p & 0xFF == 0xFF ==> p & 0xFF00 == p - 0xFF) by (bit_vector);
}

/// What a read-modify-write mnemonic makes of a byte: the new byte and status.
pub open spec fn rmw_effect(name: Mnemonic, v: u8, sr: u8) -> (u8, u8) {
    match name {
        Mnemonic::Asl => {
            let r = (v << 1u8) as u8;
            (r, alu::with_nz(alu::with_flag(sr, FLAG_CARRY, v & 0x80 != 0), r))
        },
        Mnemonic::Lsr => {
            let r = (v >> 1u8) as u8;
            (r, alu::with_nz(alu::with_flag(sr, FLAG_CARRY, v & 1 != 0), r))
        },
        Mnemonic::Rol => {
            let r = ((v << 1u8) | alu::carry_in(sr)) as u8;
            (r, alu::with_nz(alu::with_flag(sr, FLAG_CARRY, v & 0x80 != 0), r))
        },
        Mnemonic::Ror => {
            let r = ((v >> 1u8) | (alu::carry_in(sr) << 7u8)) as u8;
            (r, alu::with_nz(alu::with_flag(sr, FLAG_CARRY, v & 1 != 0), r))
        },
        Mnemonic::Inc => {
            let r = v.wrapping_add(1);
            (r, alu::with_nz(sr, r))
        },
        Mnemonic::Dec => {
            let r = v.wrapping_sub(1);
            (r, alu::with_nz(sr, r))
        },
        _ => (v, sr),
    }
}

/// What an instruction that reads operand `v` does to the registers.
pub open spec fn read_effect(name: Mnemonic, r: Registers, v: u8) -> Registers {
    match name {
        Mnemonic::Lda => Registers { a: v, sr: alu::with_nz(r.sr, v), ..r },
        Mnemonic::Ldx => Registers { x: v, sr: alu::with_nz(r.sr, v), ..r },
        Mnemonic::Ldy => Registers { y: v, sr: alu::with_nz(r.sr, v), ..r },
        Mnemonic::Ora => Registers { a: r.a | v, sr: alu::with_nz(r.sr, r.a | v), ..r },
        Mnemonic::Eor => Registers { a: r.a ^ v, sr: alu::with_nz(r.sr, r.a ^ v), ..r },
        Mnemonic::And => Registers { a: r.a & v, sr: alu::with_nz(r.sr, r.a & v), ..r },
        Mnemonic::Cmp => Registers { sr: alu::compare_spec(r.a, v, r.sr), ..r },
        Mnemonic::Cpx => Registers { sr: alu::compare_spec(r.x, v, r.sr), ..r },
        Mnemonic::Cpy => Registers { sr: alu::compare_spec(r.y, v, r.sr), ..r },
        Mnemonic::Adc => Registers { a: alu::adc_spec(r.a, v, r.sr).0, sr: alu::adc_spec(r.a, v, r.sr).1, ..r },
        Mnemonic::Sbc => Registers { a: alu::sbc_spec(r.a, v, r.sr).0, sr: alu::sbc_spec(r.a, v, r.sr).1, ..r },
        Mnemonic::Bit => Registers {
            sr: alu::with_flag(
                alu::with_flag(alu::with_flag(r.sr, FLAG_ZERO, v & r.a == 0), FLAG_NEGATIVE, v & 0x80 != 0),
                FLAG_OVERFLOW,
                v & 0x40 != 0,
            ),
            ..r
        },
        _ => r,
    }
}

/// What a one-byte register instruction does to the registers.
pub open spec fn implied_effect(name: Mnemonic, r: Registers) -> Registers {
    match name {
        Mnemonic::Sei => Registers { sr: r.sr | FLAG_INTERRUPT, ..r },
        Mnemonic::Cli => Registers { sr: r.sr & !FLAG_INTERRUPT, ..r },
        Mnemonic::Sed => Registers { sr: r.sr | FLAG_DECIMAL, ..r },
        Mnemonic::Cld => Registers { sr: r.sr & !FLAG_DECIMAL, ..r },
        Mnemonic::Sec => Registers { sr: r.sr | FLAG_CARRY, ..r },
        Mnemonic::Clc => Registers { sr: r.sr & !FLAG_CARRY, ..r },
        Mnemonic::Clv => Registers { sr: r.sr & !FLAG_OVERFLOW, ..r },
        Mnemonic::Tay => Registers { y: r.a, sr: alu::with_nz(r.sr, r.a), ..r },
        Mnemonic::Tax => Registers { x: r.a, sr: alu::with_nz(r.sr, r.a), ..r },
        Mnemonic::Txa => Registers { a: r.x, sr: alu::with_nz(r.sr, r.x), ..r },
        Mnemonic::Tya => Registers { a: r.y, sr: alu::with_nz(r.sr, r.y), ..r },
        Mnemonic::Txs => Registers { sp: r.x, ..r },
        Mnemonic::Tsx => Registers { x: r.sp, sr: alu::with_nz(r.sr, r.sp), ..r },
        Mnemonic::Inx => Registers { x: r.x.wrapping_add(1), sr: alu::with_nz(r.sr, r.x.wrapping_add(1)), ..r },
        Mnemonic::Iny => Registers { y: r.y.wrapping_add(1), sr: alu::with_nz(r.sr, r.y.wrapping_add(1)), ..r },
        Mnemonic::Dex => Registers { x: r.x.wrapping_sub(1), sr: alu::with_nz(r.sr, r.x.wrapping_sub(1)), ..r },
        Mnemonic::Dey => Registers { y: r.y.wrapping_sub(1), sr: alu::with_nz(r.sr, r.y.wrapping_sub(1)), ..r },
        _ => r,
    }
}

/// The register that a store instruction writes.
pub open spec fn store_value(name: Mnemonic, r: Registers) -> u8 {
    match name {
        Mnemonic::Stx => r.x,
        Mnemonic::Sty => r.y,
        _ => r.a,
    }
}

/// The address of stack slot `sp`.
pub open spec fn stack_address(sp: u8) -> u16 {
    (STACK + sp) as u16
}

/// The byte carried by the last bus access of a history.
pub open spec fn last_value(t: Seq<BusOp>) -> u8 {
    match t.last() {
        BusOp::Read(_, v) => v,
        BusOp::Write(_, v) => v,
    }
}

impl<T: AddressBus> MOS6502<T> {
    pub open spec fn regs(self) -> Registers {
        Registers { a: self.a, x: self.x, y: self.y, sp: self.sp, sr: self.sr }
    }

    pub open spec fn with_regs(self, r: Registers) -> Self {
        MOS6502 { a: r.a, x: r.x, y: r.y, sp: r.sp, sr: r.sr, ..self }
    }

    /// The number of cycles that the instruction in progress takes, as the
    /// 6502 reference gives it: indexed reads and branches that cross a page
    /// take one more, a branch not taken takes two.
    pub open spec fn instr_cycles(self) -> int {
        let name = self.instruction.name;
        match self.instruction.mode {
            AddressMode::Special => match name {
                Mnemonic::Brk => 7,
                Mnemonic::Jsr | Mnemonic::Rts | Mnemonic::Rti => 6,
                Mnemonic::Php | Mnemonic::Pha => 3,
                _ => 4,
            },
            AddressMode::Implied | AddressMode::Accumulator | AddressMode::Immediate => 2,
            AddressMode::Absolute(AccessType::Read) => if name == Mnemonic::Jmp { 3 } else { 4 },
            AddressMode::Absolute(AccessType::Write) => 4,
            AddressMode::Absolute(AccessType::ReadModifyWrite) => 6,
            AddressMode::ZeroPage(AccessType::ReadModifyWrite) => 5,
            AddressMode::ZeroPage(_) => 3,
            AddressMode::ZeroPageIndexedX(AccessType::ReadModifyWrite)
            | AddressMode::ZeroPageIndexedY(AccessType::ReadModifyWrite) => 6,
            AddressMode::ZeroPageIndexedX(_) | AddressMode::ZeroPageIndexedY(_) => 4,
            AddressMode::AbsoluteIndexedX(AccessType::Read)
            | AddressMode::AbsoluteIndexedY(AccessType::Read) => if self.addr_invalid { 5 } else { 4 },
            AddressMode::AbsoluteIndexedX(AccessType::Write)
            | AddressMode::AbsoluteIndexedY(AccessType::Write) => 5,
            AddressMode::AbsoluteIndexedX(AccessType::ReadModifyWrite)
            | AddressMode::AbsoluteIndexedY(AccessType::ReadModifyWrite) => 7,
            AddressMode::XIndexedIndirect(_) => 6,
            AddressMode::IndirectIndexedY(AccessType::Read) => if self.ptr_invalid { 6 } else { 5 },
            AddressMode::IndirectIndexedY(_) => 6,
            AddressMode::Relative => if !branch_taken(name, self.sr) {
                2
            } else if (self.addr & 0xFF00) != (self.pc & 0xFF00) {
                4
            } else {
                3
            },
            AddressMode::Indirect => 5,
        }
    }

    /// The address of the operand of a memory instruction once it is known.
    pub open spec fn operand_address(self) -> u16 {
        match self.instruction.mode {
            AddressMode::Immediate => self.pc,
            AddressMode::XIndexedIndirect(_) | AddressMode::IndirectIndexedY(_) => self.ptr,
            _ => self.addr,
        }
    }

    /// The final access of a read or write instruction at effective address `ea`.
    pub open spec fn operand_access(self, access: AccessType, ea: u16, v: u8) -> BusOp {
        if access == AccessType::Write {
            BusOp::Write(ea, store_value(self.instruction.name, self.regs()))
        } else {
            BusOp::Read(ea, v)
        }
    }

    /// The one bus access of a micro-cycle after the fetch, with `v` the byte
    /// that a read returns: operand fetches at PC, the documented dummy and
    /// spurious reads, the read-modify-write's write of the old value before
    /// the new, and the stack traffic.
    pub open spec fn access(self, v: u8) -> BusOp {
        let st = self.step;
        let pc = self.pc;
        let addr = self.addr;
        let rmw_tail = |k: u8| if st == k { BusOp::Read(addr, v) } else { BusOp::Write(addr, self.tmp) };
        match self.instruction.mode {
            AddressMode::Implied | AddressMode::Accumulator | AddressMode::Immediate => BusOp::Read(pc, v),
            AddressMode::ZeroPage(a) => if st == 2 {
                BusOp::Read(pc, v)
            } else if a == AccessType::ReadModifyWrite {
                rmw_tail(3)
            } else {
                self.operand_access(a, addr, v)
            },
            AddressMode::ZeroPageIndexedX(a) | AddressMode::ZeroPageIndexedY(a) => if st == 2 {
                BusOp::Read(pc, v)
            } else if st == 3 {
                BusOp::Read(addr, v)
            } else if a == AccessType::ReadModifyWrite {
                rmw_tail(4)
            } else {
                self.operand_access(a, addr, v)
            },
            AddressMode::Absolute(a) => if st <= 3 {
                BusOp::Read(pc, v)
            } else if a == AccessType::ReadModifyWrite {
                rmw_tail(4)
            } else {
                self.operand_access(a, addr, v)
            },
            AddressMode::AbsoluteIndexedX(a) | AddressMode::AbsoluteIndexedY(a) => if st <= 3 {
                BusOp::Read(pc, v)
            } else if st == 4 {
                BusOp::Read(addr, v)
            } else if a == AccessType::ReadModifyWrite {
                rmw_tail(5)
            } else {
                self.operand_access(a, addr, v)
            },
            AddressMode::XIndexedIndirect(a) => if st == 2 {
                BusOp::Read(pc, v)
            } else if st <= 4 {
                BusOp::Read(addr, v)
            } else if st == 5 {
                BusOp::Read((addr as u8).wrapping_add(1) as u16, v)
            } else {
                self.operand_access(a, self.ptr, v)
            },
            AddressMode::IndirectIndexedY(a) => if st == 2 {
                BusOp::Read(pc, v)
            } else if st == 3 {
                BusOp::Read(addr, v)
            } else if st == 4 {
                BusOp::Read((addr as u8).wrapping_add(1) as u16, v)
            } else if st == 5 {
                BusOp::Read(self.ptr, v)
            } else {
                self.operand_access(a, self.ptr, v)
            },
            AddressMode::Relative => if st <= 3 {
                BusOp::Read(pc, v)
            } else {
                BusOp::Read((pc & 0xFF00) | (addr & 0x00FF), v)
            },
            AddressMode::Indirect => if st <= 3 {
                BusOp::Read(pc, v)
            } else if st == 4 {
                BusOp::Read(addr, v)
            } else {
                BusOp::Read(indirect_high_address(addr), v)
            },
            AddressMode::Special => {
                let top = stack_address(self.sp);
                let next = stack_address(self.sp.wrapping_add(1));
                match self.instruction.name {
                    Mnemonic::Jsr => if st == 3 {
                        BusOp::Read(top, v)
                    } else if st == 4 {
                        BusOp::Write(top, (pc >> 8u16) as u8)
                    } else if st == 5 {
                        BusOp::Write(top, (pc & 0xFF) as u8)
                    } else {
                        BusOp::Read(pc, v)
                    },
                    Mnemonic::Rts => if st == 3 {
                        BusOp::Read(top, v)
                    } else if st == 4 || st == 5 {
                        BusOp::Read(next, v)
                    } else {
                        BusOp::Read(pc, v)
                    },
                    Mnemonic::Brk => if st == 2 {
                        BusOp::Read(pc, v)
                    } else if st == 3 {
                        BusOp::Write(top, (pc >> 8u16) as u8)
                    } else if st == 4 {
                        BusOp::Write(top, (pc & 0xFF) as u8)
                    } else if st == 5 {
                        BusOp::Write(top, self.sr | FLAG_BREAK | FLAG_UNUSED)
                    } else if st == 6 {
                        BusOp::Read(IRQ_VECTOR, v)
                    } else {
                        BusOp::Read((IRQ_VECTOR + 1) as u16, v)
                    },
                    Mnemonic::Rti => if st == 2 {
                        BusOp::Read(pc, v)
                    } else if st == 3 {
                        BusOp::Read(top, v)
                    } else {
                        BusOp::Read(next, v)
                    },
                    Mnemonic::Pha => if st == 2 { BusOp::Read(pc, v) } else { BusOp::Write(top, self.a) },
                    Mnemonic::Php => if st == 2 {
                        BusOp::Read(pc, v)
                    } else {
                        BusOp::Write(top, self.sr | FLAG_BREAK | FLAG_UNUSED)
                    },
                    _ => if st == 2 {
                        BusOp::Read(pc, v)
                    } else if st == 3 {
                        BusOp::Read(top, v)
                    } else {
                        BusOp::Read(next, v)
                    },
                }
            },
        }
    }

    /// The program counter after a micro-cycle after the fetch, with `v` the
    /// byte read in it.
    pub open spec fn next_pc(self, v: u8) -> u16 {
        let st = self.step;
        let pc = self.pc;
        let inc = pc.wrapping_add(1);
        let name = self.instruction.name;
        match self.instruction.mode {
            AddressMode::Implied | AddressMode::Accumulator => pc,
            AddressMode::Immediate => inc,
            AddressMode::ZeroPage(_) | AddressMode::ZeroPageIndexedX(_) | AddressMode::ZeroPageIndexedY(_)
            | AddressMode::XIndexedIndirect(_) | AddressMode::IndirectIndexedY(_) => if st == 2 { inc } else { pc },
            AddressMode::Absolute(a) => if st == 2 {
                inc
            } else if st == 3 {
                if name == Mnemonic::Jmp && a == AccessType::Read { self.addr | (v as u16) << 8u16 } else { inc }
            } else {
                pc
            },
            AddressMode::AbsoluteIndexedX(_) | AddressMode::AbsoluteIndexedY(_) => if st <= 3 { inc } else { pc },
            AddressMode::Relative => if st == 2 {
                inc
            } else if st == 3 {
                if (self.addr & 0xFF00) == (pc & 0xFF00) { self.addr } else { pc }
            } else {
                self.addr
            },
            AddressMode::Indirect => if st <= 3 {
                inc
            } else if st == 4 {
                v as u16
            } else {
                (pc & 0xFF) | (v as u16) << 8u16
            },
            AddressMode::Special => match name {
                Mnemonic::Jsr => if st == 2 { inc } else if st == 6 { (v as u16) << 8u16 | self.addr } else { pc },
                Mnemonic::Rts => if st == 4 { v as u16 } else if st == 5 { pc | (v as u16) << 8u16 } else if st == 6 { inc } else { pc },
                Mnemonic::Brk => if st == 2 { inc } else if st == 6 { v as u16 } else if st == 7 { pc | (v as u16) << 8u16 } else { pc },
                Mnemonic::Rti => if st == 5 { v as u16 } else if st == 6 { pc | (v as u16) << 8u16 } else { pc },
                _ => pc,
            },
        }
    }

    /// The micro-cycles of the stack instructions that move the stack pointer.
    pub open spec fn moves_sp(self) -> bool {
        let st = self.step;
        self.instruction.mode == AddressMode::Special && match self.instruction.name {
            Mnemonic::Jsr | Mnemonic::Rts => st == 4 || st == 5,
            Mnemonic::Brk => 3 <= st <= 5,
            Mnemonic::Rti => st >= 4,
            Mnemonic::Pha | Mnemonic::Php => st == 3,
            _ => st == 4,
        }
    }

    /// What a micro-cycle leaves alone: each register, and each part of the
    /// address being formed, outside the cycles that the instruction uses it in.
    pub open spec fn frame(s: Self, t: Self) -> bool {
        let n = s.instr_cycles();
        let m = s.instruction.mode;
        let name = s.instruction.name;
        let st = s.step;
        let done_regs = st == n && (is_read_instruction(s.instruction) || m == AddressMode::Implied);
        let special = m == AddressMode::Special;
        &&& !done_regs ==> t.x == s.x && t.y == s.y
        &&& !done_regs && m != AddressMode::Accumulator && !(special && name == Mnemonic::Pla && st == 4) ==> t.a == s.a
        &&& !done_regs && m != AddressMode::Accumulator && !(is_rmw_mode(m) && st + 1 == n) && !(special && (
            (name == Mnemonic::Brk && st == 5) || (name == Mnemonic::Rti && st == 4)
            || ((name == Mnemonic::Plp || name == Mnemonic::Pla) && st == 4))) ==> t.sr == s.sr
        &&& !done_regs && !s.moves_sp() ==> t.sp == s.sp
        &&& !(is_rmw_mode(m) && st + 2 >= n) ==> t.tmp == s.tmp
        &&& is_rmw_mode(m) && st + 2 == n ==> t.tmp == last_value(t.bus.trace())
        &&& !(st == 2 && (zero_page_operand(m) || absolute_operand(m) || m == AddressMode::Relative
            || (special && name == Mnemonic::Jsr))) && !(st == 3 && (absolute_operand(m) || m is ZeroPageIndexedX
            || m is ZeroPageIndexedY || m is XIndexedIndirect)) && !(st == 4 && (m is AbsoluteIndexedX
            || m is AbsoluteIndexedY)) ==> t.addr == s.addr
        &&& !(st == 3 && (m is AbsoluteIndexedX || m is AbsoluteIndexedY)) ==> t.addr_invalid == s.addr_invalid
        &&& !((m is XIndexedIndirect && (st == 4 || st == 5)) || (m is IndirectIndexedY && 3 <= st <= 5)) ==> t.ptr == s.ptr
        &&& !(m is IndirectIndexedY && st == 4) ==> t.ptr_invalid == s.ptr_invalid
        &&& m == AddressMode::Relative && st == 2 ==> t.addr == t.pc.wrapping_add(
            if last_value(t.bus.trace()) < 0x80 {
                last_value(t.bus.trace()) as u16
            } else {
                (last_value(t.bus.trace()) as u16 + 0xFF00) as u16
            },
        )
        &&& special && name == Mnemonic::Jsr && st == 2 ==> t.addr == last_value(t.bus.trace()) as u16
    }

    /// The core's invariant: the micro-cycle stays within the instruction.
    pub open spec fn wf(self) -> bool {
        &&& self.bus.valid()
        &&& 1 <= self.step
        &&& self.step >= 2 ==> cpu_6505::valid_instruction(self.instruction) && self.step <= self.instr_cycles()
        &&& self.jammed ==> self.step == 1
        &&& self.step >= 3 && zero_page_operand(self.instruction.mode) ==> self.addr < 0x100
        &&& self.step == 3 && absolute_operand(self.instruction.mode) ==> self.addr < 0x100
        &&& self.step == 4 && self.instruction.mode is IndirectIndexedY ==> self.ptr < 0x100
    }

    /// What one micro-cycle after the fetch does, stated from the state before
    /// (`s`) and after (`t`) it; the step counter itself is stated apart.
    pub open spec fn step_effect(s: Self, t: Self) -> bool {
        let n = s.instr_cycles();
        let m = s.instruction.mode;
        let name = s.instruction.name;
        let st = s.bus.trace();
        let tt = t.bus.trace();
        &&& t.instruction == s.instruction
        &&& t.opcode == s.opcode
        &&& t.jammed == s.jammed
        &&& tt == st.push(s.access(last_value(tt)))
        &&& Self::bus_moved(s.bus, t.bus)
        &&& t.pc == s.next_pc(last_value(tt))
        &&& Self::frame(s, t)
        &&& (s.step < n ==> s.step < t.instr_cycles())
        &&& (s.step >= 2 && zero_page_operand(m) ==> t.addr < 0x100)
        &&& (s.step == 2 && absolute_operand(m) ==> t.addr < 0x100)
        &&& (s.step == 3 && m is IndirectIndexedY ==> t.ptr < 0x100)
        &&& (is_rmw_mode(m) && s.step + 1 == n ==> tt == st.push(BusOp::Write(s.addr, s.tmp))
            && (t.tmp, t.sr) == rmw_effect(name, s.tmp, s.sr))
        &&& (is_rmw_mode(m) && s.step == n ==> tt == st.push(BusOp::Write(s.addr, s.tmp)))
        &&& (is_rmw_mode(m) && s.step + 1 < n ==> tt.len() == st.len() + 1 && tt.last() is Read)
        &&& (m == AddressMode::Indirect && s.step == 5 ==> tt == st.push(
            BusOp::Read(indirect_high_address(s.addr), (t.pc >> 8u16) as u8),
        ) && t.pc & 0xFF == s.pc & 0xFF)
        &&& (is_read_instruction(s.instruction) && s.step == n ==> tt == st.push(
            BusOp::Read(s.operand_address(), last_value(tt)),
        ) && t.regs() == read_effect(name, s.regs(), last_value(tt)))
        &&& (is_write_mode(m) && s.step == n ==> tt == st.push(
            BusOp::Write(s.operand_address(), store_value(name, s.regs())),
        ))
        &&& (m == AddressMode::Implied ==> t.regs() == implied_effect(name, s.regs()))
        &&& (m == AddressMode::Accumulator ==> (t.a, t.sr) == rmw_effect(name, s.a, s.sr)
            && t.x == s.x && t.y == s.y && t.sp == s.sp)
        &&& (m == AddressMode::Relative && branch_taken(name, s.sr) && s.step == n ==> t.pc == s.addr)
        &&& (m == AddressMode::Relative && s.step == 3 ==> tt == st.push(BusOp::Read(s.pc, last_value(tt))))
        &&& (m == AddressMode::Relative && s.step == 4 ==> tt == st.push(
            BusOp::Read((s.pc & 0xFF00) | (s.addr & 0x00FF), last_value(tt)),
        ))
        &&& (m == AddressMode::Special ==> Self::stack_effect(s, t))
        &&& Self::address_effect(s, t)
        &&& (m == AddressMode::Absolute(AccessType::Read) && name == Mnemonic::Jmp && s.step == n
            ==> tt == st.push(BusOp::Read(s.pc, last_value(tt)))
            && t.pc == s.addr | (last_value(tt) as u16) << 8u16)
    }

    /// The index register of an indexed mode.
    pub open spec fn index(self) -> u8 {
        match self.instruction.mode {
            AddressMode::ZeroPageIndexedY(_) | AddressMode::AbsoluteIndexedY(_) | AddressMode::IndirectIndexedY(_) => self.y,
            _ => self.x,
        }
    }

    /// How the indexed modes form their effective address: the index is added
    /// to the low byte, and a carry out of it is added to the high byte one
    /// cycle later; zero-page indexing wraps within page zero.
    pub open spec fn address_effect(s: Self, t: Self) -> bool {
        let m = s.instruction.mode;
        let st = s.bus.trace();
        let tt = t.bus.trace();
        let v = last_value(tt);
        let lo = s.addr + s.index();
        let plo = s.ptr + s.y;
        &&& ((zero_page_operand(m) || absolute_operand(m)) && s.step == 2 ==> tt == st.push(BusOp::Read(s.pc, v))
            && t.addr == v as u16 && t.pc == s.pc.wrapping_add(1))
        &&& ((m is Absolute || m is Indirect) && s.step == 3 ==> tt == st.push(BusOp::Read(s.pc, v))
            && t.addr == s.addr | (v as u16) << 8u16)
        &&& ((m is AbsoluteIndexedX || m is AbsoluteIndexedY) && s.step == 3 ==> tt == st.push(BusOp::Read(s.pc, v))
            && t.addr == v as int * 256 + (if lo > 255 { lo - 256 } else { lo })
            && t.addr_invalid == (lo > 255))
        &&& ((m is AbsoluteIndexedX || m is AbsoluteIndexedY) && s.step == 4 ==> t.addr == (if s.addr_invalid {
            s.addr.wrapping_add(0x100)
        } else {
            s.addr
        }))
        &&& ((m is ZeroPageIndexedX || m is ZeroPageIndexedY || m is XIndexedIndirect) && s.step == 3
            ==> t.addr == (s.addr as u8).wrapping_add(s.index()) as u16)
        &&& (m is XIndexedIndirect && s.step == 4 ==> tt == st.push(BusOp::Read(s.addr, v)) && t.ptr == v as u16)
        &&& (m is XIndexedIndirect && s.step == 5 ==> tt == st.push(
            BusOp::Read((s.addr as u8).wrapping_add(1) as u16, v),
        ) && t.ptr == s.ptr | (v as u16) << 8u16)
        &&& (m is IndirectIndexedY && s.step == 3 ==> tt == st.push(BusOp::Read(s.addr, v)) && t.ptr == v as u16)
        &&& (m is IndirectIndexedY && s.step == 4 ==> tt == st.push(
            BusOp::Read((s.addr as u8).wrapping_add(1) as u16, v),
        ) && t.ptr == v as int * 256 + (if plo > 255 { plo - 256 } else { plo }) && t.ptr_invalid == (plo > 255))
        &&& (m is IndirectIndexedY && s.step == 5 ==> t.ptr == (if s.ptr_invalid {
            s.ptr.wrapping_add(0x100)
        } else {
            s.ptr
        }))
    }

    /// The stack traffic of the subroutine, interrupt and push/pull
    /// instructions, cycle by cycle. A push writes at 0x100 + SP and then
    /// decrements SP; a pull increments SP and then reads.
    pub open spec fn stack_effect(s: Self, t: Self) -> bool {
        let st = s.bus.trace();
        let tt = t.bus.trace();
        let v = last_value(tt);
        let pushed = |b: u8| tt == st.push(BusOp::Write(stack_address(s.sp), b)) && t.sp == s.sp.wrapping_sub(1);
        let pulled = tt == st.push(BusOp::Read(stack_address(t.sp), v)) && t.sp == s.sp.wrapping_add(1);
        match s.instruction.name {
            Mnemonic::Jsr => {
                &&& s.step == 4 ==> pushed((s.pc >> 8u16) as u8)
                &&& s.step == 5 ==> pushed((s.pc & 0xFF) as u8)
                &&& s.step == 6 ==> tt == st.push(BusOp::Read(s.pc, v)) && t.pc == (v as u16) << 8u16 | s.addr
            },
            Mnemonic::Rts => {
                &&& s.step == 4 ==> pulled && t.pc == v as u16
                &&& s.step == 5 ==> pulled && t.pc == s.pc | (v as u16) << 8u16
                &&& s.step == 6 ==> t.pc == s.pc.wrapping_add(1)
            },
            Mnemonic::Brk => {
                &&& s.step == 3 ==> pushed((s.pc >> 8u16) as u8)
                &&& s.step == 4 ==> pushed((s.pc & 0xFF) as u8)
                &&& s.step == 5 ==> pushed(s.sr | FLAG_BREAK | FLAG_UNUSED) && t.sr == s.sr | FLAG_INTERRUPT
                &&& s.step == 6 ==> tt == st.push(BusOp::Read(IRQ_VECTOR, v)) && t.pc == v as u16
                &&& s.step == 7 ==> tt == st.push(BusOp::Read((IRQ_VECTOR + 1) as u16, v))
                    && t.pc == s.pc | (v as u16) << 8u16
            },
            Mnemonic::Rti => {
                &&& s.step == 4 ==> pulled && t.sr == v & !FLAG_BREAK & !FLAG_UNUSED
                &&& s.step == 5 ==> pulled && t.pc == v as u16
                &&& s.step == 6 ==> pulled && t.pc == s.pc | (v as u16) << 8u16
            },
            Mnemonic::Pha => s.step == 3 ==> pushed(s.a),
            Mnemonic::Php => s.step == 3 ==> pushed(s.sr | FLAG_BREAK | FLAG_UNUSED),
            Mnemonic::Pla => s.step == 4 ==> pulled && t.a == v && t.sr == alu::with_nz(s.sr, v),
            Mnemonic::Plp => s.step == 4 ==> pulled && t.sr == v & !FLAG_BREAK & !FLAG_UNUSED,
            _ => true,
        }
    }

    /// The bus `b1` is `b0` after the last access in `b1`'s history.
    pub open spec fn bus_moved(b0: T, b1: T) -> bool {
        match b1.trace().last() {
            BusOp::Read(a, v) => b0.read_post(a, v, b1),
            BusOp::Write(a, v) => b0.write_post(a, v, b1),
        }
    }

    /// One call of `cycle(rdy)` from `s` to `t`. With `rdy` low the core holds
    /// on the fetch cycle of an instruction, the cycle still passing. A fetch
    /// reads the opcode at PC and decodes it; each following cycle does what
    /// `step_effect` states, and the instruction ends after exactly
    /// `instr_cycles` calls from its fetch.
    pub open spec fn cycled(s: Self, t: Self, rdy: bool) -> bool {
        &&& t.wf()
        &&& t.cycles == s.cycles.wrapping_add(1)
        &&& s.jammed || (s.step == 1 && !rdy) ==> t == (MOS6502 { cycles: t.cycles, ..s })
        &&& !s.jammed && s.step == 1 && rdy ==> {
            &&& t.bus.trace() == s.bus.trace().push(BusOp::Read(s.pc, t.opcode))
            &&& Self::bus_moved(s.bus, t.bus)
            &&& t.regs() == s.regs()
            &&& t.jammed == (decode::decode_spec(t.opcode) is None)
            &&& t.jammed ==> t.pc == s.pc && t.step == 1
            &&& !t.jammed ==> t.step == 2 && t.pc == s.pc.wrapping_add(1) && Some(t.instruction) == decode::decode_spec(t.opcode)
        }
        &&& !s.jammed && s.step >= 2 ==> {
            &&& Self::step_effect(s, t)
            &&& t.step == (if s.step == s.instr_cycles() { 1 } else { s.step + 1 })
        }
    }

    /// What a mode handler guarantees: the step effect, and a step counter that
    /// drops to 0 on the instruction's last cycle and stays otherwise.
    pub open spec fn handled(s: Self, t: Self) -> bool {
        &&& Self::step_effect(s, t)
        &&& t.bus.valid()
        &&& t.step == (if s.step == s.instr_cycles() { 0 } else { s.step })
        &&& t.cycles == s.cycles
    }

    /// The requirement of a mode handler.
    pub open spec fn ready_for(self, m: AddressMode) -> bool {
        &&& self.wf()
        &&& self.step >= 2
        &&& !self.jammed
        &&& self.instruction.mode == m
    }

    pub fn new(bus: T) -> (r: Self)
        requires
            bus.valid(),
        ensures
            r.wf(),
            r.bus == bus,
            r.step == 1,
            r.cycles == 0,
            !r.jammed,
            r.pc == 0 && r.a == 0 && r.x == 0 && r.y == 0 && r.sp == 0 && r.sr == 0,
    {
        MOS6502 {
            pc: 0,
            sr: 0,
            sp: 0,
            a: 0,
            x: 0,
            y: 0,
            tmp: 0,
            step: 1,
            cycles: 0,
            addr: 0,
            addr_invalid: false,
            ptr: 0,
            ptr_invalid: false,
            opcode: 0,
            instruction: Instruction { name: Mnemonic::Brk, mode: AddressMode::Implied },
            jammed: false,
            bus,
        }
    }

    pub fn get_bus(&mut self) -> (r: &mut T)
        ensures
            *r == old(self).bus,
            *final(self) == (MOS6502 { bus: *final(r), ..*old(self) }),
    {
        &mut self.bus
    }

    /// Advances the core by one bus cycle, as `cycled` states.
    pub fn cycle(&mut self, rdy: bool)
        requires
            old(self).wf(),
        ensures
            Self::cycled(*old(self), *final(self), rdy),
    {
        if self.jammed || (self.step == 1 && !rdy) {
            self.cycles = self.cycles.wrapping_add(1);
            return;
        }
        if self.step == 1 {
            self.fetch_opcode();
        } else {
            self.execute_step();
        }
        self.cycles = self.cycles.wrapping_add(1);
    }

    /// The fetch cycle: read the opcode at PC and decode it.
    fn fetch_opcode(&mut self)
        requires
            old(self).wf(),
            old(self).step == 1,
            !old(self).jammed,
        ensures
            final(self).wf(),
            final(self).cycles == old(self).cycles,
            final(self).bus.trace() == old(self).bus.trace().push(BusOp::Read(old(self).pc, final(self).opcode)),
            Self::bus_moved(old(self).bus, final(self).bus),
            final(self).regs() == old(self).regs(),
            final(self).jammed == (decode::decode_spec(final(self).opcode) is None),
            final(self).jammed ==> final(self).pc == old(self).pc && final(self).step == 1,
            !final(self).jammed ==> final(self).step == 2 && final(self).pc == old(self).pc.wrapping_add(1)
                && Some(final(self).instruction) == decode::decode_spec(final(self).opcode),
    {
        let opcode = self.bus.read(self.pc);
        self.opcode = opcode;
        match decode(opcode) {
            Some(i) => {
                self.instruction = i;
                self.pc = self.pc.wrapping_add(1);
                self.step = 2;
            },
            None => {
                self.jammed = true;
            },
        }
    }

    /// Runs the addressing mode's handler for the current micro-cycle.
    fn dispatch(&mut self)
        requires
            old(self).wf(),
            old(self).step >= 2,
            !old(self).jammed,
        ensures
            Self::handled(*old(self), *final(self)),
    {
        let mode = self.instruction.mode;
        match mode {
            AddressMode::Special => self.special(),
            AddressMode::Implied => self.implied(),
            AddressMode::Accumulator => self.accumulator(),
            AddressMode::Immediate => self.immediate(),
            AddressMode::Absolute(access) => self.absolute(access),
            AddressMode::ZeroPage(access) => self.zeropage(access),
            AddressMode::ZeroPageIndexedX(access) => self.zeropage_indexed(self.x, access),
            AddressMode::ZeroPageIndexedY(access) => self.zeropage_indexed(self.y, access),
            AddressMode::AbsoluteIndexedX(access) => self.absolute_indexed(self.x, access),
            AddressMode::AbsoluteIndexedY(access) => self.absolute_indexed(self.y, access),
            AddressMode::Relative => self.relative(),
            AddressMode::XIndexedIndirect(access) => self.x_indexed_indirect(access),
            AddressMode::IndirectIndexedY(access) => self.indirect_indexed_y(access),
            AddressMode::Indirect => self.indirect(),
        }
    }

    /// A cycle after the fetch: the addressing mode's handler.
    fn execute_step(&mut self)
        requires
            old(self).wf(),
            old(self).step >= 2,
            !old(self).jammed,
        ensures
            final(self).wf(),
            final(self).cycles == old(self).cycles,
            Self::step_effect(*old(self), *final(self)),
            final(self).step == (if old(self).step == old(self).instr_cycles() { 1 } else { old(self).step + 1 }),
    {
        self.dispatch();
        self.step = self.step + 1;
    }

    fn push(&mut self, value: u8)
        requires
            old(self).bus.valid(),
        ensures
            Self::bus_moved(old(self).bus, final(self).bus),
            final(self).bus.valid(),
            *final(self) == (MOS6502 { sp: old(self).sp.wrapping_sub(1), bus: final(self).bus, ..*old(self) }),
            final(self).bus.trace() == old(self).bus.trace().push(BusOp::Write((STACK + old(self).sp) as u16, value)),
    {
        self.bus.write(STACK + self.sp as u16, value);
        self.sp = self.sp.wrapping_sub(1);
    }

    fn pop(&mut self) -> (r: u8)
        requires
            old(self).bus.valid(),
        ensures
            Self::bus_moved(old(self).bus, final(self).bus),
            final(self).bus.valid(),
            *final(self) == (MOS6502 { sp: old(self).sp.wrapping_add(1), bus: final(self).bus, ..*old(self) }),
            final(self).bus.trace() == old(self).bus.trace().push(BusOp::Read((STACK + final(self).sp) as u16, r)),
    {
        self.sp = self.sp.wrapping_add(1);
        self.bus.read(STACK + self.sp as u16)
    }

    /// Loads the program counter from the reset vector and puts the core in its
    /// power-on state: stack pointer 0xFD, interrupts masked, ready to fetch.
    pub fn reset(&mut self)
        requires
            old(self).bus.valid(),
        ensures
            final(self).wf(),
            final(self).bus.trace() == old(self).bus.trace().push(
                BusOp::Read(RES_VECTOR, (final(self).pc & 0xFF) as u8),
            ).push(BusOp::Read((RES_VECTOR + 1) as u16, (final(self).pc >> 8u16) as u8)),
            final(self).sp == 0xFD,
            final(self).sr == FLAG_INTERRUPT,
            final(self).step == 1,
            !final(self).jammed,
            final(self).a == old(self).a && final(self).x == old(self).x && final(self).y == old(self).y,
    {
        let lo = self.bus.read(RES_VECTOR);
        let hi = self.bus.read(RES_VECTOR + 1);
        let pc = (hi as u16) << 8u16 | lo as u16;
        assert((pc & 0xFF) as u8 == lo && (pc >> 8u16) as u8 == hi) by (bit_vector)
            requires pc == (hi as u16) << 8u16 | lo as u16;
        self.pc = pc;
        self.sp = 0xFD;
        self.sr = FLAG_INTERRUPT;
        self.step = 1;
        self.jammed = false;
    }

    fn update_flags(&mut self, reg: u8)
        ensures
            *final(self) == (MOS6502 { sr: alu::with_nz(old(self).sr, reg), ..*old(self) }),
    {
        if reg == 0 {
            self.sr = self.sr | FLAG_ZERO;
        } else {
            self.sr = self.sr & !FLAG_ZERO;
        }
        if reg & 0x80 != 0 {
            self.sr = self.sr | FLAG_NEGATIVE;
        } else {
            self.sr = self.sr & !FLAG_NEGATIVE;
        }
    }

    fn set_flag(&mut self, f: u8, on: bool)
        ensures
            *final(self) == (MOS6502 { sr: alu::with_flag(old(self).sr, f, on), ..*old(self) }),
    {
        if on {
            self.sr = self.sr | f;
        } else {
            self.sr = self.sr & !f;
        }
    }

    fn add_bin(&mut self, a: u8, b: u8) -> (r: u8)
        ensures
            (r, final(self).sr) == alu::bin_add(a, b, old(self).sr),
            *final(self) == (MOS6502 { sr: final(self).sr, ..*old(self) }),
    {
        let c: u16 = a as u16 + b as u16 + if self.sr & FLAG_CARRY != 0 { 1u16 } else { 0u16 };
        let r: u8 = if c > 255 { (c - 256) as u8 } else { c as u8 };
        self.set_flag(FLAG_CARRY, c > 255);
        self.set_flag(FLAG_OVERFLOW, (a & 0x80) == (b & 0x80) && (r & 0x80) != (a & 0x80));
        self.update_flags(r);
        r
    }

    fn add_bcd(&mut self, a: u8, b: u8) -> (r: u8)
        ensures
            (r, final(self).sr) == alu::bcd_add(a, b, old(self).sr),
            *final(self) == (MOS6502 { sr: final(self).sr, ..*old(self) }),
    {
        let (r, sr) = arith::add_decimal(a, b, self.sr);
        self.sr = sr;
        r
    }

    fn sub_bcd(&mut self, a: u8, b: u8) -> (r: u8)
        ensures
            (r, final(self).sr) == alu::bcd_sub(a, b, old(self).sr),
            *final(self) == (MOS6502 { sr: final(self).sr, ..*old(self) }),
    {
        let (r, sr) = arith::sub_decimal(a, b, self.sr);
        self.sr = sr;
        r
    }

    fn compare(&mut self, reg: u8, operand: u8)
        ensures
            *final(self) == (MOS6502 { sr: alu::compare_spec(reg, operand, old(self).sr), ..*old(self) }),
    {
        let d: u8 = if reg >= operand { reg - operand } else { (reg as u16 + 256 - operand as u16) as u8 };
        self.update_flags(d);
        self.set_flag(FLAG_CARRY, reg >= operand);
    }

    fn adc(&mut self, value: u8)
        ensures
            *final(self) == (MOS6502 {
                a: alu::adc_spec(old(self).a, value, old(self).sr).0,
                sr: alu::adc_spec(old(self).a, value, old(self).sr).1,
                ..*old(self)
            }),
    {
        if self.sr & FLAG_DECIMAL == 0 {
            self.a = self.add_bin(self.a, value);
        } else {
            self.a = self.add_bcd(self.a, value);
        }
    }

    fn sbc(&mut self, value: u8)
        ensures
            *final(self) == (MOS6502 {
                a: alu::sbc_spec(old(self).a, value, old(self).sr).0,
                sr: alu::sbc_spec(old(self).a, value, old(self).sr).1,
                ..*old(self)
            }),
    {
        if self.sr & FLAG_DECIMAL == 0 {
            self.a = self.add_bin(self.a, !value);
        } else {
            self.a = self.sub_bcd(self.a, value);
        }
    }

    fn execute_read(&mut self, value: u8)
        ensures
            *final(self) == old(self).with_regs(read_effect(old(self).instruction.name, old(self).regs(), value)),
    {
        match self.instruction.name {
            Mnemonic::Lda => {
                self.a = value;
                self.update_flags(value);
            },
            Mnemonic::Ldx => {
                self.x = value;
                self.update_flags(value);
            },
            Mnemonic::Ldy => {
                self.y = value;
                self.update_flags(value);
            },
            Mnemonic::Ora => {
                self.a = self.a | value;
                self.update_flags(self.a);
            },
            Mnemonic::Eor => {
                self.a = self.a ^ value;
                self.update_flags(self.a);
            },
            Mnemonic::And => {
                self.a = self.a & value;
                self.update_flags(self.a);
            },
            Mnemonic::Cmp => self.compare(self.a, value),
            Mnemonic::Cpx => self.compare(self.x, value),
            Mnemonic::Cpy => self.compare(self.y, value),
            Mnemonic::Adc => self.adc(value),
            Mnemonic::Sbc => self.sbc(value),
            Mnemonic::Bit => {
                self.set_flag(FLAG_ZERO, value & self.a == 0);
                self.set_flag(FLAG_NEGATIVE, value & 0x80 != 0);
                self.set_flag(FLAG_OVERFLOW, value & 0x40 != 0);
            },
            _ => {},
        }
    }

    fn execute_write(&mut self, addr: u16)
        requires
            old(self).bus.valid(),
        ensures
            Self::bus_moved(old(self).bus, final(self).bus),
            final(self).bus.valid(),
            *final(self) == (MOS6502 { bus: final(self).bus, ..*old(self) }),
            final(self).bus.trace() == old(self).bus.trace().push(
                BusOp::Write(addr, store_value(old(self).instruction.name, old(self).regs())),
            ),
    {
        match self.instruction.name {
            Mnemonic::Stx => self.bus.write(addr, self.x),
            Mnemonic::Sty => self.bus.write(addr, self.y),
            _ => self.bus.write(addr, self.a),
        }
    }

    fn execute_rmw(&mut self, value: u8) -> (r: u8)
        ensures
            (r, final(self).sr) == rmw_effect(old(self).instruction.name, value, old(self).sr),
            *final(self) == (MOS6502 { sr: final(self).sr, ..*old(self) }),
    {
        let c: u8 = if self.sr & FLAG_CARRY != 0 { 1 } else { 0 };
        match self.instruction.name {
            Mnemonic::Asl => {
                let r = value << 1u8;
                self.set_flag(FLAG_CARRY, value & 0x80 != 0);
                self.update_flags(r);
                r
            },
            Mnemonic::Lsr => {
                let r = value >> 1u8;
                self.set_flag(FLAG_CARRY, value & 1 != 0);
                self.update_flags(r);
                r
            },
            Mnemonic::Rol => {
                let r = (value << 1u8) | c;
                self.set_flag(FLAG_CARRY, value & 0x80 != 0);
                self.update_flags(r);
                r
            },
            Mnemonic::Ror => {
                let r = (value >> 1u8) | (c << 7u8);
                self.set_flag(FLAG_CARRY, value & 1 != 0);
                self.update_flags(r);
                r
            },
            Mnemonic::Inc => {
                let r = value.wrapping_add(1);
                self.update_flags(r);
                r
            },
            Mnemonic::Dec => {
                let r = value.wrapping_sub(1);
                self.update_flags(r);
                r
            },
            _ => value,
        }
    }

    fn set_addr_hi_index_lo(&mut self, hi: u8, i: u8)
        requires
            old(self).addr < 0x100,
        ensures
            *final(self) == (MOS6502 { addr: final(self).addr, addr_invalid: final(self).addr_invalid, ..*old(self) }),
            final(self).addr == hi as int * 256 + (if old(self).addr + i > 255 { old(self).addr + i - 256 } else { old(self).addr + i }),
            final(self).addr_invalid == (old(self).addr + i > 255),
    {
        let sum: u16 = self.addr + i as u16;
        self.addr_invalid = sum > 0xFF;
        self.addr = (hi as u16) * 256 + (if sum > 0xFF { sum - 0x100 } else { sum });
    }

    fn fix_addr(&mut self)
        ensures
            *final(self) == (MOS6502 { addr: final(self).addr, ..*old(self) }),
            final(self).addr == (if old(self).addr_invalid { old(self).addr.wrapping_add(0x100) } else { old(self).addr }),
    {
        if self.addr_invalid {
            self.addr = self.addr.wrapping_add(0x100);
        }
    }

    fn set_ptr_hi_index_lo(&mut self, hi: u8, i: u8)
        requires
            old(self).ptr < 0x100,
        ensures
            *final(self) == (MOS6502 { ptr: final(self).ptr, ptr_invalid: final(self).ptr_invalid, ..*old(self) }),
            final(self).ptr == hi as int * 256 + (if old(self).ptr + i > 255 { old(self).ptr + i - 256 } else { old(self).ptr + i }),
            final(self).ptr_invalid == (old(self).ptr + i > 255),
    {
        let sum: u16 = self.ptr + i as u16;
        self.ptr_invalid = sum > 0xFF;
        self.ptr = (hi as u16) * 256 + (if sum > 0xFF { sum - 0x100 } else { sum });
    }

    fn fix_ptr(&mut self)
        ensures
            *final(self) == (MOS6502 { ptr: final(self).ptr, ..*old(self) }),
            final(self).ptr == (if old(self).ptr_invalid { old(self).ptr.wrapping_add(0x100) } else { old(self).ptr }),
    {
        if self.ptr_invalid {
            self.ptr = self.ptr.wrapping_add(0x100);
        }
    }

    /// Reads the byte at PC and moves PC past it.
    fn fetch(&mut self) -> (r: u8)
        requires
            old(self).bus.valid(),
        ensures
            Self::bus_moved(old(self).bus, final(self).bus),
            final(self).bus.valid(),
            *final(self) == (MOS6502 { pc: old(self).pc.wrapping_add(1), bus: final(self).bus, ..*old(self) }),
            final(self).bus.trace() == old(self).bus.trace().push(BusOp::Read(old(self).pc, r)),
    {
        let r = self.bus.read(self.pc);
        self.pc = self.pc.wrapping_add(1);
        r
    }

    /// A read whose value is not used.
    fn dummy_read(&mut self, addr: u16)
        requires
            old(self).bus.valid(),
        ensures
            Self::bus_moved(old(self).bus, final(self).bus),
            final(self).bus.valid(),
            *final(self) == (MOS6502 { bus: final(self).bus, ..*old(self) }),
            final(self).bus.trace() == old(self).bus.trace().push(BusOp::Read(addr, last_value(final(self).bus.trace()))),
    {
        let _ = self.bus.read(addr);
    }

    fn implied(&mut self)
        requires
            old(self).ready_for(AddressMode::Implied),
        ensures
            Self::handled(*old(self), *final(self)),
    {
        self.dummy_read(self.pc);
        self.step = 0;
        match self.instruction.name {
            Mnemonic::Sei => self.sr = self.sr | FLAG_INTERRUPT,
            Mnemonic::Cli => self.sr = self.sr & !FLAG_INTERRUPT,
            Mnemonic::Sed => self.sr = self.sr | FLAG_DECIMAL,
            Mnemonic::Cld => self.sr = self.sr & !FLAG_DECIMAL,
            Mnemonic::Sec => self.sr = self.sr | FLAG_CARRY,
            Mnemonic::Clc => self.sr = self.sr & !FLAG_CARRY,
            Mnemonic::Clv => self.sr = self.sr & !FLAG_OVERFLOW,
            Mnemonic::Tay => {
                self.y = self.a;
                self.update_flags(self.y);
            },
            Mnemonic::Tax => {
                self.x = self.a;
                self.update_flags(self.x);
            },
            Mnemonic::Txa => {
                self.a = self.x;
                self.update_flags(self.a);
            },
            Mnemonic::Tya => {
                self.a = self.y;
                self.update_flags(self.a);
            },
            Mnemonic::Txs => self.sp = self.x,
            Mnemonic::Tsx => {
                self.x = self.sp;
                self.update_flags(self.x);
            },
            Mnemonic::Inx => {
                self.x = self.x.wrapping_add(1);
                self.update_flags(self.x);
            },
            Mnemonic::Iny => {
                self.y = self.y.wrapping_add(1);
                self.update_flags(self.y);
            },
            Mnemonic::Dex => {
                self.x = self.x.wrapping_sub(1);
                self.update_flags(self.x);
            },
            Mnemonic::Dey => {
                self.y = self.y.wrapping_sub(1);
                self.update_flags(self.y);
            },
            _ => {},
        }
    }

    fn accumulator(&mut self)
        requires
            old(self).ready_for(AddressMode::Accumulator),
        ensures
            Self::handled(*old(self), *final(self)),
    {
        self.dummy_read(self.pc);
        self.step = 0;
        self.a = self.execute_rmw(self.a);
    }

    fn immediate(&mut self)
        requires
            old(self).ready_for(AddressMode::Immediate),
        ensures
            Self::handled(*old(self), *final(self)),
    {
        let value = self.fetch();
        self.execute_read(value);
        self.step = 0;
    }

    /// The last cycle of a read or write instruction whose operand address is `ea`.
    fn finish_access(&mut self, ea: u16, access: AccessType)
        requires
            access != AccessType::ReadModifyWrite,
            old(self).bus.valid(),
        ensures
            Self::bus_moved(old(self).bus, final(self).bus),
            final(self).bus.valid(),
            *final(self) == (MOS6502 {
                a: final(self).a, x: final(self).x, y: final(self).y, sp: final(self).sp, sr: final(self).sr,
                bus: final(self).bus, step: 0, ..*old(self)
            }),
            access == AccessType::Read ==> final(self).bus.trace() == old(self).bus.trace().push(
                BusOp::Read(ea, last_value(final(self).bus.trace())),
            ) && final(self).regs() == read_effect(old(self).instruction.name, old(self).regs(), last_value(final(self).bus.trace())),
            access == AccessType::Write ==> final(self).bus.trace() == old(self).bus.trace().push(
                BusOp::Write(ea, store_value(old(self).instruction.name, old(self).regs())),
            ) && final(self).regs() == old(self).regs(),
    {
        self.step = 0;
        match access {
            AccessType::Read => {
                let value = self.bus.read(ea);
                self.execute_read(value);
            },
            _ => self.execute_write(ea),
        }
    }

    fn zeropage(&mut self, access: AccessType)
        requires
            old(self).ready_for(AddressMode::ZeroPage(access)),
        ensures
            Self::handled(*old(self), *final(self)),
    {
        match access {
            AccessType::ReadModifyWrite => {
                if self.step == 2 {
                    self.addr = self.fetch() as u16;
                } else if self.step == 3 {
                    self.tmp = self.bus.read(self.addr);
                } else if self.step == 4 {
                    self.bus.write(self.addr, self.tmp);
                    self.tmp = self.execute_rmw(self.tmp);
                } else {
                    self.step = 0;
                    self.bus.write(self.addr, self.tmp);
                }
            },
            _ => {
                if self.step == 2 {
                    self.addr = self.fetch() as u16;
                } else {
                    self.finish_access(self.addr, access);
                }
            },
        }
    }


    fn zeropage_indexed(&mut self, i: u8, access: AccessType)
        requires
            old(self).wf(),
            old(self).step >= 2,
            !old(self).jammed,
            (old(self).instruction.mode == AddressMode::ZeroPageIndexedX(access) && i == old(self).x)
                || (old(self).instruction.mode == AddressMode::ZeroPageIndexedY(access) && i == old(self).y),
        ensures
            Self::handled(*old(self), *final(self)),
    {
        if self.step == 2 {
            self.addr = self.fetch() as u16;
        } else if self.step == 3 {
            self.dummy_read(self.addr);
            self.addr = (self.addr as u8).wrapping_add(i) as u16;
        } else {
            match access {
                AccessType::ReadModifyWrite => {
                    if self.step == 4 {
                        self.tmp = self.bus.read(self.addr);
                    } else if self.step == 5 {
                        self.bus.write(self.addr, self.tmp);
                        self.tmp = self.execute_rmw(self.tmp);
                    } else {
                        self.step = 0;
                        self.bus.write(self.addr, self.tmp);
                    }
                },
                _ => self.finish_access(self.addr, access),
            }
        }
    }

    fn absolute(&mut self, access: AccessType)
        requires
            old(self).ready_for(AddressMode::Absolute(access)),
        ensures
            Self::handled(*old(self), *final(self)),
    {
        if self.step == 2 {
            self.addr = self.fetch() as u16;
        } else if self.step == 3 {
            let hi = self.fetch();
            self.addr = self.addr | (hi as u16) << 8u16;
            if let Mnemonic::Jmp = self.instruction.name {
                self.step = 0;
                self.pc = self.addr;
            }
        } else {
            match access {
                AccessType::ReadModifyWrite => {
                    if self.step == 4 {
                        self.tmp = self.bus.read(self.addr);
                    } else if self.step == 5 {
                        self.bus.write(self.addr, self.tmp);
                        self.tmp = self.execute_rmw(self.tmp);
                    } else {
                        self.step = 0;
                        self.bus.write(self.addr, self.tmp);
                    }
                },
                _ => self.finish_access(self.addr, access),
            }
        }
    }

    fn absolute_indexed(&mut self, i: u8, access: AccessType)
        requires
            old(self).wf(),
            old(self).step >= 2,
            !old(self).jammed,
            (old(self).instruction.mode == AddressMode::AbsoluteIndexedX(access) && i == old(self).x)
                || (old(self).instruction.mode == AddressMode::AbsoluteIndexedY(access) && i == old(self).y),
        ensures
            Self::handled(*old(self), *final(self)),
    {
        if self.step == 2 {
            self.addr = self.fetch() as u16;
        } else if self.step == 3 {
            let hi = self.fetch();
            self.set_addr_hi_index_lo(hi, i);
        } else {
            match access {
                AccessType::Read => {
                    if self.step == 4 {
                        let value = self.bus.read(self.addr);
                        self.fix_addr();
                        if !self.addr_invalid {
                            self.step = 0;
                            self.execute_read(value);
                        }
                    } else {
                        self.finish_access(self.addr, access);
                    }
                },
                AccessType::ReadModifyWrite => {
                    if self.step == 4 {
                        self.dummy_read(self.addr);
                        self.fix_addr();
                    } else if self.step == 5 {
                        self.tmp = self.bus.read(self.addr);
                    } else if self.step == 6 {
                        self.bus.write(self.addr, self.tmp);
                        self.tmp = self.execute_rmw(self.tmp);
                    } else {
                        self.step = 0;
                        self.bus.write(self.addr, self.tmp);
                    }
                },
                AccessType::Write => {
                    if self.step == 4 {
                        self.dummy_read(self.addr);
                        self.fix_addr();
                    } else {
                        self.finish_access(self.addr, access);
                    }
                },
            }
        }
    }

    fn x_indexed_indirect(&mut self, access: AccessType)
        requires
            old(self).ready_for(AddressMode::XIndexedIndirect(access)),
        ensures
            Self::handled(*old(self), *final(self)),
    {
        if self.step == 2 {
            self.addr = self.fetch() as u16;
        } else if self.step == 3 {
            self.dummy_read(self.addr);
            self.addr = (self.addr as u8).wrapping_add(self.x) as u16;
        } else if self.step == 4 {
            self.ptr = self.bus.read(self.addr) as u16;
        } else if self.step == 5 {
            let hi = self.bus.read((self.addr as u8).wrapping_add(1) as u16);
            self.ptr = self.ptr | (hi as u16) << 8u16;
        } else {
            self.finish_access(self.ptr, access);
        }
    }

    fn indirect_indexed_y(&mut self, access: AccessType)
        requires
            old(self).ready_for(AddressMode::IndirectIndexedY(access)),
        ensures
            Self::handled(*old(self), *final(self)),
    {
        if self.step == 2 {
            self.addr = self.fetch() as u16;
        } else if self.step == 3 {
            self.ptr = self.bus.read(self.addr) as u16;
        } else if self.step == 4 {
            let hi = self.bus.read((self.addr as u8).wrapping_add(1) as u16);
            self.set_ptr_hi_index_lo(hi, self.y);
        } else if self.step == 5 {
            let value = self.bus.read(self.ptr);
            self.fix_ptr();
            if access == AccessType::Read && !self.ptr_invalid {
                self.step = 0;
                self.execute_read(value);
            }
        } else {
            self.finish_access(self.ptr, access);
        }
    }

    fn relative(&mut self)
        requires
            old(self).ready_for(AddressMode::Relative),
        ensures
            Self::handled(*old(self), *final(self)),
    {
        if self.step == 2 {
            let rel = self.fetch();
            let offset: u16 = if rel < 0x80 { rel as u16 } else { rel as u16 + 0xFF00 };
            self.addr = self.pc.wrapping_add(offset);
            let taken = match self.instruction.name {
                Mnemonic::Bne => self.sr & FLAG_ZERO == 0,
                Mnemonic::Beq => self.sr & FLAG_ZERO != 0,
                Mnemonic::Bpl => self.sr & FLAG_NEGATIVE == 0,
                Mnemonic::Bmi => self.sr & FLAG_NEGATIVE != 0,
                Mnemonic::Bcc => self.sr & FLAG_CARRY == 0,
                Mnemonic::Bcs => self.sr & FLAG_CARRY != 0,
                Mnemonic::Bvc => self.sr & FLAG_OVERFLOW == 0,
                _ => self.sr & FLAG_OVERFLOW != 0,
            };
            if !taken {
                self.step = 0;
            }
        } else if self.step == 3 {
            self.dummy_read(self.pc);
            if self.addr & 0xFF00 == self.pc & 0xFF00 {
                self.pc = self.addr;
                self.step = 0;
            }
        } else {
            self.dummy_read((self.pc & 0xFF00) | (self.addr & 0x00FF));
            self.pc = self.addr;
            self.step = 0;
        }
    }

    fn indirect(&mut self)
        requires
            old(self).ready_for(AddressMode::Indirect),
        ensures
            Self::handled(*old(self), *final(self)),
    {
        if self.step == 2 {
            self.addr = self.fetch() as u16;
        } else if self.step == 3 {
            let hi = self.fetch();
            self.addr = self.addr | (hi as u16) << 8u16;
        } else if self.step == 4 {
            self.pc = self.bus.read(self.addr) as u16;
        } else {
            self.step = 0;
            let a = self.addr;
            assert(a & 0xFF <= 0xFF) by (bit_vector);
            let lo: u16 = if a & 0xFF == 0xFF { 0 } else { (a & 0xFF) + 1 };
            let hi = self.bus.read((self.addr & 0xFF00) | lo);
            let pc = self.pc;
            let npc = (pc & 0xFF) | (hi as u16) << 8u16;
            assert((npc >> 8u16) as u8 == hi && npc & 0xFF == pc & 0xFF) by (bit_vector)
                requires npc == (pc & 0xFF) | (hi as u16) << 8u16;
            self.pc = npc;
        }
    }

    fn special(&mut self)
        requires
            old(self).ready_for(AddressMode::Special),
        ensures
            Self::handled(*old(self), *final(self)),
    {
        match self.instruction.name {
            Mnemonic::Jsr => {
                if self.step == 2 {
                    self.addr = self.fetch() as u16;
                } else if self.step == 3 {
                    self.dummy_read(STACK + self.sp as u16);
                } else if self.step == 4 {
                    self.push((self.pc >> 8u16) as u8);
                } else if self.step == 5 {
                    self.push((self.pc & 0xFF) as u8);
                } else {
                    self.step = 0;
                    let hi = self.bus.read(self.pc);
                    self.pc = (hi as u16) << 8u16 | self.addr;
                }
            },
            Mnemonic::Rts => {
                if self.step == 2 {
                    self.dummy_read(self.pc);
                } else if self.step == 3 {
                    self.dummy_read(STACK + self.sp as u16);
                } else if self.step == 4 {
                    self.pc = self.pop() as u16;
                } else if self.step == 5 {
                    let hi = self.pop();
                    self.pc = self.pc | (hi as u16) << 8u16;
                } else {
                    self.step = 0;
                    self.dummy_read(self.pc);
                    self.pc = self.pc.wrapping_add(1);
                }
            },
            Mnemonic::Brk => {
                if self.step == 2 {
                    let _ = self.fetch();
                } else if self.step == 3 {
                    self.push((self.pc >> 8u16) as u8);
                } else if self.step == 4 {
                    self.push((self.pc & 0xFF) as u8);
                } else if self.step == 5 {
                    self.push(self.sr | FLAG_BREAK | FLAG_UNUSED);
                    self.sr = self.sr | FLAG_INTERRUPT;
                } else if self.step == 6 {
                    self.pc = self.bus.read(IRQ_VECTOR) as u16;
                } else {
                    self.step = 0;
                    let hi = self.bus.read(IRQ_VECTOR + 1);
                    self.pc = self.pc | (hi as u16) << 8u16;
                }
            },
            Mnemonic::Rti => {
                if self.step == 2 {
                    self.dummy_read(self.pc);
                } else if self.step == 3 {
                    self.dummy_read(STACK + self.sp as u16);
                } else if self.step == 4 {
                    self.sr = self.pop() & !FLAG_BREAK & !FLAG_UNUSED;
                } else if self.step == 5 {
                    self.pc = self.pop() as u16;
                } else {
                    self.step = 0;
                    let hi = self.pop();
                    self.pc = self.pc | (hi as u16) << 8u16;
                }
            },
            Mnemonic::Php | Mnemonic::Pha => {
                if self.step == 2 {
                    self.dummy_read(self.pc);
                } else {
                    self.step = 0;
                    if self.instruction.name == Mnemonic::Php {
                        self.push(self.sr | FLAG_BREAK | FLAG_UNUSED);
                    } else {
                        self.push(self.a);
                    }
                }
            },
            _ => {
                if self.step == 2 {
                    self.dummy_read(self.pc);
                } else if self.step == 3 {
                    self.dummy_read(STACK + self.sp as u16);
                } else {
                    self.step = 0;
                    let v = self.pop();
                    if self.instruction.name == Mnemonic::Pla {
                        self.a = v;
                        self.update_flags(v);
                    } else {
                        self.sr = v & !FLAG_BREAK & !FLAG_UNUSED;
                    }
                }
            },
        }
    }
}

} // verus!
