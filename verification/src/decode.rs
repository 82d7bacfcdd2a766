//! The instruction-decode engine: opcode classification and ModRM-style
//! addressing-mode resolution, each mirrored by a specification function
//! that the executable decoder provably computes.

use vstd::prelude::*;

use crate::memory::spec_word;
use crate::registers::Registers;

verus! {

/// The operation families with register/memory/immediate operand shapes.
#[derive(Clone, Copy, PartialEq, Eq, Structural, Debug)]
pub enum Op {
    Mov,
    Add,
    Sub,
    Cmp,
}

/// The base register expression an r/m field names when the mode is not
/// register-direct.
#[derive(Clone, Copy, PartialEq, Eq, Structural, Debug)]
pub enum EaBase {
    BxSi,
    BxDi,
    BpSi,
    BpDi,
    Si,
    Di,
    Bp,
    Bx,
}

/// The displacement that follows a ModRM byte.
#[derive(Clone, Copy, PartialEq, Eq, Structural, Debug)]
pub enum Disp {
    NoDisp,
    Byte(i8),
    Word(i16),
}

/// A resolved r/m operand: a register, a computed effective address, or
/// the direct-address special case (mode 00 with r/m = 110).
#[derive(Clone, Copy, PartialEq, Eq, Structural, Debug)]
pub enum RmOperand {
    Reg(Registers),
    Mem { base: EaBase, disp: Disp },
    Direct(u16),
}

/// The conditional-jump and loop opcodes of the subset.
#[derive(Clone, Copy, PartialEq, Eq, Structural, Debug)]
pub enum JumpKind {
    Jo,
    Jno,
    Jb,
    Jnb,
    Je,
    Jne,
    Jbe,
    Jnbe,
    Js,
    Jns,
    Jp,
    Jnp,
    Jl,
    Jnl,
    Jle,
    Jnle,
    Loop,
    Loopz,
    Loopnz,
    Jcxz,
}

/// One decoded instruction, consumed within a single decode iteration.
#[derive(Clone, Copy, PartialEq, Eq, Structural, Debug)]
pub enum Inst {
    /// Register to/from register or memory; `reg_dest` is the direction bit.
    RegRm { op: Op, wide: bool, reg_dest: bool, reg: Registers, rm: RmOperand },
    /// Immediate to register or memory through a ModRM byte.
    ImmRm { op: Op, wide: bool, rm: RmOperand, imm: u16 },
    /// Immediate to register through the short MOV form.
    ImmReg { wide: bool, reg: Registers, imm: u16 },
    /// Immediate combined with the accumulator.
    ImmAcc { op: Op, wide: bool, imm: u16 },
    /// Accumulator load from / store to a direct address.
    AccMem { to_acc: bool, wide: bool, addr: u16 },
    /// Conditional jump or loop with a signed 8-bit displacement.
    Jump { kind: JumpKind, disp: i8 },
}

/// Failures surfaced to the caller, each with the offset of the
/// instruction that produced it.
#[derive(Clone, Copy, PartialEq, Eq, Structural, Debug)]
pub enum SimError {
    /// The opcode byte matches no family pattern of the subset.
    UnrecognizedOpcode { offset: usize },
    /// The buffer ends before the instruction's trailing bytes.
    TruncatedInstruction { offset: usize },
    /// A taken branch would move the cursor before the buffer start.
    BranchOutOfRange { offset: usize },
    /// The decode loop ran for the whole step budget without reaching the
    /// end of the buffer. The budget is far beyond any feasible run; it
    /// exists so that the loop provably terminates even on code that
    /// branches backward forever.
    StepLimitExceeded { offset: usize },
}

/// The base expression for an r/m code below 8, in the fixed table
/// 000 [bx+si], 001 [bx+di], 010 [bp+si], 011 [bp+di], 100 [si],
/// 101 [di], 110 [bp], 111 [bx].
pub open spec fn spec_ea_base(rm: u8) -> EaBase {
    if rm == 0 {
        EaBase::BxSi
    } else if rm == 1 {
        EaBase::BxDi
    } else if rm == 2 {
        EaBase::BpSi
    } else if rm == 3 {
        EaBase::BpDi
    } else if rm == 4 {
        EaBase::Si
    } else if rm == 5 {
        EaBase::Di
    } else if rm == 6 {
        EaBase::Bp
    } else {
        EaBase::Bx
    }
}

fn ea_base(rm: u8) -> (r: EaBase)
    requires
        rm < 8,
    ensures
        r == spec_ea_base(rm),
{
    match rm {
        0 => EaBase::BxSi,
        1 => EaBase::BxDi,
        2 => EaBase::BpSi,
        3 => EaBase::BpDi,
        4 => EaBase::Si,
        5 => EaBase::Di,
        6 => EaBase::Bp,
        _ => EaBase::Bx,
    }
}

/// Resolve the ModRM byte at `pos` and its trailing displacement bytes.
/// Yields the r/m operand and the count of bytes consumed starting at the
/// ModRM byte itself: 1 for register-direct and plain memory mode, 2 for a
/// byte displacement, 3 for a word displacement or the direct address.
/// `None` means the buffer ends before the required bytes.
pub open spec fn spec_resolve_rm(bytes: Seq<u8>, pos: int, wide: bool) -> Option<(RmOperand, int)> {
    if pos >= bytes.len() {
        None
    } else {
        let modrm = bytes[pos];
        let mode = modrm >> 6;
        let rm = modrm & 7;
        if mode == 3 {
            Some((RmOperand::Reg(Registers::spec_from_code(rm, wide)), 1))
        } else if mode == 0 {
            if rm == 6 {
                if pos + 3 <= bytes.len() {
                    Some((RmOperand::Direct(spec_word(bytes[pos + 1], bytes[pos + 2])), 3))
                } else {
                    None
                }
            } else {
                Some((RmOperand::Mem { base: spec_ea_base(rm), disp: Disp::NoDisp }, 1))
            }
        } else if mode == 1 {
            if pos + 2 <= bytes.len() {
                Some(
                    (
                        RmOperand::Mem {
                            base: spec_ea_base(rm),
                            disp: Disp::Byte(bytes[pos + 1] as i8),
                        },
                        2,
                    ),
                )
            } else {
                None
            }
        } else {
            if pos + 3 <= bytes.len() {
                Some(
                    (
                        RmOperand::Mem {
                            base: spec_ea_base(rm),
                            disp: Disp::Word(spec_word(bytes[pos + 1], bytes[pos + 2]) as i16),
                        },
                        3,
                    ),
                )
            } else {
                None
            }
        }
    }
}

/// Executable ModRM resolution; computes exactly what `spec_resolve_rm`
/// describes.
pub fn resolve_rm(buffer: &[u8], pos: usize, wide: bool) -> (r: Option<(RmOperand, usize)>)
    requires
        buffer@.len() < 0x8000_0000,
    ensures
        match r {
            Some((rm, consumed)) => spec_resolve_rm(buffer@, pos as int, wide) == Some(
                (rm, consumed as int),
            ),
            None => spec_resolve_rm(buffer@, pos as int, wide) is None,
        },
{
    if pos >= buffer.len() {
        return None;
    }
    let modrm = buffer[pos];
    let mode = modrm >> 6;
    let rm = modrm & 7;
    assert(rm < 8) by (bit_vector)
        requires
            rm == modrm & 7,
    ;
    if mode == 3 {
        Some((RmOperand::Reg(Registers::from_code(rm, wide)), 1))
    } else if mode == 0 {
        if rm == 6 {
            if pos + 3 <= buffer.len() {
                let lo = buffer[pos + 1];
                let hi = buffer[pos + 2];
                Some((RmOperand::Direct((lo as u16) | ((hi as u16) << 8)), 3))
            } else {
                None
            }
        } else {
            Some((RmOperand::Mem { base: ea_base(rm), disp: Disp::NoDisp }, 1))
        }
    } else if mode == 1 {
        if pos + 2 <= buffer.len() {
            Some(
                (RmOperand::Mem { base: ea_base(rm), disp: Disp::Byte(buffer[pos + 1] as i8) }, 2),
            )
        } else {
            None
        }
    } else {
        if pos + 3 <= buffer.len() {
            let lo = buffer[pos + 1];
            let hi = buffer[pos + 2];
            Some(
                (
                    RmOperand::Mem {
                        base: ea_base(rm),
                        disp: Disp::Word(((lo as u16) | ((hi as u16) << 8)) as i16),
                    },
                    3,
                ),
            )
        } else {
            None
        }
    }
}

/// The jump or loop opcode a full byte selects; meaningful only for bytes
/// in `0x70..=0x7f` and `0xe0..=0xe3`.
pub open spec fn spec_jump_kind(b: u8) -> JumpKind {
    if b == 0x70 {
        JumpKind::Jo
    } else if b == 0x71 {
        JumpKind::Jno
    } else if b == 0x72 {
        JumpKind::Jb
    } else if b == 0x73 {
        JumpKind::Jnb
    } else if b == 0x74 {
        JumpKind::Je
    } else if b == 0x75 {
        JumpKind::Jne
    } else if b == 0x76 {
        JumpKind::Jbe
    } else if b == 0x77 {
        JumpKind::Jnbe
    } else if b == 0x78 {
        JumpKind::Js
    } else if b == 0x79 {
        JumpKind::Jns
    } else if b == 0x7a {
        JumpKind::Jp
    } else if b == 0x7b {
        JumpKind::Jnp
    } else if b == 0x7c {
        JumpKind::Jl
    } else if b == 0x7d {
        JumpKind::Jnl
    } else if b == 0x7e {
        JumpKind::Jle
    } else if b == 0x7f {
        JumpKind::Jnle
    } else if b == 0xe0 {
        JumpKind::Loopnz
    } else if b == 0xe1 {
        JumpKind::Loopz
    } else if b == 0xe2 {
        JumpKind::Loop
    } else {
        JumpKind::Jcxz
    }
}

/// Decode of the register-to/from-register-or-memory form shared by MOV,
/// ADD, SUB and CMP: opcode byte, ModRM byte, optional displacement.
pub open spec fn spec_decode_reg_rm(bytes: Seq<u8>, pos: int, op: Op) -> Result<
    (Inst, int),
    SimError,
> {
    let b = bytes[pos];
    let wide = b & 1 == 1;
    let reg_dest = b & 2 == 2;
    match spec_resolve_rm(bytes, pos + 1, wide) {
        None => Err(SimError::TruncatedInstruction { offset: pos as usize }),
        Some((rm, consumed)) => Ok(
            (
                Inst::RegRm {
                    op,
                    wide,
                    reg_dest,
                    reg: Registers::spec_from_code((bytes[pos + 1] >> 3) & 7, wide),
                    rm,
                },
                1 + consumed,
            ),
        ),
    }
}

/// Decode of the MOV immediate-to-register-or-memory form: opcode byte,
/// ModRM byte, optional displacement, then a byte or word immediate.
pub open spec fn spec_decode_mov_imm_rm(bytes: Seq<u8>, pos: int) -> Result<(Inst, int), SimError> {
    let b = bytes[pos];
    let wide = b & 1 == 1;
    match spec_resolve_rm(bytes, pos + 1, wide) {
        None => Err(SimError::TruncatedInstruction { offset: pos as usize }),
        Some((rm, consumed)) => {
            let ipos = pos + 1 + consumed;
            if wide {
                if ipos + 2 <= bytes.len() {
                    Ok(
                        (
                            Inst::ImmRm {
                                op: Op::Mov,
                                wide,
                                rm,
                                imm: spec_word(bytes[ipos], bytes[ipos + 1]),
                            },
                            1 + consumed + 2,
                        ),
                    )
                } else {
                    Err(SimError::TruncatedInstruction { offset: pos as usize })
                }
            } else {
                if ipos + 1 <= bytes.len() {
                    Ok(
                        (
                            Inst::ImmRm { op: Op::Mov, wide, rm, imm: bytes[ipos] as u16 },
                            1 + consumed + 1,
                        ),
                    )
                } else {
                    Err(SimError::TruncatedInstruction { offset: pos as usize })
                }
            }
        },
    }
}

/// Decode of the arithmetic immediate-to-register-or-memory form: the reg
/// field of the ModRM byte selects ADD, SUB or CMP; the sign bit together
/// with the width bit selects the immediate's size and sign extension.
pub open spec fn spec_decode_arith_imm_rm(bytes: Seq<u8>, pos: int) -> Result<
    (Inst, int),
    SimError,
> {
    let b = bytes[pos];
    let wide = b & 1 == 1;
    let sign = b & 2 == 2;
    if pos + 2 <= bytes.len() {
        let regf = (bytes[pos + 1] >> 3) & 7;
        if regf == 0 || regf == 5 || regf == 7 {
            let op = if regf == 0 {
                Op::Add
            } else if regf == 5 {
                Op::Sub
            } else {
                Op::Cmp
            };
            match spec_resolve_rm(bytes, pos + 1, wide) {
                None => Err(SimError::TruncatedInstruction { offset: pos as usize }),
                Some((rm, consumed)) => {
                    let ipos = pos + 1 + consumed;
                    if wide && !sign {
                        if ipos + 2 <= bytes.len() {
                            Ok(
                                (
                                    Inst::ImmRm {
                                        op,
                                        wide,
                                        rm,
                                        imm: spec_word(bytes[ipos], bytes[ipos + 1]),
                                    },
                                    1 + consumed + 2,
                                ),
                            )
                        } else {
                            Err(SimError::TruncatedInstruction { offset: pos as usize })
                        }
                    } else {
                        if ipos + 1 <= bytes.len() {
                            let imm = if wide {
                                bytes[ipos] as i8 as u16
                            } else {
                                bytes[ipos] as u16
                            };
                            Ok((Inst::ImmRm { op, wide, rm, imm }, 1 + consumed + 1))
                        } else {
                            Err(SimError::TruncatedInstruction { offset: pos as usize })
                        }
                    }
                },
            }
        } else {
            Err(SimError::UnrecognizedOpcode { offset: pos as usize })
        }
    } else {
        Err(SimError::TruncatedInstruction { offset: pos as usize })
    }
}

/// Decode of the short MOV immediate-to-register form: the width bit and
/// register code live in the opcode byte itself.
pub open spec fn spec_decode_mov_imm_reg(bytes: Seq<u8>, pos: int) -> Result<
    (Inst, int),
    SimError,
> {
    let b = bytes[pos];
    let wide = b & 8 == 8;
    let reg = Registers::spec_from_code(b & 7, wide);
    if wide {
        if pos + 3 <= bytes.len() {
            Ok((Inst::ImmReg { wide, reg, imm: spec_word(bytes[pos + 1], bytes[pos + 2]) }, 3))
        } else {
            Err(SimError::TruncatedInstruction { offset: pos as usize })
        }
    } else {
        if pos + 2 <= bytes.len() {
            Ok((Inst::ImmReg { wide, reg, imm: bytes[pos + 1] as u16 }, 2))
        } else {
            Err(SimError::TruncatedInstruction { offset: pos as usize })
        }
    }
}

/// Decode of an accumulator load or store at a direct address; the wide
/// form carries a 16-bit address, the byte form a single address byte.
pub open spec fn spec_decode_acc_mem(bytes: Seq<u8>, pos: int, to_acc: bool) -> Result<
    (Inst, int),
    SimError,
> {
    let b = bytes[pos];
    let wide = b & 1 == 1;
    if wide {
        if pos + 3 <= bytes.len() {
            Ok((Inst::AccMem { to_acc, wide, addr: spec_word(bytes[pos + 1], bytes[pos + 2]) }, 3))
        } else {
            Err(SimError::TruncatedInstruction { offset: pos as usize })
        }
    } else {
        if pos + 2 <= bytes.len() {
            Ok((Inst::AccMem { to_acc, wide, addr: bytes[pos + 1] as u16 }, 2))
        } else {
            Err(SimError::TruncatedInstruction { offset: pos as usize })
        }
    }
}

/// Decode of the arithmetic immediate-to-accumulator forms.
pub open spec fn spec_decode_imm_acc(bytes: Seq<u8>, pos: int, op: Op) -> Result<
    (Inst, int),
    SimError,
> {
    let b = bytes[pos];
    let wide = b & 1 == 1;
    if wide {
        if pos + 3 <= bytes.len() {
            Ok((Inst::ImmAcc { op, wide, imm: spec_word(bytes[pos + 1], bytes[pos + 2]) }, 3))
        } else {
            Err(SimError::TruncatedInstruction { offset: pos as usize })
        }
    } else {
        if pos + 2 <= bytes.len() {
            Ok((Inst::ImmAcc { op, wide, imm: bytes[pos + 1] as u16 }, 2))
        } else {
            Err(SimError::TruncatedInstruction { offset: pos as usize })
        }
    }
}

/// Decode of a conditional jump or loop: the opcode byte and one signed
/// displacement byte.
pub open spec fn spec_decode_jump(bytes: Seq<u8>, pos: int) -> Result<(Inst, int), SimError> {
    if pos + 2 <= bytes.len() {
        Ok((Inst::Jump { kind: spec_jump_kind(bytes[pos]), disp: bytes[pos + 1] as i8 }, 2))
    } else {
        Err(SimError::TruncatedInstruction { offset: pos as usize })
    }
}

/// The instruction that starts at `pos` and the count of bytes it
/// occupies, or the decode failure. Families are told apart by
/// progressively wider leading-bit patterns of the opcode byte; the
/// patterns of the subset are mutually exclusive.
pub open spec fn spec_decode(bytes: Seq<u8>, pos: int) -> Result<(Inst, int), SimError> {
    if pos >= bytes.len() {
        Err(SimError::TruncatedInstruction { offset: pos as usize })
    } else {
        let b = bytes[pos];
        if b >> 2 == 0x22 {
            spec_decode_reg_rm(bytes, pos, Op::Mov)
        } else if b >> 2 == 0x00 {
            spec_decode_reg_rm(bytes, pos, Op::Add)
        } else if b >> 2 == 0x0a {
            spec_decode_reg_rm(bytes, pos, Op::Sub)
        } else if b >> 2 == 0x0e {
            spec_decode_reg_rm(bytes, pos, Op::Cmp)
        } else if b >> 1 == 0x63 {
            spec_decode_mov_imm_rm(bytes, pos)
        } else if b >> 2 == 0x20 {
            spec_decode_arith_imm_rm(bytes, pos)
        } else if b >> 4 == 0x0b {
            spec_decode_mov_imm_reg(bytes, pos)
        } else if b >> 1 == 0x50 {
            spec_decode_acc_mem(bytes, pos, true)
        } else if b >> 1 == 0x51 {
            spec_decode_acc_mem(bytes, pos, false)
        } else if b >> 1 == 0x02 {
            spec_decode_imm_acc(bytes, pos, Op::Add)
        } else if b >> 1 == 0x16 {
            spec_decode_imm_acc(bytes, pos, Op::Sub)
        } else if b >> 1 == 0x1e {
            spec_decode_imm_acc(bytes, pos, Op::Cmp)
        } else if (0x70 <= b && b <= 0x7f) || (0xe0 <= b && b <= 0xe3) {
            spec_decode_jump(bytes, pos)
        } else {
            Err(SimError::UnrecognizedOpcode { offset: pos as usize })
        }
    }
}

/// Read the little-endian word at `i`.
fn read_word_at(buffer: &[u8], i: usize) -> (r: u16)
    requires
        i + 1 < buffer@.len(),
    ensures
        r == spec_word(buffer@[i as int], buffer@[i as int + 1]),
{
    let lo = buffer[i];
    let hi = buffer[i + 1];
    (lo as u16) | ((hi as u16) << 8)
}

/// Executable decode of the instruction at `pos`; computes exactly what
/// `spec_decode` describes.
pub fn decode_at(buffer: &[u8], pos: usize) -> (r: Result<(Inst, usize), SimError>)
    requires
        pos < buffer@.len(),
        buffer@.len() < 0x8000_0000,
    ensures
        ({
            let s = spec_decode(buffer@, pos as int);
            match r {
                Ok((inst, len)) => s == Ok::<(Inst, int), SimError>((inst, len as int)),
                Err(e) => s == Err::<(Inst, int), SimError>(e),
            }
        }),
{
    let b = buffer[pos];
    if b >> 2 == 0x22 {
        decode_reg_rm(buffer, pos, Op::Mov)
    } else if b >> 2 == 0x00 {
        decode_reg_rm(buffer, pos, Op::Add)
    } else if b >> 2 == 0x0a {
        decode_reg_rm(buffer, pos, Op::Sub)
    } else if b >> 2 == 0x0e {
        decode_reg_rm(buffer, pos, Op::Cmp)
    } else if b >> 1 == 0x63 {
        decode_mov_imm_rm(buffer, pos)
    } else if b >> 2 == 0x20 {
        decode_arith_imm_rm(buffer, pos)
    } else if b >> 4 == 0x0b {
        decode_mov_imm_reg(buffer, pos)
    } else if b >> 1 == 0x50 {
        decode_acc_mem(buffer, pos, true)
    } else if b >> 1 == 0x51 {
        decode_acc_mem(buffer, pos, false)
    } else if b >> 1 == 0x02 {
        decode_imm_acc(buffer, pos, Op::Add)
    } else if b >> 1 == 0x16 {
        decode_imm_acc(buffer, pos, Op::Sub)
    } else if b >> 1 == 0x1e {
        decode_imm_acc(buffer, pos, Op::Cmp)
    } else if (0x70 <= b && b <= 0x7f) || (0xe0 <= b && b <= 0xe3) {
        if pos + 2 <= buffer.len() {
            Ok((Inst::Jump { kind: jump_kind(b), disp: buffer[pos + 1] as i8 }, 2))
        } else {
            Err(SimError::TruncatedInstruction { offset: pos })
        }
    } else {
        Err(SimError::UnrecognizedOpcode { offset: pos })
    }
}

fn jump_kind(b: u8) -> (r: JumpKind)
    requires
        (0x70 <= b && b <= 0x7f) || (0xe0 <= b && b <= 0xe3),
    ensures
        r == spec_jump_kind(b),
{
    match b {
        0x70 => JumpKind::Jo,
        0x71 => JumpKind::Jno,
        0x72 => JumpKind::Jb,
        0x73 => JumpKind::Jnb,
        0x74 => JumpKind::Je,
        0x75 => JumpKind::Jne,
        0x76 => JumpKind::Jbe,
        0x77 => JumpKind::Jnbe,
        0x78 => JumpKind::Js,
        0x79 => JumpKind::Jns,
        0x7a => JumpKind::Jp,
        0x7b => JumpKind::Jnp,
        0x7c => JumpKind::Jl,
        0x7d => JumpKind::Jnl,
        0x7e => JumpKind::Jle,
        0x7f => JumpKind::Jnle,
        0xe0 => JumpKind::Loopnz,
        0xe1 => JumpKind::Loopz,
        0xe2 => JumpKind::Loop,
        _ => JumpKind::Jcxz,
    }
}

fn decode_reg_rm(buffer: &[u8], pos: usize, op: Op) -> (r: Result<(Inst, usize), SimError>)
    requires
        pos < buffer@.len(),
        buffer@.len() < 0x8000_0000,
    ensures
        ({
            let s = spec_decode_reg_rm(buffer@, pos as int, op);
            match r {
                Ok((inst, len)) => s == Ok::<(Inst, int), SimError>((inst, len as int)),
                Err(e) => s == Err::<(Inst, int), SimError>(e),
            }
        }),
{
    let b = buffer[pos];
    let wide = b & 1 == 1;
    let reg_dest = b & 2 == 2;
    match resolve_rm(buffer, pos + 1, wide) {
        None => Err(SimError::TruncatedInstruction { offset: pos }),
        Some((rm, consumed)) => {
            let modrm = buffer[pos + 1];
            let code = (modrm >> 3) & 7;
            assert(code < 8) by (bit_vector)
                requires
                    code == (modrm >> 3) & 7,
            ;
            let reg = Registers::from_code(code, wide);
            Ok((Inst::RegRm { op, wide, reg_dest, reg, rm }, 1 + consumed))
        },
    }
}

fn decode_mov_imm_rm(buffer: &[u8], pos: usize) -> (r: Result<(Inst, usize), SimError>)
    requires
        pos < buffer@.len(),
        buffer@.len() < 0x8000_0000,
    ensures
        ({
            let s = spec_decode_mov_imm_rm(buffer@, pos as int);
            match r {
                Ok((inst, len)) => s == Ok::<(Inst, int), SimError>((inst, len as int)),
                Err(e) => s == Err::<(Inst, int), SimError>(e),
            }
        }),
{
    let b = buffer[pos];
    let wide = b & 1 == 1;
    match resolve_rm(buffer, pos + 1, wide) {
        None => Err(SimError::TruncatedInstruction { offset: pos }),
        Some((rm, consumed)) => {
            let ipos = pos + 1 + consumed;
            if wide {
                if ipos + 2 <= buffer.len() {
                    let imm = read_word_at(buffer, ipos);
                    Ok((Inst::ImmRm { op: Op::Mov, wide, rm, imm }, 1 + consumed + 2))
                } else {
                    Err(SimError::TruncatedInstruction { offset: pos })
                }
            } else {
                if ipos + 1 <= buffer.len() {
                    let imm = buffer[ipos] as u16;
                    Ok((Inst::ImmRm { op: Op::Mov, wide, rm, imm }, 1 + consumed + 1))
                } else {
                    Err(SimError::TruncatedInstruction { offset: pos })
                }
            }
        },
    }
}

fn decode_arith_imm_rm(buffer: &[u8], pos: usize) -> (r: Result<(Inst, usize), SimError>)
    requires
        pos < buffer@.len(),
        buffer@.len() < 0x8000_0000,
    ensures
        ({
            let s = spec_decode_arith_imm_rm(buffer@, pos as int);
            match r {
                Ok((inst, len)) => s == Ok::<(Inst, int), SimError>((inst, len as int)),
                Err(e) => s == Err::<(Inst, int), SimError>(e),
            }
        }),
{
    let b = buffer[pos];
    let wide = b & 1 == 1;
    let sign = b & 2 == 2;
    if pos + 2 <= buffer.len() {
        let modrm = buffer[pos + 1];
        let regf = (modrm >> 3) & 7;
        if regf == 0 || regf == 5 || regf == 7 {
            let op = if regf == 0 {
                Op::Add
            } else if regf == 5 {
                Op::Sub
            } else {
                Op::Cmp
            };
            match resolve_rm(buffer, pos + 1, wide) {
                None => Err(SimError::TruncatedInstruction { offset: pos }),
                Some((rm, consumed)) => {
                    let ipos = pos + 1 + consumed;
                    if wide && !sign {
                        if ipos + 2 <= buffer.len() {
                            let imm = read_word_at(buffer, ipos);
                            Ok((Inst::ImmRm { op, wide, rm, imm }, 1 + consumed + 2))
                        } else {
                            Err(SimError::TruncatedInstruction { offset: pos })
                        }
                    } else {
                        if ipos + 1 <= buffer.len() {
                            let imm = if wide {
                                buffer[ipos] as i8 as u16
                            } else {
                                buffer[ipos] as u16
                            };
                            Ok((Inst::ImmRm { op, wide, rm, imm }, 1 + consumed + 1))
                        } else {
                            Err(SimError::TruncatedInstruction { offset: pos })
                        }
                    }
                },
            }
        } else {
            Err(SimError::UnrecognizedOpcode { offset: pos })
        }
    } else {
        Err(SimError::TruncatedInstruction { offset: pos })
    }
}

fn decode_mov_imm_reg(buffer: &[u8], pos: usize) -> (r: Result<(Inst, usize), SimError>)
    requires
        pos < buffer@.len(),
        buffer@.len() < 0x8000_0000,
    ensures
        ({
            let s = spec_decode_mov_imm_reg(buffer@, pos as int);
            match r {
                Ok((inst, len)) => s == Ok::<(Inst, int), SimError>((inst, len as int)),
                Err(e) => s == Err::<(Inst, int), SimError>(e),
            }
        }),
{
    let b = buffer[pos];
    let wide = b & 8 == 8;
    let code = b & 7;
    assert(code < 8) by (bit_vector)
        requires
            code == b & 7,
    ;
    let reg = Registers::from_code(code, wide);
    if wide {
        if pos + 3 <= buffer.len() {
            let imm = read_word_at(buffer, pos + 1);
            Ok((Inst::ImmReg { wide, reg, imm }, 3))
        } else {
            Err(SimError::TruncatedInstruction { offset: pos })
        }
    } else {
        if pos + 2 <= buffer.len() {
            Ok((Inst::ImmReg { wide, reg, imm: buffer[pos + 1] as u16 }, 2))
        } else {
            Err(SimError::TruncatedInstruction { offset: pos })
        }
    }
}

fn decode_acc_mem(buffer: &[u8], pos: usize, to_acc: bool) -> (r: Result<(Inst, usize), SimError>)
    requires
        pos < buffer@.len(),
        buffer@.len() < 0x8000_0000,
    ensures
        ({
            let s = spec_decode_acc_mem(buffer@, pos as int, to_acc);
            match r {
                Ok((inst, len)) => s == Ok::<(Inst, int), SimError>((inst, len as int)),
                Err(e) => s == Err::<(Inst, int), SimError>(e),
            }
        }),
{
    let b = buffer[pos];
    let wide = b & 1 == 1;
    if wide {
        if pos + 3 <= buffer.len() {
            let addr = read_word_at(buffer, pos + 1);
            Ok((Inst::AccMem { to_acc, wide, addr }, 3))
        } else {
            Err(SimError::TruncatedInstruction { offset: pos })
        }
    } else {
        if pos + 2 <= buffer.len() {
            Ok((Inst::AccMem { to_acc, wide, addr: buffer[pos + 1] as u16 }, 2))
        } else {
            Err(SimError::TruncatedInstruction { offset: pos })
        }
    }
}

fn decode_imm_acc(buffer: &[u8], pos: usize, op: Op) -> (r: Result<(Inst, usize), SimError>)
    requires
        pos < buffer@.len(),
        buffer@.len() < 0x8000_0000,
    ensures
        ({
            let s = spec_decode_imm_acc(buffer@, pos as int, op);
            match r {
                Ok((inst, len)) => s == Ok::<(Inst, int), SimError>((inst, len as int)),
                Err(e) => s == Err::<(Inst, int), SimError>(e),
            }
        }),
{
    let b = buffer[pos];
    let wide = b & 1 == 1;
    if wide {
        if pos + 3 <= buffer.len() {
            let imm = read_word_at(buffer, pos + 1);
            Ok((Inst::ImmAcc { op, wide, imm }, 3))
        } else {
            Err(SimError::TruncatedInstruction { offset: pos })
        }
    } else {
        if pos + 2 <= buffer.len() {
            Ok((Inst::ImmAcc { op, wide, imm: buffer[pos + 1] as u16 }, 2))
        } else {
            Err(SimError::TruncatedInstruction { offset: pos })
        }
    }
}

} // verus!
