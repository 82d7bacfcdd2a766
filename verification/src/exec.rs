//! The execution engine: the deterministic state transition one decoded
//! instruction applies to the machine, including wrapping arithmetic, the
//! zero flag, and relative-branch target computation.

use vstd::prelude::*;

use crate::decode::Disp;
use crate::decode::EaBase;
use crate::decode::Inst;
use crate::decode::JumpKind;
use crate::decode::Op;
use crate::decode::RmOperand;
use crate::decode::SimError;
use crate::machine::Machine;
use crate::machine::MachineView;
use crate::memory::spec_word;
use crate::registers::RegisterFile;
use crate::registers::Registers;
use vstd::wrapping::u16_specs;
use vstd::wrapping::u8_specs;

verus! {

impl Inst {
    /// Every register selector inside the instruction agrees with its
    /// width bit; the decoder only ever produces such instructions.
    pub open spec fn wf(self) -> bool {
        match self {
            Inst::RegRm { wide, reg, rm, .. } => reg.spec_is_wide() == wide && (match rm {
                RmOperand::Reg(r) => r.spec_is_wide() == wide,
                _ => true,
            }),
            Inst::ImmRm { wide, rm, .. } => match rm {
                RmOperand::Reg(r) => r.spec_is_wide() == wide,
                _ => true,
            },
            Inst::ImmReg { wide, reg, .. } => reg.spec_is_wide() == wide,
            _ => true,
        }
    }
}

/// The effective address an r/m memory expression computes: the sum of the
/// named register value(s) plus the displacement, wrapping at 16 bits.
pub open spec fn spec_ea_addr(base: EaBase, disp: Disp, regs: RegisterFile) -> u16 {
    let s = match base {
        EaBase::BxSi => u16_specs::wrapping_add(regs.bx.value, regs.si.value),
        EaBase::BxDi => u16_specs::wrapping_add(regs.bx.value, regs.di.value),
        EaBase::BpSi => u16_specs::wrapping_add(regs.bp.value, regs.si.value),
        EaBase::BpDi => u16_specs::wrapping_add(regs.bp.value, regs.di.value),
        EaBase::Si => regs.si.value,
        EaBase::Di => regs.di.value,
        EaBase::Bp => regs.bp.value,
        EaBase::Bx => regs.bx.value,
    };
    match disp {
        Disp::NoDisp => s,
        Disp::Byte(d) => u16_specs::wrapping_add_signed(s, d as i16),
        Disp::Word(d) => u16_specs::wrapping_add_signed(s, d),
    }
}

pub fn ea_addr(base: EaBase, disp: Disp, regs: &RegisterFile) -> (r: u16)
    ensures
        r == spec_ea_addr(base, disp, *regs),
{
    let s = match base {
        EaBase::BxSi => regs.bx.value.wrapping_add(regs.si.value),
        EaBase::BxDi => regs.bx.value.wrapping_add(regs.di.value),
        EaBase::BpSi => regs.bp.value.wrapping_add(regs.si.value),
        EaBase::BpDi => regs.bp.value.wrapping_add(regs.di.value),
        EaBase::Si => regs.si.value,
        EaBase::Di => regs.di.value,
        EaBase::Bp => regs.bp.value,
        EaBase::Bx => regs.bx.value,
    };
    match disp {
        Disp::NoDisp => s,
        Disp::Byte(d) => s.wrapping_add_signed(d as i16),
        Disp::Word(d) => s.wrapping_add_signed(d),
    }
}

/// The address an r/m operand resolves to; meaningful for the memory and
/// direct-address shapes.
pub open spec fn spec_rm_addr(rm: RmOperand, regs: RegisterFile) -> u16 {
    match rm {
        RmOperand::Reg(_) => 0,
        RmOperand::Mem { base, disp } => spec_ea_addr(base, disp, regs),
        RmOperand::Direct(a) => a,
    }
}

/// The little-endian word stored at `addr`.
pub open spec fn spec_mem_word(mem: Seq<u8>, addr: u16) -> u16 {
    spec_word(mem[addr as int], mem[addr as int + 1])
}

/// The memory after the little-endian word at `addr` is replaced.
pub open spec fn spec_mem_set_word(mem: Seq<u8>, addr: u16, v: u16) -> Seq<u8> {
    mem.update(addr as int, (v & 0xff) as u8).update(addr as int + 1, (v >> 8) as u8)
}

/// The value stored into a 16-bit destination: the source for MOV, the
/// wrapping sum or difference for ADD and SUB, the unchanged destination
/// for CMP (which discards its arithmetic result).
pub open spec fn spec_op_result16(op: Op, dest: u16, src: u16) -> u16 {
    match op {
        Op::Mov => src,
        Op::Add => u16_specs::wrapping_add(dest, src),
        Op::Sub => u16_specs::wrapping_sub(dest, src),
        Op::Cmp => dest,
    }
}

/// The zero flag after the operation: MOV leaves it alone; ADD, SUB and
/// CMP set it exactly when the computed result is zero.
pub open spec fn spec_op_zf16(op: Op, dest: u16, src: u16, zf: bool) -> bool {
    match op {
        Op::Mov => zf,
        Op::Add => u16_specs::wrapping_add(dest, src) == 0,
        Op::Sub => u16_specs::wrapping_sub(dest, src) == 0,
        Op::Cmp => u16_specs::wrapping_sub(dest, src) == 0,
    }
}

/// 8-bit analogue of `spec_op_result16`.
pub open spec fn spec_op_result8(op: Op, dest: u8, src: u8) -> u8 {
    match op {
        Op::Mov => src,
        Op::Add => u8_specs::wrapping_add(dest, src),
        Op::Sub => u8_specs::wrapping_sub(dest, src),
        Op::Cmp => dest,
    }
}

/// 8-bit analogue of `spec_op_zf16`.
pub open spec fn spec_op_zf8(op: Op, dest: u8, src: u8, zf: bool) -> bool {
    match op {
        Op::Mov => zf,
        Op::Add => u8_specs::wrapping_add(dest, src) == 0,
        Op::Sub => u8_specs::wrapping_sub(dest, src) == 0,
        Op::Cmp => u8_specs::wrapping_sub(dest, src) == 0,
    }
}

/// The value an r/m operand reads: a register's 16-bit backing or aliased
/// byte, or the word/byte at its resolved address.
pub open spec fn spec_rm_value(wide: bool, rm: RmOperand, m: MachineView) -> u16 {
    match rm {
        RmOperand::Reg(r) => if wide {
            r.spec_backing(m.regs)
        } else {
            r.spec_half_value(m.regs) as u16
        },
        _ => {
            let addr = spec_rm_addr(rm, m.regs);
            if wide {
                spec_mem_word(m.mem, addr)
            } else {
                m.mem[addr as int] as u16
            }
        },
    }
}

/// The machine after an operation lands in a register destination.
pub open spec fn spec_apply_to_reg(op: Op, wide: bool, r: Registers, src: u16, m: MachineView)
    -> MachineView {
    if wide {
        let dest = r.spec_backing(m.regs);
        let regs2 = if op is Cmp {
            m.regs
        } else {
            r.spec_set_backing(m.regs, spec_op_result16(op, dest, src))
        };
        MachineView { regs: regs2, zero_flag: spec_op_zf16(op, dest, src, m.zero_flag), ..m }
    } else {
        let dest = r.spec_half_value(m.regs);
        let regs2 = if op is Cmp {
            m.regs
        } else {
            r.spec_set_backing(m.regs, r.spec_half_write(m.regs, spec_op_result8(op, dest, src as u8)))
        };
        MachineView {
            regs: regs2,
            zero_flag: spec_op_zf8(op, dest, src as u8, m.zero_flag),
            ..m
        }
    }
}

/// The machine after an operation lands in a memory destination.
pub open spec fn spec_apply_to_mem(op: Op, wide: bool, addr: u16, src: u16, m: MachineView)
    -> MachineView {
    if wide {
        let dest = spec_mem_word(m.mem, addr);
        let mem2 = if op is Cmp {
            m.mem
        } else {
            spec_mem_set_word(m.mem, addr, spec_op_result16(op, dest, src))
        };
        MachineView { mem: mem2, zero_flag: spec_op_zf16(op, dest, src, m.zero_flag), ..m }
    } else {
        let dest = m.mem[addr as int];
        let mem2 = if op is Cmp {
            m.mem
        } else {
            m.mem.update(addr as int, spec_op_result8(op, dest, src as u8))
        };
        MachineView { mem: mem2, zero_flag: spec_op_zf8(op, dest, src as u8, m.zero_flag), ..m }
    }
}

/// The machine after an operation lands in an r/m destination.
pub open spec fn spec_apply_to_rm(op: Op, wide: bool, rm: RmOperand, src: u16, m: MachineView)
    -> MachineView {
    match rm {
        RmOperand::Reg(r) => spec_apply_to_reg(op, wide, r, src, m),
        _ => spec_apply_to_mem(op, wide, spec_rm_addr(rm, m.regs), src, m),
    }
}

/// The state transition of one instruction: the machine after it and the
/// cursor it hands control to, given the cursor just past the instruction.
/// Only a taken JNE moves the cursor anywhere else; a backward branch past
/// the buffer start is the one failure.
pub open spec fn spec_execute(inst: Inst, m: MachineView, inst_pos: int, next_pos: int) -> Result<
    (MachineView, int),
    SimError,
> {
    match inst {
        Inst::RegRm { op, wide, reg_dest, reg, rm } => {
            if reg_dest {
                Ok((spec_apply_to_reg(op, wide, reg, spec_rm_value(wide, rm, m), m), next_pos))
            } else {
                let src = if wide {
                    reg.spec_backing(m.regs)
                } else {
                    reg.spec_half_value(m.regs) as u16
                };
                Ok((spec_apply_to_rm(op, wide, rm, src, m), next_pos))
            }
        },
        Inst::ImmRm { op, wide, rm, imm } => Ok(
            (spec_apply_to_rm(op, wide, rm, imm, m), next_pos),
        ),
        Inst::ImmReg { wide, reg, imm } => Ok(
            (spec_apply_to_reg(Op::Mov, wide, reg, imm, m), next_pos),
        ),
        Inst::ImmAcc { op, wide, imm } => {
            let acc = if wide {
                Registers::AX
            } else {
                Registers::AL
            };
            Ok((spec_apply_to_reg(op, wide, acc, imm, m), next_pos))
        },
        Inst::AccMem { to_acc, wide, addr } => {
            let acc = if wide {
                Registers::AX
            } else {
                Registers::AL
            };
            if to_acc {
                let src = spec_rm_value(wide, RmOperand::Direct(addr), m);
                Ok((spec_apply_to_reg(Op::Mov, wide, acc, src, m), next_pos))
            } else {
                let src = if wide {
                    acc.spec_backing(m.regs)
                } else {
                    acc.spec_half_value(m.regs) as u16
                };
                Ok((spec_apply_to_mem(Op::Mov, wide, addr, src, m), next_pos))
            }
        },
        Inst::Jump { kind, disp } => {
            if kind is Jne && !m.zero_flag {
                let target = next_pos + disp;
                if target < 0 {
                    Err(SimError::BranchOutOfRange { offset: inst_pos as usize })
                } else {
                    Ok((m, target))
                }
            } else {
                Ok((m, next_pos))
            }
        },
    }
}

fn op_result16(op: Op, dest: u16, src: u16) -> (r: u16)
    ensures
        r == spec_op_result16(op, dest, src),
{
    match op {
        Op::Mov => src,
        Op::Add => dest.wrapping_add(src),
        Op::Sub => dest.wrapping_sub(src),
        Op::Cmp => dest,
    }
}

fn op_zf16(op: Op, dest: u16, src: u16, zf: bool) -> (r: bool)
    ensures
        r == spec_op_zf16(op, dest, src, zf),
{
    match op {
        Op::Mov => zf,
        Op::Add => dest.wrapping_add(src) == 0,
        Op::Sub => dest.wrapping_sub(src) == 0,
        Op::Cmp => dest.wrapping_sub(src) == 0,
    }
}

fn op_result8(op: Op, dest: u8, src: u8) -> (r: u8)
    ensures
        r == spec_op_result8(op, dest, src),
{
    match op {
        Op::Mov => src,
        Op::Add => dest.wrapping_add(src),
        Op::Sub => dest.wrapping_sub(src),
        Op::Cmp => dest,
    }
}

fn op_zf8(op: Op, dest: u8, src: u8, zf: bool) -> (r: bool)
    ensures
        r == spec_op_zf8(op, dest, src, zf),
{
    match op {
        Op::Mov => zf,
        Op::Add => dest.wrapping_add(src) == 0,
        Op::Sub => dest.wrapping_sub(src) == 0,
        Op::Cmp => dest.wrapping_sub(src) == 0,
    }
}

fn rm_value(wide: bool, rm: &RmOperand, m: &Machine) -> (r: u16)
    requires
        m.wf(),
        (rm matches RmOperand::Reg(reg) ==> reg.spec_is_wide() == wide),
    ensures
        r == spec_rm_value(wide, *rm, m@),
{
    match rm {
        RmOperand::Reg(r) => {
            if wide {
                r.get_value(&m.regs)
            } else {
                r.half_value(&m.regs) as u16
            }
        },
        RmOperand::Mem { base, disp } => {
            let addr = ea_addr(*base, *disp, &m.regs);
            if wide {
                m.memory.read_word(addr)
            } else {
                m.memory.read_byte(addr) as u16
            }
        },
        RmOperand::Direct(a) => {
            if wide {
                m.memory.read_word(*a)
            } else {
                m.memory.read_byte(*a) as u16
            }
        },
    }
}

fn apply_to_reg(op: Op, wide: bool, r: Registers, src: u16, m: &mut Machine)
    requires
        old(m).wf(),
        r.spec_is_wide() == wide,
    ensures
        final(m).wf(),
        final(m)@ == spec_apply_to_reg(op, wide, r, src, old(m)@),
{
    if wide {
        let dest = r.get_value(&m.regs);
        let res = op_result16(op, dest, src);
        let zf = op_zf16(op, dest, src, m.zero_flag);
        if !matches!(op, Op::Cmp) {
            r.update_wide(&mut m.regs, res);
        }
        m.zero_flag = zf;
    } else {
        let dest = r.half_value(&m.regs);
        let res = op_result8(op, dest, src as u8);
        let zf = op_zf8(op, dest, src as u8, m.zero_flag);
        if !matches!(op, Op::Cmp) {
            r.update(&mut m.regs, res);
        }
        m.zero_flag = zf;
    }
}

fn apply_to_mem(op: Op, wide: bool, addr: u16, src: u16, m: &mut Machine)
    requires
        old(m).wf(),
    ensures
        final(m).wf(),
        final(m)@ == spec_apply_to_mem(op, wide, addr, src, old(m)@),
{
    if wide {
        let dest = m.memory.read_word(addr);
        let res = op_result16(op, dest, src);
        let zf = op_zf16(op, dest, src, m.zero_flag);
        if !matches!(op, Op::Cmp) {
            m.memory.write_word(addr, res);
        }
        m.zero_flag = zf;
    } else {
        let dest = m.memory.read_byte(addr);
        let res = op_result8(op, dest, src as u8);
        let zf = op_zf8(op, dest, src as u8, m.zero_flag);
        if !matches!(op, Op::Cmp) {
            m.memory.write_byte(addr, res);
        }
        m.zero_flag = zf;
    }
}

fn apply_to_rm(op: Op, wide: bool, rm: &RmOperand, src: u16, m: &mut Machine)
    requires
        old(m).wf(),
        (rm matches RmOperand::Reg(r) ==> r.spec_is_wide() == wide),
    ensures
        final(m).wf(),
        final(m)@ == spec_apply_to_rm(op, wide, *rm, src, old(m)@),
{
    match rm {
        RmOperand::Reg(r) => apply_to_reg(op, wide, *r, src, m),
        RmOperand::Mem { base, disp } => {
            let addr = ea_addr(*base, *disp, &m.regs);
            apply_to_mem(op, wide, addr, src, m);
        },
        RmOperand::Direct(a) => apply_to_mem(op, wide, *a, src, m),
    }
}

/// Apply one decoded instruction to the machine; computes exactly the
/// state transition `spec_execute` describes and hands back the cursor
/// for the next iteration.
pub fn execute_inst(inst: &Inst, m: &mut Machine, inst_pos: usize, next_pos: usize) -> (r: Result<
    usize,
    SimError,
>)
    requires
        old(m).wf(),
        inst.wf(),
        next_pos < 0x8000_0000,
    ensures
        final(m).wf(),
        ({
            let s = spec_execute(*inst, old(m)@, inst_pos as int, next_pos as int);
            match r {
                Ok(np) => s matches Ok((sm, snp)) && final(m)@ == sm && np as int == snp,
                Err(e) => s == Err::<(MachineView, int), SimError>(e) && final(m)@ == old(m)@,
            }
        }),
{
    match inst {
        Inst::RegRm { op, wide, reg_dest, reg, rm } => {
            if *reg_dest {
                let src = rm_value(*wide, rm, m);
                apply_to_reg(*op, *wide, *reg, src, m);
            } else {
                let src = if *wide {
                    reg.get_value(&m.regs)
                } else {
                    reg.half_value(&m.regs) as u16
                };
                apply_to_rm(*op, *wide, rm, src, m);
            }
            Ok(next_pos)
        },
        Inst::ImmRm { op, wide, rm, imm } => {
            apply_to_rm(*op, *wide, rm, *imm, m);
            Ok(next_pos)
        },
        Inst::ImmReg { wide, reg, imm } => {
            apply_to_reg(Op::Mov, *wide, *reg, *imm, m);
            Ok(next_pos)
        },
        Inst::ImmAcc { op, wide, imm } => {
            let acc = if *wide {
                Registers::AX
            } else {
                Registers::AL
            };
            apply_to_reg(*op, *wide, acc, *imm, m);
            Ok(next_pos)
        },
        Inst::AccMem { to_acc, wide, addr } => {
            let acc = if *wide {
                Registers::AX
            } else {
                Registers::AL
            };
            if *to_acc {
                let src = rm_value(*wide, &RmOperand::Direct(*addr), m);
                apply_to_reg(Op::Mov, *wide, acc, src, m);
            } else {
                let src = if *wide {
                    acc.get_value(&m.regs)
                } else {
                    acc.half_value(&m.regs) as u16
                };
                apply_to_mem(Op::Mov, *wide, *addr, src, m);
            }
            Ok(next_pos)
        },
        Inst::Jump { kind, disp } => {
            if matches!(kind, JumpKind::Jne) && !m.zero_flag {
                let d = *disp;
                if d >= 0 {
                    Ok(next_pos + (d as usize))
                } else {
                    let magnitude = (-(d as i32)) as usize;
                    if magnitude > next_pos {
                        Err(SimError::BranchOutOfRange { offset: inst_pos })
                    } else {
                        Ok(next_pos - magnitude)
                    }
                }
            } else {
                Ok(next_pos)
            }
        },
    }
}

} // verus!
