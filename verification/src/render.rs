//! The text renderer: one canonical NASM-style line per decoded
//! instruction, with the executed destination value appended in execution
//! mode, mirrored by specification functions over character sequences.

use vstd::prelude::*;

use crate::decode::Disp;
use crate::decode::EaBase;
use crate::decode::Inst;
use crate::decode::JumpKind;
use crate::decode::Op;
use crate::decode::RmOperand;
use crate::machine::Machine;
use crate::registers::RegisterFile;
use crate::registers::Registers;
use crate::text::chars_to_string;
use crate::text::push_dec_i16;
use crate::text::push_dec_i8;
use crate::text::push_dec_u16;
use crate::text::push_hex_u16;
use crate::text::push_str_chars;
use crate::text::spec_dec_int;
use crate::text::spec_dec_nat;
use crate::text::spec_hex_u16;

verus! {

/// The rendered displacement inside an effective-address expression:
/// ` + n` or ` - n` with the absolute magnitude. A zero byte displacement
/// is omitted entirely; a zero word displacement is always printed.
pub open spec fn spec_disp_text(disp: Disp) -> Seq<char> {
    match disp {
        Disp::NoDisp => Seq::<char>::empty(),
        Disp::Byte(d) => if d == 0 {
            Seq::<char>::empty()
        } else if d < 0 {
            " - "@ + spec_dec_nat((-d) as nat)
        } else {
            " + "@ + spec_dec_nat(d as nat)
        },
        Disp::Word(d) => if d < 0 {
            " - "@ + spec_dec_nat((-d) as nat)
        } else {
            " + "@ + spec_dec_nat(d as nat)
        },
    }
}

/// The fixed register expression each r/m code names.
pub open spec fn spec_base_text(base: EaBase) -> Seq<char> {
    match base {
        EaBase::BxSi => "bx + si"@,
        EaBase::BxDi => "bx + di"@,
        EaBase::BpSi => "bp + si"@,
        EaBase::BpDi => "bp + di"@,
        EaBase::Si => "si"@,
        EaBase::Di => "di"@,
        EaBase::Bp => "bp"@,
        EaBase::Bx => "bx"@,
    }
}

/// The rendered r/m operand: a register name, a bracketed effective
/// address, or a bracketed direct address.
pub open spec fn spec_rm_text(rm: RmOperand) -> Seq<char> {
    match rm {
        RmOperand::Reg(r) => r.spec_name(),
        RmOperand::Mem { base, disp } => "["@ + spec_base_text(base) + spec_disp_text(disp) + "]"@,
        RmOperand::Direct(a) => "["@ + spec_dec_nat(a as nat) + "]"@,
    }
}

/// The operation mnemonic.
pub open spec fn spec_mnemonic(op: Op) -> Seq<char> {
    match op {
        Op::Mov => "mov"@,
        Op::Add => "add"@,
        Op::Sub => "sub"@,
        Op::Cmp => "cmp"@,
    }
}

/// The jump or loop mnemonic.
pub open spec fn spec_jump_mnemonic(kind: JumpKind) -> Seq<char> {
    match kind {
        JumpKind::Jo => "jo"@,
        JumpKind::Jno => "jno"@,
        JumpKind::Jb => "jb"@,
        JumpKind::Jnb => "jnb"@,
        JumpKind::Je => "je"@,
        JumpKind::Jne => "jne"@,
        JumpKind::Jbe => "jbe"@,
        JumpKind::Jnbe => "jnbe"@,
        JumpKind::Js => "js"@,
        JumpKind::Jns => "jns"@,
        JumpKind::Jp => "jp"@,
        JumpKind::Jnp => "jnp"@,
        JumpKind::Jl => "jl"@,
        JumpKind::Jnl => "jnl"@,
        JumpKind::Jle => "jle"@,
        JumpKind::Jnle => "jnle"@,
        JumpKind::Loop => "loop"@,
        JumpKind::Loopz => "loopz"@,
        JumpKind::Loopnz => "loopnz"@,
        JumpKind::Jcxz => "jcxz"@,
    }
}

/// The explicit size prefix that disambiguates immediate-to-memory forms.
pub open spec fn spec_size_text(wide: bool) -> Seq<char> {
    if wide {
        "word"@
    } else {
        "byte"@
    }
}

/// The rendered immediate: signed 16-bit for word width, signed 8-bit for
/// byte width.
pub open spec fn spec_imm_text(wide: bool, imm: u16) -> Seq<char> {
    if wide {
        spec_dec_int(imm as i16 as int)
    } else {
        spec_dec_int(imm as u8 as i8 as int)
    }
}

/// The accumulator's name at either width.
pub open spec fn spec_acc_name(wide: bool) -> Seq<char> {
    if wide {
        "ax"@
    } else {
        "al"@
    }
}

/// The register an instruction's execution writes (or, for CMP, leaves
/// unchanged but reports), when that destination is a register.
pub open spec fn spec_dest_reg(inst: Inst) -> Option<Registers> {
    match inst {
        Inst::RegRm { reg_dest, reg, rm, .. } => if reg_dest {
            Some(reg)
        } else {
            match rm {
                RmOperand::Reg(r) => Some(r),
                _ => None,
            }
        },
        Inst::ImmRm { rm, .. } => match rm {
            RmOperand::Reg(r) => Some(r),
            _ => None,
        },
        Inst::ImmReg { reg, .. } => Some(reg),
        Inst::ImmAcc { wide, .. } => Some(
            if wide {
                Registers::AX
            } else {
                Registers::AL
            },
        ),
        Inst::AccMem { to_acc, wide, .. } => if to_acc {
            Some(
                if wide {
                    Registers::AX
                } else {
                    Registers::AL
                },
            )
        } else {
            None
        },
        Inst::Jump { .. } => None,
    }
}

/// The ` => <reg-name> <hex-value>` tail appended in execution mode,
/// showing the destination's post-instruction backing value.
pub open spec fn spec_suffix(dest: Registers, regs: RegisterFile) -> Seq<char> {
    " => "@ + dest.spec_name() + " "@ + spec_hex_u16(dest.spec_backing(regs))
}

/// One rendered instruction without the execution tail: mnemonic, space,
/// destination, comma-space, source. In execution mode a taken-or-not JNE
/// shows its displacement adjusted past the 2-byte instruction; every
/// other jump always shows the raw displacement.
pub open spec fn spec_render_inst(inst: Inst, exec_mode: bool) -> Seq<char> {
    match inst {
        Inst::RegRm { op, wide, reg_dest, reg, rm } => {
            let body = if reg_dest {
                reg.spec_name() + ", "@ + spec_rm_text(rm)
            } else {
                spec_rm_text(rm) + ", "@ + reg.spec_name()
            };
            spec_mnemonic(op) + " "@ + body
        },
        Inst::ImmRm { op, wide, rm, imm } => match rm {
            RmOperand::Reg(r) => spec_mnemonic(op) + " "@ + r.spec_name() + ", "@ + spec_imm_text(
                wide,
                imm,
            ),
            _ => if op is Mov {
                spec_mnemonic(op) + " "@ + spec_rm_text(rm) + ", "@ + spec_size_text(wide) + " "@
                    + spec_imm_text(wide, imm)
            } else {
                spec_mnemonic(op) + " "@ + spec_size_text(wide) + " "@ + spec_rm_text(rm) + ", "@
                    + spec_imm_text(wide, imm)
            },
        },
        Inst::ImmReg { wide, reg, imm } => "mov "@ + reg.spec_name() + ", "@ + spec_imm_text(
            wide,
            imm,
        ),
        Inst::ImmAcc { op, wide, imm } => spec_mnemonic(op) + " "@ + spec_acc_name(wide) + ", "@
            + spec_imm_text(wide, imm),
        Inst::AccMem { to_acc, wide, addr } => {
            let mem_text = "["@ + spec_dec_nat(addr as nat) + "]"@;
            if to_acc {
                "mov "@ + spec_acc_name(wide) + ", "@ + mem_text
            } else {
                "mov "@ + mem_text + ", "@ + spec_acc_name(wide)
            }
        },
        Inst::Jump { kind, disp } => {
            let shown: int = if exec_mode && kind is Jne {
                disp + 2
            } else {
                disp as int
            };
            spec_jump_mnemonic(kind) + " "@ + spec_dec_int(shown)
        },
    }
}

/// One complete rendered line: the instruction and, in execution mode with
/// a register destination, the post-instruction value tail.
pub open spec fn spec_render_line(inst: Inst, exec_mode: bool, regs_after: RegisterFile)
    -> Seq<char> {
    let body = spec_render_inst(inst, exec_mode);
    if exec_mode {
        match spec_dest_reg(inst) {
            Some(d) => body + spec_suffix(d, regs_after),
            None => body,
        }
    } else {
        body
    }
}

fn push_disp_text(disp: &Disp, out: &mut Vec<char>)
    ensures
        final(out)@ == old(out)@ + spec_disp_text(*disp),
{
    match disp {
        Disp::NoDisp => {},
        Disp::Byte(d) => {
            if *d != 0 {
                if *d < 0 {
                    push_str_chars(" - ", out);
                    let magnitude = (-(*d as i32)) as u16;
                    push_dec_u16(magnitude, out);
                } else {
                    push_str_chars(" + ", out);
                    push_dec_u16(*d as u16, out);
                }
            }
        },
        Disp::Word(d) => {
            if *d < 0 {
                push_str_chars(" - ", out);
                let magnitude = (-(*d as i32)) as u16;
                push_dec_u16(magnitude, out);
            } else {
                push_str_chars(" + ", out);
                push_dec_u16(*d as u16, out);
            }
        },
    }
    assert(out@ =~= old(out)@ + spec_disp_text(*disp));
}

fn push_base_text(base: &EaBase, out: &mut Vec<char>)
    ensures
        final(out)@ == old(out)@ + spec_base_text(*base),
{
    match base {
        EaBase::BxSi => push_str_chars("bx + si", out),
        EaBase::BxDi => push_str_chars("bx + di", out),
        EaBase::BpSi => push_str_chars("bp + si", out),
        EaBase::BpDi => push_str_chars("bp + di", out),
        EaBase::Si => push_str_chars("si", out),
        EaBase::Di => push_str_chars("di", out),
        EaBase::Bp => push_str_chars("bp", out),
        EaBase::Bx => push_str_chars("bx", out),
    }
}

fn push_rm_text(rm: &RmOperand, out: &mut Vec<char>)
    ensures
        final(out)@ == old(out)@ + spec_rm_text(*rm),
{
    match rm {
        RmOperand::Reg(r) => r.push_name(out),
        RmOperand::Mem { base, disp } => {
            push_str_chars("[", out);
            push_base_text(base, out);
            push_disp_text(disp, out);
            push_str_chars("]", out);
        },
        RmOperand::Direct(a) => {
            push_str_chars("[", out);
            push_dec_u16(*a, out);
            push_str_chars("]", out);
        },
    }
    assert(out@ =~= old(out)@ + spec_rm_text(*rm));
}

fn push_mnemonic(op: &Op, out: &mut Vec<char>)
    ensures
        final(out)@ == old(out)@ + spec_mnemonic(*op),
{
    match op {
        Op::Mov => push_str_chars("mov", out),
        Op::Add => push_str_chars("add", out),
        Op::Sub => push_str_chars("sub", out),
        Op::Cmp => push_str_chars("cmp", out),
    }
}

fn push_jump_mnemonic(kind: &JumpKind, out: &mut Vec<char>)
    ensures
        final(out)@ == old(out)@ + spec_jump_mnemonic(*kind),
{
    match kind {
        JumpKind::Jo => push_str_chars("jo", out),
        JumpKind::Jno => push_str_chars("jno", out),
        JumpKind::Jb => push_str_chars("jb", out),
        JumpKind::Jnb => push_str_chars("jnb", out),
        JumpKind::Je => push_str_chars("je", out),
        JumpKind::Jne => push_str_chars("jne", out),
        JumpKind::Jbe => push_str_chars("jbe", out),
        JumpKind::Jnbe => push_str_chars("jnbe", out),
        JumpKind::Js => push_str_chars("js", out),
        JumpKind::Jns => push_str_chars("jns", out),
        JumpKind::Jp => push_str_chars("jp", out),
        JumpKind::Jnp => push_str_chars("jnp", out),
        JumpKind::Jl => push_str_chars("jl", out),
        JumpKind::Jnl => push_str_chars("jnl", out),
        JumpKind::Jle => push_str_chars("jle", out),
        JumpKind::Jnle => push_str_chars("jnle", out),
        JumpKind::Loop => push_str_chars("loop", out),
        JumpKind::Loopz => push_str_chars("loopz", out),
        JumpKind::Loopnz => push_str_chars("loopnz", out),
        JumpKind::Jcxz => push_str_chars("jcxz", out),
    }
}

fn push_imm_text(wide: bool, imm: u16, out: &mut Vec<char>)
    ensures
        final(out)@ == old(out)@ + spec_imm_text(wide, imm),
{
    if wide {
        push_dec_i16(imm as i16, out);
    } else {
        push_dec_i8((imm as u8) as i8, out);
    }
}

fn push_acc_name(wide: bool, out: &mut Vec<char>)
    ensures
        final(out)@ == old(out)@ + spec_acc_name(wide),
{
    if wide {
        push_str_chars("ax", out);
    } else {
        push_str_chars("al", out);
    }
}

fn push_suffix(dest: &Registers, regs: &RegisterFile, out: &mut Vec<char>)
    ensures
        final(out)@ == old(out)@ + spec_suffix(*dest, *regs),
{
    push_str_chars(" => ", out);
    dest.push_name(out);
    push_str_chars(" ", out);
    push_hex_u16(dest.get_value(regs), out);
    assert(out@ =~= old(out)@ + spec_suffix(*dest, *regs));
}

fn push_reg_rm_body(inst: &Inst, exec_mode: bool, out: &mut Vec<char>)
    requires
        inst matches Inst::RegRm { .. },
    ensures
        final(out)@ == old(out)@ + spec_render_inst(*inst, exec_mode),
{
    match inst {
        Inst::RegRm { op, wide, reg_dest, reg, rm } => {
            push_mnemonic(op, out);
            push_str_chars(" ", out);
            if *reg_dest {
                reg.push_name(out);
                push_str_chars(", ", out);
                push_rm_text(rm, out);
            } else {
                push_rm_text(rm, out);
                push_str_chars(", ", out);
                reg.push_name(out);
            }
            assert(out@ =~= old(out)@ + spec_render_inst(*inst, exec_mode));
        },
        _ => {
            assert(false);
        },
    }
}

fn push_imm_rm_body(inst: &Inst, exec_mode: bool, out: &mut Vec<char>)
    requires
        inst matches Inst::ImmRm { .. },
    ensures
        final(out)@ == old(out)@ + spec_render_inst(*inst, exec_mode),
{
    match inst {
        Inst::ImmRm { op, wide, rm, imm } => {
            match rm {
                RmOperand::Reg(r) => {
                    push_mnemonic(op, out);
                    push_str_chars(" ", out);
                    r.push_name(out);
                    push_str_chars(", ", out);
                    push_imm_text(*wide, *imm, out);
                },
                _ => {
                    if matches!(op, Op::Mov) {
                        push_mnemonic(op, out);
                        push_str_chars(" ", out);
                        push_rm_text(rm, out);
                        push_str_chars(", ", out);
                        push_size_text(*wide, out);
                        push_str_chars(" ", out);
                        push_imm_text(*wide, *imm, out);
                    } else {
                        push_mnemonic(op, out);
                        push_str_chars(" ", out);
                        push_size_text(*wide, out);
                        push_str_chars(" ", out);
                        push_rm_text(rm, out);
                        push_str_chars(", ", out);
                        push_imm_text(*wide, *imm, out);
                    }
                },
            }
            assert(out@ =~= old(out)@ + spec_render_inst(*inst, exec_mode));
        },
        _ => {
            assert(false);
        },
    }
}

fn push_imm_reg_body(inst: &Inst, exec_mode: bool, out: &mut Vec<char>)
    requires
        inst matches Inst::ImmReg { .. },
    ensures
        final(out)@ == old(out)@ + spec_render_inst(*inst, exec_mode),
{
    match inst {
        Inst::ImmReg { wide, reg, imm } => {
            push_str_chars("mov ", out);
            reg.push_name(out);
            push_str_chars(", ", out);
            push_imm_text(*wide, *imm, out);
            assert(out@ =~= old(out)@ + spec_render_inst(*inst, exec_mode));
        },
        _ => {
            assert(false);
        },
    }
}

fn push_imm_acc_body(inst: &Inst, exec_mode: bool, out: &mut Vec<char>)
    requires
        inst matches Inst::ImmAcc { .. },
    ensures
        final(out)@ == old(out)@ + spec_render_inst(*inst, exec_mode),
{
    match inst {
        Inst::ImmAcc { op, wide, imm } => {
            push_mnemonic(op, out);
            push_str_chars(" ", out);
            push_acc_name(*wide, out);
            push_str_chars(", ", out);
            push_imm_text(*wide, *imm, out);
            assert(out@ =~= old(out)@ + spec_render_inst(*inst, exec_mode));
        },
        _ => {
            assert(false);
        },
    }
}

fn push_acc_mem_body(inst: &Inst, exec_mode: bool, out: &mut Vec<char>)
    requires
        inst matches Inst::AccMem { .. },
    ensures
        final(out)@ == old(out)@ + spec_render_inst(*inst, exec_mode),
{
    match inst {
        Inst::AccMem { to_acc, wide, addr } => {
            if *to_acc {
                push_str_chars("mov ", out);
                push_acc_name(*wide, out);
                push_str_chars(", ", out);
                push_str_chars("[", out);
                push_dec_u16(*addr, out);
                push_str_chars("]", out);
            } else {
                push_str_chars("mov ", out);
                push_str_chars("[", out);
                push_dec_u16(*addr, out);
                push_str_chars("]", out);
                push_str_chars(", ", out);
                push_acc_name(*wide, out);
            }
            assert(out@ =~= old(out)@ + spec_render_inst(*inst, exec_mode));
        },
        _ => {
            assert(false);
        },
    }
}

fn push_jump_body(inst: &Inst, exec_mode: bool, out: &mut Vec<char>)
    requires
        inst matches Inst::Jump { .. },
    ensures
        final(out)@ == old(out)@ + spec_render_inst(*inst, exec_mode),
{
    match inst {
        Inst::Jump { kind, disp } => {
            push_jump_mnemonic(kind, out);
            push_str_chars(" ", out);
            if exec_mode && matches!(kind, JumpKind::Jne) {
                let shown: i16 = (*disp as i16) + 2;
                push_dec_i16(shown, out);
            } else {
                push_dec_i8(*disp, out);
            }
            assert(out@ =~= old(out)@ + spec_render_inst(*inst, exec_mode));
        },
        _ => {
            assert(false);
        },
    }
}

fn push_inst_body(inst: &Inst, exec_mode: bool, out: &mut Vec<char>)
    ensures
        final(out)@ == old(out)@ + spec_render_inst(*inst, exec_mode),
{
    match inst {
        Inst::RegRm { .. } => push_reg_rm_body(inst, exec_mode, out),
        Inst::ImmRm { .. } => push_imm_rm_body(inst, exec_mode, out),
        Inst::ImmReg { .. } => push_imm_reg_body(inst, exec_mode, out),
        Inst::ImmAcc { .. } => push_imm_acc_body(inst, exec_mode, out),
        Inst::AccMem { .. } => push_acc_mem_body(inst, exec_mode, out),
        Inst::Jump { .. } => push_jump_body(inst, exec_mode, out),
    }
}

/// Append one complete rendered line for `inst`. In execution mode the
/// machine must already hold the post-instruction state.
pub fn render_line(inst: &Inst, exec_mode: bool, m: &Machine, out: &mut Vec<char>)
    ensures
        final(out)@ == old(out)@ + spec_render_line(*inst, exec_mode, m@.regs),
{
    push_inst_body(inst, exec_mode, out);
    if exec_mode {
        match dest_reg(inst) {
            Some(d) => {
                push_suffix(&d, &m.regs, out);
                assert(out@ =~= old(out)@ + spec_render_line(*inst, exec_mode, m@.regs));
            },
            None => {},
        }
    }
}

fn push_size_text(wide: bool, out: &mut Vec<char>)
    ensures
        final(out)@ == old(out)@ + spec_size_text(wide),
{
    if wide {
        push_str_chars("word", out);
    } else {
        push_str_chars("byte", out);
    }
}

fn dest_reg(inst: &Inst) -> (r: Option<Registers>)
    ensures
        r == spec_dest_reg(*inst),
{
    match inst {
        Inst::RegRm { reg_dest, reg, rm, .. } => {
            if *reg_dest {
                Some(*reg)
            } else {
                match rm {
                    RmOperand::Reg(r) => Some(*r),
                    _ => None,
                }
            }
        },
        Inst::ImmRm { rm, .. } => match rm {
            RmOperand::Reg(r) => Some(*r),
            _ => None,
        },
        Inst::ImmReg { reg, .. } => Some(*reg),
        Inst::ImmAcc { wide, .. } => Some(
            if *wide {
                Registers::AX
            } else {
                Registers::AL
            },
        ),
        Inst::AccMem { to_acc, wide, .. } => {
            if *to_acc {
                Some(
                    if *wide {
                        Registers::AX
                    } else {
                        Registers::AL
                    },
                )
            } else {
                None
            }
        },
        Inst::Jump { .. } => None,
    }
}

impl Registers {
    /// The selector's name and its current backing value in lowercase
    /// hexadecimal, as the execution-mode tail reports it.
    pub fn updated_value(&self, file: &RegisterFile) -> (r: String)
        ensures
            r@ == self.spec_name() + " "@ + spec_hex_u16(self.spec_backing(*file)),
    {
        let mut out: Vec<char> = Vec::new();
        self.push_name(&mut out);
        push_str_chars(" ", &mut out);
        push_hex_u16(self.get_value(file), &mut out);
        assert(out@ =~= self.spec_name() + " "@ + spec_hex_u16(self.spec_backing(*file)));
        chars_to_string(&out)
    }
}

} // verus!
