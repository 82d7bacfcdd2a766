//! Library-wide laws, stated over the specification functions that the
//! executable decoder, executor and renderer provably compute.

use vstd::prelude::*;

use crate::decode::spec_decode_reg_rm;
use crate::decode::Disp;
use crate::decode::EaBase;
use crate::decode::Inst;
use crate::decode::JumpKind;
use crate::decode::Op;
use crate::decode::RmOperand;
use crate::decode::SimError;
use crate::exec::spec_ea_addr;
use crate::exec::spec_execute;
use crate::machine::MachineView;
use crate::memory::spec_word;
use crate::registers::RegisterFile;
use crate::registers::Registers;
use crate::render::spec_disp_text;
use crate::render::spec_mnemonic;
use crate::run::lemma_from_code_wide;
use crate::run::spec_run;
use crate::run::RunOutcome;
use crate::text::spec_dec_nat;

verus! {

/// The two bytes that encode a register-direct MOV: the opcode byte with
/// direction bit 0 and the given width bit, then a ModRM byte in register
/// mode with the source in the reg field and the destination in the r/m
/// field.
pub open spec fn spec_encode_mov_rr(wide: bool, src: u8, dst: u8) -> Seq<u8> {
    seq![
        if wide {
            0x89u8
        } else {
            0x88u8
        },
        0xc0u8 | (src << 3) | dst,
    ]
}

/// For every valid register-direct MOV encoding, decoding the two bytes
/// yields exactly one line, `mov <dst>, <src>`, with both names drawn
/// from the register set of the encoded width, and leaves the machine
/// untouched.
pub proof fn lemma_mov_round_trip(wide: bool, src: u8, dst: u8, m: MachineView, fuel: nat)
    requires
        src < 8,
        dst < 8,
        fuel >= 1,
    ensures
        ({
            let bytes = spec_encode_mov_rr(wide, src, dst);
            let dst_reg = Registers::spec_from_code(dst, wide);
            let src_reg = Registers::spec_from_code(src, wide);
            &&& spec_run(bytes, 0, m, false, false, fuel) == Some(
                RunOutcome {
                    lines: seq![
                        spec_mnemonic(Op::Mov) + " "@ + dst_reg.spec_name() + ", "@
                            + src_reg.spec_name(),
                    ],
                    ip: 2,
                    m: m,
                    error: None,
                },
            )
            &&& dst_reg.spec_is_wide() == wide
            &&& src_reg.spec_is_wide() == wide
        }),
{
    lemma_from_code_wide();
    let bytes = spec_encode_mov_rr(wide, src, dst);
    let modrm = 0xc0u8 | (src << 3) | dst;
    assert(bytes[0] == if wide {
        0x89u8
    } else {
        0x88u8
    });
    assert(bytes[1] == modrm);
    assert(0x88u8 >> 2 == 0x22u8 && 0x88u8 & 1 == 0 && 0x88u8 & 2 == 0) by (bit_vector);
    assert(0x89u8 >> 2 == 0x22u8 && 0x89u8 & 1 == 1 && 0x89u8 & 2 == 0) by (bit_vector);
    assert(modrm >> 6 == 3 && (modrm >> 3) & 7 == src && modrm & 7 == dst) by (bit_vector)
        requires
            src < 8,
            dst < 8,
            modrm == 0xc0u8 | (src << 3) | dst,
    ;
    let inst = Inst::RegRm {
        op: Op::Mov,
        wide,
        reg_dest: false,
        reg: Registers::spec_from_code(src, wide),
        rm: RmOperand::Reg(Registers::spec_from_code(dst, wide)),
    };
    assert(crate::decode::spec_decode(bytes, 0) == Ok::<(Inst, int), SimError>((inst, 2)));
    let line = spec_mnemonic(Op::Mov) + " "@ + Registers::spec_from_code(dst, wide).spec_name()
        + ", "@ + Registers::spec_from_code(src, wide).spec_name();
    assert(crate::render::spec_render_line(inst, false, m.regs) =~= line);
    assert(crate::run::spec_step(bytes, 0, m, false, false) == crate::run::StepOutcome::Next {
        line,
        new_pos: 2,
        m,
    });
    assert(spec_run(bytes, 2, m, false, false, (fuel - 1) as nat) == Some(
        RunOutcome { lines: Seq::empty(), ip: 2, m, error: None },
    ));
    assert(seq![line] + Seq::<Seq<char>>::empty() =~= seq![line]);
    assert(spec_run(bytes, 0, m, false, false, fuel) == Some(
        RunOutcome { lines: seq![line], ip: 2, m, error: None },
    ));
}

/// For every addressing-mode-00 r/m value except 110, the resolver
/// consumes the opcode and ModRM bytes only: the whole instruction is 2
/// bytes, with zero displacement bytes.
pub proof fn lemma_mode00_consumes_two(bytes: Seq<u8>, pos: int, op: Op)
    requires
        0 <= pos,
        pos + 2 <= bytes.len(),
        bytes[pos + 1] >> 6 == 0,
        bytes[pos + 1] & 7 != 6,
    ensures
        spec_decode_reg_rm(bytes, pos, op) matches Ok((inst, len)) && (len == 2 && (inst matches
        Inst::RegRm { rm: RmOperand::Mem { disp: Disp::NoDisp, .. }, .. })),
{
}

/// For r/m = 110 under mode 00, the direct-address exception, the
/// resolver consumes 2 further bytes holding the absolute little-endian
/// address: the whole instruction is 4 bytes.
pub proof fn lemma_mode00_direct_consumes_four(bytes: Seq<u8>, pos: int, op: Op)
    requires
        0 <= pos,
        pos + 4 <= bytes.len(),
        bytes[pos + 1] >> 6 == 0,
        bytes[pos + 1] & 7 == 6,
    ensures
        spec_decode_reg_rm(bytes, pos, op) matches Ok((inst, len)) && (len == 4 && (inst matches
        Inst::RegRm { rm: RmOperand::Direct(a), .. } && (a == spec_word(
            bytes[pos + 2],
            bytes[pos + 3],
        )))),
{
}

/// For every mode-01 encoding, the resolver consumes exactly one
/// displacement byte, kept as a signed 8-bit value (the effective-address
/// computation then sign-extends it): the whole instruction is 3 bytes.
pub proof fn lemma_mode01_consumes_one_disp(bytes: Seq<u8>, pos: int, op: Op)
    requires
        0 <= pos,
        pos + 3 <= bytes.len(),
        bytes[pos + 1] >> 6 == 1,
    ensures
        spec_decode_reg_rm(bytes, pos, op) matches Ok((inst, len)) && (len == 3 && (inst matches
        Inst::RegRm { rm: RmOperand::Mem { disp: Disp::Byte(d), .. }, .. } && (d == bytes[pos
            + 2] as i8))),
{
}

/// For every mode-10 encoding, the resolver consumes exactly two
/// displacement bytes, interpreted as a little-endian signed 16-bit
/// value: the whole instruction is 4 bytes.
pub proof fn lemma_mode10_consumes_two_disp(bytes: Seq<u8>, pos: int, op: Op)
    requires
        0 <= pos,
        pos + 4 <= bytes.len(),
        bytes[pos + 1] >> 6 == 2,
    ensures
        spec_decode_reg_rm(bytes, pos, op) matches Ok((inst, len)) && (len == 4 && (inst matches
        Inst::RegRm { rm: RmOperand::Mem { disp: Disp::Word(d), .. }, .. } && (d == spec_word(
            bytes[pos + 2],
            bytes[pos + 3],
        ) as i16))),
{
}

/// A zero byte displacement is omitted from the rendered text though it
/// still contributes (zero) to the computed address; a zero word
/// displacement is always printed.
pub proof fn lemma_zero_disp_rendering(base: EaBase, regs: RegisterFile)
    ensures
        spec_disp_text(Disp::Byte(0)) == Seq::<char>::empty(),
        spec_disp_text(Disp::Word(0)) == " + "@ + spec_dec_nat(0),
        spec_ea_addr(base, Disp::Byte(0), regs) == spec_ea_addr(base, Disp::NoDisp, regs),
        spec_ea_addr(base, Disp::Word(0), regs) == spec_ea_addr(base, Disp::NoDisp, regs),
{
}

/// Executing a JNE whose zero flag is false moves the cursor by the
/// encoded signed displacement relative to the position immediately after
/// the 2-byte instruction (failing when that target lies before the
/// buffer start); executing it with the flag set simply advances by 2.
pub proof fn lemma_jne_cursor(m: MachineView, pos: int, disp: i8)
    ensures
        (!m.zero_flag && pos + 2 + disp >= 0) ==> spec_execute(
            Inst::Jump { kind: JumpKind::Jne, disp },
            m,
            pos,
            pos + 2,
        ) == Ok::<(MachineView, int), SimError>((m, pos + 2 + disp)),
        (!m.zero_flag && pos + 2 + disp < 0) ==> spec_execute(
            Inst::Jump { kind: JumpKind::Jne, disp },
            m,
            pos,
            pos + 2,
        ) == Err::<(MachineView, int), SimError>(
            SimError::BranchOutOfRange { offset: pos as usize },
        ),
        m.zero_flag ==> spec_execute(Inst::Jump { kind: JumpKind::Jne, disp }, m, pos, pos + 2)
            == Ok::<(MachineView, int), SimError>((m, pos + 2)),
{
}

} // verus!
