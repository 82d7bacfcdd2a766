//! The decode loop: a byte cursor starts at offset 0, each iteration
//! classifies, optionally executes, and renders one instruction, and the
//! whole run is pinned down by a fuel-indexed specification interpreter.

use vstd::prelude::*;

use crate::decode::decode_at;
use crate::decode::spec_decode;
use crate::decode::SimError;
use crate::exec::execute_inst;
use crate::exec::spec_execute;
use crate::machine::Machine;
use crate::machine::MachineView;
use crate::registers::Registers;
use crate::render::render_line;
use crate::render::spec_render_line;
use crate::text::chars_to_string;
use crate::text::push_dec_usize;
use crate::text::push_str_chars;
use crate::text::spec_dec_nat;

verus! {

/// The number of loop iterations a single run may take. Far beyond any
/// feasible run; it exists so that the decode loop provably terminates
/// even on code that branches backward forever.
pub const STEP_LIMIT: u64 = 0xffff_ffff_ffff_ffff;

/// What one loop iteration does: either an instruction was decoded (and,
/// in execution mode, applied), yielding its rendered line, the new
/// cursor, and the new machine; or the run halts with an error.
pub enum StepOutcome {
    Next { line: Seq<char>, new_pos: int, m: MachineView },
    Halt { error: SimError },
}

/// One iteration of the decode loop at `pos`: decode, execute when
/// enabled, render.
pub open spec fn spec_step(
    bytes: Seq<u8>,
    pos: int,
    m: MachineView,
    execute: bool,
    skip_unrecognized: bool,
) -> StepOutcome {
    match spec_decode(bytes, pos) {
        Err(e) => if skip_unrecognized && (e matches SimError::UnrecognizedOpcode { .. }) {
            StepOutcome::Next { line: Seq::empty(), new_pos: pos + 2, m }
        } else {
            StepOutcome::Halt { error: e }
        },
        Ok((inst, len)) => if execute {
            match spec_execute(inst, m, pos, pos + len) {
                Err(e) => StepOutcome::Halt { error: e },
                Ok((m2, new_pos)) => StepOutcome::Next {
                    line: spec_render_line(inst, true, m2.regs),
                    new_pos,
                    m: m2,
                },
            }
        } else {
            StepOutcome::Next {
                line: spec_render_line(inst, false, m.regs),
                new_pos: pos + len,
                m,
            }
        },
    }
}

/// The result of a complete run: the rendered lines in encounter order,
/// the final cursor, the final machine, and the error it stopped on, if
/// any.
#[verifier::ext_equal]
pub struct RunOutcome {
    pub lines: Seq<Seq<char>>,
    pub ip: int,
    pub m: MachineView,
    pub error: Option<SimError>,
}

/// The reference interpreter: run the decode loop from `pos` until the
/// cursor reaches the buffer length or a step halts. `fuel` bounds the
/// number of steps; `None` means the run needs more than `fuel` steps
/// (with execution enabled, a backward branch can loop forever).
pub open spec fn spec_run(
    bytes: Seq<u8>,
    pos: int,
    m: MachineView,
    execute: bool,
    skip_unrecognized: bool,
    fuel: nat,
) -> Option<RunOutcome>
    decreases fuel,
{
    if pos >= bytes.len() {
        Some(RunOutcome { lines: Seq::empty(), ip: pos, m, error: None })
    } else if fuel == 0 {
        None
    } else {
        match spec_step(bytes, pos, m, execute, skip_unrecognized) {
            StepOutcome::Halt { error } => Some(
                RunOutcome { lines: Seq::empty(), ip: pos, m, error: Some(error) },
            ),
            StepOutcome::Next { line, new_pos, m: m2 } => match spec_run(
                bytes,
                new_pos,
                m2,
                execute,
                skip_unrecognized,
                (fuel - 1) as nat,
            ) {
                None => None,
                Some(ro) => Some(
                    RunOutcome {
                        lines: seq![line] + ro.lines,
                        ip: ro.ip,
                        m: ro.m,
                        error: ro.error,
                    },
                ),
            },
        }
    }
}

/// Once the run completes within some fuel, more fuel changes nothing:
/// the outcome a completed run reports is unique.
pub proof fn lemma_run_fuel_monotonic(
    bytes: Seq<u8>,
    pos: int,
    m: MachineView,
    execute: bool,
    skip_unrecognized: bool,
    f1: nat,
    f2: nat,
)
    requires
        f1 <= f2,
        spec_run(bytes, pos, m, execute, skip_unrecognized, f1) is Some,
    ensures
        spec_run(bytes, pos, m, execute, skip_unrecognized, f2) == spec_run(
            bytes,
            pos,
            m,
            execute,
            skip_unrecognized,
            f1,
        ),
    decreases f1,
{
    if pos < bytes.len() {
        match spec_step(bytes, pos, m, execute, skip_unrecognized) {
            StepOutcome::Next { line, new_pos, m: m2 } => {
                lemma_run_fuel_monotonic(
                    bytes,
                    new_pos,
                    m2,
                    execute,
                    skip_unrecognized,
                    (f1 - 1) as nat,
                    (f2 - 1) as nat,
                );
            },
            StepOutcome::Halt { .. } => {},
        }
    }
}

/// A partial run's lines, prefixed onto the rest of the run.
pub open spec fn spec_prepend(lines: Seq<Seq<char>>, ro: Option<RunOutcome>) -> Option<
    RunOutcome,
> {
    match ro {
        None => None,
        Some(o) => Some(
            RunOutcome { lines: lines + o.lines, ip: o.ip, m: o.m, error: o.error },
        ),
    }
}

/// The rendered lines, each terminated by a newline.
pub open spec fn spec_lines_text(lines: Seq<Seq<char>>) -> Seq<char>
    decreases lines.len(),
{
    if lines.len() == 0 {
        Seq::<char>::empty()
    } else {
        lines[0] + seq!['\n'] + spec_lines_text(lines.drop_first())
    }
}

/// The whole output text: the `bits 16` header, a blank line, one line
/// per instruction, and, with execution enabled, the trailing cursor
/// report.
pub open spec fn spec_listing_text(ro: RunOutcome, execute: bool) -> Seq<char> {
    "bits 16\n\n"@ + spec_lines_text(ro.lines) + if execute {
        "ip: "@ + spec_dec_nat(ro.ip as nat)
    } else {
        Seq::<char>::empty()
    }
}

proof fn lemma_lines_text_push(lines: Seq<Seq<char>>, l: Seq<char>)
    ensures
        spec_lines_text(lines.push(l)) == spec_lines_text(lines) + l + seq!['\n'],
    decreases lines.len(),
{
    if lines.len() == 0 {
        assert(lines.push(l)[0] == l);
        assert(lines.push(l).drop_first() =~= Seq::<Seq<char>>::empty());
        assert(spec_lines_text(Seq::<Seq<char>>::empty()) == Seq::<char>::empty());
        assert(spec_lines_text(lines.push(l)) == l + seq!['\n'] + Seq::<char>::empty());
        assert(spec_lines_text(lines.push(l)) =~= spec_lines_text(lines) + l + seq!['\n']);
    } else {
        assert(lines.push(l)[0] == lines[0]);
        assert(lines.push(l).drop_first() =~= lines.drop_first().push(l));
        lemma_lines_text_push(lines.drop_first(), l);
        assert(spec_lines_text(lines.push(l)) == lines[0] + seq!['\n'] + (spec_lines_text(
            lines.drop_first(),
        ) + l + seq!['\n']));
        assert(spec_lines_text(lines.push(l)) =~= spec_lines_text(lines) + l + seq!['\n']);
    }
}

/// A register selector built by `spec_from_code` always has the width it
/// was asked for.
pub proof fn lemma_from_code_wide()
    ensures
        forall|code: u8, wide: bool|
            (#[trigger] Registers::spec_from_code(code, wide)).spec_is_wide() == wide,
{
}

/// A successfully decoded instruction is well formed, occupies at least
/// one byte, and lies entirely inside the buffer.
pub proof fn lemma_decode_ok(bytes: Seq<u8>, pos: int)
    requires
        0 <= pos < bytes.len(),
    ensures
        spec_decode(bytes, pos) matches Ok((inst, len)) ==> inst.wf() && 1 <= len && pos + len
            <= bytes.len(),
{
    lemma_from_code_wide();
}

/// The result of one run of the decode loop.
pub struct Disassembly {
    /// The listing text.
    pub text: String,
    /// The final cursor offset.
    pub ip: usize,
    /// The failure the run stopped on, if any.
    pub error: Option<SimError>,
}

/// One iteration of the decode loop: decode the instruction at `pos`,
/// execute it when `execute` is set, and append its rendered line and a
/// newline to `out`. Computes exactly what `spec_step` describes.
fn run_one(
    buffer: &[u8],
    machine: &mut Machine,
    out: &mut Vec<char>,
    pos: usize,
    execute: bool,
    skip_unrecognized: bool,
) -> (res: Result<usize, SimError>)
    requires
        old(machine).wf(),
        pos < buffer@.len(),
        buffer@.len() < 0x8000_0000,
    ensures
        final(machine).wf(),
        ({
            let st = spec_step(buffer@, pos as int, old(machine)@, execute, skip_unrecognized);
            match res {
                Ok(np) => st matches StepOutcome::Next { line, new_pos, m } && m
                    == final(machine)@ && new_pos == np as int && final(out)@ == old(out)@ + line
                    + seq!['\n'],
                Err(e) => st == StepOutcome::Halt { error: e } && final(machine)@ == old(machine)@
                    && final(out)@ == old(out)@,
            }
        }),
{
    match decode_at(buffer, pos) {
        Err(e) => {
            if skip_unrecognized && matches!(e, SimError::UnrecognizedOpcode { .. }) {
                out.push('\n');
                assert(out@ =~= old(out)@ + Seq::<char>::empty() + seq!['\n']);
                Ok(pos + 2)
            } else {
                Err(e)
            }
        },
        Ok((inst, len)) => {
            proof {
                lemma_decode_ok(buffer@, pos as int);
            }
            let next_pos = pos + len;
            if execute {
                match execute_inst(&inst, machine, pos, next_pos) {
                    Err(e) => Err(e),
                    Ok(np) => {
                        render_line(&inst, true, machine, out);
                        out.push('\n');
                        Ok(np)
                    },
                }
            } else {
                render_line(&inst, false, machine, out);
                out.push('\n');
                Ok(next_pos)
            }
        },
    }
}

/// Decode the whole buffer into a listing, executing each instruction
/// against `machine` when `execute` is set. The run stops cleanly at the
/// first failure and reports the decoded-so-far listing together with the
/// error and its offset.
#[verifier::rlimit(100)]
pub fn disassemble(
    buffer: &[u8],
    machine: &mut Machine,
    execute: bool,
    skip_unrecognized: bool,
) -> (r: Disassembly)
    requires
        old(machine).wf(),
        buffer@.len() < 0x8000_0000,
    ensures
        final(machine).wf(),
        (exists|fuel: nat|
            {
                let ro = #[trigger] spec_run(buffer@, 0, old(machine)@, execute, skip_unrecognized, fuel);
                ro matches Some(o) && final(machine)@ == o.m && r.ip as int == o.ip && r.error
                    == o.error && r.text@ == spec_listing_text(o, execute)
            }) || (spec_run(buffer@, 0, old(machine)@, execute, skip_unrecognized, STEP_LIMIT as nat) is None
            && r.error == Some(SimError::StepLimitExceeded { offset: r.ip })),
{
    let ghost m0: MachineView = machine@;
    let mut out: Vec<char> = Vec::new();
    push_str_chars("bits 16\n\n", &mut out);
    let mut pos: usize = 0;
    let mut error: Option<SimError> = None;
    let mut fuel_left: u64 = STEP_LIMIT;
    let ghost mut lines: Seq<Seq<char>> = Seq::empty();
    let ghost mut steps: nat = 0;

    while pos < buffer.len() && error.is_none() && fuel_left > 0
        invariant
            machine.wf(),
            buffer@.len() < 0x8000_0000,
            out@ == "bits 16\n\n"@ + spec_lines_text(lines),
            steps + fuel_left == STEP_LIMIT,
            error is None ==> forall|f: nat|
                #![trigger spec_run(buffer@, 0, m0, execute, skip_unrecognized, f + steps)]
                spec_run(buffer@, 0, m0, execute, skip_unrecognized, f + steps) == spec_prepend(
                    lines,
                    spec_run(buffer@, pos as int, machine@, execute, skip_unrecognized, f),
                ),
            error matches Some(e) ==> spec_run(buffer@, 0, m0, execute, skip_unrecognized, steps) == Some(
                RunOutcome { lines: lines, ip: pos as int, m: machine@, error: Some(e) },
            ),
        decreases fuel_left,
    {
        let ghost m_pre: MachineView = machine@;
        let ghost lines_pre = lines;
        let ghost steps_pre = steps;
        let ghost pos_pre = pos as int;
        fuel_left = fuel_left - 1;
        let res = run_one(buffer, machine, &mut out, pos, execute, skip_unrecognized);
        match res {
            Err(e) => {
                proof {
                    assert(spec_run(buffer@, pos_pre, m_pre, execute, skip_unrecognized, 1) == Some(
                        RunOutcome {
                            lines: Seq::<Seq<char>>::empty(),
                            ip: pos_pre,
                            m: m_pre,
                            error: Some(e),
                        },
                    ));
                    assert(lines + Seq::<Seq<char>>::empty() =~= lines);
                    steps = steps_pre + 1;
                    assert(spec_run(buffer@, 0, m0, execute, skip_unrecognized, 1 + steps_pre) == spec_prepend(
                        lines,
                        spec_run(buffer@, pos_pre, m_pre, execute, skip_unrecognized, 1),
                    ));
                }
                error = Some(e);
            },
            Ok(np) => {
                proof {
                    let st = spec_step(buffer@, pos_pre, m_pre, execute, skip_unrecognized);
                    match st {
                        StepOutcome::Next { line, new_pos, m: m2 } => {
                            lemma_lines_text_push(lines_pre, line);
                            assert(out@ =~= "bits 16\n\n"@ + spec_lines_text(
                                lines_pre.push(line),
                            ));
                            lines = lines_pre.push(line);
                            steps = steps_pre + 1;
                            assert forall|f: nat|
                                spec_run(buffer@, 0, m0, execute, skip_unrecognized, f + steps) == spec_prepend(
                                    lines,
                                    spec_run(buffer@, np as int, machine@, execute, skip_unrecognized, f),
                                ) by {
                                assert(spec_run(buffer@, 0, m0, execute, skip_unrecognized, (f + 1) + steps_pre)
                                    == spec_prepend(
                                    lines_pre,
                                    spec_run(buffer@, pos_pre, m_pre, execute, skip_unrecognized, f + 1),
                                ));
                                match spec_run(buffer@, np as int, machine@, execute, skip_unrecognized, f) {
                                    None => {
                                        assert(spec_run(buffer@, pos_pre, m_pre, execute, skip_unrecognized, f + 1)
                                            is None);
                                    },
                                    Some(ro2) => {
                                        assert(spec_run(buffer@, pos_pre, m_pre, execute, skip_unrecognized, f + 1)
                                            == Some(
                                            RunOutcome {
                                                lines: seq![line] + ro2.lines,
                                                ip: ro2.ip,
                                                m: ro2.m,
                                                error: ro2.error,
                                            },
                                        ));
                                        assert(lines_pre + (seq![line] + ro2.lines) =~= lines
                                            + ro2.lines);
                                    },
                                }
                            }
                        },
                        StepOutcome::Halt { .. } => {
                            assert(false);
                        },
                    }
                }
                pos = np;
            },
        }
    }
    let ghost complete: bool = !(pos < buffer.len() && error.is_none());
    proof {
        if error is None {
            if pos >= buffer.len() {
                assert(spec_run(buffer@, pos as int, machine@, execute, skip_unrecognized, 0) == Some(
                    RunOutcome {
                        lines: Seq::<Seq<char>>::empty(),
                        ip: pos as int,
                        m: machine@,
                        error: None,
                    },
                ));
                assert(lines + Seq::<Seq<char>>::empty() =~= lines);
                assert(spec_run(buffer@, 0, m0, execute, skip_unrecognized, 0 + steps) == Some(
                    RunOutcome { lines: lines, ip: pos as int, m: machine@, error: None },
                ));
            } else {
                assert(fuel_left == 0);
                assert(steps == STEP_LIMIT as nat);
                assert(spec_run(buffer@, pos as int, machine@, execute, skip_unrecognized, 0) is None);
                assert(spec_run(buffer@, 0, m0, execute, skip_unrecognized, 0 + steps) is None);
            }
        }
    }
    if error.is_none() && pos < buffer.len() {
        error = Some(SimError::StepLimitExceeded { offset: pos });
    }
    if execute {
        push_str_chars("ip: ", &mut out);
        push_dec_usize(pos, &mut out);
    }
    let text = chars_to_string(&out);
    let r = Disassembly { text, ip: pos, error };
    proof {
        if complete {
            let o = spec_run(buffer@, 0, m0, execute, skip_unrecognized, steps)->Some_0;
            assert(r.text@ =~= spec_listing_text(o, execute));
            assert({
                let ro = spec_run(buffer@, 0, m0, execute, skip_unrecognized, steps);
                ro matches Some(o2) && machine@ == o2.m && r.ip as int == o2.ip && r.error
                    == o2.error && r.text@ == spec_listing_text(o2, execute)
            });
        }
    }
    r
}

} // verus!
