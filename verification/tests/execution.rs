//! Execution-mode behaviour: register and memory state transitions, the
//! zero flag, branch handling, the rendered value tails, and the error
//! taxonomy.

use sim8086::{disassemble, Machine, Register, RegisterFile, Registers, SimError};

#[test]
fn register_mov_executes_and_reports() {
    // mov cx, 12 then mov bx, cx
    let buffer = vec![0xb9, 0x0c, 0x00, 0x89, 0xcb];
    let mut machine = Machine::new();
    let out = disassemble(&buffer, &mut machine, true, false);
    assert_eq!(out.error, None);
    assert_eq!(out.ip, 5);
    assert_eq!(machine.regs.cx.value, 12);
    assert_eq!(machine.regs.bx.value, 12);
    assert_eq!(
        out.text,
        "bits 16\n\nmov cx, 12 => cx 0xc\nmov bx, cx => bx 0xc\nip: 5"
    );
}

#[test]
fn half_register_writes_touch_only_their_half() {
    // mov cx, 0x1234; mov ch, 0xab (-85); mov cl, 0xcd (-51)
    let buffer = vec![0xb9, 0x34, 0x12, 0xb5, 0xab, 0xb1, 0xcd];
    let mut machine = Machine::new();
    let out = disassemble(&buffer, &mut machine, true, false);
    assert_eq!(out.error, None);
    assert_eq!(machine.regs.cx.value, 0xabcd);
    assert_eq!(
        out.text,
        "bits 16\n\nmov cx, 4660 => cx 0x1234\nmov ch, -85 => ch 0xab34\nmov cl, -51 => cl 0xabcd\nip: 7"
    );
}

#[test]
fn arithmetic_wraps_and_sets_zero_flag() {
    // mov ax, 0xffff; add ax, 1 (wraps to 0, zero flag set)
    let buffer = vec![0xb8, 0xff, 0xff, 0x05, 0x01, 0x00];
    let mut machine = Machine::new();
    let out = disassemble(&buffer, &mut machine, true, false);
    assert_eq!(out.error, None);
    assert_eq!(machine.regs.ax.value, 0);
    assert!(machine.zero_flag);
    assert_eq!(
        out.text,
        "bits 16\n\nmov ax, -1 => ax 0xffff\nadd ax, 1 => ax 0x0\nip: 6"
    );
}

#[test]
fn cmp_sets_flag_without_writing() {
    // mov cx, 5; cmp cx, 5 (equal: flag set, cx untouched)
    let buffer = vec![0xb9, 0x05, 0x00, 0x83, 0xf9, 0x05];
    let mut machine = Machine::new();
    let out = disassemble(&buffer, &mut machine, true, false);
    assert_eq!(out.error, None);
    assert_eq!(machine.regs.cx.value, 5);
    assert!(machine.zero_flag);
    assert_eq!(
        out.text,
        "bits 16\n\nmov cx, 5 => cx 0x5\ncmp cx, 5 => cx 0x5\nip: 6"
    );
}

#[test]
fn jne_taken_when_zero_flag_clear() {
    // mov cx, 2; sub cx, 1 (flag clear); jne +3 skips mov dx, 99;
    // lands on mov bx, 7
    let buffer = vec![
        0xb9, 0x02, 0x00, // mov cx, 2
        0x83, 0xe9, 0x01, // sub cx, 1
        0x75, 0x03, // jne 3 (rendered 5 in execution mode)
        0xba, 0x63, 0x00, // mov dx, 99 (skipped)
        0xbb, 0x07, 0x00, // mov bx, 7
    ];
    let mut machine = Machine::new();
    let out = disassemble(&buffer, &mut machine, true, false);
    assert_eq!(out.error, None);
    assert_eq!(out.ip, 14);
    assert_eq!(machine.regs.cx.value, 1);
    assert_eq!(machine.regs.dx.value, 0);
    assert_eq!(machine.regs.bx.value, 7);
    assert_eq!(
        out.text,
        "bits 16\n\nmov cx, 2 => cx 0x2\nsub cx, 1 => cx 0x1\njne 5\nmov bx, 7 => bx 0x7\nip: 14"
    );
}

#[test]
fn jne_falls_through_when_zero_flag_set() {
    // mov cx, 1; sub cx, 1 (flag set); jne not taken; mov dx, 99 runs
    let buffer = vec![
        0xb9, 0x01, 0x00, // mov cx, 1
        0x83, 0xe9, 0x01, // sub cx, 1
        0x75, 0x03, // jne 3
        0xba, 0x63, 0x00, // mov dx, 99
    ];
    let mut machine = Machine::new();
    let out = disassemble(&buffer, &mut machine, true, false);
    assert_eq!(out.error, None);
    assert_eq!(out.ip, 11);
    assert_eq!(machine.regs.dx.value, 99);
    assert_eq!(
        out.text,
        "bits 16\n\nmov cx, 1 => cx 0x1\nsub cx, 1 => cx 0x0\njne 5\nmov dx, 99 => dx 0x63\nip: 11"
    );
}

#[test]
fn jne_loops_backward_until_zero() {
    // mov cx, 3; then sub cx, 1 / jne -5 counts down to zero
    let buffer = vec![
        0xb9, 0x03, 0x00, // mov cx, 3
        0x83, 0xe9, 0x01, // sub cx, 1
        0x75, 0xfb, // jne -5 (back to the sub; rendered -3)
    ];
    let mut machine = Machine::new();
    let out = disassemble(&buffer, &mut machine, true, false);
    assert_eq!(out.error, None);
    assert_eq!(out.ip, 8);
    assert_eq!(machine.regs.cx.value, 0);
    assert!(machine.zero_flag);
    assert_eq!(
        out.text,
        "bits 16\n\nmov cx, 3 => cx 0x3\nsub cx, 1 => cx 0x2\njne -3\nsub cx, 1 => cx 0x1\njne -3\nsub cx, 1 => cx 0x0\njne -3\nip: 8"
    );
}

#[test]
fn memory_word_round_trip() {
    // mov word [16], 4660; mov ax, [16]
    let buffer = vec![
        0xc7, 0x06, 0x10, 0x00, 0x34, 0x12, // mov [16], word 4660
        0xa1, 0x10, 0x00, // mov ax, [16]
    ];
    let mut machine = Machine::new();
    let out = disassemble(&buffer, &mut machine, true, false);
    assert_eq!(out.error, None);
    assert_eq!(machine.regs.ax.value, 0x1234);
    assert_eq!(machine.memory.contents()[16], 0x34);
    assert_eq!(machine.memory.contents()[17], 0x12);
    assert_eq!(
        out.text,
        "bits 16\n\nmov [16], word 4660\nmov ax, [16] => ax 0x1234\nip: 9"
    );
}

#[test]
fn effective_address_store_and_load() {
    // mov bx, 32; mov [bx + 4], bx; mov cx, [bx + 4]
    let buffer = vec![
        0xbb, 0x20, 0x00, // mov bx, 32
        0x89, 0x5f, 0x04, // mov [bx + 4], bx
        0x8b, 0x4f, 0x04, // mov cx, [bx + 4]
    ];
    let mut machine = Machine::new();
    let out = disassemble(&buffer, &mut machine, true, false);
    assert_eq!(out.error, None);
    assert_eq!(machine.regs.cx.value, 32);
    assert_eq!(machine.memory.contents()[36], 32);
    assert_eq!(machine.memory.contents()[37], 0);
}

#[test]
fn unrecognized_opcode_reports_offset() {
    // hlt is outside the subset
    let buffer = vec![0x89, 0xd9, 0xf4];
    let mut machine = Machine::new();
    let out = disassemble(&buffer, &mut machine, false, false);
    assert_eq!(out.error, Some(SimError::UnrecognizedOpcode { offset: 2 }));
    assert_eq!(out.ip, 2);
    assert_eq!(out.text, "bits 16\n\nmov cx, bx\n");
}

#[test]
fn skip_fallback_strides_past_unknown_opcodes() {
    // with the fallback enabled, two unknown bytes are skipped as one
    // 2-byte stride (leaving a blank line) and decoding continues
    let buffer = vec![0xf4, 0xf4, 0x89, 0xd9];
    let mut machine = Machine::new();
    let out = disassemble(&buffer, &mut machine, false, true);
    assert_eq!(out.error, None);
    assert_eq!(out.ip, 4);
    assert_eq!(out.text, "bits 16\n\n\nmov cx, bx\n");
}

#[test]
fn skip_fallback_still_reports_truncation() {
    // the fallback covers unrecognized opcodes only, not a truncated buffer
    let buffer = vec![0x89];
    let mut machine = Machine::new();
    let out = disassemble(&buffer, &mut machine, false, true);
    assert_eq!(out.error, Some(SimError::TruncatedInstruction { offset: 0 }));
}

#[test]
fn truncated_instruction_reports_offset() {
    // the mov opcode byte arrives without its ModRM byte
    let buffer = vec![0x89, 0xd9, 0x89];
    let mut machine = Machine::new();
    let out = disassemble(&buffer, &mut machine, false, false);
    assert_eq!(out.error, Some(SimError::TruncatedInstruction { offset: 2 }));
    assert_eq!(out.ip, 2);
    assert_eq!(out.text, "bits 16\n\nmov cx, bx\n");
}

#[test]
fn truncated_displacement_reports_offset() {
    // mode 10 promises two displacement bytes; only one arrives
    let buffer = vec![0x8b, 0x96, 0x00];
    let mut machine = Machine::new();
    let out = disassemble(&buffer, &mut machine, false, false);
    assert_eq!(out.error, Some(SimError::TruncatedInstruction { offset: 0 }));
    assert_eq!(out.ip, 0);
    assert_eq!(out.text, "bits 16\n\n");
}

#[test]
fn branch_before_start_reports_offset() {
    // the zero flag starts clear, so this jne is taken backward past 0
    let buffer = vec![0x75, 0x80];
    let mut machine = Machine::new();
    let out = disassemble(&buffer, &mut machine, true, false);
    assert_eq!(out.error, Some(SimError::BranchOutOfRange { offset: 0 }));
    assert_eq!(out.ip, 0);
    assert_eq!(out.text, "bits 16\n\nip: 0");
}

#[test]
fn decode_only_leaves_machine_untouched() {
    let buffer = vec![0xb9, 0x0c, 0x00, 0xc7, 0x06, 0x10, 0x00, 0x34, 0x12];
    let mut machine = Machine::new();
    let out = disassemble(&buffer, &mut machine, false, false);
    assert_eq!(out.error, None);
    assert_eq!(machine.regs.cx.value, 0);
    assert_eq!(machine.memory.contents()[16], 0);
    assert!(!machine.zero_flag);
    assert_eq!(out.text, "bits 16\n\nmov cx, 12\nmov [16], word 4660\n");
}

#[test]
fn register_file_accessors() {
    let mut file = RegisterFile::new();
    assert_eq!(Registers::AX.get_value(&file), 0);
    Registers::AX.update_wide(&mut file, 0x1234);
    assert_eq!(Registers::AX.get_value(&file), 0x1234);
    assert_eq!(Registers::AL.get_value(&file), 0x1234);
    assert_eq!(Registers::AL.half_value(&file), 0x34);
    assert_eq!(Registers::AH.half_value(&file), 0x12);
    Registers::AH.update(&mut file, 0xff);
    assert_eq!(file.ax.value, 0xff34);
    Registers::AL.update(&mut file, 0x01);
    assert_eq!(file.ax.value, 0xff01);
    assert_eq!(Registers::AX.updated_value(&file), "ax 0xff01");
    assert_eq!(Registers::BX.updated_value(&file), "bx 0x0");
}

#[test]
fn register_storage_halves() {
    let mut r = Register { value: 0 };
    r.set(0xbeef);
    assert_eq!(r.value, 0xbeef);
    r.set_low(0x11);
    assert_eq!(r.value, 0xbe11);
    r.set_high(0x22);
    assert_eq!(r.value, 0x2211);
}

#[test]
fn empty_buffer_yields_header_only() {
    let buffer: Vec<u8> = vec![];
    let mut machine = Machine::new();
    let out = disassemble(&buffer, &mut machine, true, false);
    assert_eq!(out.error, None);
    assert_eq!(out.ip, 0);
    assert_eq!(out.text, "bits 16\n\nip: 0");
}
