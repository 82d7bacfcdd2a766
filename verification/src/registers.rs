//! The simulated register file: eight 16-bit general-purpose registers,
//! four of which expose byte-aliased high/low halves.

use vstd::prelude::*;

verus! {

/// Storage for one architectural 16-bit register.
#[derive(Clone, Copy, PartialEq, Eq, Structural, Debug)]
pub struct Register {
    pub value: u16,
}

impl Register {
    /// Replace the whole 16-bit value.
    pub fn set(&mut self, value: u16)
        ensures
            final(self).value == value,
    {
        self.value = value;
    }

    /// Replace only the low byte, leaving the high byte untouched.
    pub fn set_low(&mut self, value: u8)
        ensures
            final(self).value == (old(self).value & 0xff00) | (value as u16),
    {
        self.value = (self.value & 0xff00) | (value as u16);
    }

    /// Replace only the high byte, leaving the low byte untouched.
    pub fn set_high(&mut self, value: u8)
        ensures
            final(self).value == (old(self).value & 0x00ff) | ((value as u16) << 8),
    {
        self.value = (self.value & 0x00ff) | ((value as u16) << 8);
    }
}

/// The eight 16-bit registers, owned by the caller and threaded through
/// every decode/execute call, so that independent machines can coexist.
#[derive(Clone, Copy, PartialEq, Eq, Structural, Debug)]
pub struct RegisterFile {
    pub ax: Register,
    pub bx: Register,
    pub cx: Register,
    pub dx: Register,
    pub sp: Register,
    pub bp: Register,
    pub si: Register,
    pub di: Register,
}

impl RegisterFile {
    /// All registers start at zero.
    pub open spec fn all_zero(self) -> bool {
        &&& self.ax.value == 0
        &&& self.bx.value == 0
        &&& self.cx.value == 0
        &&& self.dx.value == 0
        &&& self.sp.value == 0
        &&& self.bp.value == 0
        &&& self.si.value == 0
        &&& self.di.value == 0
    }

    pub fn new() -> (r: RegisterFile)
        ensures
            r.all_zero(),
    {
        RegisterFile {
            ax: Register { value: 0 },
            bx: Register { value: 0 },
            cx: Register { value: 0 },
            dx: Register { value: 0 },
            sp: Register { value: 0 },
            bp: Register { value: 0 },
            si: Register { value: 0 },
            di: Register { value: 0 },
        }
    }
}

/// A register selector: either one of the eight 16-bit registers or one of
/// the eight byte-aliased half views onto AX, BX, CX, DX.
#[derive(Clone, Copy, PartialEq, Eq, Structural, Debug)]
pub enum Registers {
    AX,
    BX,
    CX,
    DX,
    SP,
    BP,
    SI,
    DI,
    AL,
    AH,
    BL,
    BH,
    CL,
    CH,
    DL,
    DH,
}

impl Registers {
    /// Whether this selector names a full 16-bit register.
    pub open spec fn spec_is_wide(self) -> bool {
        match self {
            Registers::AX | Registers::BX | Registers::CX | Registers::DX | Registers::SP
                | Registers::BP | Registers::SI | Registers::DI => true,
            _ => false,
        }
    }

    #[verifier::when_used_as_spec(spec_is_wide)]
    pub fn is_wide(self) -> (r: bool)
        ensures
            r == self.spec_is_wide(),
    {
        match self {
            Registers::AX | Registers::BX | Registers::CX | Registers::DX | Registers::SP
                | Registers::BP | Registers::SI | Registers::DI => true,
            _ => false,
        }
    }

    /// Whether this selector names the high byte of its parent register.
    pub open spec fn spec_is_high(self) -> bool {
        match self {
            Registers::AH | Registers::BH | Registers::CH | Registers::DH => true,
            _ => false,
        }
    }

    #[verifier::when_used_as_spec(spec_is_high)]
    pub fn is_high(self) -> (r: bool)
        ensures
            r == self.spec_is_high(),
    {
        match self {
            Registers::AH | Registers::BH | Registers::CH | Registers::DH => true,
            _ => false,
        }
    }

    /// The 16-bit storage that backs this selector: the register itself for a
    /// wide selector, the parent register for a half selector.
    pub open spec fn spec_backing(self, file: RegisterFile) -> u16 {
        match self {
            Registers::AX | Registers::AL | Registers::AH => file.ax.value,
            Registers::BX | Registers::BL | Registers::BH => file.bx.value,
            Registers::CX | Registers::CL | Registers::CH => file.cx.value,
            Registers::DX | Registers::DL | Registers::DH => file.dx.value,
            Registers::SP => file.sp.value,
            Registers::BP => file.bp.value,
            Registers::SI => file.si.value,
            Registers::DI => file.di.value,
        }
    }

    /// The register file after the backing storage of `self` is set to `v`.
    pub open spec fn spec_set_backing(self, file: RegisterFile, v: u16) -> RegisterFile {
        match self {
            Registers::AX | Registers::AL | Registers::AH => RegisterFile {
                ax: Register { value: v },
                ..file
            },
            Registers::BX | Registers::BL | Registers::BH => RegisterFile {
                bx: Register { value: v },
                ..file
            },
            Registers::CX | Registers::CL | Registers::CH => RegisterFile {
                cx: Register { value: v },
                ..file
            },
            Registers::DX | Registers::DL | Registers::DH => RegisterFile {
                dx: Register { value: v },
                ..file
            },
            Registers::SP => RegisterFile { sp: Register { value: v }, ..file },
            Registers::BP => RegisterFile { bp: Register { value: v }, ..file },
            Registers::SI => RegisterFile { si: Register { value: v }, ..file },
            Registers::DI => RegisterFile { di: Register { value: v }, ..file },
        }
    }

    /// The 8-bit value a half selector reads: one byte of the parent register.
    pub open spec fn spec_half_value(self, file: RegisterFile) -> u8 {
        if self.spec_is_high() {
            (self.spec_backing(file) >> 8) as u8
        } else {
            (self.spec_backing(file) & 0x00ff) as u8
        }
    }

    /// The backing storage after writing `v` through a half selector: only
    /// the selected byte of the parent register changes.
    pub open spec fn spec_half_write(self, file: RegisterFile, v: u8) -> u16 {
        if self.spec_is_high() {
            (self.spec_backing(file) & 0x00ff) | ((v as u16) << 8)
        } else {
            (self.spec_backing(file) & 0xff00) | (v as u16)
        }
    }

    /// Write a full 16-bit value through a wide selector. A write through a
    /// half selector is a width mismatch and is ruled out by the caller.
    pub fn update_wide(&self, file: &mut RegisterFile, value: u16)
        requires
            self.spec_is_wide(),
        ensures
            *final(file) == self.spec_set_backing(*old(file), value),
    {
        match self {
            Registers::AX => file.ax.set(value),
            Registers::BX => file.bx.set(value),
            Registers::CX => file.cx.set(value),
            Registers::DX => file.dx.set(value),
            Registers::SP => file.sp.set(value),
            Registers::BP => file.bp.set(value),
            Registers::SI => file.si.set(value),
            Registers::DI => file.di.set(value),
            _ => {
                assert(false);
            },
        }
    }

    /// Write an 8-bit value through a half selector: only the selected half
    /// of the parent register changes. A write through a wide selector is a
    /// width mismatch and is ruled out by the caller.
    pub fn update(&self, file: &mut RegisterFile, value: u8)
        requires
            !self.spec_is_wide(),
        ensures
            *final(file) == self.spec_set_backing(
                *old(file),
                self.spec_half_write(*old(file), value),
            ),
    {
        match self {
            Registers::AL => file.ax.set_low(value),
            Registers::AH => file.ax.set_high(value),
            Registers::BL => file.bx.set_low(value),
            Registers::BH => file.bx.set_high(value),
            Registers::CL => file.cx.set_low(value),
            Registers::CH => file.cx.set_high(value),
            Registers::DL => file.dx.set_low(value),
            Registers::DH => file.dx.set_high(value),
            _ => {
                assert(false);
            },
        }
    }

    /// Read the 16-bit backing storage of this selector.
    pub fn get_value(&self, file: &RegisterFile) -> (r: u16)
        ensures
            r == self.spec_backing(*file),
    {
        match self {
            Registers::AX | Registers::AL | Registers::AH => file.ax.value,
            Registers::BX | Registers::BL | Registers::BH => file.bx.value,
            Registers::CX | Registers::CL | Registers::CH => file.cx.value,
            Registers::DX | Registers::DL | Registers::DH => file.dx.value,
            Registers::SP => file.sp.value,
            Registers::BP => file.bp.value,
            Registers::SI => file.si.value,
            Registers::DI => file.di.value,
        }
    }

    /// Read the byte a half selector aliases.
    pub fn half_value(&self, file: &RegisterFile) -> (r: u8)
        requires
            !self.spec_is_wide(),
        ensures
            r == self.spec_half_value(*file),
    {
        let backing = self.get_value(file);
        if self.is_high() {
            (backing >> 8) as u8
        } else {
            (backing & 0x00ff) as u8
        }
    }

    /// The selector a 3-bit register code names, in the architectural order:
    /// wide codes run AX, CX, DX, BX, SP, BP, SI, DI; byte codes run
    /// AL, CL, DL, BL, AH, CH, DH, BH.
    pub open spec fn spec_from_code(code: u8, wide: bool) -> Registers {
        if wide {
            if code == 0 { Registers::AX }
            else if code == 1 { Registers::CX }
            else if code == 2 { Registers::DX }
            else if code == 3 { Registers::BX }
            else if code == 4 { Registers::SP }
            else if code == 5 { Registers::BP }
            else if code == 6 { Registers::SI }
            else { Registers::DI }
        } else {
            if code == 0 { Registers::AL }
            else if code == 1 { Registers::CL }
            else if code == 2 { Registers::DL }
            else if code == 3 { Registers::BL }
            else if code == 4 { Registers::AH }
            else if code == 5 { Registers::CH }
            else if code == 6 { Registers::DH }
            else { Registers::BH }
        }
    }

    /// Total mapping from a 3-bit register code to a selector; the domain is
    /// exhaustively enumerated, so no lookup can fail.
    pub fn from_code(code: u8, wide: bool) -> (r: Registers)
        requires
            code < 8,
        ensures
            r == Registers::spec_from_code(code, wide),
            r.spec_is_wide() == wide,
    {
        if wide {
            match code {
                0 => Registers::AX,
                1 => Registers::CX,
                2 => Registers::DX,
                3 => Registers::BX,
                4 => Registers::SP,
                5 => Registers::BP,
                6 => Registers::SI,
                _ => Registers::DI,
            }
        } else {
            match code {
                0 => Registers::AL,
                1 => Registers::CL,
                2 => Registers::DL,
                3 => Registers::BL,
                4 => Registers::AH,
                5 => Registers::CH,
                6 => Registers::DH,
                _ => Registers::BH,
            }
        }
    }

    /// The selector's lower-case assembly name.
    pub open spec fn spec_name(self) -> Seq<char> {
        match self {
            Registers::AX => seq!['a', 'x'],
            Registers::BX => seq!['b', 'x'],
            Registers::CX => seq!['c', 'x'],
            Registers::DX => seq!['d', 'x'],
            Registers::SP => seq!['s', 'p'],
            Registers::BP => seq!['b', 'p'],
            Registers::SI => seq!['s', 'i'],
            Registers::DI => seq!['d', 'i'],
            Registers::AL => seq!['a', 'l'],
            Registers::AH => seq!['a', 'h'],
            Registers::BL => seq!['b', 'l'],
            Registers::BH => seq!['b', 'h'],
            Registers::CL => seq!['c', 'l'],
            Registers::CH => seq!['c', 'h'],
            Registers::DL => seq!['d', 'l'],
            Registers::DH => seq!['d', 'h'],
        }
    }

    /// Append the selector's assembly name to a character buffer.
    pub fn push_name(&self, out: &mut Vec<char>)
        ensures
            final(out)@ == old(out)@ + self.spec_name(),
    {
        match self {
            Registers::AX => {
                out.push('a');
                out.push('x');
            },
            Registers::BX => {
                out.push('b');
                out.push('x');
            },
            Registers::CX => {
                out.push('c');
                out.push('x');
            },
            Registers::DX => {
                out.push('d');
                out.push('x');
            },
            Registers::SP => {
                out.push('s');
                out.push('p');
            },
            Registers::BP => {
                out.push('b');
                out.push('p');
            },
            Registers::SI => {
                out.push('s');
                out.push('i');
            },
            Registers::DI => {
                out.push('d');
                out.push('i');
            },
            Registers::AL => {
                out.push('a');
                out.push('l');
            },
            Registers::AH => {
                out.push('a');
                out.push('h');
            },
            Registers::BL => {
                out.push('b');
                out.push('l');
            },
            Registers::BH => {
                out.push('b');
                out.push('h');
            },
            Registers::CL => {
                out.push('c');
                out.push('l');
            },
            Registers::CH => {
                out.push('c');
                out.push('h');
            },
            Registers::DL => {
                out.push('d');
                out.push('l');
            },
            Registers::DH => {
                out.push('d');
                out.push('h');
            },
        }
        assert(out@ =~= old(out)@ + self.spec_name());
    }
}

} // verus!
