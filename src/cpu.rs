//! The register file: eight byte cells, four pair views over them, and the
//! condition bits packed into the flags register.
use vstd::prelude::*;

use crate::bits::{bit_set, compose, flags_byte, high_byte, lemma_compose_split, low_byte};
use crate::names::{ByteReg, FlagName, PairReg, RegName};

verus! {

/// How an access was attempted.
#[derive(Clone, Copy, Debug, PartialEq, Eq, Structural)]
pub enum Access {
    Read,
    Write,
}

impl Access {
    pub open spec fn spec_label(self) -> Seq<char> {
        match self {
            Access::Read => "read"@,
            Access::Write => "write"@,
        }
    }
}

/// How wide an access was, or how wide a register is.
#[derive(Clone, Copy, Debug, PartialEq, Eq, Structural)]
pub enum Width {
    Bits8,
    Bits16,
}

impl Width {
    pub open spec fn spec_label(self) -> Seq<char> {
        match self {
            Width::Bits8 => "8"@,
            Width::Bits16 => "16"@,
        }
    }

    /// The width of the named register.
    pub open spec fn of(name: RegName) -> Width {
        if name.spec_as_byte() is Some {
            Width::Bits8
        } else {
            Width::Bits16
        }
    }
}

/// The one way an access to the register file can fail.
#[derive(Clone, Copy, Debug, PartialEq, Eq, Structural)]
pub enum RegisterError {
    /// An 8-bit access to a pair, or a 16-bit access to a byte register.
    InvalidAccessWidth { name: RegName, width: Width, access: Access },
}

impl RegisterError {
    /// The diagnostic, such as "attempted 16-bit read of 8-bit register L".
    pub open spec fn spec_message(self) -> Seq<char> {
        match self {
            RegisterError::InvalidAccessWidth { name, width, access } => "attempted "@
                + width.spec_label() + "-bit "@ + access.spec_label() + " of "@ + Width::of(
                name,
            ).spec_label() + "-bit register "@ + name.spec_label(),
        }
    }

    pub fn message(&self) -> (r: String)
        ensures
            r@ == self.spec_message(),
    {
        match *self {
            RegisterError::InvalidAccessWidth { name, width, access } => {
                let mut r = String::from_str("attempted ");
                r.append(
                    match width {
                        Width::Bits8 => "8",
                        Width::Bits16 => "16",
                    },
                );
                r.append("-bit ");
                r.append(
                    match access {
                        Access::Read => "read",
                        Access::Write => "write",
                    },
                );
                r.append(" of ");
                r.append(
                    match name.as_byte() {
                        Some(_) => "8",
                        None => "16",
                    },
                );
                r.append("-bit register ");
                r.append(name.label());
                r
            },
        }
    }
}

/// One 8-bit storage cell of the register file.
#[derive(Clone, Copy, Debug)]
pub struct CpuRegister {
    pub name: ByteReg,
    pub value: u8,
}

impl CpuRegister {
    /// A cell for the named register, holding 0.
    pub fn new(name: ByteReg) -> (r: CpuRegister)
        ensures
            r.name == name,
            r.value == 0,
    {
        CpuRegister { name, value: 0 }
    }

    pub fn read_u8(&self) -> (r: u8)
        ensures
            r == self.value,
    {
        self.value
    }

    pub fn write_u8(&mut self, value: u8)
        ensures
            final(self).value == value,
            final(self).name == old(self).name,
    {
        self.value = value;
    }
}

/// A 16-bit register given by the two byte registers it is made of.
#[derive(Clone, Copy, Debug)]
pub struct CpuRegisterPair {
    /// Holds the high byte.
    pub upper: ByteReg,
    /// Holds the low byte.
    pub lower: ByteReg,
}

impl CpuRegisterPair {
    pub fn new(upper: ByteReg, lower: ByteReg) -> (r: CpuRegisterPair)
        ensures
            r.upper == upper,
            r.lower == lower,
    {
        CpuRegisterPair { upper, lower }
    }

    /// The current value of the pair: the upper register's byte over the lower's.
    pub fn read_u16(&self, regs: &RegisterFile) -> (r: u16)
        requires
            regs.wf(),
        ensures
            r == compose(regs.byte(self.upper), regs.byte(self.lower)),
    {
        let hi = regs.read_byte(self.upper);
        let lo = regs.read_byte(self.lower);
        let r = ((hi as u16) << 8) | (lo as u16);
        assert(((hi as u16) << 8) | (lo as u16) == (hi as u16) * 256 + (lo as u16)) by (bit_vector);
        r
    }

    /// Writes the high byte of `value` to the upper register, then the low
    /// byte to the lower register.
    pub fn write_u16(&self, regs: &mut RegisterFile, value: u16)
        requires
            old(regs).wf(),
        ensures
            final(regs).wf(),
            final(regs).byte(self.lower) == low_byte(value),
            self.upper != self.lower ==> final(regs).byte(self.upper) == high_byte(value),
            forall|q: ByteReg|
                q != self.upper && q != self.lower ==> #[trigger] final(regs).byte(q) == old(
                    regs,
                ).byte(q),
    {
        let upper_val = (value >> 8) & 0xff;
        let lower_val = value & 0xff;
        assert((value >> 8) & 0xff == value / 256) by (bit_vector);
        assert(value & 0xff == value % 256) by (bit_vector);
        regs.write_byte(self.upper, upper_val as u8);
        regs.write_byte(self.lower, lower_val as u8);
    }
}

impl PairReg {
    /// The two byte registers this pair is made of.
    pub fn parts(self) -> (r: CpuRegisterPair)
        ensures
            r.upper == self.spec_upper(),
            r.lower == self.spec_lower(),
    {
        match self {
            PairReg::BC => CpuRegisterPair::new(ByteReg::B, ByteReg::C),
            PairReg::DE => CpuRegisterPair::new(ByteReg::D, ByteReg::E),
            PairReg::HL => CpuRegisterPair::new(ByteReg::H, ByteReg::L),
            PairReg::AF => CpuRegisterPair::new(ByteReg::A, ByteReg::F),
        }
    }
}

/// The byte registers' storage. Pairs have none of their own: they are read
/// and written through the cells of their two byte registers.
pub struct RegisterFile {
    /// One cell per byte register, in the order of `ByteReg::slot`.
    cells: [CpuRegister; 8],
}

impl RegisterFile {
    /// Each cell sits in the slot of the register it belongs to.
    pub closed spec fn wf(&self) -> bool {
        forall|r: ByteReg| #[trigger] self.cells[r.spec_slot()].name == r
    }

    /// The current value of a byte register.
    pub closed spec fn byte(&self, r: ByteReg) -> u8 {
        self.cells[r.spec_slot()].value
    }

    /// The current value of a pair register.
    pub open spec fn pair(&self, p: PairReg) -> u16 {
        compose(self.byte(p.spec_upper()), self.byte(p.spec_lower()))
    }

    /// The current value of the flags register.
    #[verifier::inline]
    pub open spec fn flags(&self) -> u8 {
        self.byte(ByteReg::F)
    }

    /// A register file with every register at 0.
    pub fn new() -> (r: RegisterFile)
        ensures
            r.wf(),
            forall|q: ByteReg| #[trigger] r.byte(q) == 0,
    {
        let cells = [
            CpuRegister::new(ByteReg::B),
            CpuRegister::new(ByteReg::C),
            CpuRegister::new(ByteReg::D),
            CpuRegister::new(ByteReg::E),
            CpuRegister::new(ByteReg::H),
            CpuRegister::new(ByteReg::L),
            CpuRegister::new(ByteReg::A),
            CpuRegister::new(ByteReg::F),
        ];
        RegisterFile { cells }
    }

    pub fn read_byte(&self, r: ByteReg) -> (v: u8)
        requires
            self.wf(),
        ensures
            v == self.byte(r),
    {
        self.cells[r.slot()].read_u8()
    }

    pub fn write_byte(&mut self, r: ByteReg, value: u8)
        requires
            old(self).wf(),
        ensures
            final(self).wf(),
            final(self).byte(r) == value,
            forall|q: ByteReg| q != r ==> #[trigger] final(self).byte(q) == old(self).byte(q),
    {
        let i = r.slot();
        let mut cell = self.cells[i];
        cell.write_u8(value);
        self.cells[i] = cell;
        assert forall|q: ByteReg| q != r implies #[trigger] self.cells[q.spec_slot()] == old(
            self,
        ).cells[q.spec_slot()] by {
            crate::names::lemma_slot_injective(q, r);
        }
    }
}

impl RegisterFile {
    pub fn read_pair(&self, p: PairReg) -> (v: u16)
        requires
            self.wf(),
        ensures
            v == self.pair(p),
    {
        p.parts().read_u16(self)
    }

    /// Writes the high byte of `value` to the pair's upper register and the
    /// low byte to its lower register.
    pub fn write_pair(&mut self, p: PairReg, value: u16)
        requires
            old(self).wf(),
        ensures
            final(self).wf(),
            final(self).byte(p.spec_upper()) == high_byte(value),
            final(self).byte(p.spec_lower()) == low_byte(value),
            final(self).pair(p) == value,
            forall|q: ByteReg|
                q != p.spec_upper() && q != p.spec_lower() ==> #[trigger] final(self).byte(q)
                    == old(self).byte(q),
    {
        p.parts().write_u16(self, value);
        proof {
            lemma_compose_split(value);
        }
    }

    /// Reads the named register 8 bits wide; a pair name is refused.
    pub fn read_u8(&self, name: RegName) -> (r: Result<u8, RegisterError>)
        requires
            self.wf(),
        ensures
            match name.spec_as_byte() {
                Some(b) => r == Ok::<u8, RegisterError>(self.byte(b)),
                None => r == Err::<u8, RegisterError>(
                    (RegisterError::InvalidAccessWidth { name, width: Width::Bits8, access: Access::Read }),
                ),
            },
    {
        match name.as_byte() {
            Some(b) => Ok(self.read_byte(b)),
            None => Err(RegisterError::InvalidAccessWidth { name, width: Width::Bits8, access: Access::Read }),
        }
    }

    /// Reads the named register 16 bits wide; a byte register's name is refused.
    pub fn read_u16(&self, name: RegName) -> (r: Result<u16, RegisterError>)
        requires
            self.wf(),
        ensures
            match name.spec_as_pair() {
                Some(p) => r == Ok::<u16, RegisterError>(self.pair(p)),
                None => r == Err::<u16, RegisterError>(
                    (RegisterError::InvalidAccessWidth { name, width: Width::Bits16, access: Access::Read }),
                ),
            },
    {
        match name.as_pair() {
            Some(p) => Ok(self.read_pair(p)),
            None => Err(
                RegisterError::InvalidAccessWidth { name, width: Width::Bits16, access: Access::Read },
            ),
        }
    }

    /// Writes the named register 8 bits wide; a pair name is refused and
    /// nothing changes.
    pub fn write_u8(&mut self, name: RegName, value: u8) -> (r: Result<(), RegisterError>)
        requires
            old(self).wf(),
        ensures
            final(self).wf(),
            match name.spec_as_byte() {
                Some(b) => {
                    &&& r is Ok
                    &&& final(self).byte(b) == value
                    &&& forall|q: ByteReg|
                        q != b ==> #[trigger] final(self).byte(q) == old(self).byte(q)
                },
                None => {
                    &&& r == Err::<(), RegisterError>(
                        (RegisterError::InvalidAccessWidth { name, width: Width::Bits8, access: Access::Write }),
                    )
                    &&& *final(self) == *old(self)
                },
            },
    {
        match name.as_byte() {
            Some(b) => {
                self.write_byte(b, value);
                Ok(())
            },
            None => Err(
                RegisterError::InvalidAccessWidth { name, width: Width::Bits8, access: Access::Write },
            ),
        }
    }

    /// Writes the named register 16 bits wide; a byte register's name is
    /// refused and nothing changes.
    pub fn write_u16(&mut self, name: RegName, value: u16) -> (r: Result<(), RegisterError>)
        requires
            old(self).wf(),
        ensures
            final(self).wf(),
            match name.spec_as_pair() {
                Some(p) => {
                    &&& r is Ok
                    &&& final(self).byte(p.spec_upper()) == high_byte(value)
                    &&& final(self).byte(p.spec_lower()) == low_byte(value)
                    &&& forall|q: ByteReg|
                        q != p.spec_upper() && q != p.spec_lower() ==> #[trigger] final(self).byte(q)
                            == old(self).byte(q)
                },
                None => {
                    &&& r == Err::<(), RegisterError>(
                        (RegisterError::InvalidAccessWidth { name, width: Width::Bits16, access: Access::Write }),
                    )
                    &&& *final(self) == *old(self)
                },
            },
    {
        match name.as_pair() {
            Some(p) => {
                self.write_pair(p, value);
                Ok(())
            },
            None => Err(
                RegisterError::InvalidAccessWidth { name, width: Width::Bits16, access: Access::Write },
            ),
        }
    }
}

/// CPU state: the register file, the program counter and the stack pointer.
pub struct Cpu {
    pub regs: RegisterFile,
    /// Program counter.
    pub pc: u16,
    /// Stack pointer.
    pub sp: u16,
}

impl Cpu {
    /// A fresh CPU: every register, the program counter and the stack pointer are 0.
    pub fn new() -> (r: Cpu)
        ensures
            r.regs.wf(),
            forall|q: ByteReg| #[trigger] r.regs.byte(q) == 0,
            r.pc == 0,
            r.sp == 0,
    {
        Cpu { regs: RegisterFile::new(), pc: 0, sp: 0 }
    }

    /// Sets or clears the flag's bit of F, leaving its other bits and every
    /// other register as they were.
    pub fn set_flag(&mut self, flag: FlagName, value: bool)
        requires
            old(self).regs.wf(),
        ensures
            final(self).regs.wf(),
            forall|i: u8|
                i < 8 ==> #[trigger] bit_set(final(self).regs.flags(), i) == if i
                    == flag.spec_bit() {
                    value
                } else {
                    bit_set(old(self).regs.flags(), i)
                },
            forall|q: ByteReg|
                q != ByteReg::F ==> #[trigger] final(self).regs.byte(q) == old(self).regs.byte(q),
            final(self).pc == old(self).pc,
            final(self).sp == old(self).sp,
    {
        let index = flag.bit();
        let current_value = self.regs.read_byte(ByteReg::F);
        let mask: u8 = 1u8 << index;
        let new_value = if value {
            current_value | mask
        } else {
            current_value & !mask
        };
        assert forall|i: u8| i < 8 implies #[trigger] bit_set(new_value, i) == if i == index {
            value
        } else {
            bit_set(current_value, i)
        } by {
            if value {
                assert(((current_value | (1u8 << index)) >> i) & 1 == 1 <==> (i == index || (
                current_value >> i) & 1 == 1)) by (bit_vector)
                    requires
                        index < 8,
                        i < 8,
                ;
            } else {
                assert(((current_value & !(1u8 << index)) >> i) & 1 == 1 <==> (i != index && (
                current_value >> i) & 1 == 1)) by (bit_vector)
                    requires
                        index < 8,
                        i < 8,
                ;
            }
        }
        self.regs.write_byte(ByteReg::F, new_value);
    }

    /// Overwrites F with the four condition bits given; bits 0 to 3 are cleared.
    pub fn set_flags(&mut self, z: bool, n: bool, h: bool, c: bool)
        requires
            old(self).regs.wf(),
        ensures
            final(self).regs.wf(),
            final(self).regs.flags() == flags_byte(z, n, h, c),
            forall|q: ByteReg|
                q != ByteReg::F ==> #[trigger] final(self).regs.byte(q) == old(self).regs.byte(q),
            final(self).pc == old(self).pc,
            final(self).sp == old(self).sp,
    {
        let zb: u8 = if z { 1 } else { 0 };
        let nb: u8 = if n { 1 } else { 0 };
        let hb: u8 = if h { 1 } else { 0 };
        let cb: u8 = if c { 1 } else { 0 };
        let flag_nibble = cb | (hb << 1) | (nb << 2) | (zb << 3);
        let flag_value = flag_nibble << 4;
        assert(((cb | (hb << 1) | (nb << 2) | (zb << 3)) << 4) == zb * 128 + nb * 64 + hb * 32
            + cb * 16) by (bit_vector)
            requires
                zb <= 1,
                nb <= 1,
                hb <= 1,
                cb <= 1,
        ;
        self.regs.write_byte(ByteReg::F, flag_value);
    }
}

} // verus!
