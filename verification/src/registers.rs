//! The CPU register file: eight 8-bit registers (paired into 16-bit
//! registers), the stack pointer and the program counter.
use vstd::prelude::*;

verus! {

/// An 8-bit register.
#[derive(Clone, Copy, Debug, PartialEq, Eq, Structural)]
pub enum Reg8 {
    A,
    B,
    C,
    D,
    E,
    H,
    L,
}

/// A 16-bit register: a pair of 8-bit registers, or the stack pointer.
#[derive(Clone, Copy, Debug, PartialEq, Eq, Structural)]
pub enum Reg16 {
    AF,
    BC,
    DE,
    HL,
    SP,
}

/// A condition flag held in the upper nibble of register F.
#[derive(Clone, Copy, Debug, PartialEq, Eq, Structural)]
pub enum Flag {
    /// Zero (bit 7).
    Z,
    /// Subtract (bit 6).
    N,
    /// Half carry (bit 5).
    H,
    /// Carry (bit 4).
    C,
}

/// The bit of register F that holds a flag.
pub open spec fn flag_mask(flag: Flag) -> u8 {
    match flag {
        Flag::Z => 0x80,
        Flag::N => 0x40,
        Flag::H => 0x20,
        Flag::C => 0x10,
    }
}

/// The 16-bit value made of a high and a low byte.
pub open spec fn word(hi: u8, lo: u8) -> u16 {
    (hi * 256 + lo) as u16
}

/// The high byte of a 16-bit value.
pub open spec fn high_byte(w: u16) -> u8 {
    (w / 256) as u8
}

/// The low byte of a 16-bit value.
pub open spec fn low_byte(w: u16) -> u8 {
    (w % 256) as u8
}

/// Joins two bytes into a 16-bit value.
pub fn join_bytes(hi: u8, lo: u8) -> (w: u16)
    ensures
        w == word(hi, lo),
        w as int == hi * 256 + lo,
{
    let w: u16 = ((hi as u16) << 8) | (lo as u16);
    assert(w == hi * 256 + lo) by (bit_vector)
        requires
            w == ((hi as u16) << 8) | (lo as u16),
    ;
    w
}

/// Splits a 16-bit value into its high and low byte.
pub fn split_word(w: u16) -> (bytes: (u8, u8))
    ensures
        bytes.0 == high_byte(w),
        bytes.1 == low_byte(w),
        bytes.0 * 256 + bytes.1 == w,
{
    let hi: u8 = (w >> 8) as u8;
    let lo: u8 = w as u8;
    assert(hi == w / 256 && lo == w % 256) by (bit_vector)
        requires
            hi == (w >> 8) as u8,
            lo == w as u8,
    ;
    (hi, lo)
}

/// The register file.
#[derive(Clone, Copy, Debug, PartialEq, Eq, Structural)]
pub struct Registers {
    pub a: u8,
    pub f: u8,
    pub b: u8,
    pub c: u8,
    pub d: u8,
    pub e: u8,
    pub h: u8,
    pub l: u8,
    pub sp: u16,
    pub pc: u16,
}

impl Registers {
    /// The value of an 8-bit register.
    pub open spec fn reg8(self, reg: Reg8) -> u8 {
        match reg {
            Reg8::A => self.a,
            Reg8::B => self.b,
            Reg8::C => self.c,
            Reg8::D => self.d,
            Reg8::E => self.e,
            Reg8::H => self.h,
            Reg8::L => self.l,
        }
    }

    /// The register file with one 8-bit register replaced.
    pub open spec fn with_reg8(self, reg: Reg8, v: u8) -> Registers {
        match reg {
            Reg8::A => Registers { a: v, ..self },
            Reg8::B => Registers { b: v, ..self },
            Reg8::C => Registers { c: v, ..self },
            Reg8::D => Registers { d: v, ..self },
            Reg8::E => Registers { e: v, ..self },
            Reg8::H => Registers { h: v, ..self },
            Reg8::L => Registers { l: v, ..self },
        }
    }

    /// The value of a 16-bit register; a pair reads its first register as the high byte.
    pub open spec fn reg16(self, reg: Reg16) -> u16 {
        match reg {
            Reg16::AF => word(self.a, self.f),
            Reg16::BC => word(self.b, self.c),
            Reg16::DE => word(self.d, self.e),
            Reg16::HL => word(self.h, self.l),
            Reg16::SP => self.sp,
        }
    }

    /// The register file with one 16-bit register replaced.
    pub open spec fn with_reg16(self, reg: Reg16, v: u16) -> Registers {
        match reg {
            Reg16::AF => Registers { a: high_byte(v), f: low_byte(v), ..self },
            Reg16::BC => Registers { b: high_byte(v), c: low_byte(v), ..self },
            Reg16::DE => Registers { d: high_byte(v), e: low_byte(v), ..self },
            Reg16::HL => Registers { h: high_byte(v), l: low_byte(v), ..self },
            Reg16::SP => Registers { sp: v, ..self },
        }
    }

    /// Whether a flag is set.
    pub open spec fn flag(self, flag: Flag) -> bool {
        self.f & flag_mask(flag) != 0
    }

    /// The register file with one flag set or cleared, the other bits of F kept.
    pub open spec fn with_flag(self, flag: Flag, v: bool) -> Registers {
        Registers {
            f: if v {
                self.f | flag_mask(flag)
            } else {
                self.f & !flag_mask(flag)
            },
            ..self
        }
    }

    /// The register file with the program counter replaced.
    pub open spec fn with_pc(self, pc: u16) -> Registers {
        Registers { pc: pc, ..self }
    }

    /// The register values right after the boot program has run: execution
    /// starts at 0x0100 with the stack at the top of high RAM.
    pub open spec fn post_boot() -> Registers {
        Registers {
            a: 0x01,
            f: 0xB0,
            b: 0x00,
            c: 0x13,
            d: 0x00,
            e: 0xD8,
            h: 0x01,
            l: 0x4D,
            sp: 0xFFFE,
            pc: 0x0100,
        }
    }

    /// The register file as the boot program leaves it.
    pub fn new() -> (r: Registers)
        ensures
            r == Registers::post_boot(),
    {
        Registers {
            a: 0x01,
            f: 0xB0,
            b: 0x00,
            c: 0x13,
            d: 0x00,
            e: 0xD8,
            h: 0x01,
            l: 0x4D,
            sp: 0xFFFE,
            pc: 0x0100,
        }
    }

    pub fn get_a(&self) -> (v: u8)
        ensures
            v == self.a,
    {
        self.a
    }

    pub fn get_b(&self) -> (v: u8)
        ensures
            v == self.b,
    {
        self.b
    }

    pub fn get_c(&self) -> (v: u8)
        ensures
            v == self.c,
    {
        self.c
    }

    pub fn get_d(&self) -> (v: u8)
        ensures
            v == self.d,
    {
        self.d
    }

    pub fn get_e(&self) -> (v: u8)
        ensures
            v == self.e,
    {
        self.e
    }

    pub fn get_h(&self) -> (v: u8)
        ensures
            v == self.h,
    {
        self.h
    }

    pub fn get_l(&self) -> (v: u8)
        ensures
            v == self.l,
    {
        self.l
    }

    pub fn set_a(&mut self, v: u8)
        ensures
            *final(self) == old(self).with_reg8(Reg8::A, v),
    {
        self.a = v;
    }

    pub fn set_b(&mut self, v: u8)
        ensures
            *final(self) == old(self).with_reg8(Reg8::B, v),
    {
        self.b = v;
    }

    pub fn set_c(&mut self, v: u8)
        ensures
            *final(self) == old(self).with_reg8(Reg8::C, v),
    {
        self.c = v;
    }

    pub fn set_d(&mut self, v: u8)
        ensures
            *final(self) == old(self).with_reg8(Reg8::D, v),
    {
        self.d = v;
    }

    pub fn set_e(&mut self, v: u8)
        ensures
            *final(self) == old(self).with_reg8(Reg8::E, v),
    {
        self.e = v;
    }

    pub fn set_h(&mut self, v: u8)
        ensures
            *final(self) == old(self).with_reg8(Reg8::H, v),
    {
        self.h = v;
    }

    pub fn set_l(&mut self, v: u8)
        ensures
            *final(self) == old(self).with_reg8(Reg8::L, v),
    {
        self.l = v;
    }

    pub fn get_af(&self) -> (v: u16)
        ensures
            v == self.reg16(Reg16::AF),
    {
        join_bytes(self.a, self.f)
    }

    pub fn get_bc(&self) -> (v: u16)
        ensures
            v == self.reg16(Reg16::BC),
    {
        join_bytes(self.b, self.c)
    }

    pub fn get_de(&self) -> (v: u16)
        ensures
            v == self.reg16(Reg16::DE),
    {
        join_bytes(self.d, self.e)
    }

    pub fn get_hl(&self) -> (v: u16)
        ensures
            v == self.reg16(Reg16::HL),
    {
        join_bytes(self.h, self.l)
    }

    pub fn set_hl(&mut self, v: u16)
        ensures
            *final(self) == old(self).with_reg16(Reg16::HL, v),
    {
        let (hi, lo) = split_word(v);
        self.h = hi;
        self.l = lo;
    }

    pub fn get_sp(&self) -> (v: u16)
        ensures
            v == self.sp,
    {
        self.sp
    }

    pub fn set_sp(&mut self, v: u16)
        ensures
            *final(self) == old(self).with_reg16(Reg16::SP, v),
    {
        self.sp = v;
    }

    pub fn get_pc(&self) -> (v: u16)
        ensures
            v == self.pc,
    {
        self.pc
    }

    pub fn set_pc(&mut self, v: u16)
        ensures
            *final(self) == old(self).with_pc(v),
    {
        self.pc = v;
    }

    /// Reads an 8-bit register.
    pub fn get_reg_8(&self, reg: Reg8) -> (v: u8)
        ensures
            v == self.reg8(reg),
    {
        match reg {
            Reg8::A => self.a,
            Reg8::B => self.b,
            Reg8::C => self.c,
            Reg8::D => self.d,
            Reg8::E => self.e,
            Reg8::H => self.h,
            Reg8::L => self.l,
        }
    }

    /// Writes an 8-bit register.
    pub fn set_reg_8(&mut self, reg: Reg8, v: u8)
        ensures
            *final(self) == old(self).with_reg8(reg, v),
    {
        match reg {
            Reg8::A => self.a = v,
            Reg8::B => self.b = v,
            Reg8::C => self.c = v,
            Reg8::D => self.d = v,
            Reg8::E => self.e = v,
            Reg8::H => self.h = v,
            Reg8::L => self.l = v,
        }
    }

    /// Reads a 16-bit register.
    pub fn get_reg_16(&self, reg: Reg16) -> (v: u16)
        ensures
            v == self.reg16(reg),
    {
        match reg {
            Reg16::AF => join_bytes(self.a, self.f),
            Reg16::BC => join_bytes(self.b, self.c),
            Reg16::DE => join_bytes(self.d, self.e),
            Reg16::HL => join_bytes(self.h, self.l),
            Reg16::SP => self.sp,
        }
    }

    /// Writes a 16-bit register.
    pub fn set_reg_16(&mut self, reg: Reg16, v: u16)
        ensures
            *final(self) == old(self).with_reg16(reg, v),
    {
        let (hi, lo) = split_word(v);
        match reg {
            Reg16::AF => {
                self.a = hi;
                self.f = lo;
            },
            Reg16::BC => {
                self.b = hi;
                self.c = lo;
            },
            Reg16::DE => {
                self.d = hi;
                self.e = lo;
            },
            Reg16::HL => {
                self.h = hi;
                self.l = lo;
            },
            Reg16::SP => self.sp = v,
        }
    }

    /// Reads a flag.
    pub fn get_flag(&self, flag: Flag) -> (v: bool)
        ensures
            v == self.flag(flag),
    {
        let mask: u8 = match flag {
            Flag::Z => 0x80,
            Flag::N => 0x40,
            Flag::H => 0x20,
            Flag::C => 0x10,
        };
        self.f & mask != 0
    }

    /// Sets or clears a flag.
    pub fn set_flag(&mut self, flag: Flag, v: bool)
        ensures
            *final(self) == old(self).with_flag(flag, v),
    {
        let mask: u8 = match flag {
            Flag::Z => 0x80,
            Flag::N => 0x40,
            Flag::H => 0x20,
            Flag::C => 0x10,
        };
        if v {
            self.f = self.f | mask;
        } else {
            self.f = self.f & !mask;
        }
    }
}

} // verus!
