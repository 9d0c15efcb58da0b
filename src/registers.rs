//! The register file: seven 8-bit registers, three 16-bit pair views composed
//! from them, and the flag register with its named bits.

use vstd::prelude::*;

verus! {

/// An 8-bit register selector.
#[derive(Clone, Copy, Debug, PartialEq, Eq, Structural)]
pub enum Reg8 {
    A,
    B,
    C,
    D,
    E,
    H,
    L,
}

/// A 16-bit register pair selector.
#[derive(Clone, Copy, Debug, PartialEq, Eq, Structural)]
pub enum Reg16 {
    BC,
    DE,
    HL,
}

/// A single bit of the flag register.
#[derive(Clone, Copy, Debug, PartialEq, Eq, Structural)]
pub enum Flag {
    /// Sign, bit 7.
    S,
    /// Zero, bit 6.
    Z,
    /// Undocumented copy of result bit 5.
    F5,
    /// Half-carry, bit 4.
    H,
    /// Undocumented copy of result bit 3.
    F3,
    /// Parity/Overflow, bit 2.
    P,
    /// Subtract, bit 1.
    N,
    /// Carry, bit 0.
    C,
}

impl Reg8 {
    /// The register's assembly name.
    pub open spec fn spec_text(self) -> Seq<char> {
        match self {
            Reg8::A => "A"@,
            Reg8::B => "B"@,
            Reg8::C => "C"@,
            Reg8::D => "D"@,
            Reg8::E => "E"@,
            Reg8::H => "H"@,
            Reg8::L => "L"@,
        }
    }

    pub fn text(&self) -> (t: &'static str)
        ensures
            t@ == self.spec_text(),
    {
        match self {
            Reg8::A => "A",
            Reg8::B => "B",
            Reg8::C => "C",
            Reg8::D => "D",
            Reg8::E => "E",
            Reg8::H => "H",
            Reg8::L => "L",
        }
    }
}

impl Reg16 {
    /// The pair's assembly name.
    pub open spec fn spec_text(self) -> Seq<char> {
        match self {
            Reg16::BC => "BC"@,
            Reg16::DE => "DE"@,
            Reg16::HL => "HL"@,
        }
    }

    pub fn text(&self) -> (t: &'static str)
        ensures
            t@ == self.spec_text(),
    {
        match self {
            Reg16::BC => "BC",
            Reg16::DE => "DE",
            Reg16::HL => "HL",
        }
    }

    /// The register holding the more significant byte of the pair.
    pub open spec fn high(self) -> Reg8 {
        match self {
            Reg16::BC => Reg8::B,
            Reg16::DE => Reg8::D,
            Reg16::HL => Reg8::H,
        }
    }

    /// The register holding the less significant byte of the pair.
    pub open spec fn low(self) -> Reg8 {
        match self {
            Reg16::BC => Reg8::C,
            Reg16::DE => Reg8::E,
            Reg16::HL => Reg8::L,
        }
    }

    pub fn high_reg(&self) -> (r: Reg8)
        ensures
            r == self.high(),
    {
        match self {
            Reg16::BC => Reg8::B,
            Reg16::DE => Reg8::D,
            Reg16::HL => Reg8::H,
        }
    }

    pub fn low_reg(&self) -> (r: Reg8)
        ensures
            r == self.low(),
    {
        match self {
            Reg16::BC => Reg8::C,
            Reg16::DE => Reg8::E,
            Reg16::HL => Reg8::L,
        }
    }
}

impl Flag {
    /// Bit position of the flag within the flag register.
    pub open spec fn spec_bit(self) -> u8 {
        match self {
            Flag::S => 7,
            Flag::Z => 6,
            Flag::F5 => 5,
            Flag::H => 4,
            Flag::F3 => 3,
            Flag::P => 2,
            Flag::N => 1,
            Flag::C => 0,
        }
    }

    pub fn bit(&self) -> (r: u8)
        ensures
            r == self.spec_bit(),
            r < 8,
    {
        match self {
            Flag::S => 7,
            Flag::Z => 6,
            Flag::F5 => 5,
            Flag::H => 4,
            Flag::F3 => 3,
            Flag::P => 2,
            Flag::N => 1,
            Flag::C => 0,
        }
    }
}

/// Mask of the flag bits that `update_sz53_flags` leaves alone: H, P, N and C.
pub const KEEP_HPNC: u8 = 0x17;

/// Mask of the result bits copied into the flag register: 7, 5 and 3.
pub const COPY_S53: u8 = 0xA8;

/// Zero flag mask.
pub const ZERO_MASK: u8 = 0x40;

/// The CPU-visible registers. A pair has no storage of its own: it is read
/// and written through its two 8-bit halves.
#[derive(Clone, Copy, Debug, PartialEq, Eq, Structural)]
pub struct Registers {
    pub a: u8,
    pub b: u8,
    pub c: u8,
    pub d: u8,
    pub e: u8,
    pub h: u8,
    pub l: u8,
    /// The flag register.
    pub f: u8,
}

/// Whether bit `i` of `x` is set.
pub open spec fn bit_set(x: u8, i: u8) -> bool {
    (x >> i) & 1 == 1
}

impl Registers {
    pub open spec fn spec_get8(self, r: Reg8) -> u8 {
        match r {
            Reg8::A => self.a,
            Reg8::B => self.b,
            Reg8::C => self.c,
            Reg8::D => self.d,
            Reg8::E => self.e,
            Reg8::H => self.h,
            Reg8::L => self.l,
        }
    }

    /// The registers with `r` replaced by `v` and everything else kept.
    pub open spec fn with8(self, r: Reg8, v: u8) -> Registers {
        match r {
            Reg8::A => Registers { a: v, ..self },
            Reg8::B => Registers { b: v, ..self },
            Reg8::C => Registers { c: v, ..self },
            Reg8::D => Registers { d: v, ..self },
            Reg8::E => Registers { e: v, ..self },
            Reg8::H => Registers { h: v, ..self },
            Reg8::L => Registers { l: v, ..self },
        }
    }

    /// A pair's value: the high register is the more significant byte.
    pub open spec fn spec_get16(self, rr: Reg16) -> u16 {
        ((self.spec_get8(rr.high()) as int) * 256 + (self.spec_get8(rr.low()) as int)) as u16
    }

    pub open spec fn with16(self, rr: Reg16, v: u16) -> Registers {
        self.with8(rr.high(), (v / 256) as u8).with8(rr.low(), (v % 256) as u8)
    }

    pub open spec fn flag(self, fl: Flag) -> bool {
        bit_set(self.f, fl.spec_bit())
    }

    /// The registers with flag `fl` set to `b` and everything else kept.
    pub open spec fn with_flag(self, fl: Flag, b: bool) -> Registers {
        Registers {
            f: if b {
                self.f | (1u8 << fl.spec_bit())
            } else {
                self.f & !(1u8 << fl.spec_bit())
            },
            ..self
        }
    }

    /// The flag register after Sign, Zero, bit 5 and bit 3 are taken from `v`.
    pub open spec fn with_sz53(self, v: u8) -> Registers {
        Registers {
            f: (self.f & KEEP_HPNC) | (v & COPY_S53) | (if v == 0 { ZERO_MASK } else { 0 }),
            ..self
        }
    }

    /// All registers and all flags cleared.
    pub fn new() -> (r: Registers)
        ensures
            r == (Registers { a: 0, b: 0, c: 0, d: 0, e: 0, h: 0, l: 0, f: 0 }),
    {
        Registers { a: 0, b: 0, c: 0, d: 0, e: 0, h: 0, l: 0, f: 0 }
    }

    pub fn get8(&self, r: Reg8) -> (v: u8)
        ensures
            v == self.spec_get8(r),
    {
        match r {
            Reg8::A => self.a,
            Reg8::B => self.b,
            Reg8::C => self.c,
            Reg8::D => self.d,
            Reg8::E => self.e,
            Reg8::H => self.h,
            Reg8::L => self.l,
        }
    }

    pub fn set8(&mut self, r: Reg8, v: u8)
        ensures
            *final(self) == old(self).with8(r, v),
    {
        match r {
            Reg8::A => self.a = v,
            Reg8::B => self.b = v,
            Reg8::C => self.c = v,
            Reg8::D => self.d = v,
            Reg8::E => self.e = v,
            Reg8::H => self.h = v,
            Reg8::L => self.l = v,
        }
    }

    pub fn get16(&self, rr: Reg16) -> (v: u16)
        ensures
            v == self.spec_get16(rr),
    {
        let hi = self.get8(rr.high_reg());
        let lo = self.get8(rr.low_reg());
        (hi as u16) * 256 + (lo as u16)
    }

    pub fn set16(&mut self, rr: Reg16, v: u16)
        ensures
            *final(self) == old(self).with16(rr, v),
    {
        self.set8(rr.high_reg(), (v / 256) as u8);
        self.set8(rr.low_reg(), (v % 256) as u8);
    }

    pub fn get_flag(&self, fl: Flag) -> (b: bool)
        ensures
            b == self.flag(fl),
    {
        (self.f >> fl.bit()) & 1 == 1
    }

    pub fn put_flag(&mut self, fl: Flag, b: bool)
        ensures
            *final(self) == old(self).with_flag(fl, b),
    {
        let mask: u8 = 1u8 << fl.bit();
        if b {
            self.f = self.f | mask;
        } else {
            self.f = self.f & !mask;
        }
    }

    pub fn set_flag(&mut self, fl: Flag)
        ensures
            *final(self) == old(self).with_flag(fl, true),
    {
        self.put_flag(fl, true);
    }

    pub fn clear_flag(&mut self, fl: Flag)
        ensures
            *final(self) == old(self).with_flag(fl, false),
    {
        self.put_flag(fl, false);
    }

    /// Sign from bit 7 of `v`, Zero from `v == 0`, and flag bits 5 and 3
    /// copied from the same bits of `v`; H, P, N and C are kept.
    pub fn update_sz53_flags(&mut self, v: u8)
        ensures
            *final(self) == old(self).with_sz53(v),
    {
        let z: u8 = if v == 0 { ZERO_MASK } else { 0 };
        self.f = (self.f & KEEP_HPNC) | (v & COPY_S53) | z;
    }
}

/// Setting or clearing one flag changes that flag alone, and no 8-bit register.
pub proof fn lemma_with_flag(r: Registers, fl: Flag, b: bool)
    ensures
        forall|g: Flag| #[trigger] r.with_flag(fl, b).flag(g) == if g == fl { b } else { r.flag(g) },
        forall|s: Reg8| #[trigger] r.with_flag(fl, b).spec_get8(s) == r.spec_get8(s),
{
    assert(forall|x: u8, i: u8, j: u8|
        i < 8 && j < 8 ==> #[trigger] bit_set(x | (1u8 << i), j) == (i == j || bit_set(x, j)))
        by (bit_vector);
    assert(forall|x: u8, i: u8, j: u8|
        i < 8 && j < 8 ==> #[trigger] bit_set(x & !(1u8 << i), j) == (i != j && bit_set(x, j)))
        by (bit_vector);
    assert forall|g: Flag| #[trigger] r.with_flag(fl, b).flag(g) == if g == fl { b } else { r.flag(g) } by {
        assert(g != fl ==> g.spec_bit() != fl.spec_bit());
    }
}

/// The composite update takes Sign, Zero, bit 5 and bit 3 from `v` and keeps
/// Half-carry, Parity/Overflow, Subtract and Carry.
pub proof fn lemma_with_sz53(r: Registers, v: u8)
    ensures
        r.with_sz53(v).flag(Flag::S) == (v >= 0x80),
        r.with_sz53(v).flag(Flag::Z) == (v == 0),
        r.with_sz53(v).flag(Flag::F5) == bit_set(v, 5),
        r.with_sz53(v).flag(Flag::F3) == bit_set(v, 3),
        r.with_sz53(v).flag(Flag::H) == r.flag(Flag::H),
        r.with_sz53(v).flag(Flag::P) == r.flag(Flag::P),
        r.with_sz53(v).flag(Flag::N) == r.flag(Flag::N),
        r.with_sz53(v).flag(Flag::C) == r.flag(Flag::C),
        forall|s: Reg8| #[trigger] r.with_sz53(v).spec_get8(s) == r.spec_get8(s),
{
    let f = r.f;
    let n = (f & KEEP_HPNC) | (v & COPY_S53) | (if v == 0 { ZERO_MASK } else { 0 });
    assert(n == r.with_sz53(v).f);
    assert(bit_set(n, 7) == (v >= 0x80) && bit_set(n, 6) == (v == 0)
        && bit_set(n, 5) == bit_set(v, 5) && bit_set(n, 3) == bit_set(v, 3)
        && bit_set(n, 4) == bit_set(f, 4) && bit_set(n, 2) == bit_set(f, 2)
        && bit_set(n, 1) == bit_set(f, 1) && bit_set(n, 0) == bit_set(f, 0)) by (bit_vector)
        requires
            n == (f & 0x17) | (v & 0xA8) | (if v == 0 { 0x40u8 } else { 0u8 }),
    ;
}

/// A pair reads back what was written to it.
pub proof fn lemma_get16_with16(r: Registers, rr: Reg16, v: u16)
    ensures
        r.with16(rr, v).spec_get16(rr) == v,
{
}

} // verus!
