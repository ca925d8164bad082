use vstd::prelude::*;

verus! {

/// The four condition flags, kept in bits 7..4 of the F register.
#[derive(Clone, Copy, Debug, PartialEq, Eq, Structural)]
pub struct FlagsRegister {
    pub zero: bool,
    pub subtract: bool,
    pub half_carry: bool,
    pub carry: bool,
}

/// The byte that F reads as: Zero in bit 7, Subtract in 6, Half-Carry in 5,
/// Carry in 4, and the low nibble always clear.
pub open spec fn flags_to_byte(f: FlagsRegister) -> u8 {
    ((if f.zero { 0x80u8 } else { 0u8 }) | (if f.subtract { 0x40u8 } else { 0u8 }) | (if f.half_carry {
        0x20u8
    } else {
        0u8
    }) | (if f.carry { 0x10u8 } else { 0u8 })) as u8
}

/// The flags that a raw F byte holds; bits 3..0 are ignored.
pub open spec fn flags_from_byte(b: u8) -> FlagsRegister {
    FlagsRegister {
        zero: b & 0x80u8 != 0,
        subtract: b & 0x40u8 != 0,
        half_carry: b & 0x20u8 != 0,
        carry: b & 0x10u8 != 0,
    }
}

/// A 16-bit pair: the first register is the high byte.
pub open spec fn pair(hi: u8, lo: u8) -> u16 {
    (hi as int * 256 + lo as int) as u16
}

pub open spec fn high_byte(v: u16) -> u8 {
    (v as int / 256) as u8
}

pub open spec fn low_byte(v: u16) -> u8 {
    (v as int % 256) as u8
}

pub proof fn lemma_pair_split(v: u16)
    ensures
        pair(high_byte(v), low_byte(v)) == v,
        high_byte(pair(high_byte(v), low_byte(v))) == high_byte(v),
{
}

pub proof fn lemma_split_pair(hi: u8, lo: u8)
    ensures
        high_byte(pair(hi, lo)) == hi,
        low_byte(pair(hi, lo)) == lo,
{
}

impl FlagsRegister {
    pub fn new() -> (r: FlagsRegister)
        ensures
            r == flags_from_byte(0),
    {
        proof {
            assert(0u8 & 0x80u8 == 0 && 0u8 & 0x40u8 == 0 && 0u8 & 0x20u8 == 0 && 0u8 & 0x10u8 == 0)
                by (bit_vector);
        }
        FlagsRegister { zero: false, subtract: false, half_carry: false, carry: false }
    }

    pub fn to_byte(&self) -> (r: u8)
        ensures
            r == flags_to_byte(*self),
    {
        let z: u8 = if self.zero { 0x80 } else { 0 };
        let n: u8 = if self.subtract { 0x40 } else { 0 };
        let h: u8 = if self.half_carry { 0x20 } else { 0 };
        let c: u8 = if self.carry { 0x10 } else { 0 };
        z | n | h | c
    }

    pub fn from_byte(b: u8) -> (r: FlagsRegister)
        ensures
            r == flags_from_byte(b),
    {
        FlagsRegister {
            zero: b & 0x80 != 0,
            subtract: b & 0x40 != 0,
            half_carry: b & 0x20 != 0,
            carry: b & 0x10 != 0,
        }
    }
}

/// Packing the four flags into a byte and reading them back gives the same
/// flags, and the packed byte never has a bit of its low nibble set.
pub proof fn lemma_flags_round_trip(f: FlagsRegister)
    ensures
        flags_from_byte(flags_to_byte(f)) == f,
        flags_to_byte(f) & 0x0Fu8 == 0,
{
    let b = flags_to_byte(f);
    let (z, n, h, c) = (f.zero, f.subtract, f.half_carry, f.carry);
    assert(b & 0x80u8 != 0 <==> z) by (bit_vector)
        requires
            b == ((if z { 0x80u8 } else { 0u8 }) | (if n { 0x40u8 } else { 0u8 }) | (if h {
                0x20u8
            } else {
                0u8
            }) | (if c { 0x10u8 } else { 0u8 })),
    ;
    assert(b & 0x40u8 != 0 <==> n) by (bit_vector)
        requires
            b == ((if z { 0x80u8 } else { 0u8 }) | (if n { 0x40u8 } else { 0u8 }) | (if h {
                0x20u8
            } else {
                0u8
            }) | (if c { 0x10u8 } else { 0u8 })),
    ;
    assert(b & 0x20u8 != 0 <==> h) by (bit_vector)
        requires
            b == ((if z { 0x80u8 } else { 0u8 }) | (if n { 0x40u8 } else { 0u8 }) | (if h {
                0x20u8
            } else {
                0u8
            }) | (if c { 0x10u8 } else { 0u8 })),
    ;
    assert(b & 0x10u8 != 0 <==> c) by (bit_vector)
        requires
            b == ((if z { 0x80u8 } else { 0u8 }) | (if n { 0x40u8 } else { 0u8 }) | (if h {
                0x20u8
            } else {
                0u8
            }) | (if c { 0x10u8 } else { 0u8 })),
    ;
    assert(b & 0x0Fu8 == 0) by (bit_vector)
        requires
            b == ((if z { 0x80u8 } else { 0u8 }) | (if n { 0x40u8 } else { 0u8 }) | (if h {
                0x20u8
            } else {
                0u8
            }) | (if c { 0x10u8 } else { 0u8 })),
    ;
}

/// Reading a raw F byte and packing it again keeps bits 7..4 and clears 3..0.
pub proof fn lemma_flags_mask(b: u8)
    ensures
        flags_to_byte(flags_from_byte(b)) == b & 0xF0u8,
{
    let f = flags_from_byte(b);
    assert(((if b & 0x80u8 != 0 { 0x80u8 } else { 0u8 }) | (if b & 0x40u8 != 0 {
        0x40u8
    } else {
        0u8
    }) | (if b & 0x20u8 != 0 { 0x20u8 } else { 0u8 }) | (if b & 0x10u8 != 0 {
        0x10u8
    } else {
        0u8
    })) == b & 0xF0u8) by (bit_vector);
}

/// The register file: seven 8-bit registers and the flags.
#[derive(Clone, Copy, Debug, PartialEq, Eq, Structural)]
pub struct Registers {
    pub a: u8,
    pub b: u8,
    pub c: u8,
    pub d: u8,
    pub e: u8,
    pub flags: FlagsRegister,
    pub h: u8,
    pub l: u8,
}

/// What AF reads as for a given register file.
pub open spec fn af_of(r: Registers) -> u16 {
    pair(r.a, flags_to_byte(r.flags))
}

/// The register file after AF is set from `v`.
pub open spec fn with_af(r: Registers, v: u16) -> Registers {
    Registers { a: high_byte(v), flags: flags_from_byte(low_byte(v)), ..r }
}

/// The register file at power-on: every register and flag clear.
pub open spec fn initial_registers() -> Registers {
    Registers { a: 0, b: 0, c: 0, d: 0, e: 0, flags: flags_from_byte(0), h: 0, l: 0 }
}

impl Registers {
    pub fn new() -> (r: Registers)
        ensures
            r == initial_registers(),
    {
        Registers { a: 0, b: 0, c: 0, d: 0, e: 0, flags: FlagsRegister::new(), h: 0, l: 0 }
    }

    pub fn get_af(&self) -> (r: u16)
        ensures
            r == af_of(*self),
    {
        (self.a as u16) * 256 + (self.flags.to_byte() as u16)
    }

    pub fn set_af(&mut self, v: u16)
        ensures
            *final(self) == with_af(*old(self), v),
    {
        self.a = (v / 256) as u8;
        self.flags = FlagsRegister::from_byte((v % 256) as u8);
    }

    pub fn get_bc(&self) -> (r: u16)
        ensures
            r == pair(self.b, self.c),
    {
        (self.b as u16) * 256 + (self.c as u16)
    }

    pub fn set_bc(&mut self, v: u16)
        ensures
            *final(self) == (Registers { b: high_byte(v), c: low_byte(v), ..*old(self) }),
    {
        self.b = (v / 256) as u8;
        self.c = (v % 256) as u8;
    }

    pub fn get_de(&self) -> (r: u16)
        ensures
            r == pair(self.d, self.e),
    {
        (self.d as u16) * 256 + (self.e as u16)
    }

    pub fn set_de(&mut self, v: u16)
        ensures
            *final(self) == (Registers { d: high_byte(v), e: low_byte(v), ..*old(self) }),
    {
        self.d = (v / 256) as u8;
        self.e = (v % 256) as u8;
    }

    pub fn get_hl(&self) -> (r: u16)
        ensures
            r == pair(self.h, self.l),
    {
        (self.h as u16) * 256 + (self.l as u16)
    }

    pub fn set_hl(&mut self, v: u16)
        ensures
            *final(self) == (Registers { h: high_byte(v), l: low_byte(v), ..*old(self) }),
    {
        self.h = (v / 256) as u8;
        self.l = (v % 256) as u8;
    }
}

/// Setting AF from the value that a register file's AF reads as, and reading
/// AF again, gives back A and the same four flags; the flags byte of AF never
/// has a bit of its low nibble set, whatever AF was set from.
pub proof fn lemma_af_round_trip(r: Registers, v: u16)
    ensures
        with_af(r, af_of(r)).a == r.a,
        with_af(r, af_of(r)).flags == r.flags,
        af_of(with_af(r, af_of(r))) == af_of(r),
        af_of(r) & 0x000Fu16 == 0,
        af_of(with_af(r, v)) == v & 0xFFF0u16,
{
    lemma_flags_round_trip(r.flags);
    lemma_split_pair(r.a, flags_to_byte(r.flags));
    let fb = flags_to_byte(r.flags);
    let a = r.a;
    assert(fb % 16 == 0) by (bit_vector)
        requires
            fb & 0x0Fu8 == 0,
    ;
    let x = af_of(r);
    assert(x == a * 256 + fb);
    assert(x % 16 == 0) by (nonlinear_arith)
        requires
            x == a * 256 + fb,
            fb % 16 == 0,
    ;
    assert(x & 0x000Fu16 == 0) by (bit_vector)
        requires
            x % 16 == 0,
    ;
    let lo = low_byte(v);
    let hi = high_byte(v);
    lemma_flags_mask(lo);
    assert(lo & 0xF0u8 == lo - lo % 16) by (bit_vector);
    assert(v & 0xFFF0u16 == v - v % 16) by (bit_vector);
    assert(v == hi * 256 + lo);
    assert(v % 16 == lo % 16) by (nonlinear_arith)
        requires
            v == hi * 256 + lo,
    ;
}

} // verus!
