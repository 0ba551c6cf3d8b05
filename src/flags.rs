use vstd::prelude::*;

verus! {

/// Number of set bits in a byte.
pub open spec fn popcount(n: u8) -> nat
    decreases n,
{
    if n == 0 {
        0
    } else {
        (n % 2) as nat + popcount(n / 2)
    }
}

/// Even parity: the byte has an even number of set bits.
pub open spec fn even_parity(n: u8) -> bool {
    popcount(n) % 2 == 0
}

/// True when the byte has an even number of set bits.
pub fn parity(n: u8) -> (r: bool)
    ensures
        r == even_parity(n),
{
    let mut x: u8 = n;
    let mut odd: bool = false;
    while x != 0
        invariant
            (popcount(x) % 2 == 0) == (odd == (popcount(n) % 2 == 1)),
        decreases x,
    {
        if x % 2 == 1 {
            odd = !odd;
        }
        x = x / 2;
    }
    !odd
}

/// The condition flags: zero, sign, parity, carry and auxiliary carry
/// (carry out of bit 3).
#[derive(Clone, Copy, PartialEq, Eq, Structural, Debug)]
pub struct Flags {
    pub z: bool,
    pub s: bool,
    pub p: bool,
    pub cy: bool,
    pub ac: bool,
}

/// The flags that an 8-bit result `v` sets, with the given carry and auxiliary carry.
pub open spec fn flags_of(v: u8, cy: bool, ac: bool) -> Flags {
    Flags { z: v == 0, s: v >= 128, p: even_parity(v), cy, ac }
}

/// A flag as the integer 0 or 1.
pub open spec fn bit(b: bool) -> int {
    if b {
        1
    } else {
        0
    }
}

/// `a + b + carry-in`, truncated to 8 bits, with the flags it sets.
pub open spec fn add_spec(a: u8, b: u8, cin: bool) -> (u8, Flags) {
    let sum = a as int + b as int + bit(cin);
    let v = (sum % 256) as u8;
    (v, flags_of(v, sum > 255, (a % 16) as int + (b % 16) as int + bit(cin) > 15))
}

/// `a - b - borrow-in`, modulo 256, with the flags it sets: carry is the borrow,
/// and the auxiliary carry is the carry out of bit 3 of `a + !b + !borrow-in`.
pub open spec fn sub_spec(a: u8, b: u8, bin: bool) -> (u8, Flags) {
    let diff = a as int - b as int - bit(bin);
    let v = ((diff + 256) % 256) as u8;
    (v, flags_of(v, diff < 0, (a % 16) as int + (15 - (b % 16) as int) + (1 - bit(bin)) > 15))
}

/// The byte that PUSH PSW stores for the flags: S Z 0 AC 0 P 1 CY, high bit first.
pub open spec fn psw_byte(f: Flags) -> u8 {
    (bit(f.s) * 128 + bit(f.z) * 64 + bit(f.ac) * 16 + bit(f.p) * 4 + 2 + bit(f.cy)) as u8
}

/// The flags that POP PSW takes from a byte.
pub open spec fn flags_of_psw(b: u8) -> Flags {
    Flags {
        s: (b / 128) % 2 == 1,
        z: (b / 64) % 2 == 1,
        ac: (b / 16) % 2 == 1,
        p: (b / 4) % 2 == 1,
        cy: b % 2 == 1,
    }
}

impl Flags {
    /// All flags clear.
    pub fn new() -> (f: Flags)
        ensures
            f == (Flags { z: false, s: false, p: false, cy: false, ac: false }),
    {
        Flags { z: false, s: false, p: false, cy: false, ac: false }
    }

    /// The flags of a result that may have carried into bit 8, with no auxiliary carry.
    pub fn get(result: u16) -> (f: Flags)
        ensures
            f == flags_of((result % 256) as u8, result > 255, false),
    {
        Flags::of((result % 256) as u8, result > 0xFF, false)
    }

    /// The flags that an 8-bit result sets, with the given carry and auxiliary carry.
    pub fn of(v: u8, cy: bool, ac: bool) -> (f: Flags)
        ensures
            f == flags_of(v, cy, ac),
    {
        Flags { z: v == 0, s: v >= 0x80, p: parity(v), cy, ac }
    }

    /// The flags packed into the PSW byte.
    pub fn to_psw(&self) -> (b: u8)
        ensures
            b == psw_byte(*self),
    {
        let mut b: u8 = 2;
        if self.s {
            b = b + 128;
        }
        if self.z {
            b = b + 64;
        }
        if self.ac {
            b = b + 16;
        }
        if self.p {
            b = b + 4;
        }
        if self.cy {
            b = b + 1;
        }
        b
    }

    /// The flags unpacked from a PSW byte.
    pub fn from_psw(b: u8) -> (f: Flags)
        ensures
            f == flags_of_psw(b),
    {
        Flags {
            s: (b / 128) % 2 == 1,
            z: (b / 64) % 2 == 1,
            ac: (b / 16) % 2 == 1,
            p: (b / 4) % 2 == 1,
            cy: b % 2 == 1,
        }
    }
}

/// Packing the flags into the PSW byte and unpacking it gives them back.
pub proof fn lemma_psw_round_trip(f: Flags)
    ensures
        flags_of_psw(psw_byte(f)) == f,
{
    let b = psw_byte(f);
    assert(b as int == bit(f.s) * 128 + bit(f.z) * 64 + bit(f.ac) * 16 + bit(f.p) * 4 + 2 + bit(
        f.cy,
    ));
}

/// 8-bit addition with carry-in, and the flags it sets.
pub fn add8(a: u8, b: u8, cin: bool) -> (r: (u8, Flags))
    ensures
        r == add_spec(a, b, cin),
{
    let c: u16 = if cin { 1 } else { 0 };
    let sum: u16 = a as u16 + b as u16 + c;
    let mut f = Flags::get(sum);
    f.ac = (a % 16) as u16 + (b % 16) as u16 + c > 15;
    ((sum % 256) as u8, f)
}

/// 8-bit subtraction with borrow-in, and the flags it sets.
pub fn sub8(a: u8, b: u8, bin: bool) -> (r: (u8, Flags))
    ensures
        r == sub_spec(a, b, bin),
{
    let c: u16 = if bin { 1 } else { 0 };
    let borrow = (a as u16) < b as u16 + c;
    let v: u8 = ((a as u16 + 256 - b as u16 - c) % 256) as u8;
    let ac = (a % 16) as u16 + (15 - b % 16) as u16 + (1 - c) > 15;
    (v, Flags::of(v, borrow, ac))
}

} // verus!
