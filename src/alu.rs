use vstd::prelude::*;

verus! {

/// The four condition flags of the processor (bits 7..4 of register F).
#[derive(Clone, Copy, PartialEq, Eq, Debug, Structural)]
pub struct Flags {
    /// Zero
    pub z: bool,
    /// Subtract
    pub n: bool,
    /// Half carry
    pub h: bool,
    /// Carry
    pub c: bool,
}

pub open spec fn b2n(b: bool) -> int {
    if b {
        1
    } else {
        0
    }
}

/// The F register byte holding the given flags; its low nibble is zero.
pub open spec fn flags_to_byte(f: Flags) -> u8 {
    (128 * b2n(f.z) + 64 * b2n(f.n) + 32 * b2n(f.h) + 16 * b2n(f.c)) as u8
}

/// The flags stored in an F register byte.
pub open spec fn flags_of_byte(b: u8) -> Flags {
    Flags {
        z: (b / 128) % 2 == 1,
        n: (b / 64) % 2 == 1,
        h: (b / 32) % 2 == 1,
        c: (b / 16) % 2 == 1,
    }
}

impl Flags {
    /// The F register byte for these flags.
    pub fn to_byte(&self) -> (r: u8)
        ensures
            r == flags_to_byte(*self),
            r % 16 == 0,
    {
        let mut r: u8 = 0;
        if self.z {
            r = r + 128;
        }
        if self.n {
            r = r + 64;
        }
        if self.h {
            r = r + 32;
        }
        if self.c {
            r = r + 16;
        }
        r
    }

    /// The flags held in an F register byte; the low nibble is ignored.
    pub fn from_byte(b: u8) -> (r: Flags)
        ensures
            r == flags_of_byte(b),
    {
        Flags { z: (b / 128) % 2 == 1, n: (b / 64) % 2 == 1, h: (b / 32) % 2 == 1, c: (b / 16) % 2 == 1 }
    }
}

/// 8-bit addition with optional carry in: (result, flags).
pub open spec fn add8_spec(a: u8, b: u8, cin: bool) -> (u8, Flags) {
    let r = a + b + b2n(cin);
    (
        (r % 256) as u8,
        Flags { z: r % 256 == 0, n: false, h: a % 16 + b % 16 + b2n(cin) > 15, c: r > 255 },
    )
}

/// 8-bit subtraction with optional borrow in: (result, flags).
pub open spec fn sub8_spec(a: u8, b: u8, cin: bool) -> (u8, Flags) {
    let r = a - b - b2n(cin);
    (
        ((r + 512) % 256) as u8,
        Flags { z: (r + 512) % 256 == 0, n: true, h: a % 16 < b % 16 + b2n(cin), c: a < b + b2n(cin) },
    )
}

pub fn add8(a: u8, b: u8, cin: bool) -> (r: (u8, Flags))
    ensures
        r == add8_spec(a, b, cin),
{
    let c: u16 = if cin {
        1
    } else {
        0
    };
    let sum: u16 = a as u16 + b as u16 + c;
    let half: u16 = (a % 16) as u16 + (b % 16) as u16 + c;
    ((sum % 256) as u8, Flags { z: sum % 256 == 0, n: false, h: half > 15, c: sum > 255 })
}

pub fn sub8(a: u8, b: u8, cin: bool) -> (r: (u8, Flags))
    ensures
        r == sub8_spec(a, b, cin),
{
    let c: i16 = if cin {
        1
    } else {
        0
    };
    let diff: i16 = a as i16 - b as i16 - c;
    let res: i16 = (diff + 512) % 256;
    let half: i16 = (a % 16) as i16 - (b % 16) as i16 - c;
    (res as u8, Flags { z: res == 0, n: true, h: half < 0, c: diff < 0 })
}

/// INC r8: the carry flag is kept.
pub open spec fn inc8_spec(x: u8, f: Flags) -> (u8, Flags) {
    let r = ((x + 1) % 256) as u8;
    (r, Flags { z: r == 0, n: false, h: x % 16 == 15, c: f.c })
}

/// DEC r8: the carry flag is kept.
pub open spec fn dec8_spec(x: u8, f: Flags) -> (u8, Flags) {
    let r = ((x + 255) % 256) as u8;
    (r, Flags { z: r == 0, n: true, h: x % 16 == 0, c: f.c })
}

pub fn inc8(x: u8, f: Flags) -> (r: (u8, Flags))
    ensures
        r == inc8_spec(x, f),
{
    let r: u8 = if x == 255 {
        0
    } else {
        x + 1
    };
    (r, Flags { z: r == 0, n: false, h: x % 16 == 15, c: f.c })
}

pub fn dec8(x: u8, f: Flags) -> (r: (u8, Flags))
    ensures
        r == dec8_spec(x, f),
{
    let r: u8 = if x == 0 {
        255
    } else {
        x - 1
    };
    (r, Flags { z: r == 0, n: true, h: x % 16 == 0, c: f.c })
}

/// The eight operations of the 8-bit arithmetic/logic unit on A.
#[derive(Clone, Copy, PartialEq, Eq, Debug, Structural)]
pub enum AluOp {
    Add,
    Adc,
    Sub,
    Sbc,
    And,
    Xor,
    Or,
    Cp,
}

/// Result and flags of `op` applied to A = `a` and operand `v` with flags `f`.
/// For CP the result is A itself: only the flags change.
pub open spec fn alu_spec(op: AluOp, a: u8, v: u8, f: Flags) -> (u8, Flags) {
    match op {
        AluOp::Add => add8_spec(a, v, false),
        AluOp::Adc => add8_spec(a, v, f.c),
        AluOp::Sub => sub8_spec(a, v, false),
        AluOp::Sbc => sub8_spec(a, v, f.c),
        AluOp::And => ((a & v), Flags { z: (a & v) == 0, n: false, h: true, c: false }),
        AluOp::Xor => ((a ^ v), Flags { z: (a ^ v) == 0, n: false, h: false, c: false }),
        AluOp::Or => ((a | v), Flags { z: (a | v) == 0, n: false, h: false, c: false }),
        AluOp::Cp => (a, sub8_spec(a, v, false).1),
    }
}

pub fn alu(op: AluOp, a: u8, v: u8, f: Flags) -> (r: (u8, Flags))
    ensures
        r == alu_spec(op, a, v, f),
{
    match op {
        AluOp::Add => add8(a, v, false),
        AluOp::Adc => add8(a, v, f.c),
        AluOp::Sub => sub8(a, v, false),
        AluOp::Sbc => sub8(a, v, f.c),
        AluOp::And => {
            let r = a & v;
            (r, Flags { z: r == 0, n: false, h: true, c: false })
        },
        AluOp::Xor => {
            let r = a ^ v;
            (r, Flags { z: r == 0, n: false, h: false, c: false })
        },
        AluOp::Or => {
            let r = a | v;
            (r, Flags { z: r == 0, n: false, h: false, c: false })
        },
        AluOp::Cp => {
            let (_, fl) = sub8(a, v, false);
            (a, fl)
        },
    }
}

/// The rotate/shift/swap operations of the 0xCB-prefixed table.
#[derive(Clone, Copy, PartialEq, Eq, Debug, Structural)]
pub enum ShiftOp {
    Rlc,
    Rrc,
    Rl,
    Rr,
    Sla,
    Sra,
    Swap,
    Srl,
}

/// The byte produced by a rotate/shift/swap, given the carry flag before.
pub open spec fn shift_value(op: ShiftOp, x: u8, cin: bool) -> u8 {
    (match op {
        ShiftOp::Rlc => (2 * x) % 256 + x / 128,
        ShiftOp::Rrc => x / 2 + 128 * (x % 2),
        ShiftOp::Rl => (2 * x) % 256 + b2n(cin),
        ShiftOp::Rr => x / 2 + 128 * b2n(cin),
        ShiftOp::Sla => (2 * x) % 256,
        ShiftOp::Sra => x / 2 + 128 * (x / 128),
        ShiftOp::Swap => 16 * (x % 16) + x / 16,
        ShiftOp::Srl => x / 2 + 0int,
    }) as u8
}

/// The bit shifted or rotated out, which becomes the carry flag.
pub open spec fn shift_carry(op: ShiftOp, x: u8) -> bool {
    match op {
        ShiftOp::Rlc | ShiftOp::Rl | ShiftOp::Sla => x >= 128,
        ShiftOp::Rrc | ShiftOp::Rr | ShiftOp::Sra | ShiftOp::Srl => x % 2 == 1,
        ShiftOp::Swap => false,
    }
}

/// Result and flags of a 0xCB rotate/shift/swap: Z = (result == 0), N = H = 0, C = bit out.
pub open spec fn shift_spec(op: ShiftOp, x: u8, cin: bool) -> (u8, Flags) {
    let r = shift_value(op, x, cin);
    (r, Flags { z: r == 0, n: false, h: false, c: shift_carry(op, x) })
}

/// The accumulator rotates RLCA/RRCA/RLA/RRA: like the 0xCB form, but Z is forced to 0.
pub open spec fn rotate_a_spec(op: ShiftOp, x: u8, cin: bool) -> (u8, Flags) {
    (shift_value(op, x, cin), Flags { z: false, n: false, h: false, c: shift_carry(op, x) })
}

pub fn shift(op: ShiftOp, x: u8, cin: bool) -> (r: (u8, Flags))
    ensures
        r == shift_spec(op, x, cin),
{
    let ci: u8 = if cin {
        1
    } else {
        0
    };
    let (v, c): (u8, bool) = match op {
        ShiftOp::Rlc => (((2 * (x as u16)) % 256) as u8 + x / 128, x >= 128),
        ShiftOp::Rrc => (x / 2 + 128 * (x % 2), x % 2 == 1),
        ShiftOp::Rl => (((2 * (x as u16)) % 256) as u8 + ci, x >= 128),
        ShiftOp::Rr => (x / 2 + 128 * ci, x % 2 == 1),
        ShiftOp::Sla => (((2 * (x as u16)) % 256) as u8, x >= 128),
        ShiftOp::Sra => (x / 2 + 128 * (x / 128), x % 2 == 1),
        ShiftOp::Swap => (16 * (x % 16) + x / 16, false),
        ShiftOp::Srl => (x / 2, x % 2 == 1),
    };
    (v, Flags { z: v == 0, n: false, h: false, c })
}

/// Decimal adjust of A after a BCD addition or subtraction.
pub open spec fn daa_spec(a: u8, f: Flags) -> (u8, Flags) {
    let lo = f.h || (!f.n && a % 16 > 9);
    let hi = f.c || (!f.n && a > 0x99);
    let corr = (if lo {
        6int
    } else {
        0
    }) + (if hi {
        0x60int
    } else {
        0
    });
    let r = (if f.n {
        a - corr + 256
    } else {
        a + corr
    }) % 256;
    (r as u8, Flags { z: r == 0, n: f.n, h: false, c: hi })
}

pub fn daa(a: u8, f: Flags) -> (r: (u8, Flags))
    ensures
        r == daa_spec(a, f),
{
    let lo = f.h || (!f.n && a % 16 > 9);
    let hi = f.c || (!f.n && a > 0x99);
    let mut corr: u16 = 0;
    if lo {
        corr = corr + 6;
    }
    if hi {
        corr = corr + 0x60;
    }
    let r: u16 = if f.n {
        (a as u16 + 256 - corr) % 256
    } else {
        (a as u16 + corr) % 256
    };
    (r as u8, Flags { z: r == 0, n: f.n, h: false, c: hi })
}

/// ADD HL,rr: Z kept, N = 0, H = carry out of bit 11, C = carry out of bit 15.
pub open spec fn add16_spec(hl: u16, v: u16, f: Flags) -> (u16, Flags) {
    (
        ((hl + v) % 65536) as u16,
        Flags { z: f.z, n: false, h: hl % 4096 + v % 4096 > 4095, c: hl + v > 65535 },
    )
}

pub fn add16(hl: u16, v: u16, f: Flags) -> (r: (u16, Flags))
    ensures
        r == add16_spec(hl, v, f),
{
    let sum: u32 = hl as u32 + v as u32;
    ((sum % 65536) as u16, Flags { z: f.z, n: false, h: hl % 4096 + v % 4096 > 4095, c: sum > 65535 })
}

/// The byte of a signed offset, read as unsigned.
pub open spec fn e8_byte(e: i8) -> u8 {
    (if e < 0 {
        e + 256
    } else {
        e as int
    }) as u8
}

/// SP + e8 (ADD SP,e8 and LD HL,SP+e8): Z = N = 0, H and C from the unsigned low-byte add.
pub open spec fn add_sp_e8_spec(sp: u16, e: i8) -> (u16, Flags) {
    let u = e8_byte(e);
    (
        ((sp + e + 65536) % 65536) as u16,
        Flags { z: false, n: false, h: sp % 16 + u % 16 > 15, c: sp % 256 + u > 255 },
    )
}

pub fn add_sp_e8(sp: u16, e: i8) -> (r: (u16, Flags))
    ensures
        r == add_sp_e8_spec(sp, e),
{
    let u: u8 = if e < 0 {
        (e as i16 + 256) as u8
    } else {
        e as u8
    };
    let sum: u32 = (sp as i32 + e as i32 + 65536) as u32 % 65536;
    (sum as u16, Flags { z: false, n: false, h: sp % 16 + (u % 16) as u16 > 15, c: sp % 256 + u as u16 > 255 })
}

/// Whether `x` is valid packed BCD (both nibbles at most 9).
pub open spec fn is_bcd(x: u8) -> bool {
    x % 16 <= 9 && x / 16 <= 9
}

/// SWAP applied twice gives the byte back; the flags are Z = (x == 0), N = H = C = 0.
pub proof fn law_swap_twice(x: u8, cin: bool)
    ensures
        shift_spec(ShiftOp::Swap, shift_spec(ShiftOp::Swap, x, cin).0, cin).0 == x,
        shift_spec(ShiftOp::Swap, shift_spec(ShiftOp::Swap, x, cin).0, cin).1 == (Flags {
            z: x == 0,
            n: false,
            h: false,
            c: false,
        }),
{
}

/// RLCA undoes RRCA (and RRCA undoes RLCA) on the accumulator.
pub proof fn law_rotate_a_inverse(x: u8, cin: bool)
    ensures
        rotate_a_spec(ShiftOp::Rlc, rotate_a_spec(ShiftOp::Rrc, x, cin).0, cin).0 == x,
        rotate_a_spec(ShiftOp::Rrc, rotate_a_spec(ShiftOp::Rlc, x, cin).0, cin).0 == x,
{
}

/// CP sets the flags exactly as SUB does and keeps A; ADD writes (a + b) mod 256 to A.
pub proof fn law_cp_is_sub_without_write(a: u8, b: u8, f: Flags)
    ensures
        alu_spec(AluOp::Cp, a, b, f).1 == alu_spec(AluOp::Sub, a, b, f).1,
        alu_spec(AluOp::Cp, a, b, f).0 == a,
        alu_spec(AluOp::Add, a, b, f).0 == (a + b) % 256,
{
}

/// DAA after ADD, ADC, SUB or SBC of two valid BCD bytes leaves a valid BCD byte in A.
pub proof fn law_daa_gives_bcd(a: u8, b: u8, f: Flags)
    requires
        is_bcd(a),
        is_bcd(b),
    ensures
        is_bcd(daa_spec(alu_spec(AluOp::Add, a, b, f).0, alu_spec(AluOp::Add, a, b, f).1).0),
        is_bcd(daa_spec(alu_spec(AluOp::Adc, a, b, f).0, alu_spec(AluOp::Adc, a, b, f).1).0),
        is_bcd(daa_spec(alu_spec(AluOp::Sub, a, b, f).0, alu_spec(AluOp::Sub, a, b, f).1).0),
        is_bcd(daa_spec(alu_spec(AluOp::Sbc, a, b, f).0, alu_spec(AluOp::Sbc, a, b, f).1).0),
{
    lemma_daa_add(a, b, false);
    lemma_daa_add(a, b, f.c);
    lemma_daa_sub(a, b, false);
    lemma_daa_sub(a, b, f.c);
}

/// The decimal value of a packed BCD byte.
pub open spec fn bcd_value(x: u8) -> int {
    10 * (x / 16) + x % 16
}

/// DAA after ADD/ADC of valid BCD bytes gives the decimal sum mod 100, with carry set
/// exactly when the sum reaches 100; after SUB/SBC it gives the decimal difference mod 100,
/// with carry set exactly when it borrows.
pub proof fn law_daa_decimal(a: u8, b: u8, cin: bool)
    requires
        is_bcd(a),
        is_bcd(b),
    ensures
        bcd_value(daa_spec(add8_spec(a, b, cin).0, add8_spec(a, b, cin).1).0) == (bcd_value(a)
            + bcd_value(b) + b2n(cin)) % 100,
        daa_spec(add8_spec(a, b, cin).0, add8_spec(a, b, cin).1).1.c == (bcd_value(a) + bcd_value(b)
            + b2n(cin) >= 100),
        bcd_value(daa_spec(sub8_spec(a, b, cin).0, sub8_spec(a, b, cin).1).0) == (bcd_value(a)
            - bcd_value(b) - b2n(cin) + 100) % 100,
        daa_spec(sub8_spec(a, b, cin).0, sub8_spec(a, b, cin).1).1.c == (bcd_value(a) - bcd_value(b)
            - b2n(cin) < 0),
{
    let ci: u8 = if cin {
        1
    } else {
        0
    };
    let al = a % 16;
    let ah = a / 16;
    let bl = b % 16;
    let bh = b / 16;
    assert(a == 16 * ah + al && b == 16 * bh + bl);
    let ra = daa_spec(add8_spec(a, b, cin).0, add8_spec(a, b, cin).1);
    let rs = daa_spec(sub8_spec(a, b, cin).0, sub8_spec(a, b, cin).1);
    assert(bcd_value(ra.0) == (bcd_value(a) + bcd_value(b) + b2n(cin)) % 100 && ra.1.c == (
    bcd_value(a) + bcd_value(b) + b2n(cin) >= 100)) by (nonlinear_arith)
        requires
            a == 16 * ah + al,
            b == 16 * bh + bl,
            al <= 9,
            ah <= 9,
            bl <= 9,
            bh <= 9,
            ci <= 1,
            ci == b2n(cin),
            ra == daa_spec(add8_spec(a, b, cin).0, add8_spec(a, b, cin).1),
    {
    }
    assert(bcd_value(rs.0) == (bcd_value(a) - bcd_value(b) - b2n(cin) + 100) % 100 && rs.1.c == (
    bcd_value(a) - bcd_value(b) - b2n(cin) < 0)) by (nonlinear_arith)
        requires
            a == 16 * ah + al,
            b == 16 * bh + bl,
            al <= 9,
            ah <= 9,
            bl <= 9,
            bh <= 9,
            ci <= 1,
            ci == b2n(cin),
            rs == daa_spec(sub8_spec(a, b, cin).0, sub8_spec(a, b, cin).1),
    {
    }
}

proof fn lemma_daa_add(a: u8, b: u8, cin: bool)
    requires
        is_bcd(a),
        is_bcd(b),
    ensures
        is_bcd(daa_spec(add8_spec(a, b, cin).0, add8_spec(a, b, cin).1).0),
{
    let ci: u8 = if cin {
        1
    } else {
        0
    };
    assert(ci == b2n(cin));
    let al = a % 16;
    let ah = a / 16;
    let bl = b % 16;
    let bh = b / 16;
    assert(a == 16 * ah + al && b == 16 * bh + bl);
    assert(daa_spec(add8_spec(a, b, cin).0, add8_spec(a, b, cin).1).0 % 16 <= 9 && daa_spec(
        add8_spec(a, b, cin).0,
        add8_spec(a, b, cin).1,
    ).0 / 16 <= 9) by (nonlinear_arith)
        requires
            a == 16 * ah + al,
            b == 16 * bh + bl,
            al <= 9,
            ah <= 9,
            bl <= 9,
            bh <= 9,
            ci <= 1,
            ci == b2n(cin),
    {
    }
}

proof fn lemma_daa_sub(a: u8, b: u8, cin: bool)
    requires
        is_bcd(a),
        is_bcd(b),
    ensures
        is_bcd(daa_spec(sub8_spec(a, b, cin).0, sub8_spec(a, b, cin).1).0),
{
    let ci: u8 = if cin {
        1
    } else {
        0
    };
    assert(ci == b2n(cin));
    let al = a % 16;
    let ah = a / 16;
    let bl = b % 16;
    let bh = b / 16;
    assert(a == 16 * ah + al && b == 16 * bh + bl);
    assert(daa_spec(sub8_spec(a, b, cin).0, sub8_spec(a, b, cin).1).0 % 16 <= 9 && daa_spec(
        sub8_spec(a, b, cin).0,
        sub8_spec(a, b, cin).1,
    ).0 / 16 <= 9) by (nonlinear_arith)
        requires
            a == 16 * ah + al,
            b == 16 * bh + bl,
            al <= 9,
            ah <= 9,
            bl <= 9,
            bh <= 9,
            ci <= 1,
            ci == b2n(cin),
    {
    }
}

} // verus!
