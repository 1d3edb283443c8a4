//! Rounding modifiers, comparison operators, and the single- and half-precision bit
//! patterns that flushing and comparison act on.

use vstd::prelude::*;

verus! {

/// Rounding modifiers of floating-point instructions.
#[derive(Clone, Copy, PartialEq, Eq, Debug, Structural)]
pub enum Rounding {
    Default,
    Rni,
    Rzi,
    Rmi,
    Rpi,
    Rn,
    Rz,
    Rm,
    Rp,
}

/// The direction in which a rounding modifier rounds.
pub enum Direction {
    Nearest,
    Zero,
    Down,
    Up,
}

impl Rounding {
    pub open spec fn direction(self) -> Direction {
        match self {
            Rounding::Rzi | Rounding::Rz => Direction::Zero,
            Rounding::Default | Rounding::Rni | Rounding::Rn => Direction::Nearest,
            Rounding::Rpi | Rounding::Rp => Direction::Up,
            Rounding::Rmi | Rounding::Rm => Direction::Down,
        }
    }

    /// The encoding of the direction in the host floating-point control register.
    pub fn as_llvm(self) -> (r: u32)
        ensures
            r == match self.direction() {
                Direction::Zero => 0u32,
                Direction::Nearest => 1u32,
                Direction::Up => 2u32,
                Direction::Down => 3u32,
            },
    {
        match self {
            Rounding::Rzi | Rounding::Rz => 0,
            Rounding::Default | Rounding::Rni | Rounding::Rn => 1,
            Rounding::Rpi | Rounding::Rp => 2,
            Rounding::Rmi | Rounding::Rm => 3,
        }
    }
}

impl Rounding {
    pub open spec fn spec_str(self) -> Seq<char> {
        match self {
            Rounding::Default => ""@,
            Rounding::Rni => "rni"@,
            Rounding::Rzi => "rzi"@,
            Rounding::Rmi => "rmi"@,
            Rounding::Rpi => "rpi"@,
            Rounding::Rn => "rn"@,
            Rounding::Rz => "rz"@,
            Rounding::Rm => "rm"@,
            Rounding::Rp => "rp"@,
        }
    }

    pub open spec fn spec_ptx(self) -> Seq<char> {
        match self {
            Rounding::Default => ""@,
            Rounding::Rni => ".rni"@,
            Rounding::Rzi => ".rzi"@,
            Rounding::Rmi => ".rmi"@,
            Rounding::Rpi => ".rpi"@,
            Rounding::Rn => ".rn"@,
            Rounding::Rz => ".rz"@,
            Rounding::Rm => ".rm"@,
            Rounding::Rp => ".rp"@,
        }
    }

    /// Integer-result rounding: the value is rounded to an integral float.
    pub open spec fn spec_is_integer(self) -> bool {
        match self {
            Rounding::Rzi | Rounding::Rni | Rounding::Rmi | Rounding::Rpi => true,
            _ => false,
        }
    }

    /// The modifier's name without the leading dot.
    pub fn as_str(self) -> (r: &'static str)
        ensures
            r@ == self.spec_str(),
    {
        match self {
            Rounding::Default => "",
            Rounding::Rni => "rni",
            Rounding::Rzi => "rzi",
            Rounding::Rmi => "rmi",
            Rounding::Rpi => "rpi",
            Rounding::Rn => "rn",
            Rounding::Rz => "rz",
            Rounding::Rm => "rm",
            Rounding::Rp => "rp",
        }
    }

    /// The modifier as it is written in device program text: empty for the default,
    /// otherwise a dot followed by the name.
    pub fn as_ptx(self) -> (r: &'static str)
        ensures
            r@ == self.spec_ptx(),
    {
        match self {
            Rounding::Default => "",
            Rounding::Rni => ".rni",
            Rounding::Rzi => ".rzi",
            Rounding::Rmi => ".rmi",
            Rounding::Rpi => ".rpi",
            Rounding::Rn => ".rn",
            Rounding::Rz => ".rz",
            Rounding::Rm => ".rm",
            Rounding::Rp => ".rp",
        }
    }

    pub fn is_integer(self) -> (r: bool)
        ensures
            r == self.spec_is_integer(),
    {
        match self {
            Rounding::Rzi | Rounding::Rni | Rounding::Rmi | Rounding::Rpi => true,
            Rounding::Default | Rounding::Rz | Rounding::Rn | Rounding::Rm | Rounding::Rp => false,
        }
    }
}

/// Comparison operators of the `set` and `setp` instructions.
#[derive(Clone, Copy, PartialEq, Eq, Debug, Structural)]
pub enum Comparison {
    Eq,
    Ne,
    Lt,
    Le,
    Gt,
    Ge,
    Lo,
    Ls,
    Hi,
    Hs,
    Equ,
    Neu,
    Ltu,
    Leu,
    Gtu,
    Geu,
    Num,
    Nan,
}

impl Comparison {
    pub open spec fn spec_str(self) -> Seq<char> {
        match self {
            Comparison::Eq => "eq"@,
            Comparison::Ne => "ne"@,
            Comparison::Lt => "lt"@,
            Comparison::Le => "le"@,
            Comparison::Gt => "gt"@,
            Comparison::Ge => "ge"@,
            Comparison::Lo => "lo"@,
            Comparison::Ls => "ls"@,
            Comparison::Hi => "hi"@,
            Comparison::Hs => "hs"@,
            Comparison::Equ => "equ"@,
            Comparison::Neu => "neu"@,
            Comparison::Ltu => "ltu"@,
            Comparison::Leu => "leu"@,
            Comparison::Gtu => "gtu"@,
            Comparison::Geu => "geu"@,
            Comparison::Num => "num"@,
            Comparison::Nan => "nan"@,
        }
    }

    /// The relation that the operator tests on two ordered (non-NaN) values.
    pub open spec fn relation(self, a: int, b: int) -> bool {
        match self {
            Comparison::Eq | Comparison::Equ => a == b,
            Comparison::Ne | Comparison::Neu => a != b,
            Comparison::Lt | Comparison::Lo | Comparison::Ltu => a < b,
            Comparison::Le | Comparison::Ls | Comparison::Leu => a <= b,
            Comparison::Gt | Comparison::Hi | Comparison::Gtu => a > b,
            Comparison::Ge | Comparison::Hs | Comparison::Geu => a >= b,
            Comparison::Num => true,
            Comparison::Nan => false,
        }
    }

    /// Operators that hold whenever an operand is NaN.
    pub open spec fn is_unordered(self) -> bool {
        match self {
            Comparison::Equ | Comparison::Neu | Comparison::Ltu | Comparison::Leu
            | Comparison::Gtu | Comparison::Geu | Comparison::Nan => true,
            _ => false,
        }
    }

    /// What the operator yields on two float bit patterns, neither of them flushed.
    pub open spec fn float_relation(self, a: u32, b: u32) -> bool {
        if f32_is_nan(a) || f32_is_nan(b) {
            self.is_unordered()
        } else {
            match self {
                Comparison::Nan => false,
                _ => self.relation(f32_key(a), f32_key(b)),
            }
        }
    }

    pub open spec fn spec_cmp_float(self, a: u32, b: u32, ftz: bool) -> bool {
        self.float_relation(flush_f32(a, ftz), flush_f32(b, ftz))
    }

    pub open spec fn spec_signed(self) -> bool {
        match self {
            Comparison::Eq | Comparison::Ne | Comparison::Lt | Comparison::Le | Comparison::Gt
            | Comparison::Ge => true,
            _ => false,
        }
    }

    pub fn as_str(self) -> (r: &'static str)
        ensures
            r@ == self.spec_str(),
    {
        match self {
            Comparison::Eq => "eq",
            Comparison::Ne => "ne",
            Comparison::Lt => "lt",
            Comparison::Le => "le",
            Comparison::Gt => "gt",
            Comparison::Ge => "ge",
            Comparison::Lo => "lo",
            Comparison::Ls => "ls",
            Comparison::Hi => "hi",
            Comparison::Hs => "hs",
            Comparison::Equ => "equ",
            Comparison::Neu => "neu",
            Comparison::Ltu => "ltu",
            Comparison::Leu => "leu",
            Comparison::Gtu => "gtu",
            Comparison::Geu => "geu",
            Comparison::Num => "num",
            Comparison::Nan => "nan",
        }
    }

    /// The operators that integer comparisons accept, in declaration order.
    pub fn iter_int() -> (r: Vec<Comparison>)
        ensures
            r@ == seq![
                Comparison::Eq,
                Comparison::Ne,
                Comparison::Lt,
                Comparison::Le,
                Comparison::Gt,
                Comparison::Ge,
                Comparison::Lo,
                Comparison::Ls,
                Comparison::Hi,
                Comparison::Hs,
            ],
    {
        vec![
            Comparison::Eq,
            Comparison::Ne,
            Comparison::Lt,
            Comparison::Le,
            Comparison::Gt,
            Comparison::Ge,
            Comparison::Lo,
            Comparison::Ls,
            Comparison::Hi,
            Comparison::Hs,
        ]
    }

    /// Whether the operator also applies to signed integer operands.
    pub fn signed(self) -> (r: bool)
        ensures
            r == self.spec_signed(),
    {
        match self {
            Comparison::Eq
            | Comparison::Ne
            | Comparison::Lt
            | Comparison::Le
            | Comparison::Gt
            | Comparison::Ge => true,
            _ => false,
        }
    }

    /// The operators that float comparisons accept, in declaration order.
    pub fn iter_float() -> (r: Vec<Comparison>)
        ensures
            r@ == seq![
                Comparison::Eq,
                Comparison::Ne,
                Comparison::Lt,
                Comparison::Le,
                Comparison::Gt,
                Comparison::Ge,
                Comparison::Equ,
                Comparison::Neu,
                Comparison::Ltu,
                Comparison::Leu,
                Comparison::Gtu,
                Comparison::Geu,
                Comparison::Num,
                Comparison::Nan,
            ],
    {
        vec![
            Comparison::Eq,
            Comparison::Ne,
            Comparison::Lt,
            Comparison::Le,
            Comparison::Gt,
            Comparison::Ge,
            Comparison::Equ,
            Comparison::Neu,
            Comparison::Ltu,
            Comparison::Leu,
            Comparison::Gtu,
            Comparison::Geu,
            Comparison::Num,
            Comparison::Nan,
        ]
    }

    /// Compares two integers; integers have no NaN, so `num` always holds and `nan` never.
    pub fn cmp_int(self, a: i128, b: i128) -> (r: bool)
        ensures
            r == self.relation(a as int, b as int),
    {
        match self {
            Comparison::Eq => a == b,
            Comparison::Ne => a != b,
            Comparison::Lt => a < b,
            Comparison::Le => a <= b,
            Comparison::Gt => a > b,
            Comparison::Ge => a >= b,
            Comparison::Lo => a < b,
            Comparison::Ls => a <= b,
            Comparison::Hi => a > b,
            Comparison::Hs => a >= b,
            Comparison::Equ => a == b,
            Comparison::Neu => a != b,
            Comparison::Ltu => a < b,
            Comparison::Leu => a <= b,
            Comparison::Gtu => a > b,
            Comparison::Geu => a >= b,
            Comparison::Num => true,
            Comparison::Nan => false,
        }
    }

    /// Compares two single-precision values given by their bit patterns, after flushing
    /// subnormal operands when `ftz` is set.
    pub fn cmp_float(self, a: u32, b: u32, ftz: bool) -> (r: bool)
        ensures
            r == self.spec_cmp_float(a, b, ftz),
    {
        let mut a_val = a;
        let mut b_val = b;
        flush_to_zero_f32(&mut a_val, ftz);
        flush_to_zero_f32(&mut b_val, ftz);
        let a_nan = is_nan_f32(a_val);
        let b_nan = is_nan_f32(b_val);
        let ka = key_f32(a_val);
        let kb = key_f32(b_val);
        let ordered = !a_nan && !b_nan;
        match self {
            Comparison::Eq => ka == kb && ordered,
            Comparison::Ne => ka != kb && ordered,
            Comparison::Lt => ka < kb && ordered,
            Comparison::Le => ka <= kb && ordered,
            Comparison::Gt => ka > kb && ordered,
            Comparison::Ge => ka >= kb && ordered,
            Comparison::Lo => ka < kb && ordered,
            Comparison::Ls => ka <= kb && ordered,
            Comparison::Hi => ka > kb && ordered,
            Comparison::Hs => ka >= kb && ordered,
            Comparison::Equ => !ordered || ka == kb,
            Comparison::Neu => !ordered || ka != kb,
            Comparison::Ltu => !ordered || ka < kb,
            Comparison::Leu => !ordered || ka <= kb,
            Comparison::Gtu => !ordered || ka > kb,
            Comparison::Geu => !ordered || ka >= kb,
            Comparison::Num => ordered,
            Comparison::Nan => !ordered,
        }
    }
}

/// Sign bit of a single-precision bit pattern.
pub const F32_SIGN: u32 = 0x8000_0000;
/// Bit pattern of the smallest positive normal single-precision value.
pub const F32_MIN_NORMAL: u32 = 0x0080_0000;
/// Bit pattern of positive infinity in single precision.
pub const F32_INFINITY: u32 = 0x7f80_0000;
/// Sign bit of a half-precision bit pattern.
pub const F16_SIGN: u16 = 0x8000;
/// Bit pattern of the smallest positive normal half-precision value.
pub const F16_MIN_NORMAL: u16 = 0x0400;
/// Bit pattern of positive infinity in half precision.
pub const F16_INFINITY: u16 = 0x7c00;

/// The magnitude bits of a single-precision pattern: everything but the sign.
pub open spec fn f32_mag(x: u32) -> int {
    x as int % 0x8000_0000
}

pub open spec fn f32_sign(x: u32) -> bool {
    x >= 0x8000_0000
}

pub open spec fn f32_is_nan(x: u32) -> bool {
    f32_mag(x) > 0x7f80_0000
}

pub open spec fn f32_is_subnormal(x: u32) -> bool {
    0 < f32_mag(x) < 0x0080_0000
}

/// A key that orders non-NaN patterns as the values they encode: both zeros map to 0,
/// and the order of magnitudes is the order of their bit patterns.
pub open spec fn f32_key(x: u32) -> int {
    if f32_sign(x) {
        -f32_mag(x)
    } else {
        f32_mag(x)
    }
}

/// A pattern with its subnormal value replaced by zero of the same sign, when `ftz` is set.
pub open spec fn flush_f32(x: u32, ftz: bool) -> u32 {
    if ftz && f32_is_subnormal(x) {
        if f32_sign(x) {
            0x8000_0000u32
        } else {
            0u32
        }
    } else {
        x
    }
}

pub open spec fn f16_mag(x: u16) -> int {
    x as int % 0x8000
}

pub open spec fn f16_sign(x: u16) -> bool {
    x >= 0x8000
}

pub open spec fn f16_is_nan(x: u16) -> bool {
    f16_mag(x) > 0x7c00
}

pub open spec fn f16_is_subnormal(x: u16) -> bool {
    0 < f16_mag(x) < 0x0400
}

pub open spec fn flush_f16(x: u16, ftz: bool) -> u16 {
    if ftz && f16_is_subnormal(x) {
        if f16_sign(x) {
            0x8000u16
        } else {
            0u16
        }
    } else {
        x
    }
}

pub fn is_nan_f32(x: u32) -> (r: bool)
    ensures
        r == f32_is_nan(x),
{
    x % F32_SIGN > F32_INFINITY
}

pub fn is_nan_f16(x: u16) -> (r: bool)
    ensures
        r == f16_is_nan(x),
{
    x % F16_SIGN > F16_INFINITY
}

/// The ordering key of a single-precision pattern (see `f32_key`).
pub fn key_f32(x: u32) -> (r: i64)
    ensures
        r as int == f32_key(x),
{
    let mag = (x % F32_SIGN) as i64;
    if x >= F32_SIGN {
        -mag
    } else {
        mag
    }
}

/// Replaces a subnormal single-precision value by zero of the same sign when `ftz` is set.
pub fn flush_to_zero_f32(x: &mut u32, ftz: bool)
    ensures
        *final(x) == flush_f32(*old(x), ftz),
{
    if !ftz {
        return;
    }
    let mag = *x % F32_SIGN;
    if mag > 0 && mag < F32_MIN_NORMAL {
        if *x >= F32_SIGN {
            *x = F32_SIGN;
        } else {
            *x = 0;
        }
    }
}

/// Replaces a subnormal half-precision value by zero of the same sign when `ftz` is set.
pub fn flush_to_zero_f16(x: &mut u16, ftz: bool)
    ensures
        *final(x) == flush_f16(*old(x), ftz),
{
    if !ftz {
        return;
    }
    let mag = *x % F16_SIGN;
    if mag > 0 && mag < F16_MIN_NORMAL {
        if *x >= F16_SIGN {
            *x = F16_SIGN;
        } else {
            *x = 0;
        }
    }
}

/// Flushing a single-precision value a second time changes nothing.
pub proof fn lemma_flush_f32_idempotent(x: u32, ftz: bool)
    ensures
        flush_f32(flush_f32(x, ftz), ftz) == flush_f32(x, ftz),
{
}

/// Flushing a half-precision value a second time changes nothing.
pub proof fn lemma_flush_f16_idempotent(x: u16, ftz: bool)
    ensures
        flush_f16(flush_f16(x, ftz), ftz) == flush_f16(x, ftz),
{
}

/// Swapping the operands of an ordered comparison swaps `ge` with `le` and `gt` with `lt`;
/// every unordered operator holds when either operand is NaN, in either order.
pub proof fn lemma_float_comparison_symmetry(a: u32, b: u32, ftz: bool)
    ensures
        Comparison::Ge.spec_cmp_float(a, b, ftz) == Comparison::Le.spec_cmp_float(b, a, ftz),
        Comparison::Gt.spec_cmp_float(a, b, ftz) == Comparison::Lt.spec_cmp_float(b, a, ftz),
        Comparison::Eq.spec_cmp_float(a, b, ftz) == Comparison::Eq.spec_cmp_float(b, a, ftz),
        Comparison::Ne.spec_cmp_float(a, b, ftz) == Comparison::Ne.spec_cmp_float(b, a, ftz),
        f32_is_nan(a) || f32_is_nan(b) ==> forall|c: Comparison|
            c.is_unordered() ==> #[trigger] c.spec_cmp_float(a, b, ftz)
                && c.spec_cmp_float(b, a, ftz),
{
}

/// The same law for integer operands.
pub proof fn lemma_int_comparison_symmetry(a: int, b: int)
    ensures
        Comparison::Ge.relation(a, b) == Comparison::Le.relation(b, a),
        Comparison::Gt.relation(a, b) == Comparison::Lt.relation(b, a),
        Comparison::Hs.relation(a, b) == Comparison::Ls.relation(b, a),
        Comparison::Hi.relation(a, b) == Comparison::Lo.relation(b, a),
{
}

} // verus!
