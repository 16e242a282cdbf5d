//! Positions and angles as exact numbers.
//!
//! A coordinate or an angle arrives as an IEEE 754 bit pattern. Such a pattern
//! is either not a number, an infinity, or a dyadic rational: an integer
//! significand times a power of two. Everything the session decides about a
//! position or an orientation is decided on that rational, without rounding.

use vstd::prelude::*;
use vstd::arithmetic::power2::*;
use vstd::arithmetic::div_mod::*;
use vstd::arithmetic::mul::*;
use vstd::bits::*;

verus! {

/// The number `significand * 2^exponent`, negated where `negative`.
#[derive(Clone, Copy, PartialEq, Eq, Structural, Debug)]
pub struct Dyadic {
    pub negative: bool,
    pub significand: u64,
    pub exponent: i32,
}

/// What a bit pattern denotes.
#[derive(Clone, Copy, PartialEq, Eq, Structural, Debug)]
pub enum Number {
    Nan,
    Infinite { negative: bool },
    Finite(Dyadic),
}

/// `value` held to the range of a 32-bit signed integer.
pub open spec fn clamp_i32(value: int) -> int {
    if value < i32::MIN {
        i32::MIN as int
    } else if value > i32::MAX {
        i32::MAX as int
    } else {
        value
    }
}

/// The smaller of a natural number and the largest `u64`.
pub open spec fn cap_u64(value: nat) -> nat {
    if value > u64::MAX {
        u64::MAX as nat
    } else {
        value
    }
}

impl Dyadic {
    /// The whole part of the magnitude.
    pub open spec fn whole(self) -> nat {
        if self.exponent >= 0 {
            self.significand as nat * pow2(self.exponent as nat)
        } else {
            self.significand as nat / pow2((0 - self.exponent) as nat)
        }
    }

    /// Whether the number is no integer.
    pub open spec fn has_fraction(self) -> bool {
        self.exponent < 0 && self.significand as nat % pow2((0 - self.exponent) as nat) != 0
    }

    /// The largest integer that is not above the number.
    pub open spec fn floor(self) -> int {
        if self.negative {
            -(self.whole() as int) - if self.has_fraction() {
                1int
            } else {
                0int
            }
        } else {
            self.whole() as int
        }
    }

    /// Whether the number is at most the integer `bound`.
    pub open spec fn at_most(self, bound: int) -> bool {
        self.floor() < bound || (self.floor() == bound && !self.has_fraction())
    }

    /// Whether the number is at least the integer `bound`.
    pub open spec fn at_least(self, bound: int) -> bool {
        self.floor() >= bound
    }

    /// The whole part of the magnitude, capped at the largest `u64`, and
    /// whether a fraction is left over.
    pub fn parts(&self) -> (r: (u64, bool))
        ensures
            r.0 as nat == cap_u64(self.whole()),
            r.1 == self.has_fraction(),
            self.exponent < 0 ==> r.0 as nat == self.whole(),
    {
        let sig = self.significand;
        if self.exponent >= 0 {
            let e: u64 = self.exponent as u64;
            if sig == 0 {
                assert(0 * pow2(e as nat) == 0);
                (0, false)
            } else if e >= 64 {
                proof {
                    lemma2_to64();
                    if e > 64 {
                        lemma_pow2_strictly_increases(64, e as nat);
                    }
                    assert(sig as nat * pow2(e as nat) >= pow2(e as nat)) by (nonlinear_arith)
                        requires
                            sig >= 1,
                    ;
                }
                (u64::MAX, false)
            } else {
                proof {
                    lemma_u64_pow2_no_overflow(e as nat);
                    lemma_u64_shl_is_mul(1u64, e);
                }
                let power: u64 = 1u64 << e;
                assert(power as nat == pow2(e as nat));
                assert(sig as u128 * power as u128 <= 0xffff_ffff_ffff_ffff * 0xffff_ffff_ffff_ffff)
                    by (nonlinear_arith)
                    requires
                        sig <= 0xffff_ffff_ffff_ffff,
                        power <= 0xffff_ffff_ffff_ffff,
                ;
                let product: u128 = (sig as u128) * (power as u128);
                if product > u64::MAX as u128 {
                    (u64::MAX, false)
                } else {
                    (product as u64, false)
                }
            }
        } else {
            let s: u64 = (0 - (self.exponent as i64)) as u64;
            if s >= 64 {
                proof {
                    lemma2_to64();
                    if s > 64 {
                        lemma_pow2_strictly_increases(64, s as nat);
                    }
                    lemma_basic_div(sig as int, pow2(s as nat) as int);
                    lemma_small_mod(sig as nat, pow2(s as nat));
                }
                (0, sig != 0)
            } else {
                proof {
                    lemma_u64_pow2_no_overflow(s as nat);
                    lemma_u64_shl_is_mul(1u64, s);
                }
                let power: u64 = 1u64 << s;
                assert(power as nat == pow2(s as nat));
                (sig / power, sig % power != 0)
            }
        }
    }

    /// The floor of the number as a 32-bit integer, the nearest bound of
    /// that range standing for a floor outside it.
    pub fn floor_i32(&self) -> (r: i32)
        ensures
            r as int == clamp_i32(self.floor()),
    {
        let (whole, fraction) = self.parts();
        if self.negative {
            let magnitude: u128 = whole as u128 + if fraction {
                1u128
            } else {
                0u128
            };
            if magnitude >= 0x8000_0000 {
                i32::MIN
            } else {
                (0 - (magnitude as i64)) as i32
            }
        } else if whole > 0x7fff_ffff {
            i32::MAX
        } else {
            whole as i32
        }
    }

    /// The remainder of the whole part on division by `modulus`.
    fn whole_rem(&self, modulus: u32) -> (r: u64)
        requires
            modulus > 0,
        ensures
            r as nat == self.whole() % (modulus as nat),
    {
        let m: u64 = modulus as u64;
        if self.exponent >= 0 {
            let mut r: u64 = self.significand % m;
            let mut i: i32 = 0;
            proof {
                lemma2_to64();
                assert(self.significand as nat * pow2(0) == self.significand as nat);
            }
            while i < self.exponent
                invariant
                    0 <= i <= self.exponent,
                    m == modulus,
                    0 < m <= u32::MAX,
                    r < m,
                    r as nat == (self.significand as nat * pow2(i as nat)) % (m as nat),
                decreases self.exponent - i,
            {
                proof {
                    let x = (self.significand as nat * pow2(i as nat)) as int;
                    lemma_mul_mod_noop_left(x, 2, m as int);
                    lemma_pow2_unfold((i + 1) as nat);
                    assert(x * 2 == self.significand as nat * pow2((i + 1) as nat))
                        by (nonlinear_arith)
                        requires
                            x == self.significand as nat * pow2(i as nat),
                            pow2((i + 1) as nat) == 2 * pow2(i as nat),
                    ;
                }
                r = (r * 2) % m;
                i = i + 1;
            }
            r
        } else {
            let (whole, _fraction) = self.parts();
            whole % m
        }
    }

    /// The floor of the number modulo `modulus`, a value from 0 up to
    /// `modulus - 1` also where the number is negative.
    pub fn floor_rem(&self, modulus: u32) -> (r: u32)
        requires
            modulus > 0,
        ensures
            r as int == self.floor() % (modulus as int),
            r < modulus,
    {
        let m: u64 = modulus as u64;
        let rem = self.whole_rem(modulus);
        if !self.negative {
            rem as u32
        } else {
            let (_whole, fraction) = self.parts();
            let step: u64 = if fraction {
                1
            } else {
                0
            };
            let low: u64 = (rem + step) % m;
            proof {
                let a: int = self.whole() as int + step as int;
                assert(self.floor() == -a);
                lemma_add_mod_noop_right(step as int, self.whole() as int, m as int);
                assert(low as int == a % (m as int));
                let q: int = a / (m as int);
                lemma_fundamental_div_mod(a, m as int);
                if low == 0 {
                    assert(-a == (-q) * (m as int) + 0) by (nonlinear_arith)
                        requires
                            a == (m as int) * q + 0,
                    ;
                    lemma_fundamental_div_mod_converse(-a, m as int, -q, 0);
                } else {
                    assert(-a == (-q - 1) * (m as int) + (m as int - low as int))
                        by (nonlinear_arith)
                        requires
                            a == (m as int) * q + low as int,
                    ;
                    lemma_fundamental_div_mod_converse(
                        -a,
                        m as int,
                        -q - 1,
                        m as int - low as int,
                    );
                }
            }
            if low == 0 {
                0
            } else {
                (m - low) as u32
            }
        }
    }
}

impl Number {
    /// The block that holds the number: its floor, held to the range of a
    /// 32-bit integer. What is not a number counts as 0.
    pub open spec fn block(self) -> int {
        match self {
            Number::Nan => 0,
            Number::Infinite { negative } => if negative {
                i32::MIN as int
            } else {
                i32::MAX as int
            },
            Number::Finite(d) => clamp_i32(d.floor()),
        }
    }

    /// Whether the number is at most the integer `bound`; never so for what
    /// is not a number.
    pub open spec fn at_most(self, bound: int) -> bool {
        match self {
            Number::Nan => false,
            Number::Infinite { negative } => negative,
            Number::Finite(d) => d.at_most(bound),
        }
    }

    /// Whether the number is at least the integer `bound`; never so for what
    /// is not a number.
    pub open spec fn at_least(self, bound: int) -> bool {
        match self {
            Number::Nan => false,
            Number::Infinite { negative } => !negative,
            Number::Finite(d) => d.at_least(bound),
        }
    }

    /// Computes `block`.
    pub fn to_block(&self) -> (r: i32)
        ensures
            r as int == self.block(),
    {
        match self {
            Number::Nan => 0,
            Number::Infinite { negative } => if *negative {
                i32::MIN
            } else {
                i32::MAX
            },
            Number::Finite(d) => d.floor_i32(),
        }
    }

    /// Computes `at_most`.
    pub fn is_at_most(&self, bound: i16) -> (r: bool)
        ensures
            r == self.at_most(bound as int),
    {
        match self {
            Number::Nan => false,
            Number::Infinite { negative } => *negative,
            Number::Finite(d) => {
                let floor = d.floor_i32();
                let (_whole, fraction) = d.parts();
                let limit: i32 = bound as i32;
                floor < limit || (floor == limit && !fraction)
            },
        }
    }

    /// Computes `at_least`.
    pub fn is_at_least(&self, bound: i16) -> (r: bool)
        ensures
            r == self.at_least(bound as int),
    {
        match self {
            Number::Nan => false,
            Number::Infinite { negative } => !*negative,
            Number::Finite(d) => d.floor_i32() >= bound as i32,
        }
    }
}

/// An IEEE 754 binary32 value, held by its bit pattern.
#[derive(Clone, Copy, PartialEq, Eq, Structural, Debug)]
pub struct Binary32 {
    pub bits: u32,
}

/// An IEEE 754 binary64 value, held by its bit pattern.
#[derive(Clone, Copy, PartialEq, Eq, Structural, Debug)]
pub struct Binary64 {
    pub bits: u64,
}

impl Binary32 {
    /// What the pattern denotes: a sign bit, eight bits of exponent biased
    /// by 127, and twenty-three bits of fraction.
    pub open spec fn value(self) -> Number {
        let negative = self.bits >= 0x8000_0000;
        let field = (self.bits / 0x80_0000) % 0x100;
        let fraction = self.bits % 0x80_0000;
        if field == 0xff {
            if fraction == 0 {
                Number::Infinite { negative }
            } else {
                Number::Nan
            }
        } else if field == 0 {
            Number::Finite(Dyadic { negative, significand: fraction as u64, exponent: (-149) as i32 })
        } else {
            Number::Finite(
                Dyadic {
                    negative,
                    significand: (fraction + 0x80_0000) as u64,
                    exponent: (field - 150) as i32,
                },
            )
        }
    }

    /// Decodes the pattern.
    pub fn decode(&self) -> (n: Number)
        ensures
            n == self.value(),
    {
        let negative = self.bits >= 0x8000_0000;
        let field: u32 = (self.bits / 0x80_0000) % 0x100;
        let fraction: u32 = self.bits % 0x80_0000;
        if field == 0xff {
            if fraction == 0 {
                Number::Infinite { negative }
            } else {
                Number::Nan
            }
        } else if field == 0 {
            Number::Finite(Dyadic { negative, significand: fraction as u64, exponent: -149 })
        } else {
            Number::Finite(
                Dyadic {
                    negative,
                    significand: (fraction + 0x80_0000) as u64,
                    exponent: field as i32 - 150,
                },
            )
        }
    }
}

impl Binary64 {
    /// What the pattern denotes: a sign bit, eleven bits of exponent biased
    /// by 1023, and fifty-two bits of fraction.
    pub open spec fn value(self) -> Number {
        let negative = self.bits >= 0x8000_0000_0000_0000;
        let field = (self.bits / 0x10_0000_0000_0000) % 0x800;
        let fraction = self.bits % 0x10_0000_0000_0000;
        if field == 0x7ff {
            if fraction == 0 {
                Number::Infinite { negative }
            } else {
                Number::Nan
            }
        } else if field == 0 {
            Number::Finite(Dyadic { negative, significand: fraction as u64, exponent: (-1074) as i32 })
        } else {
            Number::Finite(
                Dyadic {
                    negative,
                    significand: (fraction + 0x10_0000_0000_0000) as u64,
                    exponent: (field - 1075) as i32,
                },
            )
        }
    }

    /// Decodes the pattern.
    pub fn decode(&self) -> (n: Number)
        ensures
            n == self.value(),
    {
        let negative = self.bits >= 0x8000_0000_0000_0000;
        let field: u64 = (self.bits / 0x10_0000_0000_0000) % 0x800;
        let fraction: u64 = self.bits % 0x10_0000_0000_0000;
        if field == 0x7ff {
            if fraction == 0 {
                Number::Infinite { negative }
            } else {
                Number::Nan
            }
        } else if field == 0 {
            Number::Finite(Dyadic { negative, significand: fraction, exponent: -1074 })
        } else {
            Number::Finite(
                Dyadic {
                    negative,
                    significand: fraction + 0x10_0000_0000_0000,
                    exponent: field as i32 - 1075,
                },
            )
        }
    }
}

/// The significand with the sign of the number.
pub open spec fn signed_significand(d: Dyadic) -> int {
    if d.negative {
        -(d.significand as int)
    } else {
        d.significand as int
    }
}

/// The floor is what its name says. A number with an exponent of at least 0
/// is an integer, and its floor is the number. A number with an exponent
/// `-s` below 0 is its significand over `2^s`: the floor is the one integer
/// `f` with `f <= number < f + 1`, which reads `f * 2^s <= significand <
/// (f + 1) * 2^s` once both sides are multiplied by `2^s`. The number has a
/// fraction just where it is not its floor.
pub proof fn lemma_floor_bounds(d: Dyadic)
    ensures
        d.exponent >= 0 ==> d.floor() == signed_significand(d) * pow2(d.exponent as nat)
            && !d.has_fraction(),
        d.exponent < 0 ==> {
            let unit = pow2((0 - d.exponent) as nat) as int;
            &&& d.floor() * unit <= signed_significand(d) < (d.floor() + 1) * unit
            &&& d.has_fraction() <==> d.floor() * unit != signed_significand(d)
        },
{
    if d.exponent >= 0 {
        let unit = pow2(d.exponent as nat) as int;
        let sig = d.significand as int;
        assert((-sig) * unit == -(sig * unit)) by (nonlinear_arith);
    } else {
        let unit = pow2((0 - d.exponent) as nat) as int;
        lemma_pow2_pos((0 - d.exponent) as nat);
        let sig = d.significand as int;
        let whole = sig / unit;
        let rest = sig % unit;
        lemma_fundamental_div_mod(sig, unit);
        lemma_mod_bound(sig, unit);
        assert(sig == unit * whole + rest);
        assert(whole * unit == unit * whole) by (nonlinear_arith);
        assert((whole + 1) * unit == unit * whole + unit) by (nonlinear_arith);
        assert((-whole) * unit == -(unit * whole)) by (nonlinear_arith);
        assert((-whole - 1) * unit == -(unit * whole) - unit) by (nonlinear_arith);
        assert((-whole + 1) * unit == -(unit * whole) + unit) by (nonlinear_arith);
    }
}

} // verus!
