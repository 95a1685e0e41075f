use vstd::prelude::*;

verus! {

/// 10 raised to `n`, for relating decimal mantissas at different scales.
pub open spec fn pow10(n: nat) -> nat
    decreases n,
{
    if n == 0 {
        1
    } else {
        10 * pow10((n - 1) as nat)
    }
}

/// An exact decimal number: the value `mantissa / 10^scale`, negated when
/// `negative` is set.  Salaries are carried as such values so that no
/// floating-point rounding can occur.
///
/// A well-formed `Decimal` is in canonical form (no trailing zero digit in
/// the fractional part, no negative zero), so structural equality coincides
/// with equality of the represented numbers.
#[derive(Clone, Copy, Debug, PartialEq, Eq, Structural)]
pub struct Decimal {
    pub negative: bool,
    pub mantissa: u128,
    pub scale: u32,
}

impl Decimal {
    /// Canonical form: the fractional part does not end in a zero digit,
    /// and zero is never marked negative.
    pub open spec fn wf(self) -> bool {
        &&& self.scale > 0 ==> self.mantissa % 10 != 0
        &&& self.negative ==> self.mantissa != 0
    }

    /// The signed mantissa, as a mathematical integer.
    pub open spec fn signed(self) -> int {
        if self.negative {
            -(self.mantissa as int)
        } else {
            self.mantissa as int
        }
    }

    /// Two decimals denote the same number exactly when the cross products
    /// of their signed mantissas and scales agree.
    pub open spec fn same_value(self, other: Decimal) -> bool {
        self.signed() * pow10(other.scale as nat) == other.signed() * pow10(self.scale as nat)
    }

    /// Builds the canonical decimal denoting `mantissa / 10^scale`
    /// (negated when `negative` is set).
    pub fn new(negative: bool, mantissa: u128, scale: u32) -> (r: Decimal)
        ensures
            r.wf(),
            r.same_value(Decimal { negative, mantissa, scale }),
    {
        let mut m: u128 = mantissa;
        let mut s: u32 = scale;
        while s > 0 && m % 10 == 0
            invariant
                (m as int) * pow10(scale as nat) == (mantissa as int) * pow10(s as nat),
                mantissa != 0 ==> m != 0,
                s <= scale,
            decreases s,
        {
            let m10: u128 = m / 10;
            proof {
                assert(m == 10 * m10) by {
                    assert(m % 10 == 0);
                };
                assert((10 * m10) as int * pow10(scale as nat) == 10 * (m10 as int * pow10(
                    scale as nat,
                ))) by (nonlinear_arith);
                assert((mantissa as int) * pow10(s as nat) == 10 * ((mantissa as int) * pow10(
                    (s - 1) as nat,
                ))) by {
                    assert(pow10(s as nat) == 10 * pow10((s - 1) as nat));
                    assert((mantissa as int) * (10 * pow10((s - 1) as nat)) == 10 * ((
                    mantissa as int) * pow10((s - 1) as nat))) by (nonlinear_arith);
                };
            }
            m = m10;
            s = s - 1;
        }
        let r = Decimal { negative: negative && m != 0, mantissa: m, scale: s };
        proof {
            if negative {
                assert((-(m as int)) * pow10(scale as nat) == (-(mantissa as int)) * pow10(
                    s as nat,
                )) by (nonlinear_arith)
                    requires
                        (m as int) * pow10(scale as nat) == (mantissa as int) * pow10(s as nat),
                ;
            }
        }
        r
    }
}

pub proof fn lemma_pow10_pos(n: nat)
    ensures
        pow10(n) >= 1,
    decreases n,
{
    if n > 0 {
        lemma_pow10_pos((n - 1) as nat);
    }
}

pub proof fn lemma_pow10_adds(m: nat, n: nat)
    ensures
        pow10(m + n) == pow10(m) * pow10(n),
    decreases m,
{
    if m == 0 {
        assert(pow10(m) == 1);
        assert(pow10(m + n) == pow10(n));
    } else {
        lemma_pow10_adds((m - 1) as nat, n);
        assert(pow10(m + n) == 10 * pow10((m - 1) as nat + n));
        assert(pow10(m) == 10 * pow10((m - 1) as nat));
        assert(10 * (pow10((m - 1) as nat) * pow10(n)) == (10 * pow10((m - 1) as nat)) * pow10(n))
            by (nonlinear_arith);
        assert(pow10(m + n) == 10 * (pow10((m - 1) as nat) * pow10(n)));
        assert(pow10(m + n) == (10 * pow10((m - 1) as nat)) * pow10(n));
        assert(pow10(m + n) == pow10(m) * pow10(n));
    }
}

/// No canonical mantissa carries a factor of ten: if two positive
/// mantissas denote the same number at ordered scales, and the larger
/// scale is canonical, the scales and the mantissas coincide.
proof fn lemma_mantissa_unique(ma: nat, sa: nat, mb: nat, sb: nat)
    requires
        ma * pow10(sb) == mb * pow10(sa),
        ma > 0,
        mb > 0,
        sa <= sb,
        sb > sa ==> mb % 10 != 0,
    ensures
        sa == sb,
        ma == mb,
{
    let d = (sb - sa) as nat;
    lemma_pow10_adds(sa, d);
    lemma_pow10_pos(sa);
    lemma_pow10_pos(d);
    assert(pow10(sb) == pow10(sa) * pow10(d));
    assert(ma * pow10(d) == mb) by (nonlinear_arith)
        requires
            ma * (pow10(sa) * pow10(d)) == mb * pow10(sa),
            pow10(sa) >= 1,
    ;
    if d > 0 {
        assert(pow10(d) == 10 * pow10((d - 1) as nat));
        assert(mb == 10 * (ma * pow10((d - 1) as nat))) by (nonlinear_arith)
            requires
                ma * pow10(d) == mb,
                pow10(d) == 10 * pow10((d - 1) as nat),
        ;
        assert(mb % 10 == 0) by (nonlinear_arith)
            requires
                mb == 10 * (ma * pow10((d - 1) as nat)),
        ;
        assert(false);
    }
    assert(pow10(d) == 1);
    assert(ma == mb) by (nonlinear_arith)
        requires
            ma * pow10(d) == mb,
            pow10(d) == 1,
    ;
}

/// Canonical forms are unique: two well-formed decimals that denote the
/// same number are equal, so structural equality of salaries coincides
/// with equality of the numbers they carry.
pub proof fn lemma_canonical_unique(a: Decimal, b: Decimal)
    requires
        a.wf(),
        b.wf(),
        a.same_value(b),
    ensures
        a == b,
{
    let pa = pow10(a.scale as nat) as int;
    let pb = pow10(b.scale as nat) as int;
    let sa = a.signed();
    let sb = b.signed();
    lemma_pow10_pos(a.scale as nat);
    lemma_pow10_pos(b.scale as nat);
    if a.mantissa == 0 {
        assert(sa == 0);
        assert(sb == 0) by (nonlinear_arith)
            requires
                sb * pa == sa * pb,
                sa == 0,
                pa >= 1,
        ;
        assert(b.mantissa == 0);
        assert(a.scale == 0 && b.scale == 0);
        assert(!a.negative && !b.negative);
    } else {
        assert(sa != 0);
        assert(sb != 0) by (nonlinear_arith)
            requires
                sb * pa == sa * pb,
                sa != 0,
                pa >= 1,
                pb >= 1,
        ;
        assert(b.mantissa != 0);
        assert(a.negative == b.negative) by (nonlinear_arith)
            requires
                sb * pa == sa * pb,
                pa >= 1,
                pb >= 1,
                sa != 0,
                sb != 0,
                a.negative ==> sa < 0,
                !a.negative ==> sa > 0,
                b.negative ==> sb < 0,
                !b.negative ==> sb > 0,
        ;
        let ma = a.mantissa as nat;
        let mb = b.mantissa as nat;
        assert(ma * pow10(b.scale as nat) == mb * pow10(a.scale as nat)) by (nonlinear_arith)
            requires
                sa * pb == sb * pa,
                a.negative ==> sa == -(ma as int),
                !a.negative ==> sa == ma as int,
                b.negative ==> sb == -(mb as int),
                !b.negative ==> sb == mb as int,
                a.negative == b.negative,
                pa == pow10(a.scale as nat),
                pb == pow10(b.scale as nat),
        ;
        if a.scale <= b.scale {
            lemma_mantissa_unique(ma, a.scale as nat, mb, b.scale as nat);
        } else {
            lemma_mantissa_unique(mb, b.scale as nat, ma, a.scale as nat);
        }
    }
}

} // verus!
