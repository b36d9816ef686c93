use vstd::prelude::*;

verus! {

/// Mathematical value of a scalar: an exact fraction `num / den` over the
/// unbounded integers, with `den > 0`. Two values denote the same rational
/// exactly when they are `eqv`.
pub ghost struct RatModel {
    pub num: int,
    pub den: int,
}

impl RatModel {
    pub open spec fn wf(self) -> bool {
        0 < self.den
    }

    /// `self` and `other` denote the same rational: cross-multiplication.
    pub open spec fn eqv(self, other: RatModel) -> bool {
        self.num * other.den == other.num * self.den
    }

    pub open spec fn add(self, other: RatModel) -> RatModel {
        RatModel {
            num: self.num * other.den + other.num * self.den,
            den: self.den * other.den,
        }
    }

    pub open spec fn mul(self, other: RatModel) -> RatModel {
        RatModel { num: self.num * other.num, den: self.den * other.den }
    }

    pub open spec fn neg(self) -> RatModel {
        RatModel { num: -self.num, den: self.den }
    }

    /// Reciprocal, with the sign kept on the numerator so that `den > 0`.
    pub open spec fn recip(self) -> RatModel {
        if self.num >= 0 {
            RatModel { num: self.den, den: self.num }
        } else {
            RatModel { num: -self.den, den: -self.num }
        }
    }

    pub open spec fn is_zero(self) -> bool {
        self.num == 0
    }

    pub open spec fn is_one(self) -> bool {
        self.num == self.den
    }
}

pub open spec fn rat_zero() -> RatModel {
    RatModel { num: 0, den: 1 }
}

pub open spec fn rat_one() -> RatModel {
    RatModel { num: 1, den: 1 }
}

/// An exact rational scalar: the engine's stand-in for a real coordinate.
/// Well-formed values keep the denominator positive; the numerator stays
/// above `i128::MIN` so that negation is always representable.
#[derive(Clone, Copy, PartialEq, Eq, Structural, Debug)]
pub struct Rat {
    pub num: i128,
    pub den: i128,
}

impl View for Rat {
    type V = RatModel;

    open spec fn view(&self) -> RatModel {
        RatModel { num: self.num as int, den: self.den as int }
    }
}

/// The exact sum of `a` and `b` is representable in `i128` fields.
pub open spec fn add_fits(a: Rat, b: Rat) -> bool {
    &&& i128::MIN < a.num * b.den <= i128::MAX
    &&& i128::MIN < b.num * a.den <= i128::MAX
    &&& i128::MIN < a.num * b.den + b.num * a.den <= i128::MAX
    &&& a.den * b.den <= i128::MAX
}

/// The exact product of `a` and `b` is representable in `i128` fields.
pub open spec fn mul_fits(a: Rat, b: Rat) -> bool {
    &&& i128::MIN < a.num * b.num <= i128::MAX
    &&& a.den * b.den <= i128::MAX
}

impl Rat {
    pub open spec fn wf(self) -> bool {
        &&& 0 < self.den
        &&& i128::MIN < self.num
    }

    /// `num / den`, normalised so that the denominator is positive.
    pub fn new(num: i64, den: i64) -> (r: Rat)
        requires
            den != 0,
        ensures
            r.wf(),
            den > 0 ==> r@ == (RatModel { num: num as int, den: den as int }),
            den < 0 ==> r@ == (RatModel { num: -(num as int), den: -(den as int) }),
    {
        let n = num as i128;
        let d = den as i128;
        if d > 0 {
            Rat { num: n, den: d }
        } else {
            Rat { num: -n, den: -d }
        }
    }

    /// The integer `i` as a rational.
    pub fn from_int(i: i64) -> (r: Rat)
        ensures
            r.wf(),
            r@ == (RatModel { num: i as int, den: 1 }),
    {
        Rat { num: i as i128, den: 1 }
    }

    pub fn add(self, other: Rat) -> (r: Rat)
        requires
            self.wf(),
            other.wf(),
            add_fits(self, other),
        ensures
            r.wf(),
            r@ == self@.add(other@),
    {
        proof {
            assert(0 < self.den * other.den) by (nonlinear_arith)
                requires
                    0 < self.den,
                    0 < other.den,
            ;
        }
        Rat { num: self.num * other.den + other.num * self.den, den: self.den * other.den }
    }

    pub fn mul(self, other: Rat) -> (r: Rat)
        requires
            self.wf(),
            other.wf(),
            mul_fits(self, other),
        ensures
            r.wf(),
            r@ == self@.mul(other@),
    {
        proof {
            assert(0 < self.den * other.den) by (nonlinear_arith)
                requires
                    0 < self.den,
                    0 < other.den,
            ;
        }
        Rat { num: self.num * other.num, den: self.den * other.den }
    }

    pub fn neg(self) -> (r: Rat)
        requires
            self.wf(),
        ensures
            r.wf(),
            r@ == self@.neg(),
    {
        Rat { num: -self.num, den: self.den }
    }

    pub fn recip(self) -> (r: Rat)
        requires
            self.wf(),
            self.num != 0,
        ensures
            r.wf(),
            r@ == self@.recip(),
    {
        if self.num > 0 {
            Rat { num: self.den, den: self.num }
        } else {
            Rat { num: -self.den, den: -self.num }
        }
    }

    /// Whether both operands are small enough for `add` to be exact.
    pub fn can_add(self, other: Rat) -> (b: bool)
        requires
            self.wf(),
            other.wf(),
        ensures
            b == add_fits(self, other),
    {
        let n1 = self.num.checked_mul(other.den);
        let n2 = other.num.checked_mul(self.den);
        let d = self.den.checked_mul(other.den);
        match (n1, n2, d) {
            (Some(p1), Some(p2), Some(_)) => {
                if p1 > i128::MIN && p2 > i128::MIN {
                    match p1.checked_add(p2) {
                        Some(s) => s > i128::MIN,
                        None => false,
                    }
                } else {
                    false
                }
            },
            _ => false,
        }
    }
}

/// `eqv` is transitive on well-formed values.
pub proof fn lemma_eqv_trans(a: RatModel, b: RatModel, c: RatModel)
    requires
        a.wf(),
        b.wf(),
        c.wf(),
        a.eqv(b),
        b.eqv(c),
    ensures
        a.eqv(c),
{
    assert(a.num * c.den == c.num * a.den) by (nonlinear_arith)
        requires
            a.num * b.den == b.num * a.den,
            b.num * c.den == c.num * b.den,
            0 < b.den,
    ;
}

/// Addition keeps denominators positive.
pub proof fn lemma_add_wf(a: RatModel, b: RatModel)
    requires
        a.wf(),
        b.wf(),
    ensures
        a.add(b).wf(),
{
    assert(0 < a.den * b.den) by (nonlinear_arith)
        requires
            0 < a.den,
            0 < b.den,
    ;
}

/// Multiplication keeps denominators positive.
pub proof fn lemma_mul_wf(a: RatModel, b: RatModel)
    requires
        a.wf(),
        b.wf(),
    ensures
        a.mul(b).wf(),
{
    assert(0 < a.den * b.den) by (nonlinear_arith)
        requires
            0 < a.den,
            0 < b.den,
    ;
}

/// Multiplying by a zero-valued rational gives a zero-valued rational.
pub proof fn lemma_zero_mul(v: RatModel)
    requires
        v.wf(),
    ensures
        rat_zero().mul(v).is_zero(),
        rat_zero().mul(v).wf(),
{
    assert(0 * v.num == 0) by (nonlinear_arith);
    assert(1 * v.den == v.den) by (nonlinear_arith);
}

/// Adding a zero-valued rational does not change the value denoted.
pub proof fn lemma_add_zero(a: RatModel, z: RatModel)
    requires
        a.wf(),
        z.wf(),
        z.is_zero(),
    ensures
        a.add(z).eqv(a),
{
    assert((a.num * z.den + z.num * a.den) * a.den == a.num * (a.den * z.den))
        by (nonlinear_arith)
        requires
            z.num == 0,
    ;
}

#[verifier::rlimit(100)]
proof fn lemma_add_zero_left_parts(zn: int, zd: int, an: int, ad: int)
    by (nonlinear_arith)
    requires
        zn == 0,
    ensures
        (zn * ad + an * zd) * ad == an * (zd * ad),
{
}

/// Adding to a zero-valued rational does not change the value denoted.
pub proof fn lemma_add_zero_left(z: RatModel, a: RatModel)
    requires
        a.wf(),
        z.wf(),
        z.is_zero(),
    ensures
        z.add(a).eqv(a),
{
    lemma_add_zero_left_parts(z.num, z.den, a.num, a.den);
}

#[verifier::rlimit(100)]
proof fn lemma_add_congr_parts(an: int, ad: int, cn: int, cd: int, bn: int, bd: int)
    by (nonlinear_arith)
    requires
        an * cd == cn * ad,
    ensures
        (an * bd + bn * ad) * (cd * bd) == (cn * bd + bn * cd) * (ad * bd),
{
}

/// Replacing the left operand of `add` by an `eqv` value gives an `eqv` sum.
pub proof fn lemma_add_congr_left(a: RatModel, a2: RatModel, b: RatModel)
    requires
        a.wf(),
        a2.wf(),
        b.wf(),
        a.eqv(a2),
    ensures
        a.add(b).eqv(a2.add(b)),
{
    lemma_add_congr_parts(a.num, a.den, a2.num, a2.den, b.num, b.den);
}

/// Replacing the right operand of `mul` by an `eqv` value gives an `eqv` product.
pub proof fn lemma_mul_congr_right(a: RatModel, b: RatModel, b2: RatModel)
    requires
        a.wf(),
        b.wf(),
        b2.wf(),
        b.eqv(b2),
    ensures
        a.mul(b).eqv(a.mul(b2)),
{
    assert((a.num * b.num) * (a.den * b2.den) == (a.num * b2.num) * (a.den * b.den))
        by (nonlinear_arith)
        requires
            b.num * b2.den == b2.num * b.den,
    ;
}

/// The reciprocal of a nonzero value is well-formed.
pub proof fn lemma_recip_wf(s: RatModel)
    requires
        s.wf(),
        !s.is_zero(),
    ensures
        s.recip().wf(),
{
}

#[verifier::rlimit(100)]
proof fn lemma_recip_cancel_parts(pn: int, pd: int, sn: int, sd: int, rn: int, rd: int)
    by (nonlinear_arith)
    requires
        rn * sn == rd * sd,
    ensures
        (rn * (sn * pn)) * pd == pn * (rd * (sd * pd)),
{
}

/// Scaling by `s` and then by its reciprocal denotes the original value.
pub proof fn lemma_recip_cancel(p: RatModel, s: RatModel)
    requires
        p.wf(),
        s.wf(),
        !s.is_zero(),
    ensures
        s.recip().mul(s.mul(p)).eqv(p),
{
    let r = s.recip();
    assert(r.num * s.num == r.den * s.den) by (nonlinear_arith)
        requires
            (r.num == s.den && r.den == s.num) || (r.num == -s.den && r.den == -s.num),
    ;
    lemma_recip_cancel_parts(p.num, p.den, s.num, s.den, r.num, r.den);
}

#[verifier::rlimit(100)]
proof fn lemma_mul_one_parts(an: int, ad: int, yn: int, yd: int)
    by (nonlinear_arith)
    requires
        an == ad,
    ensures
        (an * yn) * yd == yn * (ad * yd),
{
}

/// Multiplying on the left by a value equal to one keeps the value denoted.
pub proof fn lemma_mul_one_left(a: RatModel, y: RatModel)
    requires
        a.wf(),
        y.wf(),
        a.is_one(),
    ensures
        a.mul(y).eqv(y),
{
    lemma_mul_one_parts(a.num, a.den, y.num, y.den);
}

#[verifier::rlimit(100)]
proof fn lemma_add_sub_parts(pn: int, pd: int, xn: int, xd: int)
    by (nonlinear_arith)
    ensures
        ((pn * xd + xn * pd) * xd + (-xn) * (pd * xd)) * pd == pn * ((pd * xd) * xd),
{
}

/// Adding `x` and then its negation denotes the original value.
pub proof fn lemma_add_sub_cancel(p: RatModel, x: RatModel)
    requires
        p.wf(),
        x.wf(),
    ensures
        p.add(x).add(x.neg()).eqv(p),
{
    lemma_add_sub_parts(p.num, p.den, x.num, x.den);
}

/// Scaling a point, translating it, then applying the reciprocal scale and the
/// negated translation returns the original point, provided that on this axis
/// the translation is zero or the scale is one.
pub proof fn lemma_scale_translate_roundtrip(p: RatModel, s: RatModel, x: RatModel)
    requires
        p.wf(),
        s.wf(),
        x.wf(),
        !s.is_zero(),
        x.is_zero() || s.is_one(),
    ensures
        s.recip().mul(s.mul(p).add(x)).add(x.neg()).eqv(p),
{
    let r = s.recip();
    let sp = s.mul(p);
    let q = sp.add(x);
    let out = r.mul(q).add(x.neg());
    lemma_recip_wf(s);
    lemma_mul_wf(s, p);
    lemma_add_wf(sp, x);
    lemma_mul_wf(r, q);
    lemma_add_wf(r.mul(q), x.neg());
    if x.is_zero() {
        // q denotes s * p, so out denotes recip(s) * (s * p), which is p.
        lemma_add_zero(sp, x);
        lemma_mul_congr_right(r, q, sp);
        lemma_mul_wf(r, sp);
        lemma_add_zero(r.mul(q), x.neg());
        lemma_recip_cancel(p, s);
        lemma_eqv_trans(out, r.mul(q), r.mul(sp));
        lemma_eqv_trans(out, r.mul(sp), p);
    } else {
        // s and recip(s) both denote one, so out denotes (p + x) - x, which is p.
        assert(r.is_one());
        let px = p.add(x);
        lemma_mul_one_left(s, p);
        lemma_add_congr_left(sp, p, x);
        lemma_add_wf(p, x);
        lemma_mul_congr_right(r, q, px);
        lemma_mul_wf(r, px);
        lemma_mul_one_left(r, px);
        lemma_eqv_trans(r.mul(q), r.mul(px), px);
        lemma_add_congr_left(r.mul(q), px, x.neg());
        lemma_add_wf(px, x.neg());
        lemma_add_sub_cancel(p, x);
        lemma_eqv_trans(out, px.add(x.neg()), p);
    }
}

} // verus!
