//! Laws of the library.
//!
//! Most of them are about the conversion formulas in exact arithmetic: they
//! speak of [`exact_run`], the meaning of a list of steps on fractions of
//! integers, and say nothing of an evaluation that rounds. The last ones are
//! about tokens that name no unit and about units of different families.

use crate::error::ErrorView;
use crate::formula::{combine, exact_run, formula, from_base, to_base, Op, Ratio, Step};
use crate::units::{lemma_parsed_unit_has_token, LUnit, TUnit, Unit};
use crate::validate::{validated, ConversionRequest};
use vstd::prelude::*;

verus! {

/// Whether every step of a list is well formed.
pub open spec fn all_wf(steps: Seq<Step>) -> bool {
    forall|i: int| 0 <= i < steps.len() ==> (#[trigger] steps[i]).wf()
}

/// Whether a unit is the Kelvin.
pub open spec fn is_kelvin(unit: Unit) -> bool {
    unit == Unit::Temperature(TUnit::Kelvin)
}

/// The fraction `x + 1/20`.
pub open spec fn plus_a_twentieth(x: Ratio) -> Ratio {
    Ratio { num: 20 * x.num + x.den, den: 20 * x.den }
}

/// Fractions that stand for the same number as a third one stand for the
/// same number.
pub proof fn lemma_same_transitive(a: Ratio, b: Ratio, c: Ratio)
    requires
        b.wf(),
        a.same(b),
        b.same(c),
    ensures
        a.same(c),
{
    assert(a.num * c.den == c.num * a.den) by (nonlinear_arith)
        requires
            b.den > 0,
            a.num * b.den == b.num * a.den,
            b.num * c.den == c.num * b.den,
    {
        assert((a.num * c.den) * b.den == (a.num * b.den) * c.den);
        assert((b.num * a.den) * c.den == (b.num * c.den) * a.den);
        assert((c.num * b.den) * a.den == (c.num * a.den) * b.den);
        assert((a.num * c.den - c.num * a.den) * b.den == 0);
    }
}

/// A well-formed step keeps a fraction well formed.
pub proof fn lemma_step_wf(s: Step, x: Ratio)
    requires
        s.wf(),
        x.wf(),
    ensures
        s.exact(x).wf(),
{
    let n = s.numerator as int;
    let d = s.denominator as int;
    assert(x.den * d > 0) by (nonlinear_arith)
        requires
            x.den > 0,
            d > 0,
    ;
    assert(n > 0 ==> x.den * n > 0) by (nonlinear_arith)
        requires
            x.den > 0,
    ;
}

/// A step takes fractions that stand for the same number to fractions that
/// stand for the same number.
pub proof fn lemma_step_same(s: Step, x: Ratio, y: Ratio)
    requires
        x.same(y),
    ensures
        s.exact(x).same(s.exact(y)),
{
    let n = s.numerator as int;
    let d = s.denominator as int;
    let (xn, xd, yn, yd) = (x.num, x.den, y.num, y.den);
    let cross = xn * yd;
    assert(cross == yn * xd);
    let dens = xd * yd;
    assert(dens == yd * xd) by (nonlinear_arith)
        requires
            dens == xd * yd,
    ;
    assert((xn * d) * (yd * d) == (xn * yd) * (d * d)) by (nonlinear_arith);
    assert((yn * d) * (xd * d) == (yn * xd) * (d * d)) by (nonlinear_arith);
    assert((n * xd) * (yd * d) == (n * d) * (xd * yd)) by (nonlinear_arith);
    assert((n * yd) * (xd * d) == (n * d) * (yd * xd)) by (nonlinear_arith);
    match s.op {
        Op::Add => {
            assert((xn * d + n * xd) * (yd * d) == (xn * d) * (yd * d) + (n * xd) * (yd * d))
                by (nonlinear_arith);
            assert((yn * d + n * yd) * (xd * d) == (yn * d) * (xd * d) + (n * yd) * (xd * d))
                by (nonlinear_arith);
        },
        Op::Sub => {
            assert((xn * d - n * xd) * (yd * d) == (xn * d) * (yd * d) - (n * xd) * (yd * d))
                by (nonlinear_arith);
            assert((yn * d - n * yd) * (xd * d) == (yn * d) * (xd * d) - (n * yd) * (xd * d))
                by (nonlinear_arith);
        },
        Op::Mul => {
            assert((xn * n) * (yd * d) == (xn * yd) * (n * d)) by (nonlinear_arith);
            assert((yn * n) * (xd * d) == (yn * xd) * (n * d)) by (nonlinear_arith);
        },
        Op::Div => {
            assert((xn * d) * (yd * n) == (xn * yd) * (n * d)) by (nonlinear_arith);
            assert((yn * d) * (xd * n) == (yn * xd) * (n * d)) by (nonlinear_arith);
        },
    }
}

/// Well-formed steps keep a fraction well formed.
pub proof fn lemma_run_wf(steps: Seq<Step>, x: Ratio)
    requires
        all_wf(steps),
        x.wf(),
    ensures
        exact_run(steps, x).wf(),
    decreases steps.len(),
{
    if steps.len() > 0 {
        lemma_run_wf(steps.drop_last(), x);
        lemma_step_wf(steps.last(), exact_run(steps.drop_last(), x));
    }
}

/// A list of steps takes fractions that stand for the same number to
/// fractions that stand for the same number.
pub proof fn lemma_run_same(steps: Seq<Step>, x: Ratio, y: Ratio)
    requires
        x.same(y),
    ensures
        exact_run(steps, x).same(exact_run(steps, y)),
    decreases steps.len(),
{
    if steps.len() > 0 {
        lemma_run_same(steps.drop_last(), x, y);
        lemma_step_same(
            steps.last(),
            exact_run(steps.drop_last(), x),
            exact_run(steps.drop_last(), y),
        );
    }
}

/// Running two lists of steps one after the other is running the second on
/// the result of the first.
pub proof fn lemma_run_concat(first: Seq<Step>, second: Seq<Step>, x: Ratio)
    ensures
        exact_run(first + second, x) == exact_run(second, exact_run(first, x)),
    decreases second.len(),
{
    if second.len() == 0 {
        assert(first + second =~= first);
    } else {
        assert((first + second).drop_last() =~= first + second.drop_last());
        assert((first + second).last() == second.last());
        lemma_run_concat(first, second.drop_last(), x);
    }
}

/// What a list of no, one or three steps computes.
proof fn lemma_run_short(a: Step, b: Step, c: Step, x: Ratio)
    ensures
        exact_run(seq![], x) == x,
        exact_run(seq![a], x) == a.exact(x),
        exact_run(seq![a, b, c], x) == c.exact(b.exact(a.exact(x))),
{
    reveal_with_fuel(exact_run, 4);
    assert(seq![a].drop_last() =~= seq![]);
    assert(seq![a, b].drop_last() =~= seq![a]);
    assert(seq![a, b, c].drop_last() =~= seq![a, b]);
}

/// The steps to and from a base unit are all well formed.
pub proof fn lemma_formulas_wf(unit: Unit)
    ensures
        all_wf(to_base(unit)),
        all_wf(from_base(unit)),
{
}

/// For every unit but the Kelvin, going to the base unit and coming back
/// gives the value one started from.
proof fn lemma_to_base_and_back(unit: Unit, x: Ratio)
    requires
        !is_kelvin(unit),
    ensures
        exact_run(from_base(unit), exact_run(to_base(unit), x)).same(x),
{
    let there = to_base(unit);
    let back = from_base(unit);
    let mid = exact_run(there, x);
    let y = exact_run(back, mid);
    if there.len() == 0 {
        assert(there =~= seq![]);
        assert(back =~= seq![]);
        lemma_run_short(arbitrary(), arbitrary(), arbitrary(), x);
    } else if there.len() == 1 {
        assert(there =~= seq![there[0]]);
        assert(back =~= seq![back[0]]);
        lemma_run_short(there[0], arbitrary(), arbitrary(), x);
        lemma_run_short(back[0], arbitrary(), arbitrary(), mid);
        let k: int = if unit == Unit::Length(LUnit::Inches) {
            assert(mid == combine(Op::Mul, 254, 100, x));
            assert(y == combine(Op::Div, 254, 100, mid));
            25400
        } else if unit == Unit::Length(LUnit::Kilometer) {
            assert(mid == combine(Op::Mul, 100000, 1, x));
            assert(y == combine(Op::Div, 100000, 1, mid));
            100000
        } else {
            assert(mid == combine(Op::Mul, 1609344, 10, x));
            assert(y == combine(Op::Div, 1609344, 10, mid));
            16093440
        };
        assert(y.num == k * x.num && y.den == k * x.den);
        assert(y.num * x.den == x.num * y.den) by (nonlinear_arith)
            requires
                y.num == k * x.num && y.den == k * x.den,
        ;
    } else {
        assert(there =~= seq![there[0], there[1], there[2]]);
        assert(back =~= seq![back[0], back[1], back[2]]);
        lemma_run_short(there[0], there[1], there[2], x);
        lemma_run_short(back[0], back[1], back[2], mid);
        let x1 = combine(Op::Sub, 32, 1, x);
        let x2 = combine(Op::Mul, 5, 1, x1);
        let x3 = combine(Op::Div, 9, 1, x2);
        assert(mid == x3);
        let y1 = combine(Op::Mul, 9, 1, x3);
        let y2 = combine(Op::Div, 5, 1, y1);
        let y3 = combine(Op::Add, 32, 1, y2);
        assert(y == y3);
        assert(y.num == 45 * x.num && y.den == 45 * x.den);
        assert(y.num * x.den == x.num * y.den) by (nonlinear_arith)
            requires
                y.num == 45 * x.num && y.den == 45 * x.den,
        ;
    }
}

/// For every unit but the Kelvin, coming from the base unit and going back
/// to it gives the value one started from.
proof fn lemma_from_base_and_back(unit: Unit, x: Ratio)
    requires
        !is_kelvin(unit),
    ensures
        exact_run(to_base(unit), exact_run(from_base(unit), x)).same(x),
{
    let there = from_base(unit);
    let back = to_base(unit);
    let mid = exact_run(there, x);
    let y = exact_run(back, mid);
    if there.len() == 0 {
        assert(there =~= seq![]);
        assert(back =~= seq![]);
        lemma_run_short(arbitrary(), arbitrary(), arbitrary(), x);
    } else if there.len() == 1 {
        assert(there =~= seq![there[0]]);
        assert(back =~= seq![back[0]]);
        lemma_run_short(there[0], arbitrary(), arbitrary(), x);
        lemma_run_short(back[0], arbitrary(), arbitrary(), mid);
        let k: int = if unit == Unit::Length(LUnit::Inches) {
            assert(mid == combine(Op::Div, 254, 100, x));
            assert(y == combine(Op::Mul, 254, 100, mid));
            25400
        } else if unit == Unit::Length(LUnit::Kilometer) {
            assert(mid == combine(Op::Div, 100000, 1, x));
            assert(y == combine(Op::Mul, 100000, 1, mid));
            100000
        } else {
            assert(mid == combine(Op::Div, 1609344, 10, x));
            assert(y == combine(Op::Mul, 1609344, 10, mid));
            16093440
        };
        assert(y.num == k * x.num && y.den == k * x.den);
        assert(y.num * x.den == x.num * y.den) by (nonlinear_arith)
            requires
                y.num == k * x.num && y.den == k * x.den,
        ;
    } else {
        assert(there =~= seq![there[0], there[1], there[2]]);
        assert(back =~= seq![back[0], back[1], back[2]]);
        lemma_run_short(there[0], there[1], there[2], x);
        lemma_run_short(back[0], back[1], back[2], mid);
        let x1 = combine(Op::Mul, 9, 1, x);
        let x2 = combine(Op::Div, 5, 1, x1);
        let x3 = combine(Op::Add, 32, 1, x2);
        assert(mid == x3);
        let y1 = combine(Op::Sub, 32, 1, x3);
        let y2 = combine(Op::Mul, 5, 1, y1);
        let y3 = combine(Op::Div, 9, 1, y2);
        assert(y == y3);
        assert(y.num == 45 * x.num && y.den == 45 * x.den);
        assert(y.num * x.den == x.num * y.den) by (nonlinear_arith)
            requires
                y.num == 45 * x.num && y.den == 45 * x.den,
        ;
    }
}

/// Going from Kelvin to Celsius and coming back adds a twentieth: the way
/// there subtracts 273.1, the way back adds 273.15.
proof fn lemma_kelvin_to_base_and_back(x: Ratio)
    ensures
        exact_run(
            from_base(Unit::Temperature(TUnit::Kelvin)),
            exact_run(to_base(Unit::Temperature(TUnit::Kelvin)), x),
        ).same(plus_a_twentieth(x)),
{
    let there = to_base(Unit::Temperature(TUnit::Kelvin));
    let back = from_base(Unit::Temperature(TUnit::Kelvin));
    let mid = exact_run(there, x);
    let y = exact_run(back, mid);
    assert(there =~= seq![there[0]]);
    assert(back =~= seq![back[0]]);
    lemma_run_short(there[0], arbitrary(), arbitrary(), x);
    lemma_run_short(back[0], arbitrary(), arbitrary(), mid);
    assert(mid == combine(Op::Sub, 2731, 10, x));
    assert(y == combine(Op::Add, 27315, 100, mid));
    let z = plus_a_twentieth(x);
    assert(y.num == 50 * z.num && y.den == 50 * z.den);
    assert(y.num * z.den == z.num * y.den) by (nonlinear_arith)
        requires
            y.num == 50 * z.num && y.den == 50 * z.den,
    ;
}

/// Coming from Celsius to Kelvin and going back adds a twentieth.
proof fn lemma_kelvin_from_base_and_back(x: Ratio)
    ensures
        exact_run(
            to_base(Unit::Temperature(TUnit::Kelvin)),
            exact_run(from_base(Unit::Temperature(TUnit::Kelvin)), x),
        ).same(plus_a_twentieth(x)),
{
    let there = from_base(Unit::Temperature(TUnit::Kelvin));
    let back = to_base(Unit::Temperature(TUnit::Kelvin));
    let mid = exact_run(there, x);
    let y = exact_run(back, mid);
    assert(there =~= seq![there[0]]);
    assert(back =~= seq![back[0]]);
    lemma_run_short(there[0], arbitrary(), arbitrary(), x);
    lemma_run_short(back[0], arbitrary(), arbitrary(), mid);
    assert(mid == combine(Op::Add, 27315, 100, x));
    assert(y == combine(Op::Sub, 2731, 10, mid));
    let z = plus_a_twentieth(x);
    assert(y.num == 50 * z.num && y.den == 50 * z.den);
    assert(y.num * z.den == z.num * y.den) by (nonlinear_arith)
        requires
            y.num == 50 * z.num && y.den == 50 * z.den,
    ;
}

/// Converting from a unit to another and back again, when the way there
/// and the way back through the middle unit cancel: the result is what
/// going from the first unit to its base and back gives.
proof fn lemma_round_trip_cancels_middle(from_unit: Unit, to_unit: Unit, x: Ratio)
    requires
        x.wf(),
        from_unit.spec_family() == to_unit.spec_family(),
        !is_kelvin(to_unit),
    ensures
        exact_run(
            formula(to_unit, from_unit).unwrap(),
            exact_run(formula(from_unit, to_unit).unwrap(), x),
        ).same(exact_run(from_base(from_unit), exact_run(to_base(from_unit), x))),
{
    let base = exact_run(to_base(from_unit), x);
    let there = exact_run(from_base(to_unit), base);
    let base_again = exact_run(to_base(to_unit), there);
    lemma_run_concat(to_base(from_unit), from_base(to_unit), x);
    lemma_run_concat(to_base(to_unit), from_base(from_unit), there);
    lemma_from_base_and_back(to_unit, base);
    lemma_run_same(from_base(from_unit), base_again, base);
}

/// Identity in exact arithmetic: converting a value from a unit to that
/// same unit gives the value back, for every unit but the Kelvin.
pub proof fn lemma_identity_conversion(unit: Unit, x: Ratio)
    requires
        x.wf(),
        !is_kelvin(unit),
    ensures
        formula(unit, unit) is Some,
        exact_run(formula(unit, unit).unwrap(), x).same(x),
{
    lemma_run_concat(to_base(unit), from_base(unit), x);
    lemma_to_base_and_back(unit, x);
}

/// Round trip in exact arithmetic: converting a value to another unit of
/// the same family and converting the result back gives the value one
/// started from, whenever neither unit is the Kelvin.
pub proof fn lemma_round_trip(from_unit: Unit, to_unit: Unit, x: Ratio)
    requires
        x.wf(),
        from_unit.spec_family() == to_unit.spec_family(),
        !is_kelvin(from_unit),
        !is_kelvin(to_unit),
    ensures
        formula(from_unit, to_unit) is Some,
        formula(to_unit, from_unit) is Some,
        exact_run(
            formula(to_unit, from_unit).unwrap(),
            exact_run(formula(from_unit, to_unit).unwrap(), x),
        ).same(x),
{
    let there = exact_run(formula(from_unit, to_unit).unwrap(), x);
    let back = exact_run(formula(to_unit, from_unit).unwrap(), there);
    let direct = exact_run(from_base(from_unit), exact_run(to_base(from_unit), x));
    lemma_round_trip_cancels_middle(from_unit, to_unit, x);
    lemma_to_base_and_back(from_unit, x);
    lemma_formulas_wf(from_unit);
    lemma_run_wf(to_base(from_unit), x);
    lemma_run_wf(from_base(from_unit), exact_run(to_base(from_unit), x));
    lemma_same_transitive(back, direct, x);
}

/// The Kelvin does not convert to itself exactly: the result is a
/// twentieth more than the value, because the offset subtracted on the way
/// to Celsius is 273.1 and the offset added on the way back is 273.15.
pub proof fn lemma_kelvin_identity_drifts(x: Ratio)
    requires
        x.wf(),
    ensures
        exact_run(
            formula(Unit::Temperature(TUnit::Kelvin), Unit::Temperature(TUnit::Kelvin)).unwrap(),
            x,
        ).same(plus_a_twentieth(x)),
{
    let kelvin = Unit::Temperature(TUnit::Kelvin);
    lemma_run_concat(to_base(kelvin), from_base(kelvin), x);
    lemma_kelvin_to_base_and_back(x);
}

/// A value in Kelvin converted to another temperature unit and back comes
/// out a twentieth higher than it went in.
pub proof fn lemma_round_trip_from_kelvin_drifts(other: TUnit, x: Ratio)
    requires
        x.wf(),
        other != TUnit::Kelvin,
    ensures
        exact_run(
            formula(Unit::Temperature(other), Unit::Temperature(TUnit::Kelvin)).unwrap(),
            exact_run(
                formula(Unit::Temperature(TUnit::Kelvin), Unit::Temperature(other)).unwrap(),
                x,
            ),
        ).same(plus_a_twentieth(x)),
{
    let kelvin = Unit::Temperature(TUnit::Kelvin);
    let to_unit = Unit::Temperature(other);
    let there = exact_run(formula(kelvin, to_unit).unwrap(), x);
    let back = exact_run(formula(to_unit, kelvin).unwrap(), there);
    let direct = exact_run(from_base(kelvin), exact_run(to_base(kelvin), x));
    lemma_round_trip_cancels_middle(kelvin, to_unit, x);
    lemma_kelvin_to_base_and_back(x);
    lemma_formulas_wf(kelvin);
    lemma_run_wf(to_base(kelvin), x);
    lemma_run_wf(from_base(kelvin), exact_run(to_base(kelvin), x));
    lemma_same_transitive(back, direct, plus_a_twentieth(x));
}

/// A value in Celsius converted to Kelvin and back comes out a twentieth
/// higher than it went in.
pub proof fn lemma_round_trip_through_kelvin_drifts(x: Ratio)
    requires
        x.wf(),
    ensures
        exact_run(
            formula(Unit::Temperature(TUnit::Kelvin), Unit::Temperature(TUnit::Celsius)).unwrap(),
            exact_run(
                formula(
                    Unit::Temperature(TUnit::Celsius),
                    Unit::Temperature(TUnit::Kelvin),
                ).unwrap(),
                x,
            ),
        ).same(plus_a_twentieth(x)),
{
    let kelvin = Unit::Temperature(TUnit::Kelvin);
    let celsius = Unit::Temperature(TUnit::Celsius);
    assert(to_base(celsius) =~= seq![]);
    assert(from_base(celsius) =~= seq![]);
    assert(formula(celsius, kelvin).unwrap() =~= from_base(kelvin));
    assert(formula(kelvin, celsius).unwrap() =~= to_base(kelvin));
    lemma_kelvin_from_base_and_back(x);
}

/// A token that is the token of no unit names no unit.
pub proof fn lemma_unknown_token_names_no_unit(token: Seq<char>)
    requires
        forall|unit: Unit| token != #[trigger] unit.token(),
    ensures
        Unit::parse(token) is None,
{
    if Unit::parse(token) is Some {
        lemma_parsed_unit_has_token(token, Unit::parse(token).unwrap());
    }
}

/// A request that lacks nothing and whose value is a number fails as an
/// unsupported unit exactly when one of its two tokens names no unit, and
/// the error then carries the first token that names none.
pub proof fn lemma_unknown_unit_fails_validation<V>(
    from: Seq<char>,
    to: Seq<char>,
    value: Seq<char>,
    number: V,
)
    ensures
        Unit::parse(from) is None ==> validated(Some(from), Some(to), Some(value), Some(number))
            == Err::<ConversionRequest<V>, ErrorView>(ErrorView::UnsupportedUnit(from)),
        Unit::parse(from) is Some && Unit::parse(to) is None ==> validated(
            Some(from),
            Some(to),
            Some(value),
            Some(number),
        ) == Err::<ConversionRequest<V>, ErrorView>(ErrorView::UnsupportedUnit(to)),
        Unit::parse(from) is Some && Unit::parse(to) is Some ==> validated(
            Some(from),
            Some(to),
            Some(value),
            Some(number),
        ) is Ok,
{
}

/// Units of different families never convert, whichever two they are, and
/// units of the same family always do.
pub proof fn lemma_conversion_needs_one_family(from_unit: Unit, to_unit: Unit)
    ensures
        from_unit.spec_family() != to_unit.spec_family() <==> formula(from_unit, to_unit) is None,
        (from_unit is Temperature && to_unit is Length) ==> formula(from_unit, to_unit) is None,
        (from_unit is Length && to_unit is Temperature) ==> formula(from_unit, to_unit) is None,
{
}

} // verus!
