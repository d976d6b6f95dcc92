//! The conversion engine: for each pair of units of one family, the
//! arithmetic that converts a value, written down as a list of steps.
//!
//! A value is first brought to the base unit of its family (Celsius for
//! temperatures, centimeter for lengths) and from there to the target unit.
//! The engine decides which steps to take; it does not evaluate them, so the
//! caller is free to carry them out in the number type of its choice. What
//! the steps mean in exact arithmetic is given by [`exact_run`].

use crate::error::ErrorKind;
use crate::units::{LUnit, TUnit, Unit};
use vstd::prelude::*;

verus! {

/// One of the four arithmetic operations.
#[derive(Clone, Copy, Debug, PartialEq, Eq, Structural)]
pub enum Op {
    Add,
    Sub,
    Mul,
    Div,
}

/// One arithmetic step: the value so far is combined, by `op`, with the
/// constant `numerator / denominator`, the value so far standing on the left.
#[derive(Clone, Copy, Debug, PartialEq, Eq, Structural)]
pub struct Step {
    pub op: Op,
    pub numerator: u32,
    pub denominator: u32,
}

/// A fraction of two integers, the model of a value in exact arithmetic.
pub struct Ratio {
    pub num: int,
    pub den: int,
}

impl Ratio {
    /// A fraction is well formed when its denominator is positive.
    pub open spec fn wf(self) -> bool {
        self.den > 0
    }

    /// Whether two fractions stand for the same number.
    pub open spec fn same(self, other: Ratio) -> bool {
        self.num * other.den == other.num * self.den
    }
}

impl Step {
    /// A step is well formed when its constant has a positive denominator
    /// and, for a division, is not zero.
    pub open spec fn wf(self) -> bool {
        self.denominator > 0 && (self.op == Op::Div ==> self.numerator > 0)
    }

    /// The step carried out on `x` in exact arithmetic.
    pub open spec fn exact(self, x: Ratio) -> Ratio {
        combine(self.op, self.numerator as int, self.denominator as int, x)
    }
}

/// The fraction `x` combined, by `op`, with the constant `n / d`, in exact
/// arithmetic: `x + n/d`, `x - n/d`, `x * n/d` or `x / (n/d)`.
pub open spec fn combine(op: Op, n: int, d: int, x: Ratio) -> Ratio {
    match op {
        Op::Add => Ratio { num: x.num * d + n * x.den, den: x.den * d },
        Op::Sub => Ratio { num: x.num * d - n * x.den, den: x.den * d },
        Op::Mul => Ratio { num: x.num * n, den: x.den * d },
        Op::Div => Ratio { num: x.num * d, den: x.den * n },
    }
}

/// The steps carried out on `x` one after the other, in exact arithmetic.
pub open spec fn exact_run(steps: Seq<Step>, x: Ratio) -> Ratio
    decreases steps.len(),
{
    if steps.len() == 0 {
        x
    } else {
        steps.last().exact(exact_run(steps.drop_last(), x))
    }
}

/// The step that combines the value, by `op`, with `numerator / denominator`.
pub open spec fn step(op: Op, numerator: u32, denominator: u32) -> Step {
    Step { op, numerator, denominator }
}

/// The steps from a temperature unit to Celsius: from Fahrenheit
/// `(v - 32) * 5 / 9`, from Kelvin `v - 273.1`.
pub open spec fn to_celsius(from_unit: TUnit) -> Seq<Step> {
    match from_unit {
        TUnit::Celsius => seq![],
        TUnit::Fahrenheit => seq![step(Op::Sub, 32, 1), step(Op::Mul, 5, 1), step(Op::Div, 9, 1)],
        TUnit::Kelvin => seq![step(Op::Sub, 2731, 10)],
    }
}

/// The steps from Celsius to a temperature unit: to Fahrenheit
/// `v * 9 / 5 + 32`, to Kelvin `v + 273.15`.
pub open spec fn from_celsius(to_unit: TUnit) -> Seq<Step> {
    match to_unit {
        TUnit::Celsius => seq![],
        TUnit::Fahrenheit => seq![step(Op::Mul, 9, 1), step(Op::Div, 5, 1), step(Op::Add, 32, 1)],
        TUnit::Kelvin => seq![step(Op::Add, 27315, 100)],
    }
}

/// The steps from a length unit to centimeters: an inch is 2.54 cm, a
/// kilometer 100000 cm, a mile 160934.4 cm.
pub open spec fn to_cm(from_unit: LUnit) -> Seq<Step> {
    match from_unit {
        LUnit::Centimeter => seq![],
        LUnit::Inches => seq![step(Op::Mul, 254, 100)],
        LUnit::Kilometer => seq![step(Op::Mul, 100000, 1)],
        LUnit::Miles => seq![step(Op::Mul, 1609344, 10)],
    }
}

/// The steps from centimeters to a length unit.
pub open spec fn from_cm(to_unit: LUnit) -> Seq<Step> {
    match to_unit {
        LUnit::Centimeter => seq![],
        LUnit::Inches => seq![step(Op::Div, 254, 100)],
        LUnit::Kilometer => seq![step(Op::Div, 100000, 1)],
        LUnit::Miles => seq![step(Op::Div, 1609344, 10)],
    }
}

/// The steps from a unit to the base unit of its family.
pub open spec fn to_base(from_unit: Unit) -> Seq<Step> {
    match from_unit {
        Unit::Temperature(t) => to_celsius(t),
        Unit::Length(l) => to_cm(l),
    }
}

/// The steps from the base unit of a unit's family to that unit.
pub open spec fn from_base(to_unit: Unit) -> Seq<Step> {
    match to_unit {
        Unit::Temperature(t) => from_celsius(t),
        Unit::Length(l) => from_cm(l),
    }
}

/// The steps that convert a value from one unit to another of the same
/// family: those to the base unit, then those from it. Between units of
/// different families there is no conversion.
pub open spec fn formula(from_unit: Unit, to_unit: Unit) -> Option<Seq<Step>> {
    if from_unit.spec_family() == to_unit.spec_family() {
        Some(to_base(from_unit) + from_base(to_unit))
    } else {
        None
    }
}

/// The steps from a temperature unit to Celsius.
pub fn other_to_celsius(from_unit: &TUnit) -> (steps: Vec<Step>)
    ensures
        steps@ == to_celsius(*from_unit),
{
    match from_unit {
        TUnit::Celsius => Vec::new(),
        TUnit::Fahrenheit => vec![
            Step { op: Op::Sub, numerator: 32, denominator: 1 },
            Step { op: Op::Mul, numerator: 5, denominator: 1 },
            Step { op: Op::Div, numerator: 9, denominator: 1 },
        ],
        TUnit::Kelvin => vec![Step { op: Op::Sub, numerator: 2731, denominator: 10 }],
    }
}

/// The steps from Celsius to a temperature unit.
pub fn celsius_to_other(to_unit: &TUnit) -> (steps: Vec<Step>)
    ensures
        steps@ == from_celsius(*to_unit),
{
    match to_unit {
        TUnit::Celsius => Vec::new(),
        TUnit::Fahrenheit => vec![
            Step { op: Op::Mul, numerator: 9, denominator: 1 },
            Step { op: Op::Div, numerator: 5, denominator: 1 },
            Step { op: Op::Add, numerator: 32, denominator: 1 },
        ],
        TUnit::Kelvin => vec![Step { op: Op::Add, numerator: 27315, denominator: 100 }],
    }
}

/// The steps from one temperature unit to another, by way of Celsius.
pub fn convert_temperature(from_unit: &TUnit, to_unit: &TUnit) -> (steps: Vec<Step>)
    ensures
        steps@ == to_celsius(*from_unit) + from_celsius(*to_unit),
{
    let mut steps = other_to_celsius(from_unit);
    let mut rest = celsius_to_other(to_unit);
    steps.append(&mut rest);
    steps
}

/// The steps from a length unit to centimeters.
pub fn other_to_cm(from_unit: &LUnit) -> (steps: Vec<Step>)
    ensures
        steps@ == to_cm(*from_unit),
{
    match from_unit {
        LUnit::Centimeter => Vec::new(),
        LUnit::Inches => vec![Step { op: Op::Mul, numerator: 254, denominator: 100 }],
        LUnit::Kilometer => vec![Step { op: Op::Mul, numerator: 100000, denominator: 1 }],
        LUnit::Miles => vec![Step { op: Op::Mul, numerator: 1609344, denominator: 10 }],
    }
}

/// The steps from centimeters to a length unit.
pub fn cm_to_other(to_unit: &LUnit) -> (steps: Vec<Step>)
    ensures
        steps@ == from_cm(*to_unit),
{
    match to_unit {
        LUnit::Centimeter => Vec::new(),
        LUnit::Inches => vec![Step { op: Op::Div, numerator: 254, denominator: 100 }],
        LUnit::Kilometer => vec![Step { op: Op::Div, numerator: 100000, denominator: 1 }],
        LUnit::Miles => vec![Step { op: Op::Div, numerator: 1609344, denominator: 10 }],
    }
}

/// The steps from one length unit to another, by way of centimeters.
pub fn convert_length(from_unit: &LUnit, to_unit: &LUnit) -> (steps: Vec<Step>)
    ensures
        steps@ == to_cm(*from_unit) + from_cm(*to_unit),
{
    let mut steps = other_to_cm(from_unit);
    let mut rest = cm_to_other(to_unit);
    steps.append(&mut rest);
    steps
}

/// The steps that convert a value from `from_unit` to `to_unit`. Units of
/// one family always convert; units of different families never do, and
/// the error names both.
pub fn convert(from_unit: &Unit, to_unit: &Unit) -> (steps: Result<Vec<Step>, ErrorKind>)
    ensures
        match formula(*from_unit, *to_unit) {
            Some(expected) => steps matches Ok(found) && found@ == expected,
            None => steps matches Err(e) && e@ == crate::error::ErrorView::IncompatibleUnits(
                *from_unit,
                *to_unit,
            ),
        },
{
    match (from_unit, to_unit) {
        (Unit::Temperature(from_tunit), Unit::Temperature(to_tunit)) => Ok(
            convert_temperature(from_tunit, to_tunit),
        ),
        (Unit::Length(from_lunit), Unit::Length(to_lunit)) => Ok(
            convert_length(from_lunit, to_lunit),
        ),
        _ => Err(ErrorKind::IncompatibleUnits(*from_unit, *to_unit)),
    }
}

} // verus!
