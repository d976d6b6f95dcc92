//! The request validator: from the raw fields of a request to a typed one.

use crate::error::{ErrorKind, ErrorView, Field};
use crate::units::{parse_unit, Unit};
use vstd::prelude::*;

verus! {

/// A conversion request whose fields were all given and understood. The
/// type `V` is that of the number to convert.
#[derive(Debug, PartialEq)]
pub struct ConversionRequest<V> {
    pub from_unit: Unit,
    pub to_unit: Unit,
    pub value: V,
}

/// What validation makes of the raw fields of a request. The fields are
/// looked at in a fixed order and the first fault found is the one reported:
/// a missing `from`, a missing `to`, a missing `value`, a value that is not a
/// number, a `from` that names no unit, a `to` that names no unit.
///
/// `number` is what the text of `value` reads as, or `None` where it does not
/// read as a number; it counts only where `value` is given.
pub open spec fn validated<V>(
    from: Option<Seq<char>>,
    to: Option<Seq<char>>,
    value: Option<Seq<char>>,
    number: Option<V>,
) -> Result<ConversionRequest<V>, ErrorView> {
    if from is None {
        Err(ErrorView::MissingField(Field::From))
    } else if to is None {
        Err(ErrorView::MissingField(Field::To))
    } else if value is None {
        Err(ErrorView::MissingField(Field::Value))
    } else if number is None {
        Err(ErrorView::InvalidNumber)
    } else if Unit::parse(from.unwrap()) is None {
        Err(ErrorView::UnsupportedUnit(from.unwrap()))
    } else if Unit::parse(to.unwrap()) is None {
        Err(ErrorView::UnsupportedUnit(to.unwrap()))
    } else {
        Ok(
            ConversionRequest {
                from_unit: Unit::parse(from.unwrap()).unwrap(),
                to_unit: Unit::parse(to.unwrap()).unwrap(),
                value: number.unwrap(),
            },
        )
    }
}

/// The text of an optional string.
pub open spec fn text_of(field: Option<String>) -> Option<Seq<char>> {
    match field {
        Some(text) => Some(text@),
        None => None,
    }
}

/// Validates the raw fields of a request and gives the typed request, or
/// the first fault in the order that [`validated`] lays down.
///
/// Reading the text of `value` as a number is the caller's part: `number`
/// holds the number read, or `None` where the text is no number. Where
/// `value` is missing, `number` is not looked at.
pub fn validate_arguments<V>(
    from: Option<String>,
    to: Option<String>,
    value: Option<String>,
    number: Option<V>,
) -> (request: Result<ConversionRequest<V>, ErrorKind>)
    ensures
        match validated(text_of(from), text_of(to), text_of(value), number) {
            Ok(expected) => request == Ok::<ConversionRequest<V>, ErrorKind>(expected),
            Err(fault) => request matches Err(e) && e@ == fault,
        },
{
    let from_text = match from {
        Some(text) => text,
        None => {
            return Err(ErrorKind::MissingField(Field::From));
        },
    };
    let to_text = match to {
        Some(text) => text,
        None => {
            return Err(ErrorKind::MissingField(Field::To));
        },
    };
    if value.is_none() {
        return Err(ErrorKind::MissingField(Field::Value));
    }
    let parsed_value = match number {
        Some(v) => v,
        None => {
            return Err(ErrorKind::InvalidNumber);
        },
    };
    let from_unit = match parse_unit(&from_text) {
        Ok(unit) => unit,
        Err(e) => {
            return Err(e);
        },
    };
    let to_unit = match parse_unit(&to_text) {
        Ok(unit) => unit,
        Err(e) => {
            return Err(e);
        },
    };
    Ok(ConversionRequest { from_unit, to_unit, value: parsed_value })
}

} // verus!
