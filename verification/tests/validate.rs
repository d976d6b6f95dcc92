use unitconv::{validate_arguments, ConversionRequest, ErrorKind, Field, LUnit, TUnit, Unit};

fn text(s: &str) -> Option<String> {
    Some(s.to_string())
}

fn number(s: &Option<String>) -> Option<f64> {
    s.as_ref().and_then(|t| t.parse::<f64>().ok())
}

fn validate(
    from: Option<String>,
    to: Option<String>,
    value: Option<String>,
) -> Result<ConversionRequest<f64>, ErrorKind> {
    let read = number(&value);
    validate_arguments(from, to, value, read)
}

#[test]
fn a_complete_request_is_typed() {
    assert_eq!(
        validate(text("celsius"), text("fahrenheit"), text("100")),
        Ok(ConversionRequest {
            from_unit: Unit::Temperature(TUnit::Celsius),
            to_unit: Unit::Temperature(TUnit::Fahrenheit),
            value: 100.0
        })
    );
}

#[test]
fn negative_and_scientific_numbers_are_numbers() {
    let request = validate(text("km"), text("miles"), text("-1.5e3")).unwrap();
    assert_eq!(request.from_unit, Unit::Length(LUnit::Kilometer));
    assert_eq!(request.to_unit, Unit::Length(LUnit::Miles));
    assert_eq!(request.value, -1500.0);
}

#[test]
fn missing_from_is_reported_first() {
    assert_eq!(validate(None, None, None), Err(ErrorKind::MissingField(Field::From)));
    assert_eq!(validate(None, text("cm"), text("1")), Err(ErrorKind::MissingField(Field::From)));
    assert_eq!(validate(None, text("bogus"), text("x")), Err(ErrorKind::MissingField(Field::From)));
}

#[test]
fn missing_to_is_reported_second() {
    assert_eq!(validate(text("cm"), None, None), Err(ErrorKind::MissingField(Field::To)));
    assert_eq!(validate(text("bogus"), None, text("x")), Err(ErrorKind::MissingField(Field::To)));
}

#[test]
fn missing_value_is_reported_third() {
    assert_eq!(validate(text("cm"), text("km"), None), Err(ErrorKind::MissingField(Field::Value)));
    assert_eq!(
        validate(text("bogus"), text("bogus"), None),
        Err(ErrorKind::MissingField(Field::Value))
    );
}

#[test]
fn a_missing_value_counts_even_if_a_number_is_handed_in() {
    assert_eq!(
        validate_arguments(text("cm"), text("km"), None, Some(1.0)),
        Err(ErrorKind::MissingField(Field::Value))
    );
}

#[test]
fn a_value_that_is_no_number_is_reported_before_the_units() {
    assert_eq!(validate(text("cm"), text("km"), text("abc")), Err(ErrorKind::InvalidNumber));
    assert_eq!(validate(text("bogus"), text("other"), text("abc")), Err(ErrorKind::InvalidNumber));
    assert_eq!(validate(text("cm"), text("km"), text("")), Err(ErrorKind::InvalidNumber));
}

#[test]
fn an_unknown_from_is_reported_before_an_unknown_to() {
    assert_eq!(
        validate(text("bogus"), text("other"), text("1")),
        Err(ErrorKind::UnsupportedUnit("bogus".to_string()))
    );
    assert_eq!(
        validate(text("bogus"), text("cm"), text("1")),
        Err(ErrorKind::UnsupportedUnit("bogus".to_string()))
    );
}

#[test]
fn an_unknown_to_is_reported_last() {
    assert_eq!(
        validate(text("cm"), text("other"), text("1")),
        Err(ErrorKind::UnsupportedUnit("other".to_string()))
    );
}

#[test]
fn units_of_different_families_pass_validation() {
    assert_eq!(
        validate(text("celsius"), text("cm"), text("10")),
        Ok(ConversionRequest {
            from_unit: Unit::Temperature(TUnit::Celsius),
            to_unit: Unit::Length(LUnit::Centimeter),
            value: 10.0
        })
    );
}

#[test]
fn messages_of_the_errors() {
    assert_eq!(ErrorKind::MissingField(Field::From).message(), "Nilai `from` wajib diisi.");
    assert_eq!(ErrorKind::MissingField(Field::To).message(), "Nilai `to` wajib diisi.");
    assert_eq!(ErrorKind::MissingField(Field::Value).message(), "Nilai `value` wajib diisi.");
    assert_eq!(ErrorKind::InvalidNumber.message(), "Pastikan value adalah number");
    assert_eq!(
        ErrorKind::UnsupportedUnit("bogus".to_string()).message(),
        "Unit bogus tidak didukung"
    );
    assert_eq!(
        ErrorKind::IncompatibleUnits(
            Unit::Length(LUnit::Miles),
            Unit::Temperature(TUnit::Kelvin)
        )
        .message(),
        "Konversi unit miles ke unit K tidak didukung"
    );
    assert_eq!(ErrorKind::IOFailure("disk full".to_string()).message(), "disk full");
}

#[test]
fn names_of_the_fields() {
    assert_eq!(Field::From.name(), "from");
    assert_eq!(Field::To.name(), "to");
    assert_eq!(Field::Value.name(), "value");
}
