use unitconv::{list_unit, parse_unit, ErrorKind, Family, LUnit, TUnit, Unit};

fn all_units() -> Vec<Unit> {
    vec![
        Unit::Temperature(TUnit::Celsius),
        Unit::Temperature(TUnit::Fahrenheit),
        Unit::Temperature(TUnit::Kelvin),
        Unit::Length(LUnit::Centimeter),
        Unit::Length(LUnit::Inches),
        Unit::Length(LUnit::Kilometer),
        Unit::Length(LUnit::Miles),
    ]
}

#[test]
fn every_token_names_its_unit() {
    let tokens = ["celsius", "fahrenheit", "kelvin", "cm", "inch", "km", "miles"];
    let units = all_units();
    for (token, unit) in tokens.iter().zip(units.iter()) {
        assert_eq!(parse_unit(&token.to_string()), Ok(*unit));
        assert_eq!(unit.name(), *token);
    }
}

#[test]
fn supported_units_are_the_seven_in_listing_order() {
    assert_eq!(Unit::supported(), all_units());
}

#[test]
fn unknown_token_is_an_unsupported_unit() {
    assert_eq!(
        parse_unit(&"bogus".to_string()),
        Err(ErrorKind::UnsupportedUnit("bogus".to_string()))
    );
}

#[test]
fn parsing_is_exact_and_case_sensitive() {
    for token in ["Celsius", "CELSIUS", "celsius ", " celsius", "c", "", "CM", "mile", "inches", "kilometer", "°C", "K"] {
        assert_eq!(
            parse_unit(&token.to_string()),
            Err(ErrorKind::UnsupportedUnit(token.to_string())),
            "token {:?}",
            token
        );
    }
}

#[test]
fn temperature_parser_knows_only_temperatures() {
    assert_eq!(TUnit::from_str("celsius"), Ok(TUnit::Celsius));
    assert_eq!(TUnit::from_str("fahrenheit"), Ok(TUnit::Fahrenheit));
    assert_eq!(TUnit::from_str("kelvin"), Ok(TUnit::Kelvin));
    assert_eq!(TUnit::from_str("cm"), Err(ErrorKind::UnsupportedUnit("cm".to_string())));
}

#[test]
fn length_parser_knows_only_lengths() {
    assert_eq!(LUnit::from_str("cm"), Ok(LUnit::Centimeter));
    assert_eq!(LUnit::from_str("inch"), Ok(LUnit::Inches));
    assert_eq!(LUnit::from_str("km"), Ok(LUnit::Kilometer));
    assert_eq!(LUnit::from_str("miles"), Ok(LUnit::Miles));
    assert_eq!(LUnit::from_str("kelvin"), Err(ErrorKind::UnsupportedUnit("kelvin".to_string())));
}

#[test]
fn labels_of_the_temperature_units() {
    assert_eq!(TUnit::Celsius.as_unit(), "°C");
    assert_eq!(TUnit::Fahrenheit.as_unit(), "°F");
    assert_eq!(TUnit::Kelvin.as_unit(), "K");
    assert_eq!(Unit::Temperature(TUnit::Celsius).as_unit(), "°C");
    assert_eq!(Unit::Temperature(TUnit::Fahrenheit).as_unit(), "°F");
    assert_eq!(Unit::Temperature(TUnit::Kelvin).as_unit(), "K");
}

#[test]
fn labels_of_the_length_units() {
    assert_eq!(LUnit::Centimeter.as_unit(), "cm");
    assert_eq!(LUnit::Inches.as_unit(), "inch");
    assert_eq!(LUnit::Kilometer.as_unit(), "km");
    assert_eq!(LUnit::Miles.as_unit(), "miles");
    assert_eq!(Unit::Length(LUnit::Centimeter).as_unit(), "cm");
    assert_eq!(Unit::Length(LUnit::Miles).as_unit(), "miles");
}

#[test]
fn listing_entries_carry_the_family_marker() {
    assert_eq!(TUnit::Celsius.to_string(), "[suhu] celsius");
    assert_eq!(TUnit::Fahrenheit.to_string(), "[suhu] fahrenheit");
    assert_eq!(TUnit::Kelvin.to_string(), "[suhu] kelvin");
    assert_eq!(LUnit::Centimeter.to_string(), "[panjang] cm");
    assert_eq!(LUnit::Inches.to_string(), "[panjang] inch");
    assert_eq!(LUnit::Kilometer.to_string(), "[panjang] km");
    assert_eq!(LUnit::Miles.to_string(), "[panjang] miles");
    assert_eq!(Unit::Length(LUnit::Kilometer).to_string(), "[panjang] km");
    assert_eq!(Unit::Temperature(TUnit::Kelvin).to_string(), "[suhu] kelvin");
}

#[test]
fn each_unit_belongs_to_one_family() {
    for unit in all_units() {
        let expected = match unit {
            Unit::Temperature(_) => Family::Temperature,
            Unit::Length(_) => Family::Length,
        };
        assert_eq!(unit.family(), expected);
    }
}

#[test]
fn list_of_units_is_numbered_from_one() {
    let expected = vec![
        "Satuan yang didukung:",
        "1. [suhu] celsius",
        "2. [suhu] fahrenheit",
        "3. [suhu] kelvin",
        "4. [panjang] cm",
        "5. [panjang] inch",
        "6. [panjang] km",
        "7. [panjang] miles",
    ];
    assert_eq!(list_unit(), expected);
}
