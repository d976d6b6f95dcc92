use unitconv::{
    add_conversion, clear_hist, number_text, numbered, show_hist, ConvHist, ErrorKind, LUnit,
    TUnit, Unit,
};

fn record(from: Unit, to: Unit, from_value: f64, to_value: f64) -> ConvHist<f64> {
    ConvHist::new(&from, &to, from_value, to_value).unwrap()
}

fn written(record: &ConvHist<f64>) -> ConvHist<String> {
    ConvHist {
        from_unit: record.from_unit.clone(),
        from_value: format!("{}", record.from_value),
        to_unit: record.to_unit.clone(),
        to_value: format!("{}", record.to_value),
    }
}

fn shown(histories: &Vec<ConvHist<f64>>) -> Vec<String> {
    let texts: Vec<ConvHist<String>> = histories.iter().map(written).collect();
    show_hist(&texts)
}

#[test]
fn a_record_holds_labels_and_values() {
    let r = record(
        Unit::Temperature(TUnit::Celsius),
        Unit::Temperature(TUnit::Fahrenheit),
        100.0,
        212.0,
    );
    assert_eq!(r.from_unit, "°C");
    assert_eq!(r.from_value, 100.0);
    assert_eq!(r.to_unit, "°F");
    assert_eq!(r.to_value, 212.0);
}

#[test]
fn a_record_reads_value_unit_equals_value_unit() {
    let r = record(
        Unit::Temperature(TUnit::Celsius),
        Unit::Temperature(TUnit::Fahrenheit),
        100.0,
        212.0,
    );
    assert_eq!(written(&r).to_string(), "100 °C = 212 °F");
    let r = record(Unit::Length(LUnit::Inches), Unit::Length(LUnit::Centimeter), 1.5, 3.81);
    assert_eq!(written(&r).to_string(), "1.5 inch = 3.81 cm");
}

#[test]
fn there_is_no_record_between_families() {
    let from = Unit::Temperature(TUnit::Celsius);
    let to = Unit::Length(LUnit::Centimeter);
    assert_eq!(ConvHist::new(&from, &to, 10.0, 10.0), Err(ErrorKind::IncompatibleUnits(from, to)));
    assert_eq!(ConvHist::new(&to, &from, 10.0, 10.0), Err(ErrorKind::IncompatibleUnits(to, from)));
}

#[test]
fn a_failed_conversion_leaves_the_history_as_it_was() {
    let mut histories = vec![record(
        Unit::Length(LUnit::Kilometer),
        Unit::Length(LUnit::Miles),
        1.0,
        0.621371192237334,
    )];
    let from = Unit::Temperature(TUnit::Celsius);
    let to = Unit::Length(LUnit::Centimeter);
    if let Ok(r) = ConvHist::new(&from, &to, 10.0, 10.0) {
        add_conversion(&mut histories, r);
    }
    assert_eq!(histories.len(), 1);
    assert_eq!(histories[0].from_unit, "km");
}

#[test]
fn added_records_come_last_and_keep_their_order() {
    let mut histories: Vec<ConvHist<f64>> = Vec::new();
    let first = record(Unit::Length(LUnit::Kilometer), Unit::Length(LUnit::Centimeter), 1.0, 100000.0);
    let second = record(
        Unit::Temperature(TUnit::Kelvin),
        Unit::Temperature(TUnit::Celsius),
        300.0,
        26.9,
    );
    let third = record(Unit::Length(LUnit::Miles), Unit::Length(LUnit::Miles), 2.0, 2.0);
    add_conversion(&mut histories, record(Unit::Length(LUnit::Kilometer), Unit::Length(LUnit::Centimeter), 1.0, 100000.0));
    assert_eq!(histories, vec![record(Unit::Length(LUnit::Kilometer), Unit::Length(LUnit::Centimeter), 1.0, 100000.0)]);
    add_conversion(&mut histories, record(Unit::Temperature(TUnit::Kelvin), Unit::Temperature(TUnit::Celsius), 300.0, 26.9));
    add_conversion(&mut histories, record(Unit::Length(LUnit::Miles), Unit::Length(LUnit::Miles), 2.0, 2.0));
    assert_eq!(histories, vec![first, second, third]);
}

#[test]
fn an_empty_history_shows_that_there_is_none() {
    let histories: Vec<ConvHist<f64>> = Vec::new();
    assert_eq!(shown(&histories), vec!["Riwayat Konversi:", "Belum ada riwayat konversi."]);
}

#[test]
fn a_history_is_shown_as_a_numbered_list() {
    let mut histories: Vec<ConvHist<f64>> = Vec::new();
    add_conversion(
        &mut histories,
        record(Unit::Temperature(TUnit::Celsius), Unit::Temperature(TUnit::Fahrenheit), 100.0, 212.0),
    );
    add_conversion(
        &mut histories,
        record(Unit::Temperature(TUnit::Fahrenheit), Unit::Temperature(TUnit::Celsius), 32.0, 0.0),
    );
    assert_eq!(
        shown(&histories),
        vec!["Riwayat Konversi:", "1. 100 °C = 212 °F", "2. 32 °F = 0 °C"]
    );
}

#[test]
fn the_numbers_of_a_long_history_have_several_digits() {
    let mut histories: Vec<ConvHist<f64>> = Vec::new();
    for i in 0..12 {
        let value = f64::from(i);
        add_conversion(
            &mut histories,
            record(Unit::Length(LUnit::Centimeter), Unit::Length(LUnit::Centimeter), value, value),
        );
    }
    let lines = shown(&histories);
    assert_eq!(lines.len(), 13);
    assert_eq!(lines[9], "9. 8 cm = 8 cm");
    assert_eq!(lines[10], "10. 9 cm = 9 cm");
    assert_eq!(lines[12], "12. 11 cm = 11 cm");
}

#[test]
fn clearing_after_appends_leaves_no_record() {
    let mut histories: Vec<ConvHist<f64>> = Vec::new();
    for i in 0..5 {
        let value = f64::from(i);
        add_conversion(
            &mut histories,
            record(Unit::Length(LUnit::Kilometer), Unit::Length(LUnit::Kilometer), value, value),
        );
    }
    assert_eq!(histories.len(), 5);
    histories = clear_hist();
    assert_eq!(histories.len(), 0);
    assert_eq!(shown(&histories), vec!["Riwayat Konversi:", "Belum ada riwayat konversi."]);
}

#[test]
fn numbers_are_written_in_decimal() {
    assert_eq!(number_text(0), "0");
    assert_eq!(number_text(7), "7");
    assert_eq!(number_text(9), "9");
    assert_eq!(number_text(10), "10");
    assert_eq!(number_text(101), "101");
    assert_eq!(number_text(1234567890), "1234567890");
    assert_eq!(number_text(usize::MAX), format!("{}", usize::MAX));
}

#[test]
fn a_numbered_list_starts_at_one() {
    let items = vec!["a".to_string(), "".to_string(), "c d".to_string()];
    assert_eq!(numbered(&items), vec!["1. a", "2. ", "3. c d"]);
    let none: Vec<String> = Vec::new();
    assert_eq!(numbered(&none), none);
}
