use toolbox::table::VariableTable;
use toolbox::ups_info::UpsInfo;

fn table_of(entries: &[(&str, &str)]) -> VariableTable {
    let mut table = VariableTable::new();
    for (name, value) in entries {
        table.insert(name.to_string(), value.to_string());
    }
    table
}

fn pairs(entries: &[(&str, &str)]) -> Vec<(String, String)> {
    entries.iter().map(|(a, b)| (a.to_string(), b.to_string())).collect()
}

#[test]
fn a_new_table_is_empty() {
    let table = VariableTable::new();
    assert_eq!(table.len(), 0);
    assert!(!table.contains("ups.status"));
    assert_eq!(table.get("ups.status"), None);
    assert!(table.sorted().is_empty());
}

#[test]
fn insert_replaces_the_value_under_a_name() {
    let mut table = table_of(&[("ups.status", "OL"), ("battery.charge", "100")]);
    table.insert("ups.status".to_string(), "OB".to_string());
    assert_eq!(table.len(), 2);
    assert_eq!(table.get("ups.status"), Some("OB".to_string()));
    assert_eq!(table.get("battery.charge"), Some("100".to_string()));
}

#[test]
fn remove_takes_the_entry_out() {
    let mut table = table_of(&[("a", "1"), ("b", "2"), ("c", "3")]);
    assert_eq!(table.remove("b"), Some("2".to_string()));
    assert_eq!(table.remove("b"), None);
    assert_eq!(table.len(), 2);
    assert!(table.contains("a"));
    assert!(!table.contains("b"));
    assert!(table.contains("c"));
}

#[test]
fn sorted_lists_the_entries_by_name() {
    let table = table_of(&[("ups.delay", "20"), ("ambient", "21"), ("ups", "x"), ("b", ""), ("B", "up")]);
    assert_eq!(
        table.sorted(),
        pairs(&[("B", "up"), ("ambient", "21"), ("b", ""), ("ups", "x"), ("ups.delay", "20")])
    );
}

#[test]
fn sorted_orders_by_code_point() {
    let table = table_of(&[("\u{e9}", "3"), ("z", "2"), ("a", "1"), ("\u{1F50B}", "5"), ("\u{ffff}", "4")]);
    let mut expected = pairs(&[("\u{e9}", "3"), ("z", "2"), ("a", "1"), ("\u{1F50B}", "5"), ("\u{ffff}", "4")]);
    expected.sort();
    assert_eq!(table.sorted(), expected);
}

#[test]
fn summary_of_status_and_charge() {
    let info = UpsInfo::from_var_map("ups1", table_of(&[("ups.status", "OL"), ("battery.charge", "100")]));
    assert_eq!(info.ups_name, "ups1");
    assert_eq!(info.status, Some("OL".to_string()));
    assert_eq!(info.battery_charge_percent, Some("100".to_string()));
    assert!(info.extra.is_empty());
    assert_eq!(info.model, None);
    assert_eq!(info.manufacturer, None);
    assert_eq!(info.serial, None);
    assert_eq!(info.ups_type, None);
    assert_eq!(info.load_percent, None);
    assert_eq!(info.realpower_watts, None);
    assert_eq!(info.battery_runtime_seconds, None);
    assert_eq!(info.battery_voltage, None);
    assert_eq!(info.input_voltage, None);
    assert_eq!(info.output_voltage, None);
    assert_eq!(info.input_frequency_hz, None);
    assert_eq!(info.output_frequency_hz, None);
}

#[test]
fn summary_places_every_well_known_variable() {
    let info = UpsInfo::from_var_map(
        "rack",
        table_of(&[
            ("output.frequency", "50.1"),
            ("input.frequency", "49.9"),
            ("output.voltage", "230"),
            ("input.voltage", "229"),
            ("battery.voltage", "27.1"),
            ("battery.runtime", "1800"),
            ("battery.charge", "97"),
            ("ups.realpower", "120"),
            ("ups.load", "13"),
            ("ups.type", "online"),
            ("ups.serial", "S123"),
            ("ups.mfr", "ACME"),
            ("ups.model", "Model X"),
            ("ups.status", "OL CHRG"),
        ]),
    );
    assert_eq!(info.status.as_deref(), Some("OL CHRG"));
    assert_eq!(info.model.as_deref(), Some("Model X"));
    assert_eq!(info.manufacturer.as_deref(), Some("ACME"));
    assert_eq!(info.serial.as_deref(), Some("S123"));
    assert_eq!(info.ups_type.as_deref(), Some("online"));
    assert_eq!(info.load_percent.as_deref(), Some("13"));
    assert_eq!(info.realpower_watts.as_deref(), Some("120"));
    assert_eq!(info.battery_charge_percent.as_deref(), Some("97"));
    assert_eq!(info.battery_runtime_seconds.as_deref(), Some("1800"));
    assert_eq!(info.battery_voltage.as_deref(), Some("27.1"));
    assert_eq!(info.input_voltage.as_deref(), Some("229"));
    assert_eq!(info.output_voltage.as_deref(), Some("230"));
    assert_eq!(info.input_frequency_hz.as_deref(), Some("49.9"));
    assert_eq!(info.output_frequency_hz.as_deref(), Some("50.1"));
    assert!(info.extra.is_empty());
}

#[test]
fn summary_keeps_the_other_variables_sorted() {
    let info = UpsInfo::from_var_map(
        "ups1",
        table_of(&[
            ("ups.delay.shutdown", "20"),
            ("ups.status", "OB"),
            ("ambient.temperature", "21.5"),
            ("driver.name", "usbhid-ups"),
            ("ups.statu", "near miss"),
        ]),
    );
    assert_eq!(info.status.as_deref(), Some("OB"));
    assert_eq!(
        info.extra,
        pairs(&[
            ("ambient.temperature", "21.5"),
            ("driver.name", "usbhid-ups"),
            ("ups.delay.shutdown", "20"),
            ("ups.statu", "near miss"),
        ])
    );
}

#[test]
fn summary_loses_no_variable() {
    let entries = [
        ("ups.status", "OL"),
        ("x", "1"),
        ("battery.charge", "5"),
        ("a", "2"),
        ("input.voltage", "230"),
        ("m", "3"),
    ];
    let info = UpsInfo::from_var_map("u", table_of(&entries));
    let named = [&info.status, &info.battery_charge_percent, &info.input_voltage];
    let count = named.iter().filter(|field| field.is_some()).count() + info.extra.len();
    assert_eq!(count, entries.len());
    assert_eq!(info.extra, pairs(&[("a", "2"), ("m", "3"), ("x", "1")]));
}
