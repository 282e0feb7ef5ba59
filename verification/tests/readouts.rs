use steamwig::audio_readout::{
    audio_state_from_readouts, parse_muted, parse_primary_device, parse_volume,
};
use steamwig::display_readout::{display_state_from_records, parse_display_record};
use steamwig::error::Error;

fn s(x: &str) -> String {
    x.to_string()
}

const DEVICE_ID: &str = "{0.0.1.00000000}.{abcdef12-3456-789a-bcde-f01234567890}";

#[test]
fn primary_device_readout_extracts_the_identifier() {
    assert_eq!(DEVICE_ID.len(), 55);
    let readout = format!("Index  Default  Name\nID     : {} (Speakers)\n", DEVICE_ID);
    assert_eq!(parse_primary_device(&readout).unwrap(), s(DEVICE_ID));
}

#[test]
fn primary_device_readout_takes_the_leftmost_identifier() {
    let other = "{0.0.0.00000000}.{00000000-0000-0000-0000-000000000000}";
    let readout = format!("{} then {}", other, DEVICE_ID);
    assert_eq!(parse_primary_device(&readout).unwrap(), s(other));
}

#[test]
fn primary_device_readout_rejects_uppercase_groups() {
    let readout = "{0.0.1.00000000}.{ABCDEF12-3456-789A-BCDE-F01234567890}";
    match parse_primary_device(readout) {
        Err(Error::ADCParseError(p)) => assert_eq!(p.output, s(readout)),
        other => panic!("expected a parse error, got {:?}", other),
    }
}

#[test]
fn primary_device_readout_rejects_garbage() {
    match parse_primary_device("no identifier here") {
        Err(Error::ADCParseError(p)) => {
            assert_eq!(p.output, s("no identifier here"));
            assert_eq!(p.description, "should contain a device ID string 55 characters long");
        },
        other => panic!("expected a parse error, got {:?}", other),
    }
}

#[test]
fn volume_readout_reads_the_first_number() {
    assert_eq!(parse_volume("85").unwrap(), 85);
    assert_eq!(parse_volume("Volume: 85%").unwrap(), 85);
    assert_eq!(parse_volume("100").unwrap(), 100);
    assert_eq!(parse_volume("volume is 100 now").unwrap(), 100);
    assert_eq!(parse_volume("7").unwrap(), 7);
    assert_eq!(parse_volume("0").unwrap(), 0);
}

#[test]
fn volume_readout_takes_at_most_two_digits_unless_exactly_hundred() {
    // Mirrors the readout pattern: `100` is preferred, otherwise one or two
    // digits are taken, whatever follows.
    assert_eq!(parse_volume("255").unwrap(), 25);
    assert_eq!(parse_volume("1003").unwrap(), 100);
    assert_eq!(parse_volume("99x").unwrap(), 99);
}

#[test]
fn volume_readout_without_digits_is_malformed() {
    match parse_volume("loud") {
        Err(Error::ADCParseError(p)) => {
            assert_eq!(p.output, s("loud"));
            assert_eq!(p.description, "should contain an integer from 0 to 100");
        },
        other => panic!("expected a parse error, got {:?}", other),
    }
}

#[test]
fn muted_readout_reads_the_first_boolean_literal() {
    assert_eq!(parse_muted("True").unwrap(), true);
    assert_eq!(parse_muted("Muted: False").unwrap(), false);
    assert_eq!(parse_muted("xxTruexx").unwrap(), true);
    assert_eq!(parse_muted("FalseTrue").unwrap(), false);
}

#[test]
fn muted_readout_without_literal_is_malformed() {
    match parse_muted("yes") {
        Err(Error::ADCParseError(p)) => {
            assert_eq!(p.output, s("yes"));
            assert_eq!(p.description, "should contain 'True' or 'False'");
        },
        other => panic!("expected a parse error, got {:?}", other),
    }
}

#[test]
fn audio_state_composes_the_three_readouts() {
    let primary = format!("ID: {}", DEVICE_ID);
    let a = audio_state_from_readouts(&primary, "Volume: 80", "False").unwrap();
    assert_eq!(a.primary_device_id, s(DEVICE_ID));
    assert_eq!(a.volume, Some(80));
    assert_eq!(a.muted, Some(false));
}

#[test]
fn audio_state_reports_the_first_malformed_readout() {
    let primary = format!("ID: {}", DEVICE_ID);
    match audio_state_from_readouts("bad", "80", "True") {
        Err(Error::ADCParseError(p)) => assert_eq!(p.output, s("bad")),
        other => panic!("expected a parse error, got {:?}", other),
    }
    match audio_state_from_readouts(&primary, "bad", "True") {
        Err(Error::ADCParseError(p)) => assert_eq!(p.output, s("bad")),
        other => panic!("expected a parse error, got {:?}", other),
    }
    match audio_state_from_readouts(&primary, "80", "bad") {
        Err(Error::ADCParseError(p)) => assert_eq!(p.output, s("bad")),
        other => panic!("expected a parse error, got {:?}", other),
    }
}

fn record(active: &str, primary: &str, id: &str) -> Vec<String> {
    let mut r = vec![s(""); 18];
    r[3] = s(active);
    r[5] = s(primary);
    r[17] = s(id);
    r
}

#[test]
fn display_record_parses_flags_and_identifier() {
    let p = parse_display_record(&record("Yes", "No", "MON1")).unwrap();
    assert_eq!(p.enabled, true);
    assert_eq!(p.primary, false);
    assert_eq!(p.id, s("MON1"));
    let p = parse_display_record(&record("No", "Yes", "MON2")).unwrap();
    assert_eq!(p.enabled, false);
    assert_eq!(p.primary, true);
    assert_eq!(p.id, s("MON2"));
}

#[test]
fn display_record_rejects_a_bad_active_flag() {
    match parse_display_record(&record("Maybe", "No", "MON1")) {
        Err(Error::MMTParseError(m)) => {
            assert_eq!(m.index, 3);
            assert_eq!(m.description, "should contain either Yes or No");
        },
        other => panic!("expected a parse error, got {:?}", other),
    }
}

#[test]
fn display_record_rejects_a_bad_primary_flag() {
    match parse_display_record(&record("Yes", "", "MON1")) {
        Err(Error::MMTParseError(m)) => assert_eq!(m.index, 5),
        other => panic!("expected a parse error, got {:?}", other),
    }
}

#[test]
fn display_record_rejects_missing_columns() {
    match parse_display_record(&vec![s("a"), s("b")]) {
        Err(Error::MMTParseError(m)) => assert_eq!(m.index, 3),
        other => panic!("expected a parse error, got {:?}", other),
    }
    let mut short = record("Yes", "No", "");
    short.truncate(17);
    match parse_display_record(&short) {
        Err(Error::MMTParseError(m)) => {
            assert_eq!(m.index, 17);
            assert_eq!(m.description, "should contain device ID");
        },
        other => panic!("expected a parse error, got {:?}", other),
    }
}

#[test]
fn display_state_collects_rows_and_primary() {
    let rows = vec![
        record("Yes", "No", "A"),
        record("No", "No", "B"),
        record("Yes", "Yes", "C"),
    ];
    let st = display_state_from_records(&rows).unwrap();
    assert_eq!(st.enabled_device_ids, vec![s("A"), s("C")]);
    assert_eq!(st.disabled_device_ids, vec![s("B")]);
    assert_eq!(st.primary_device_id, s("C"));
}

#[test]
fn display_state_primary_may_be_a_disabled_row() {
    let rows = vec![record("Yes", "No", "A"), record("No", "Yes", "B")];
    let st = display_state_from_records(&rows).unwrap();
    assert_eq!(st.primary_device_id, s("B"));
    assert_eq!(st.disabled_device_ids, vec![s("B")]);
}

#[test]
fn display_state_of_no_rows_is_empty() {
    let st = display_state_from_records(&Vec::new()).unwrap();
    assert!(st.primary_device_id.is_empty());
    assert!(st.enabled_device_ids.is_empty());
    assert!(st.disabled_device_ids.is_empty());
}

#[test]
fn display_state_reports_the_first_malformed_row() {
    let rows = vec![
        record("Yes", "No", "A"),
        record("broken", "No", "B"),
        record("also", "broken", "C"),
    ];
    match display_state_from_records(&rows) {
        Err(Error::MMTParseError(m)) => {
            assert_eq!(m.index, 3);
            assert_eq!(m.output[17], s("B"));
        },
        other => panic!("expected a parse error, got {:?}", other),
    }
}
