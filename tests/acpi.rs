use battery_monitor::acpi::{from, from_string, AcpiError, AcpiOutput, BatteryStatus};

#[test]
fn should_extract_percent_when_charging() {
    let output = from_string("Battery 0: Charging, 76%, 04:47:12 until charged".to_string())
        .expect("from_string failed");

    let expected_percent = 76;
    assert_eq!(
        output.percent, expected_percent,
        "Percent should be {} (was: {})",
        expected_percent, output.percent
    );
    assert_eq!(output.status, BatteryStatus::Charging);
}

#[test]
fn should_extract_percent_when_discharging() {
    let output = from_string("Battery 0: Discharging, 6%, 0:5:12 remaining".to_string())
        .expect("from_string failed");

    let expected_percent = 6;
    assert_eq!(
        output.percent, expected_percent,
        "Percent should be {} (was: {})",
        expected_percent, output.percent
    );
    assert_eq!(output.status, BatteryStatus::Discharging);
}

#[test]
fn every_percentage_reads_back_for_known_states() {
    for p in 0u8..=100 {
        let charging = format!("Battery 0: Charging, {}%, 01:00:00 until charged", p);
        assert_eq!(
            from_string(charging),
            Ok(AcpiOutput { status: BatteryStatus::Charging, percent: p })
        );
        let discharging = format!("Battery 0: Discharging, {}%, anything, 5%, at all", p);
        assert_eq!(
            from_string(discharging),
            Ok(AcpiOutput { status: BatteryStatus::Discharging, percent: p })
        );
    }
}

#[test]
fn unrecognised_state_reads_as_unknown() {
    assert_eq!(
        from_string("Battery 0: Foo, 6%, x".to_string()),
        Ok(AcpiOutput { status: BatteryStatus::Unknown, percent: 6 })
    );
    assert_eq!(
        from_string("Battery 0: charging, 50%, x".to_string()),
        Ok(AcpiOutput { status: BatteryStatus::Unknown, percent: 50 })
    );
    assert_eq!(
        from_string("Battery 0: , 50%, x".to_string()),
        Ok(AcpiOutput { status: BatteryStatus::Unknown, percent: 50 })
    );
}

#[test]
fn line_without_battery_is_no_match() {
    assert_eq!(from_string("not a battery line".to_string()), Err(AcpiError::NoMatch));
    assert_eq!(from_string(String::new()), Err(AcpiError::NoMatch));
    assert_eq!(
        from_string("Battery 1: Charging, 50%, 01:00:00 until charged".to_string()),
        Err(AcpiError::NoMatch)
    );
    assert_eq!(from_string("Battery 0: Full, 100%".to_string()), Err(AcpiError::NoMatch));
    assert_eq!(
        from_string("Battery 0: Unknown\nBattery 1: Charging, 5%, x".to_string()),
        Err(AcpiError::NoMatch)
    );
}

#[test]
fn non_numeric_or_out_of_range_percent_is_malformed() {
    assert_eq!(
        from_string("Battery 0: Charging, abc%, x".to_string()),
        Err(AcpiError::Malformed)
    );
    assert_eq!(from_string("Battery 0: Charging, 101%, x".to_string()), Err(AcpiError::Malformed));
    assert_eq!(from_string("Battery 0: Charging, 256%, x".to_string()), Err(AcpiError::Malformed));
    assert_eq!(from_string("Battery 0: Charging, %, x".to_string()), Err(AcpiError::Malformed));
    assert_eq!(from_string("Battery 0: Charging, +5%, x".to_string()), Err(AcpiError::Malformed));
    assert_eq!(from_string("Battery 0: Charging, 5 %, x".to_string()), Err(AcpiError::Malformed));
}

#[test]
fn percent_bounds_are_accepted() {
    assert_eq!(
        from_string("Battery 0: Discharging, 0%, x".to_string()),
        Ok(AcpiOutput { status: BatteryStatus::Discharging, percent: 0 })
    );
    assert_eq!(
        from_string("Battery 0: Charging, 100%, x".to_string()),
        Ok(AcpiOutput { status: BatteryStatus::Charging, percent: 100 })
    );
    assert_eq!(
        from_string("Battery 0: Charging, 007%, x".to_string()),
        Ok(AcpiOutput { status: BatteryStatus::Charging, percent: 7 })
    );
}

#[test]
fn battery_line_is_found_among_other_lines() {
    let report = "Adapter 0: on-line\nBattery 0: Discharging, 42%, 02:10:00 remaining\nBattery 1: Charging, 5%, x\n";
    assert_eq!(
        from_string(report.to_string()),
        Ok(AcpiOutput { status: BatteryStatus::Discharging, percent: 42 })
    );
}

#[test]
fn state_words_map_to_statuses() {
    assert_eq!(from("Charging"), BatteryStatus::Charging);
    assert_eq!(from("Discharging"), BatteryStatus::Discharging);
    assert_eq!(from("Not charging"), BatteryStatus::Unknown);
    assert_eq!(from(""), BatteryStatus::Unknown);
    assert_eq!(from("Charging "), BatteryStatus::Unknown);
}

#[test]
fn state_holding_a_separator_is_read_whole() {
    assert_eq!(
        from_string("Battery 0: Charging, foo, 5%, x".to_string()),
        Ok(AcpiOutput { status: BatteryStatus::Unknown, percent: 5 })
    );
    assert_eq!(
        from_string("Battery 0: a%, b, 5%, x".to_string()),
        Ok(AcpiOutput { status: BatteryStatus::Unknown, percent: 5 })
    );
    assert_eq!(
        from_string("Battery 0: a, b%, 5%, x".to_string()),
        Ok(AcpiOutput { status: BatteryStatus::Unknown, percent: 5 })
    );
    assert_eq!(
        from_string("Battery 0: Charging, 12x%, 40%, y".to_string()),
        Ok(AcpiOutput { status: BatteryStatus::Unknown, percent: 40 })
    );
    assert_eq!(
        from_string("Battery 0: x, 5%, 7%, a".to_string()),
        Ok(AcpiOutput { status: BatteryStatus::Unknown, percent: 5 })
    );
}

#[test]
fn later_matching_line_is_found() {
    assert_eq!(
        from_string("Battery 0: Unknown\nBattery 0: Charging, 5%, x".to_string()),
        Ok(AcpiOutput { status: BatteryStatus::Charging, percent: 5 })
    );
    assert_eq!(
        from_string("Battery 0: Full, 100%\nBattery 0: Discharging, 9%, x\n".to_string()),
        Ok(AcpiOutput { status: BatteryStatus::Discharging, percent: 9 })
    );
}

#[test]
fn errors_carry_the_user_message() {
    assert_eq!(AcpiError::NoMatch.message(), "An Error Occurred, Please Try Again!");
    assert_eq!(AcpiError::Malformed.message(), "An Error Occurred, Please Try Again!");
}
