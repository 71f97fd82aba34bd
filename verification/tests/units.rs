use aranet::{
    pressure_hpa_to_atm, temperature_c_to_f, CurrentReading, CurrentReadingDetailed,
    DisplayStatus,
};

#[test]
fn celsius_to_fahrenheit_is_exact() {
    // hundredths of a degree Celsius to thousandths of a degree Fahrenheit
    assert_eq!(temperature_c_to_f(0), 32_000);
    assert_eq!(temperature_c_to_f(2_000), 68_000);
    assert_eq!(temperature_c_to_f(10_000), 212_000);
    assert_eq!(temperature_c_to_f(-4_000), -40_000);
    assert_eq!(temperature_c_to_f(5), 32_090);
    assert_eq!(temperature_c_to_f(i32::MAX), 18 * (i32::MAX as i64) + 32_000);
    assert_eq!(temperature_c_to_f(i32::MIN), 18 * (i32::MIN as i64) + 32_000);
}

#[test]
fn celsius_to_fahrenheit_matches_the_formula() {
    for centi_c in [-27_315, -1, 0, 1, 2_000, 3_777, 81_915] {
        let c = centi_c as f64 / 100.0;
        let f = temperature_c_to_f(centi_c) as f64 / 1000.0;
        assert!((f - (c * 1.8 + 32.0)).abs() < 1e-9);
        // the conversion can be undone
        assert_eq!((temperature_c_to_f(centi_c) - 32_000) / 18, centi_c as i64);
    }
}

#[test]
fn hectopascal_to_atmosphere_rounds_down() {
    // tenths of a hectopascal to billionths of an atmosphere
    assert_eq!(pressure_hpa_to_atm(0), 0);
    assert_eq!(pressure_hpa_to_atm(1), 98_692);
    assert_eq!(pressure_hpa_to_atm(10_130), 999_753_269);
    assert_eq!(pressure_hpa_to_atm(40_530), 4_000_000_000);
    assert_eq!(pressure_hpa_to_atm(20_265), 2_000_000_000);
    assert_eq!(pressure_hpa_to_atm(u32::MAX), 400_000_000 * (u32::MAX as u64) / 4053);
}

#[test]
fn hectopascal_to_atmosphere_matches_the_formula() {
    for deci_hpa in [0u32, 1, 2, 9, 1_013, 9_999, 10_130, 10_132, 10_133, 32_767, 65_535] {
        let hpa = deci_hpa as f64 / 10.0;
        let atm = pressure_hpa_to_atm(deci_hpa) as f64 / 1e9;
        let exact = hpa / 1013.25;
        assert!(atm <= exact + 1e-15);
        assert!(exact - atm < 1e-9);
        // going back in whole tenths loses at most one tenth of a hectopascal
        let back = pressure_hpa_to_atm(deci_hpa) * 4053 / 400_000_000;
        assert!(back == deci_hpa as u64 || back + 1 == deci_hpa as u64);
    }
}

#[test]
fn pressure_round_trip_within_tolerance() {
    // every pressure that a record can hold, and the largest input
    for deci_hpa in (0..=32_767u32).chain([65_535, u32::MAX]) {
        let nano_atm = pressure_hpa_to_atm(deci_hpa);
        // in four-billionths of a hectopascal
        let pressure = 400_000_000 * deci_hpa as u128;
        let back = 4053 * nano_atm as u128;
        assert!(back <= pressure);
        assert!(pressure - back < 4053);
        assert!(100_000 * (pressure - back) <= pressure);
        // the same in floating point
        let x = deci_hpa as f64 / 10.0;
        let y = nano_atm as f64 / 1e9 * 1013.25;
        assert!((y - x).abs() <= 1e-5 * x);
    }
}

#[test]
fn temperature_round_trip_is_exact() {
    for raw in 0..=65_535i32 {
        let centi_c = 5 * raw;
        assert_eq!((temperature_c_to_f(centi_c) - 32_000) / 18, centi_c as i64);
    }
}

#[test]
fn reading_conversions() {
    let r = CurrentReading {
        co2_ppm: Some(800),
        temperature_raw: Some(400),
        pressure_raw: Some(10130),
        humidity_percent: 45,
        battery_percent: 80,
        status: DisplayStatus::Green,
    };
    assert_eq!(r.temperature_f(), Some(68_000));
    let d = CurrentReadingDetailed {
        co2_ppm: Some(800),
        temperature_raw: Some(447),
        pressure_raw: Some(10130),
        humidity_percent: 45,
        battery_percent: 80,
        status: DisplayStatus::Green,
        interval: 300,
        age: 10,
    };
    assert_eq!(d.temperature_f(), Some(72_230));
    assert_eq!(d.pressure_atm(), Some(999_753_269));
    assert_eq!(d.basic().temperature_f(), d.temperature_f());
}

#[test]
fn absent_values_stay_absent() {
    let r = CurrentReading {
        co2_ppm: None,
        temperature_raw: None,
        pressure_raw: None,
        humidity_percent: 0,
        battery_percent: 0,
        status: DisplayStatus::Red,
    };
    assert_eq!(r.temperature_f(), None);
    let d = CurrentReadingDetailed {
        co2_ppm: None,
        temperature_raw: None,
        pressure_raw: None,
        humidity_percent: 0,
        battery_percent: 0,
        status: DisplayStatus::Red,
        interval: 0,
        age: 0,
    };
    assert_eq!(d.temperature_f(), None);
    assert_eq!(d.pressure_atm(), None);
    let d = CurrentReadingDetailed { temperature_raw: Some(0), pressure_raw: Some(0), ..d };
    assert_eq!(d.temperature_f(), Some(32_000));
    assert_eq!(d.pressure_atm(), Some(0));
    let d = CurrentReadingDetailed { temperature_raw: Some(49_151), pressure_raw: Some(32_767), ..d };
    assert_eq!(d.temperature_f(), Some(90 * 49_151 + 32_000));
    assert_eq!(d.pressure_atm(), Some(400_000_000 * 32_767 / 4053));
}
