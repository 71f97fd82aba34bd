use aranet::{
    CalibrationState, CurrentReading, CurrentReadingDetailed, DisplayStatus, Error,
    ManufacturerData, Version,
};

fn sample_reading() -> [u8; 9] {
    // co2 = 800, temperature = 400 steps, pressure = 10130 steps,
    // humidity = 45 %, battery = 80 %, status = green
    [0x20, 0x03, 0x90, 0x01, 0x92, 0x27, 45, 80, 1]
}

#[test]
fn manufacturer_data_scenario() {
    let m = ManufacturerData::parse(&[0x00, 0x01, 0x02, 0x03, 0x00, 0x00, 0x00]).unwrap();
    assert_eq!(m.version, Version::new(3, 2, 1));
    assert_eq!(m.version.major, 3);
    assert_eq!(m.version.minor, 2);
    assert_eq!(m.version.patch, 1);
    assert!(!m.disconnected);
    assert_eq!(m.calibration_state, CalibrationState::NotActive);
    assert!(!m.dfu_active);
    assert!(!m.integrations);
    assert_eq!(m.version.to_string(), "v3.2.1");
}

#[test]
fn manufacturer_data_flags() {
    let m = ManufacturerData::parse(&[0b0011_1101, 9, 8, 7, 0xff, 0xff, 0xff]).unwrap();
    assert!(m.disconnected);
    assert_eq!(m.calibration_state, CalibrationState::Error);
    assert!(m.dfu_active);
    assert!(m.integrations);
    assert_eq!(m.version, Version::new(7, 8, 9));

    let m = ManufacturerData::parse(&[0b0000_0100, 0, 0, 0, 0, 0, 0]).unwrap();
    assert!(!m.disconnected);
    assert_eq!(m.calibration_state, CalibrationState::EndRequest);
    assert!(!m.dfu_active);
    assert!(!m.integrations);

    let m = ManufacturerData::parse(&[0b0001_1000, 0, 0, 0, 0, 0, 0]).unwrap();
    assert_eq!(m.calibration_state, CalibrationState::InProgress);
    assert!(m.dfu_active);
    assert!(!m.integrations);

    // bits 1, 6 and 7 carry nothing
    let m = ManufacturerData::parse(&[0b1100_0010, 0, 0, 0, 0, 0, 0]).unwrap();
    assert!(!m.disconnected);
    assert_eq!(m.calibration_state, CalibrationState::NotActive);
    assert!(!m.dfu_active);
    assert!(!m.integrations);
}

#[test]
fn manufacturer_data_wrong_length() {
    assert_eq!(ManufacturerData::parse(&[]), Err(Error::MalformedInput));
    assert_eq!(ManufacturerData::parse(&[0, 1, 2, 3, 0, 0]), Err(Error::MalformedInput));
    assert_eq!(ManufacturerData::parse(&[0, 1, 2, 3, 0, 0, 0, 0]), Err(Error::MalformedInput));
}

#[test]
fn version_wire_round_trip() {
    for flags in [0u8, 0x3d, 0xff] {
        for (patch, minor, major) in [(0u8, 0u8, 0u8), (1, 2, 3), (255, 254, 253), (10, 100, 99)] {
            let data = [flags, patch, minor, major, 0, 0, 0];
            let m = ManufacturerData::parse(&data).unwrap();
            assert_eq!(m.version.wire_bytes(), [patch, minor, major]);
            assert_eq!(&m.version.wire_bytes()[..], &data[1..4]);
        }
    }
}

#[test]
fn version_text() {
    assert_eq!(Version::new(0, 0, 0).to_string(), "v0.0.0");
    assert_eq!(Version::new(1, 2, 0).to_string(), "v1.2.0");
    assert_eq!(Version::new(10, 99, 100).to_string(), "v10.99.100");
    assert_eq!(Version::new(255, 109, 7).to_string(), "v255.109.7");
    for n in 0..=255u8 {
        assert_eq!(Version::new(n, n, n).to_string(), format!("v{}.{}.{}", n, n, n));
    }
}

#[test]
fn calibration_state_from_raw() {
    assert_eq!(CalibrationState::from_raw(0), Some(CalibrationState::NotActive));
    assert_eq!(CalibrationState::from_raw(1), Some(CalibrationState::EndRequest));
    assert_eq!(CalibrationState::from_raw(2), Some(CalibrationState::InProgress));
    assert_eq!(CalibrationState::from_raw(3), Some(CalibrationState::Error));
    for b in 4..=255u8 {
        assert_eq!(CalibrationState::from_raw(b), None);
    }
    for b in 0..=3u8 {
        assert_eq!(CalibrationState::from_raw(b).unwrap().raw(), b);
    }
}

#[test]
fn display_status_from_raw() {
    assert_eq!(DisplayStatus::from_raw(1), Some(DisplayStatus::Green));
    assert_eq!(DisplayStatus::from_raw(2), Some(DisplayStatus::Yellow));
    assert_eq!(DisplayStatus::from_raw(3), Some(DisplayStatus::Red));
    assert_eq!(DisplayStatus::from_raw(0), None);
    for b in 4..=255u8 {
        assert_eq!(DisplayStatus::from_raw(b), None);
    }
    for b in 1..=3u8 {
        assert_eq!(DisplayStatus::from_raw(b).unwrap().raw(), b);
    }
}

#[test]
fn current_reading_scenario() {
    let r = CurrentReading::parse(&sample_reading()).unwrap();
    assert_eq!(
        r,
        CurrentReading {
            co2_ppm: Some(800),
            temperature_raw: Some(400),
            pressure_raw: Some(10130),
            humidity_percent: 45,
            battery_percent: 80,
            status: DisplayStatus::Green,
        }
    );
    // the scaled values of the scenario
    let temperature_c = r.temperature_raw.map(|raw| raw as f32 * 0.05);
    let pressure_hpa = r.pressure_raw.map(|raw| raw as f32 * 0.1);
    assert!((temperature_c.unwrap() - 20.0).abs() < 1e-4);
    assert!((pressure_hpa.unwrap() - 1013.0).abs() < 1e-3);
    assert!((r.humidity_percent as f32 / 100.0 - 0.45).abs() < 1e-6);
    assert!((r.battery_percent as f32 / 100.0 - 0.80).abs() < 1e-6);
}

#[test]
fn co2_absent_when_bit_15_is_set() {
    let mut data = sample_reading();
    for (lo, hi) in [(0x00u8, 0x80u8), (0xff, 0xff), (0x20, 0x83), (0x00, 0xc0)] {
        data[0] = lo;
        data[1] = hi;
        assert_eq!(CurrentReading::parse(&data).unwrap().co2_ppm, None);
    }
    for (lo, hi) in [(0x00u8, 0x00u8), (0xff, 0x7f), (0x20, 0x03), (0x00, 0x40)] {
        data[0] = lo;
        data[1] = hi;
        assert_eq!(
            CurrentReading::parse(&data).unwrap().co2_ppm,
            Some(u16::from_le_bytes([lo, hi]))
        );
    }
}

#[test]
fn temperature_absent_when_bit_14_is_set() {
    let mut data = sample_reading();
    for (lo, hi) in [(0x00u8, 0x40u8), (0xff, 0x7f), (0xff, 0xff), (0x01, 0xc0)] {
        data[2] = lo;
        data[3] = hi;
        let r = CurrentReading::parse(&data).unwrap();
        assert_eq!(r.temperature_raw, None);
        assert_eq!(r.temperature_f(), None);
    }
    // bit 15 alone does not make the temperature absent
    for (lo, hi) in [(0x00u8, 0x00u8), (0xff, 0x3f), (0x00, 0x80), (0xff, 0xbf)] {
        data[2] = lo;
        data[3] = hi;
        assert_eq!(
            CurrentReading::parse(&data).unwrap().temperature_raw,
            Some(u16::from_le_bytes([lo, hi]))
        );
    }
}

#[test]
fn pressure_absent_when_bit_15_is_set() {
    let mut data = sample_reading();
    for (lo, hi) in [(0x00u8, 0x80u8), (0xff, 0xff)] {
        data[4] = lo;
        data[5] = hi;
        assert_eq!(CurrentReading::parse(&data).unwrap().pressure_raw, None);
    }
    for (lo, hi) in [(0x00u8, 0x00u8), (0xff, 0x7f), (0x92, 0x27)] {
        data[4] = lo;
        data[5] = hi;
        assert_eq!(
            CurrentReading::parse(&data).unwrap().pressure_raw,
            Some(u16::from_le_bytes([lo, hi]))
        );
    }
}

#[test]
fn humidity_and_battery_are_the_raw_percentages() {
    let mut data = sample_reading();
    for b in 0..=255u8 {
        data[6] = b;
        data[7] = 255 - b;
        let r = CurrentReading::parse(&data).unwrap();
        assert_eq!(r.humidity_percent, b);
        assert_eq!(r.battery_percent, 255 - b);
        if b <= 100 {
            let humidity = r.humidity_percent as f32 / 100.0;
            assert!((0.0..=1.0).contains(&humidity));
        }
    }
}

#[test]
fn undefined_status_is_malformed() {
    let mut data = sample_reading();
    for b in 0..=255u8 {
        data[8] = b;
        let res = CurrentReading::parse(&data);
        match b {
            1 => assert_eq!(res.unwrap().status, DisplayStatus::Green),
            2 => assert_eq!(res.unwrap().status, DisplayStatus::Yellow),
            3 => assert_eq!(res.unwrap().status, DisplayStatus::Red),
            _ => assert_eq!(res, Err(Error::MalformedInput)),
        }
    }
}

#[test]
fn current_reading_wrong_length() {
    let data = sample_reading();
    assert_eq!(CurrentReading::parse(&[]), Err(Error::MalformedInput));
    assert_eq!(CurrentReading::parse(&data[..8]), Err(Error::MalformedInput));
    let mut longer = data.to_vec();
    longer.push(1);
    assert_eq!(CurrentReading::parse(&longer), Err(Error::MalformedInput));
    let detailed = [0x20, 0x03, 0x90, 0x01, 0x92, 0x27, 45, 80, 1, 0x2c, 0x01, 0x3c, 0x00];
    assert_eq!(CurrentReading::parse(&detailed), Err(Error::MalformedInput));
}

#[test]
fn detailed_reading_extends_basic() {
    let data = [0x20, 0x03, 0x90, 0x01, 0x92, 0x27, 45, 80, 2, 0x2c, 0x01, 0x3c, 0x00];
    let detailed = CurrentReadingDetailed::parse(&data).unwrap();
    let basic = CurrentReading::parse(&data[..9]).unwrap();
    assert_eq!(detailed.basic(), basic);
    assert_eq!(detailed.interval, 300);
    assert_eq!(detailed.age, 60);
    assert_eq!(
        detailed,
        CurrentReadingDetailed {
            co2_ppm: Some(800),
            temperature_raw: Some(400),
            pressure_raw: Some(10130),
            humidity_percent: 45,
            battery_percent: 80,
            status: DisplayStatus::Yellow,
            interval: 300,
            age: 60,
        }
    );
    // interval and age are not compared with each other
    let data = [0xff, 0xff, 0xff, 0xff, 0xff, 0xff, 0, 0, 3, 0x01, 0x00, 0xff, 0xff];
    let detailed = CurrentReadingDetailed::parse(&data).unwrap();
    assert_eq!(detailed.co2_ppm, None);
    assert_eq!(detailed.temperature_raw, None);
    assert_eq!(detailed.pressure_raw, None);
    assert_eq!(detailed.interval, 1);
    assert_eq!(detailed.age, 65535);
}

#[test]
fn detailed_reading_malformed() {
    let data = [0x20, 0x03, 0x90, 0x01, 0x92, 0x27, 45, 80, 4, 0x2c, 0x01, 0x3c, 0x00];
    assert_eq!(CurrentReadingDetailed::parse(&data), Err(Error::MalformedInput));
    let data = [0x20, 0x03, 0x90, 0x01, 0x92, 0x27, 45, 80, 1, 0x2c, 0x01, 0x3c];
    assert_eq!(CurrentReadingDetailed::parse(&data), Err(Error::MalformedInput));
    assert_eq!(CurrentReadingDetailed::parse(&data[..9]), Err(Error::MalformedInput));
    assert_eq!(CurrentReadingDetailed::parse(&[0u8; 14]), Err(Error::MalformedInput));
}
