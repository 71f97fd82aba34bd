use std::collections::HashMap;

use aranet::discovery::{
    decode_advertisement, sighting, AdapterPhase, Discovery, DiscoveryAction, DiscoveryEvent,
};
use aranet::uuids::{AR4_SERVICE, MANUFACTURER_ID};
use aranet::{discover_aranet4, CalibrationState, CentralEvent, DisplayStatus, Error, Version};

fn advertisement_payload() -> Vec<u8> {
    let mut data = vec![0x21, 0x01, 0x02, 0x03, 0x00, 0x00, 0x00, 0xaa];
    data.extend_from_slice(&[
        0x20, 0x03, 0x90, 0x01, 0x92, 0x27, 45, 80, 1, 0x2c, 0x01, 0x3c, 0x00,
    ]);
    data.push(0x55);
    data
}

fn advertisement(company: u16, data: Vec<u8>) -> CentralEvent<&'static str> {
    let mut manufacturer_data = HashMap::new();
    manufacturer_data.insert(company, data);
    CentralEvent::ManufacturerDataAdvertisement { id: "sensor", manufacturer_data }
}

fn listening(adapters: usize) -> Discovery {
    let mut d = Discovery::new(adapters);
    for _ in 0..adapters {
        d = d.step(DiscoveryEvent::<&str>::ScanStarted).0;
        d = d.step(DiscoveryEvent::<&str>::Subscribed).0;
    }
    d
}

#[test]
fn advertisement_with_reading() {
    let (m, reading) = decode_advertisement(&advertisement_payload()).unwrap();
    assert!(m.disconnected);
    assert_eq!(m.calibration_state, CalibrationState::NotActive);
    assert!(!m.dfu_active);
    assert!(m.integrations);
    assert_eq!(m.version, Version::new(3, 2, 1));
    let reading = reading.unwrap();
    assert_eq!(reading.co2_ppm, Some(800));
    assert_eq!(reading.temperature_raw, Some(400));
    assert_eq!(reading.pressure_raw, Some(10130));
    assert_eq!(reading.humidity_percent, 45);
    assert_eq!(reading.battery_percent, 80);
    assert_eq!(reading.status, DisplayStatus::Green);
    assert_eq!(reading.interval, 300);
    assert_eq!(reading.age, 60);
}

#[test]
fn advertisement_without_reading() {
    let full = advertisement_payload();
    // exactly 21 bytes still hold the reading
    assert!(decode_advertisement(&full[..21]).unwrap().1.is_some());
    // anything shorter holds none
    for len in 7..21 {
        let (m, reading) = decode_advertisement(&full[..len]).unwrap();
        assert_eq!(m.version, Version::new(3, 2, 1));
        assert_eq!(reading, None);
    }
    // a reading with an undefined status is absent, not an error
    let mut bad = full.clone();
    bad[16] = 9;
    let (m, reading) = decode_advertisement(&bad).unwrap();
    assert_eq!(m.version, Version::new(3, 2, 1));
    assert_eq!(reading, None);
}

#[test]
fn advertisement_too_short() {
    let full = advertisement_payload();
    for len in 0..7 {
        assert_eq!(decode_advertisement(&full[..len]), Err(Error::MalformedInput));
    }
}

#[test]
fn sighting_of_a_sensor() {
    let device = sighting(3, advertisement(MANUFACTURER_ID, advertisement_payload()))
        .unwrap()
        .unwrap();
    assert_eq!(device.adapter, 3);
    assert_eq!(device.peripheral_id, "sensor");
    assert_eq!(device.manufacturer_data.version, Version::new(3, 2, 1));
    assert_eq!(device.current_reading.unwrap().co2_ppm, Some(800));
}

#[test]
fn sighting_ignores_other_manufacturers() {
    assert_eq!(MANUFACTURER_ID, 0x0702);
    for company in [0x0000u16, 0x004c, 0x0701, 0x0703, 0x0207, 0xffff] {
        let res = sighting(0, advertisement(company, advertisement_payload()));
        assert!(matches!(res, Ok(None)));
    }
    let empty: HashMap<u16, Vec<u8>> = HashMap::new();
    let res = sighting(
        0,
        CentralEvent::ManufacturerDataAdvertisement { id: "sensor", manufacturer_data: empty },
    );
    assert!(matches!(res, Ok(None)));
    // the sensor's entry is found among others
    let mut manufacturer_data = HashMap::new();
    manufacturer_data.insert(0x004c, vec![1, 2, 3]);
    manufacturer_data.insert(MANUFACTURER_ID, advertisement_payload());
    manufacturer_data.insert(0x0001, vec![]);
    let res = sighting(
        0,
        CentralEvent::ManufacturerDataAdvertisement { id: "sensor", manufacturer_data },
    );
    assert!(matches!(res, Ok(Some(_))));
}

#[test]
fn sighting_ignores_other_events() {
    assert!(matches!(sighting(0, CentralEvent::DeviceDiscovered("sensor")), Ok(None)));
    assert!(matches!(sighting(0, CentralEvent::DeviceUpdated("sensor")), Ok(None)));
    assert!(matches!(sighting(0, CentralEvent::DeviceConnected("sensor")), Ok(None)));
    assert!(matches!(sighting(0, CentralEvent::DeviceDisconnected("sensor")), Ok(None)));
    assert!(matches!(
        sighting(0, CentralEvent::ServiceDataAdvertisement { id: "sensor" }),
        Ok(None)
    ));
    assert!(matches!(
        sighting(0, CentralEvent::ServicesAdvertisement { id: "sensor" }),
        Ok(None)
    ));
}

#[test]
fn sighting_of_a_short_payload_is_malformed() {
    let res = sighting(0, advertisement(MANUFACTURER_ID, vec![0, 1, 2, 3, 0, 0]));
    assert!(matches!(res, Err(Error::MalformedInput)));
}

#[test]
fn discovery_over_no_adapters_finishes_at_once() {
    let d = Discovery::new(0);
    assert_eq!(d.adapters(), 0);
    assert_eq!(d.pending(), DiscoveryAction::Finish);
    assert!(d.is_finished());
    // no event changes that or shows a sensor
    let (d, device, action) = d.step(DiscoveryEvent::Central {
        adapter: 0,
        event: advertisement(MANUFACTURER_ID, advertisement_payload()),
    });
    assert!(device.is_none());
    assert_eq!(action, DiscoveryAction::Finish);
    let (d, device, action) = d.step(DiscoveryEvent::<&str>::ScanStarted);
    assert!(device.is_none());
    assert_eq!(action, DiscoveryAction::Finish);
    let (d, device, action) = d.step(DiscoveryEvent::<&str>::SourceEnded { adapter: 0 });
    assert!(device.is_none());
    assert_eq!(action, DiscoveryAction::Finish);
    let (d, device, action) = d.step(DiscoveryEvent::<&str>::Stopped);
    assert!(device.is_none());
    assert_eq!(action, DiscoveryAction::Finish);
    assert!(d.is_finished());
}

#[test]
fn discovery_begins_with_the_first_adapter() {
    let (d, action) = discover_aranet4(0);
    assert_eq!(d.adapters(), 0);
    assert_eq!(action, DiscoveryAction::Finish);
    let (d, action) = discover_aranet4(3);
    assert_eq!(d.adapters(), 3);
    assert_eq!(action, DiscoveryAction::StartScan { adapter: 0, service: AR4_SERVICE });
    assert_eq!(d.pending(), action);
}

#[test]
fn discovery_sets_adapters_up_in_order() {
    let d = Discovery::new(2);
    assert_eq!(d.adapters(), 2);
    assert_eq!(d.phase(0), Some(AdapterPhase::Idle));
    assert_eq!(d.phase(1), Some(AdapterPhase::Idle));
    assert_eq!(d.phase(2), None);
    assert_eq!(d.pending(), DiscoveryAction::StartScan { adapter: 0, service: AR4_SERVICE });
    assert!(!d.is_finished());

    let (d, device, action) = d.step(DiscoveryEvent::<&str>::ScanStarted);
    assert!(device.is_none());
    assert_eq!(action, DiscoveryAction::Subscribe { adapter: 0 });
    assert_eq!(d.phase(0), Some(AdapterPhase::Scanning));

    let (d, _, action) = d.step(DiscoveryEvent::<&str>::Subscribed);
    assert_eq!(action, DiscoveryAction::StartScan { adapter: 1, service: AR4_SERVICE });
    assert_eq!(d.phase(0), Some(AdapterPhase::Listening));
    assert_eq!(d.phase(1), Some(AdapterPhase::Idle));

    // events are not taken before every adapter listens
    let (d, device, action) = d.step(DiscoveryEvent::Central {
        adapter: 0,
        event: advertisement(MANUFACTURER_ID, advertisement_payload()),
    });
    assert!(device.is_none());
    assert_eq!(action, DiscoveryAction::StartScan { adapter: 1, service: AR4_SERVICE });

    let (d, _, action) = d.step(DiscoveryEvent::<&str>::ScanStarted);
    assert_eq!(action, DiscoveryAction::Subscribe { adapter: 1 });
    let (d, _, action) = d.step(DiscoveryEvent::<&str>::Subscribed);
    assert_eq!(action, DiscoveryAction::Await);
    assert_eq!(d.phase(1), Some(AdapterPhase::Listening));
    assert_eq!(d.pending(), DiscoveryAction::Await);
}

#[test]
fn discovery_ignores_events_that_answer_nothing() {
    let d = Discovery::new(1);
    let (d, _, action) = d.step(DiscoveryEvent::<&str>::Subscribed);
    assert_eq!(action, DiscoveryAction::StartScan { adapter: 0, service: AR4_SERVICE });
    assert_eq!(d.phase(0), Some(AdapterPhase::Idle));
    let (d, _, action) = d.step(DiscoveryEvent::<&str>::SourceEnded { adapter: 0 });
    assert_eq!(action, DiscoveryAction::StartScan { adapter: 0, service: AR4_SERVICE });
    let (d, _, _) = d.step(DiscoveryEvent::<&str>::ScanStarted);
    let (d, _, action) = d.step(DiscoveryEvent::<&str>::ScanStarted);
    assert_eq!(action, DiscoveryAction::Subscribe { adapter: 0 });
    assert_eq!(d.phase(0), Some(AdapterPhase::Scanning));
    let d = listening(1);
    let (d, _, action) = d.step(DiscoveryEvent::<&str>::SetupFailed);
    assert_eq!(action, DiscoveryAction::Await);
    assert_eq!(d.phase(0), Some(AdapterPhase::Listening));
}

#[test]
fn discovery_setup_failure_is_reported() {
    // starting the scan fails
    let d = Discovery::new(2);
    let (d, device, action) = d.step(DiscoveryEvent::<&str>::SetupFailed);
    assert!(device.is_none());
    assert_eq!(action, DiscoveryAction::Fail(Error::TransportError));
    assert!(d.has_failed());
    assert_eq!(d.phase(0), Some(AdapterPhase::Idle));
    assert_eq!(d.phase(1), Some(AdapterPhase::Idle));
    assert_eq!(d.pending(), DiscoveryAction::Fail(Error::TransportError));
    assert!(!d.is_finished());
    // nothing restarts it
    let (d, _, action) = d.step(DiscoveryEvent::<&str>::ScanStarted);
    assert_eq!(action, DiscoveryAction::Fail(Error::TransportError));
    assert_eq!(d.phase(0), Some(AdapterPhase::Idle));
    // no scan runs, so there is nothing to release
    let (d, _, action) = d.step(DiscoveryEvent::<&str>::Stopped);
    assert_eq!(action, DiscoveryAction::Finish);
    assert!(d.is_finished());

    // subscribing fails on the second adapter
    let d = Discovery::new(3);
    let (d, _, _) = d.step(DiscoveryEvent::<&str>::ScanStarted);
    let (d, _, _) = d.step(DiscoveryEvent::<&str>::Subscribed);
    let (d, _, _) = d.step(DiscoveryEvent::<&str>::ScanStarted);
    let (d, _, action) = d.step(DiscoveryEvent::<&str>::SetupFailed);
    assert_eq!(action, DiscoveryAction::Fail(Error::TransportError));
    assert!(d.has_failed());
    assert_eq!(d.phase(0), Some(AdapterPhase::Listening));
    assert_eq!(d.phase(1), Some(AdapterPhase::Scanning));
    assert_eq!(d.phase(2), Some(AdapterPhase::Idle));
    // events are not taken after a failure
    let (d, device, action) = d.step(DiscoveryEvent::Central {
        adapter: 0,
        event: advertisement(MANUFACTURER_ID, advertisement_payload()),
    });
    assert!(device.is_none());
    assert_eq!(action, DiscoveryAction::Fail(Error::TransportError));
    // giving up releases the two scans that were started
    let (d, _, action) = d.step(DiscoveryEvent::<&str>::Stopped);
    assert_eq!(action, DiscoveryAction::StopScan { adapter: 0 });
    let (d, _, action) = d.step(DiscoveryEvent::<&str>::ScanStopped);
    assert_eq!(action, DiscoveryAction::StopScan { adapter: 1 });
    let (d, _, action) = d.step(DiscoveryEvent::<&str>::ScanStopped);
    assert_eq!(action, DiscoveryAction::Finish);
    assert_eq!(d.phase(0), Some(AdapterPhase::Released));
    assert_eq!(d.phase(1), Some(AdapterPhase::Released));
    assert_eq!(d.phase(2), Some(AdapterPhase::Idle));
    assert!(d.is_finished());
}

#[test]
fn stopping_discovery_releases_every_scan() {
    let d = listening(3);
    assert!(!d.is_stopped());
    // the end of an adapter's events does not stop its scan
    let (d, _, _) = d.step(DiscoveryEvent::<&str>::SourceEnded { adapter: 1 });
    let (d, device, action) = d.step(DiscoveryEvent::<&str>::Stopped);
    assert!(device.is_none());
    assert!(d.is_stopped());
    assert_eq!(action, DiscoveryAction::StopScan { adapter: 0 });
    assert!(!d.is_finished());
    // a stopped discovery shows no sensor
    let (d, device, action) = d.step(DiscoveryEvent::Central {
        adapter: 2,
        event: advertisement(MANUFACTURER_ID, advertisement_payload()),
    });
    assert!(device.is_none());
    assert_eq!(action, DiscoveryAction::StopScan { adapter: 0 });
    let (d, _, action) = d.step(DiscoveryEvent::<&str>::ScanStopped);
    assert_eq!(action, DiscoveryAction::StopScan { adapter: 1 });
    assert_eq!(d.phase(0), Some(AdapterPhase::Released));
    let (d, _, action) = d.step(DiscoveryEvent::<&str>::ScanStopped);
    assert_eq!(action, DiscoveryAction::StopScan { adapter: 2 });
    assert_eq!(d.phase(1), Some(AdapterPhase::Released));
    let (d, _, action) = d.step(DiscoveryEvent::<&str>::ScanStopped);
    assert_eq!(action, DiscoveryAction::Finish);
    assert_eq!(d.phase(2), Some(AdapterPhase::Released));
    assert!(d.is_finished());
    // further answers change nothing
    let (d, _, action) = d.step(DiscoveryEvent::<&str>::ScanStopped);
    assert_eq!(action, DiscoveryAction::Finish);
    assert_eq!(d.phase(1), Some(AdapterPhase::Released));

    // the sequence ended by itself: its scans are still to be stopped
    let d = listening(2);
    let (d, _, _) = d.step(DiscoveryEvent::<&str>::SourceEnded { adapter: 0 });
    let (d, _, action) = d.step(DiscoveryEvent::<&str>::SourceEnded { adapter: 1 });
    assert_eq!(action, DiscoveryAction::Finish);
    let (d, _, action) = d.step(DiscoveryEvent::<&str>::Stopped);
    assert_eq!(action, DiscoveryAction::StopScan { adapter: 0 });
    let (d, _, action) = d.step(DiscoveryEvent::<&str>::ScanStopped);
    assert_eq!(action, DiscoveryAction::StopScan { adapter: 1 });
    let (d, _, action) = d.step(DiscoveryEvent::<&str>::ScanStopped);
    assert_eq!(action, DiscoveryAction::Finish);
    assert_eq!(d.phase(0), Some(AdapterPhase::Released));
    assert_eq!(d.phase(1), Some(AdapterPhase::Released));

    // stopped in the middle of setting up
    let d = Discovery::new(2);
    let (d, _, _) = d.step(DiscoveryEvent::<&str>::ScanStarted);
    let (d, _, action) = d.step(DiscoveryEvent::<&str>::Stopped);
    assert_eq!(action, DiscoveryAction::StopScan { adapter: 0 });
    let (d, _, action) = d.step(DiscoveryEvent::<&str>::ScanStarted);
    assert_eq!(action, DiscoveryAction::StopScan { adapter: 0 });
    let (d, _, action) = d.step(DiscoveryEvent::<&str>::ScanStopped);
    assert_eq!(action, DiscoveryAction::Finish);
    assert_eq!(d.phase(0), Some(AdapterPhase::Released));
    assert_eq!(d.phase(1), Some(AdapterPhase::Idle));

    // stopped before anything was asked
    let (d, _, action) = Discovery::new(2).step(DiscoveryEvent::<&str>::Stopped);
    assert_eq!(action, DiscoveryAction::Finish);
    assert!(d.is_finished());
}

#[test]
fn discovery_emits_sensors_and_drops_the_rest() {
    let d = listening(2);
    let (d, device, action) = d.step(DiscoveryEvent::Central {
        adapter: 1,
        event: advertisement(MANUFACTURER_ID, advertisement_payload()),
    });
    let device = device.unwrap();
    assert_eq!(device.adapter, 1);
    assert_eq!(device.peripheral_id, "sensor");
    assert_eq!(device.manufacturer_data.version, Version::new(3, 2, 1));
    assert_eq!(device.current_reading.unwrap().interval, 300);
    assert_eq!(action, DiscoveryAction::Await);

    // the same sensor is reported again for its next advertisement
    let (d, device, _) = d.step(DiscoveryEvent::Central {
        adapter: 1,
        event: advertisement(MANUFACTURER_ID, advertisement_payload()[..7].to_vec()),
    });
    assert_eq!(device.unwrap().current_reading, None);

    let (d, device, action) = d.step(DiscoveryEvent::Central {
        adapter: 0,
        event: advertisement(0x004c, advertisement_payload()),
    });
    assert!(device.is_none());
    assert_eq!(action, DiscoveryAction::Await);

    let (d, device, action) = d.step(DiscoveryEvent::Central {
        adapter: 0,
        event: CentralEvent::DeviceDiscovered("sensor"),
    });
    assert!(device.is_none());
    assert_eq!(action, DiscoveryAction::Await);

    // an adapter that does not exist delivers nothing
    let (d, device, action) = d.step(DiscoveryEvent::Central {
        adapter: 2,
        event: advertisement(MANUFACTURER_ID, advertisement_payload()),
    });
    assert!(device.is_none());
    assert_eq!(action, DiscoveryAction::Await);

    // a payload that is too short is a failure, and discovery goes on
    let (d, device, action) = d.step(DiscoveryEvent::Central {
        adapter: 0,
        event: advertisement(MANUFACTURER_ID, vec![1, 2, 3]),
    });
    assert!(device.is_none());
    assert_eq!(action, DiscoveryAction::Fail(Error::MalformedInput));
    assert_eq!(d.pending(), DiscoveryAction::Await);
}

#[test]
fn discovery_finishes_when_every_source_has_ended() {
    let d = listening(2);
    let (d, _, action) = d.step(DiscoveryEvent::<&str>::SourceEnded { adapter: 0 });
    assert_eq!(action, DiscoveryAction::Await);
    assert_eq!(d.phase(0), Some(AdapterPhase::Ended));
    assert!(!d.is_finished());
    // an ended adapter delivers nothing more
    let (d, device, action) = d.step(DiscoveryEvent::Central {
        adapter: 0,
        event: advertisement(MANUFACTURER_ID, advertisement_payload()),
    });
    assert!(device.is_none());
    assert_eq!(action, DiscoveryAction::Await);
    let (d, _, action) = d.step(DiscoveryEvent::<&str>::SourceEnded { adapter: 0 });
    assert_eq!(action, DiscoveryAction::Await);
    let (d, _, action) = d.step(DiscoveryEvent::<&str>::SourceEnded { adapter: 1 });
    assert_eq!(action, DiscoveryAction::Finish);
    assert_eq!(d.phase(1), Some(AdapterPhase::Ended));
    assert!(d.is_finished());
}
