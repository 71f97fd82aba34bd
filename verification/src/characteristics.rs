//! The characteristics of a sensor with firmware v1.2.0, each with the
//! service it belongs to and the operations it supports.

use vstd::prelude::*;
use crate::uuids;

verus! {

/// The characteristic can be read.
pub const READ: u8 = 0x02;

/// The characteristic can be written with a response.
pub const WRITE: u8 = 0x08;

/// The characteristic can notify.
pub const NOTIFY: u8 = 0x10;

/// The characteristic can indicate.
pub const INDICATE: u8 = 0x20;

/// A readable or writable data slot of a connected device.
#[derive(Clone, Copy, Debug, PartialEq, Eq, Structural)]
pub struct Characteristic {
    /// Identifier of the characteristic.
    pub uuid: u128,
    /// Identifier of the service that holds it.
    pub service_uuid: u128,
    /// Supported operations, as a set of property bits.
    pub properties: u8,
}

impl Characteristic {
    /// The table of the sensor's characteristics, by identifier.
    pub open spec fn spec_lookup(uuid: u128) -> Option<Characteristic> {
        if uuid == uuids::GENERIC_READ_DEVICE_NAME {
            Some(Characteristic { uuid, service_uuid: uuids::GENERIC_SERVICE, properties: READ })
        } else if uuid == uuids::COMMON_APPEARANCE {
            Some(Characteristic { uuid, service_uuid: uuids::GENERIC_SERVICE, properties: READ })
        } else if uuid == uuids::COMMON_PREFERRED_CONNECT_PARAMS {
            Some(Characteristic { uuid, service_uuid: uuids::GENERIC_SERVICE, properties: READ })
        } else if uuid == uuids::GENERIC_SVC_CHANGED {
            Some(Characteristic { uuid, service_uuid: uuids::GENERIC_ATTRIBUTE, properties: INDICATE })
        } else if uuid == uuids::BATTERY_READ {
            Some(Characteristic { uuid, service_uuid: uuids::BATTERY_SERVICE, properties: READ | NOTIFY })
        } else if uuid == uuids::COMMON_SYSTEM_ID {
            Some(Characteristic { uuid, service_uuid: uuids::COMMON_SERVICE, properties: READ })
        } else if uuid == uuids::COMMON_READ_MODEL_NUMBER {
            Some(Characteristic { uuid, service_uuid: uuids::COMMON_SERVICE, properties: READ })
        } else if uuid == uuids::COMMON_READ_SERIAL_NO {
            Some(Characteristic { uuid, service_uuid: uuids::COMMON_SERVICE, properties: READ })
        } else if uuid == uuids::COMMON_READ_SW_REV {
            Some(Characteristic { uuid, service_uuid: uuids::COMMON_SERVICE, properties: READ })
        } else if uuid == uuids::COMMON_READ_HW_REV {
            Some(Characteristic { uuid, service_uuid: uuids::COMMON_SERVICE, properties: READ })
        } else if uuid == uuids::COMMON_READ_FACTORY_SW_REV {
            Some(Characteristic { uuid, service_uuid: uuids::COMMON_SERVICE, properties: READ })
        } else if uuid == uuids::COMMON_READ_MANUFACTURER_NAME {
            Some(Characteristic { uuid, service_uuid: uuids::COMMON_SERVICE, properties: READ })
        } else if uuid == uuids::COMMON_CENTRAL_ADDR_RESOLUTION {
            Some(Characteristic { uuid, service_uuid: uuids::GENERIC_SERVICE, properties: READ })
        } else if uuid == uuids::NORDIC_DFU {
            Some(Characteristic { uuid, service_uuid: uuids::MANUF_NORDIC_SEMICONDUCTOR_ASA, properties: WRITE | INDICATE })
        } else if uuid == uuids::AR4_READ_SENSOR_SETTINGS {
            Some(Characteristic { uuid, service_uuid: uuids::AR4_SERVICE, properties: READ })
        } else if uuid == uuids::AR4_WRITE_CMD {
            Some(Characteristic { uuid, service_uuid: uuids::AR4_SERVICE, properties: WRITE })
        } else if uuid == uuids::AR4_READ_SENSOR_CALIBRATION {
            Some(Characteristic { uuid, service_uuid: uuids::AR4_SERVICE, properties: READ })
        } else if uuid == uuids::AR4_READ_CURRENT_READINGS {
            Some(Characteristic { uuid, service_uuid: uuids::AR4_SERVICE, properties: READ })
        } else if uuid == uuids::AR4_READ_TOTAL_READINGS {
            Some(Characteristic { uuid, service_uuid: uuids::AR4_SERVICE, properties: READ })
        } else if uuid == uuids::AR4_READ_INTERVAL {
            Some(Characteristic { uuid, service_uuid: uuids::AR4_SERVICE, properties: READ })
        } else if uuid == uuids::AR4_READ_HISTORY_READINGS_V1 {
            Some(Characteristic { uuid, service_uuid: uuids::AR4_SERVICE, properties: READ | NOTIFY })
        } else if uuid == uuids::AR4_READ_SECONDS_SINCE_UPDATE {
            Some(Characteristic { uuid, service_uuid: uuids::AR4_SERVICE, properties: READ })
        } else if uuid == uuids::AR4_READ_HISTORY_READINGS_V2 {
            Some(Characteristic { uuid, service_uuid: uuids::AR4_SERVICE, properties: READ })
        } else if uuid == uuids::AR4_READ_CURRENT_READINGS_DET {
            Some(Characteristic { uuid, service_uuid: uuids::AR4_SERVICE, properties: READ })
        } else {
            None
        }
    }

    /// Whether the characteristic supports reading.
    pub open spec fn spec_readable(self) -> bool {
        self.properties & READ != 0
    }

    /// The sensor's characteristic with the given identifier, absent when
    /// the sensor has none with it.
    pub fn lookup(uuid: u128) -> (c: Option<Characteristic>)
        ensures
            c == Self::spec_lookup(uuid),
            c matches Some(found) ==> found.uuid == uuid,
    {
        if uuid == uuids::GENERIC_READ_DEVICE_NAME {
            Some(Characteristic { uuid, service_uuid: uuids::GENERIC_SERVICE, properties: READ })
        } else if uuid == uuids::COMMON_APPEARANCE {
            Some(Characteristic { uuid, service_uuid: uuids::GENERIC_SERVICE, properties: READ })
        } else if uuid == uuids::COMMON_PREFERRED_CONNECT_PARAMS {
            Some(Characteristic { uuid, service_uuid: uuids::GENERIC_SERVICE, properties: READ })
        } else if uuid == uuids::GENERIC_SVC_CHANGED {
            Some(Characteristic { uuid, service_uuid: uuids::GENERIC_ATTRIBUTE, properties: INDICATE })
        } else if uuid == uuids::BATTERY_READ {
            Some(Characteristic { uuid, service_uuid: uuids::BATTERY_SERVICE, properties: READ | NOTIFY })
        } else if uuid == uuids::COMMON_SYSTEM_ID {
            Some(Characteristic { uuid, service_uuid: uuids::COMMON_SERVICE, properties: READ })
        } else if uuid == uuids::COMMON_READ_MODEL_NUMBER {
            Some(Characteristic { uuid, service_uuid: uuids::COMMON_SERVICE, properties: READ })
        } else if uuid == uuids::COMMON_READ_SERIAL_NO {
            Some(Characteristic { uuid, service_uuid: uuids::COMMON_SERVICE, properties: READ })
        } else if uuid == uuids::COMMON_READ_SW_REV {
            Some(Characteristic { uuid, service_uuid: uuids::COMMON_SERVICE, properties: READ })
        } else if uuid == uuids::COMMON_READ_HW_REV {
            Some(Characteristic { uuid, service_uuid: uuids::COMMON_SERVICE, properties: READ })
        } else if uuid == uuids::COMMON_READ_FACTORY_SW_REV {
            Some(Characteristic { uuid, service_uuid: uuids::COMMON_SERVICE, properties: READ })
        } else if uuid == uuids::COMMON_READ_MANUFACTURER_NAME {
            Some(Characteristic { uuid, service_uuid: uuids::COMMON_SERVICE, properties: READ })
        } else if uuid == uuids::COMMON_CENTRAL_ADDR_RESOLUTION {
            Some(Characteristic { uuid, service_uuid: uuids::GENERIC_SERVICE, properties: READ })
        } else if uuid == uuids::NORDIC_DFU {
            Some(Characteristic { uuid, service_uuid: uuids::MANUF_NORDIC_SEMICONDUCTOR_ASA, properties: WRITE | INDICATE })
        } else if uuid == uuids::AR4_READ_SENSOR_SETTINGS {
            Some(Characteristic { uuid, service_uuid: uuids::AR4_SERVICE, properties: READ })
        } else if uuid == uuids::AR4_WRITE_CMD {
            Some(Characteristic { uuid, service_uuid: uuids::AR4_SERVICE, properties: WRITE })
        } else if uuid == uuids::AR4_READ_SENSOR_CALIBRATION {
            Some(Characteristic { uuid, service_uuid: uuids::AR4_SERVICE, properties: READ })
        } else if uuid == uuids::AR4_READ_CURRENT_READINGS {
            Some(Characteristic { uuid, service_uuid: uuids::AR4_SERVICE, properties: READ })
        } else if uuid == uuids::AR4_READ_TOTAL_READINGS {
            Some(Characteristic { uuid, service_uuid: uuids::AR4_SERVICE, properties: READ })
        } else if uuid == uuids::AR4_READ_INTERVAL {
            Some(Characteristic { uuid, service_uuid: uuids::AR4_SERVICE, properties: READ })
        } else if uuid == uuids::AR4_READ_HISTORY_READINGS_V1 {
            Some(Characteristic { uuid, service_uuid: uuids::AR4_SERVICE, properties: READ | NOTIFY })
        } else if uuid == uuids::AR4_READ_SECONDS_SINCE_UPDATE {
            Some(Characteristic { uuid, service_uuid: uuids::AR4_SERVICE, properties: READ })
        } else if uuid == uuids::AR4_READ_HISTORY_READINGS_V2 {
            Some(Characteristic { uuid, service_uuid: uuids::AR4_SERVICE, properties: READ })
        } else if uuid == uuids::AR4_READ_CURRENT_READINGS_DET {
            Some(Characteristic { uuid, service_uuid: uuids::AR4_SERVICE, properties: READ })
        } else {
            None
        }
    }

    /// Whether the characteristic supports reading.
    pub fn readable(&self) -> (b: bool)
        ensures
            b == self.spec_readable(),
    {
        self.properties & READ != 0
    }
}

} // verus!
