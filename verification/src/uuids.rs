//! Identifiers of the sensor's wire contract. A 128-bit UUID is written as
//! the integer whose big-endian bytes are the UUID's sixteen bytes.

use vstd::prelude::*;

verus! {

/// Company identifier under which the sensor advertises its manufacturer
/// data, assigned to SAF Tehnika.
pub const MANUFACTURER_ID: u16 = 0x0702;

/// Sensor service of firmware before v1.2.0.
pub const AR4_OLD_SERVICE: u128 = 0xf0cd1400_95da_4f4b_9ac8_aa55d312af0c;

/// Sensor service of firmware v1.2.0 and later.
pub const AR4_SERVICE: u128 = 0x0000fce0_0000_1000_8000_00805f9b34fb;

/// Generic access service.
pub const GENERIC_SERVICE: u128 = 0x00001800_0000_1000_8000_00805f9b34fb;

/// Device information service.
pub const COMMON_SERVICE: u128 = 0x0000180a_0000_1000_8000_00805f9b34fb;

/// Generic attribute service.
pub const GENERIC_ATTRIBUTE: u128 = 0x00001801_0000_1000_8000_00805f9b34fb;

/// Battery service.
pub const BATTERY_SERVICE: u128 = 0x0000180f_0000_1000_8000_00805f9b34fb;

/// Service of the Nordic Semiconductor firmware updater.
pub const MANUF_NORDIC_SEMICONDUCTOR_ASA: u128 = 0x0000fe59_0000_1000_8000_00805f9b34fb;

/// Basic current reading, 9 bytes.
pub const AR4_READ_CURRENT_READINGS: u128 = 0xf0cd1503_95da_4f4b_9ac8_aa55d312af0c;

/// Detailed current reading, 13 bytes.
pub const AR4_READ_CURRENT_READINGS_DET: u128 = 0xf0cd3001_95da_4f4b_9ac8_aa55d312af0c;

/// Seconds between two samples.
pub const AR4_READ_INTERVAL: u128 = 0xf0cd2002_95da_4f4b_9ac8_aa55d312af0c;

/// Seconds since the last sample.
pub const AR4_READ_SECONDS_SINCE_UPDATE: u128 = 0xf0cd2004_95da_4f4b_9ac8_aa55d312af0c;

/// Number of samples stored on the device.
pub const AR4_READ_TOTAL_READINGS: u128 = 0xf0cd2001_95da_4f4b_9ac8_aa55d312af0c;

/// Stored samples, first format.
pub const AR4_READ_HISTORY_READINGS_V1: u128 = 0xf0cd2003_95da_4f4b_9ac8_aa55d312af0c;

/// Stored samples, second format.
pub const AR4_READ_HISTORY_READINGS_V2: u128 = 0xf0cd2005_95da_4f4b_9ac8_aa55d312af0c;

/// Sensor calibration data.
pub const AR4_READ_SENSOR_CALIBRATION: u128 = 0xf0cd1502_95da_4f4b_9ac8_aa55d312af0c;

/// Sensor settings.
pub const AR4_READ_SENSOR_SETTINGS: u128 = 0xf0cd1401_95da_4f4b_9ac8_aa55d312af0c;

/// Command channel of the sensor service.
pub const AR4_WRITE_CMD: u128 = 0xf0cd1402_95da_4f4b_9ac8_aa55d312af0c;

/// Device name.
pub const GENERIC_READ_DEVICE_NAME: u128 = 0x00002a00_0000_1000_8000_00805f9b34fb;

/// Appearance.
pub const COMMON_APPEARANCE: u128 = 0x00002a01_0000_1000_8000_00805f9b34fb;

/// Preferred connection parameters.
pub const COMMON_PREFERRED_CONNECT_PARAMS: u128 = 0x00002a04_0000_1000_8000_00805f9b34fb;

/// Central address resolution.
pub const COMMON_CENTRAL_ADDR_RESOLUTION: u128 = 0x00002aa6_0000_1000_8000_00805f9b34fb;

/// Service changed indication.
pub const GENERIC_SVC_CHANGED: u128 = 0x00002a05_0000_1000_8000_00805f9b34fb;

/// Battery level.
pub const BATTERY_READ: u128 = 0x00002a19_0000_1000_8000_00805f9b34fb;

/// System identifier.
pub const COMMON_SYSTEM_ID: u128 = 0x00002a23_0000_1000_8000_00805f9b34fb;

/// Model number.
pub const COMMON_READ_MODEL_NUMBER: u128 = 0x00002a24_0000_1000_8000_00805f9b34fb;

/// Serial number.
pub const COMMON_READ_SERIAL_NO: u128 = 0x00002a25_0000_1000_8000_00805f9b34fb;

/// Firmware revision string.
pub const COMMON_READ_SW_REV: u128 = 0x00002a26_0000_1000_8000_00805f9b34fb;

/// Hardware revision.
pub const COMMON_READ_HW_REV: u128 = 0x00002a27_0000_1000_8000_00805f9b34fb;

/// Factory firmware revision.
pub const COMMON_READ_FACTORY_SW_REV: u128 = 0x00002a28_0000_1000_8000_00805f9b34fb;

/// Manufacturer name.
pub const COMMON_READ_MANUFACTURER_NAME: u128 = 0x00002a29_0000_1000_8000_00805f9b34fb;

/// Control point of the firmware updater.
pub const NORDIC_DFU: u128 = 0x8ec90003_f315_4f60_9fb8_838830daea50;

} // verus!
