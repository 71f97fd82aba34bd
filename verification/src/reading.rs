//! Current-reading records: the basic 9-byte form and the 13-byte form
//! with measurement interval and age.

use vstd::prelude::*;
use vstd::slice::slice_subrange;
use crate::error::Error;
use crate::status::DisplayStatus;
use crate::units::{
    pressure_hpa_to_atm, spec_pressure_hpa_to_atm, spec_temperature_c_to_f, temperature_c_to_f,
};
use crate::wire::{
    le_u16, lemma_flag_bits, spec_bit, spec_le_u16, spec_unless_flagged, unless_flagged,
};

verus! {

/// Length in bytes of a basic reading record.
pub const READING_LEN: usize = 9;

/// Length in bytes of a detailed reading record.
pub const DETAILED_READING_LEN: usize = 13;

/// One sample of the sensor. Scaled quantities are kept as the integer
/// counts of the wire format, so that every value is exact.
#[derive(Clone, Copy, Debug, PartialEq, Eq, Structural)]
pub struct CurrentReading {
    /// CO2 concentration in ppm; absent when the sensor has no reading.
    pub co2_ppm: Option<u16>,
    /// Temperature in steps of 0.05 degrees Celsius; absent when invalid.
    pub temperature_raw: Option<u16>,
    /// Pressure in steps of 0.1 hPa; absent when invalid.
    pub pressure_raw: Option<u16>,
    /// Relative humidity in percent.
    pub humidity_percent: u8,
    /// Battery charge in percent.
    pub battery_percent: u8,
    /// Colour shown for the CO2 level.
    pub status: DisplayStatus,
}

impl CurrentReading {
    /// Whether `data` is a basic reading record: nine bytes, the last of
    /// them a defined display status.
    pub open spec fn spec_decodable(data: Seq<u8>) -> bool {
        data.len() == 9 && 1 <= data[8] <= 3
    }

    /// The reading that a record holds.
    pub open spec fn spec_parse(data: Seq<u8>) -> CurrentReading
        recommends
            Self::spec_decodable(data),
    {
        CurrentReading {
            co2_ppm: spec_unless_flagged(spec_le_u16(data[0], data[1]), 15),
            temperature_raw: spec_unless_flagged(spec_le_u16(data[2], data[3]), 14),
            pressure_raw: spec_unless_flagged(spec_le_u16(data[4], data[5]), 15),
            humidity_percent: data[6],
            battery_percent: data[7],
            status: DisplayStatus::spec_from_raw(data[8]).unwrap(),
        }
    }

    /// Temperature in thousandths of a degree Fahrenheit.
    pub open spec fn spec_temperature_f(self) -> Option<i64> {
        match self.temperature_raw {
            Some(raw) => Some(spec_temperature_c_to_f((5 * raw) as i32)),
            None => None,
        }
    }

    /// Decodes a basic reading record. Fails on any other length and on an
    /// undefined display status.
    pub fn parse(data: &[u8]) -> (res: Result<CurrentReading, Error>)
        ensures
            res is Ok <==> Self::spec_decodable(data@),
            res is Ok ==> res.unwrap() == Self::spec_parse(data@),
            res is Err ==> res == Err::<CurrentReading, Error>(Error::MalformedInput),
    {
        if data.len() != READING_LEN {
            return Err(Error::MalformedInput);
        }
        let status = match DisplayStatus::from_raw(data[8]) {
            Some(status) => status,
            None => {
                return Err(Error::MalformedInput);
            },
        };
        let co2_ppm = unless_flagged(le_u16(data[0], data[1]), 15);
        let temperature_raw = unless_flagged(le_u16(data[2], data[3]), 14);
        let pressure_raw = unless_flagged(le_u16(data[4], data[5]), 15);
        Ok(
            CurrentReading {
                co2_ppm,
                temperature_raw,
                pressure_raw,
                humidity_percent: data[6],
                battery_percent: data[7],
                status,
            },
        )
    }

    /// The CO2 value of a record is absent when bit 15 of its first two
    /// bytes, read as a little-endian number, is set, and is that number
    /// otherwise. The same holds of the pressure in bytes 4 and 5. The
    /// temperature in bytes 2 and 3 is absent when bit 14 is set, and that
    /// number otherwise.
    pub proof fn lemma_optional_fields(data: Seq<u8>)
        requires
            data.len() == 9,
        ensures
            spec_bit(spec_le_u16(data[0], data[1]), 15) ==> Self::spec_parse(data).co2_ppm is None,
            !spec_bit(spec_le_u16(data[0], data[1]), 15) ==> Self::spec_parse(data).co2_ppm
                == Some(spec_le_u16(data[0], data[1])),
            spec_bit(spec_le_u16(data[2], data[3]), 14) ==> Self::spec_parse(
                data,
            ).temperature_raw is None,
            !spec_bit(spec_le_u16(data[2], data[3]), 14) ==> Self::spec_parse(data).temperature_raw
                == Some(spec_le_u16(data[2], data[3])),
            spec_bit(spec_le_u16(data[4], data[5]), 15) ==> Self::spec_parse(
                data,
            ).pressure_raw is None,
            !spec_bit(spec_le_u16(data[4], data[5]), 15) ==> Self::spec_parse(data).pressure_raw
                == Some(spec_le_u16(data[4], data[5])),
    {
    }

    /// In terms of the bytes of a record: bit 15 of a little-endian number
    /// is set when its second byte is 128 or more, and bit 14 when the
    /// second byte, divided by 64, is odd.
    pub proof fn lemma_flag_bytes(lo: u8, hi: u8)
        ensures
            spec_bit(spec_le_u16(lo, hi), 15) <==> hi >= 128,
            spec_bit(spec_le_u16(lo, hi), 14) <==> (hi / 64) % 2 == 1,
    {
        lemma_flag_bits(spec_le_u16(lo, hi));
    }

    /// Humidity and battery of a record are bytes 6 and 7, taken as
    /// hundredths.
    pub proof fn lemma_percentages(data: Seq<u8>)
        requires
            data.len() == 9,
        ensures
            Self::spec_parse(data).humidity_percent == data[6],
            Self::spec_parse(data).battery_percent == data[7],
    {
    }

    /// Humidity and battery of a record are fractions between 0 and 1
    /// where bytes 6 and 7 are at most 100.
    pub proof fn lemma_fractions(data: Seq<u8>)
        requires
            data.len() == 9,
            data[6] <= 100,
            data[7] <= 100,
        ensures
            0 <= Self::spec_parse(data).humidity_percent <= 100,
            0 <= Self::spec_parse(data).battery_percent <= 100,
    {
    }

    /// Nine bytes whose last is not 1, 2 or 3 are no record.
    pub proof fn lemma_undefined_status(data: Seq<u8>)
        requires
            data.len() == 9,
            !(1 <= data[8] <= 3),
        ensures
            !Self::spec_decodable(data),
    {
    }

    /// Temperature in thousandths of a degree Fahrenheit; absent exactly
    /// when the temperature is.
    pub fn temperature_f(&self) -> (f: Option<i64>)
        ensures
            f == self.spec_temperature_f(),
            f is None <==> self.temperature_raw is None,
            self.temperature_raw matches Some(raw) ==> f == Some((90 * raw + 32000) as i64),
    {
        match self.temperature_raw {
            Some(raw) => {
                let centi_c: i32 = 5 * (raw as i32);
                Some(temperature_c_to_f(centi_c))
            },
            None => None,
        }
    }
}

/// One sample of the sensor together with the measurement interval and the
/// age of the sample.
#[derive(Clone, Copy, Debug, PartialEq, Eq, Structural)]
pub struct CurrentReadingDetailed {
    /// CO2 concentration in ppm; absent when the sensor has no reading.
    pub co2_ppm: Option<u16>,
    /// Temperature in steps of 0.05 degrees Celsius; absent when invalid.
    pub temperature_raw: Option<u16>,
    /// Pressure in steps of 0.1 hPa; absent when invalid.
    pub pressure_raw: Option<u16>,
    /// Relative humidity in percent.
    pub humidity_percent: u8,
    /// Battery charge in percent.
    pub battery_percent: u8,
    /// Colour shown for the CO2 level.
    pub status: DisplayStatus,
    /// Seconds between two samples.
    pub interval: u16,
    /// Seconds since this sample was taken.
    pub age: u16,
}

impl CurrentReadingDetailed {
    /// Whether `data` is a detailed reading record: thirteen bytes, the
    /// ninth of them a defined display status.
    pub open spec fn spec_decodable(data: Seq<u8>) -> bool {
        data.len() == 13 && 1 <= data[8] <= 3
    }

    /// The reading that a record holds.
    pub open spec fn spec_parse(data: Seq<u8>) -> CurrentReadingDetailed
        recommends
            Self::spec_decodable(data),
    {
        CurrentReadingDetailed {
            co2_ppm: spec_unless_flagged(spec_le_u16(data[0], data[1]), 15),
            temperature_raw: spec_unless_flagged(spec_le_u16(data[2], data[3]), 14),
            pressure_raw: spec_unless_flagged(spec_le_u16(data[4], data[5]), 15),
            humidity_percent: data[6],
            battery_percent: data[7],
            status: DisplayStatus::spec_from_raw(data[8]).unwrap(),
            interval: spec_le_u16(data[9], data[10]),
            age: spec_le_u16(data[11], data[12]),
        }
    }

    /// The fields that a detailed reading shares with a basic one.
    pub open spec fn spec_basic(self) -> CurrentReading {
        CurrentReading {
            co2_ppm: self.co2_ppm,
            temperature_raw: self.temperature_raw,
            pressure_raw: self.pressure_raw,
            humidity_percent: self.humidity_percent,
            battery_percent: self.battery_percent,
            status: self.status,
        }
    }

    /// Temperature in thousandths of a degree Fahrenheit.
    pub open spec fn spec_temperature_f(self) -> Option<i64> {
        self.spec_basic().spec_temperature_f()
    }

    /// Pressure in billionths of a standard atmosphere, rounded down.
    pub open spec fn spec_pressure_atm(self) -> Option<u64> {
        match self.pressure_raw {
            Some(raw) => Some(spec_pressure_hpa_to_atm(raw as u32)),
            None => None,
        }
    }

    /// Decodes a detailed reading record. Fails on any other length and on
    /// an undefined display status.
    pub fn parse(data: &[u8]) -> (res: Result<CurrentReadingDetailed, Error>)
        ensures
            res is Ok <==> Self::spec_decodable(data@),
            res is Ok ==> res.unwrap() == Self::spec_parse(data@),
            res is Err ==> res == Err::<CurrentReadingDetailed, Error>(Error::MalformedInput),
    {
        if data.len() != DETAILED_READING_LEN {
            return Err(Error::MalformedInput);
        }
        let basic = match CurrentReading::parse(slice_subrange(data, 0, READING_LEN)) {
            Ok(basic) => basic,
            Err(e) => {
                return Err(e);
            },
        };
        let interval = le_u16(data[9], data[10]);
        let age = le_u16(data[11], data[12]);
        Ok(
            CurrentReadingDetailed {
                co2_ppm: basic.co2_ppm,
                temperature_raw: basic.temperature_raw,
                pressure_raw: basic.pressure_raw,
                humidity_percent: basic.humidity_percent,
                battery_percent: basic.battery_percent,
                status: basic.status,
                interval,
                age,
            },
        )
    }

    /// The fields that this reading shares with a basic one.
    pub fn basic(&self) -> (r: CurrentReading)
        ensures
            r == self.spec_basic(),
    {
        CurrentReading {
            co2_ppm: self.co2_ppm,
            temperature_raw: self.temperature_raw,
            pressure_raw: self.pressure_raw,
            humidity_percent: self.humidity_percent,
            battery_percent: self.battery_percent,
            status: self.status,
        }
    }

    /// Temperature in thousandths of a degree Fahrenheit; absent exactly
    /// when the temperature is.
    pub fn temperature_f(&self) -> (f: Option<i64>)
        ensures
            f == self.spec_temperature_f(),
            f is None <==> self.temperature_raw is None,
            self.temperature_raw matches Some(raw) ==> f == Some((90 * raw + 32000) as i64),
    {
        self.basic().temperature_f()
    }

    /// Pressure in billionths of a standard atmosphere, rounded down;
    /// absent exactly when the pressure is.
    pub fn pressure_atm(&self) -> (atm: Option<u64>)
        ensures
            atm == self.spec_pressure_atm(),
            atm is None <==> self.pressure_raw is None,
            self.pressure_raw matches Some(raw) ==> atm == Some(
                ((400000000 * raw) / 4053) as u64,
            ),
    {
        match self.pressure_raw {
            Some(raw) => Some(pressure_hpa_to_atm(raw as u32)),
            None => None,
        }
    }

    /// A detailed record decodes exactly when its first nine bytes decode
    /// as a basic record, and then to the same shared fields, with interval
    /// and age read from the last four bytes.
    pub proof fn lemma_extends_basic(data: Seq<u8>)
        requires
            data.len() == 13,
        ensures
            Self::spec_decodable(data) <==> CurrentReading::spec_decodable(data.subrange(0, 9)),
            Self::spec_parse(data).spec_basic() == CurrentReading::spec_parse(data.subrange(0, 9)),
            Self::spec_parse(data).interval == spec_le_u16(data[9], data[10]),
            Self::spec_parse(data).age == spec_le_u16(data[11], data[12]),
    {
    }
}

} // verus!
