//! Manufacturer data of a sensor's advertisement.

use vstd::prelude::*;
use crate::error::Error;
use crate::status::CalibrationState;
use crate::version::Version;

verus! {

/// Length in bytes of the manufacturer-data record.
pub const MANUFACTURER_DATA_LEN: usize = 7;

/// Status flags and firmware version that a sensor advertises.
#[derive(Clone, Copy, Debug, PartialEq, Eq, Structural)]
pub struct ManufacturerData {
    /// Bit 0 of the flag byte.
    pub disconnected: bool,
    /// Bits 2 and 3 of the flag byte.
    pub calibration_state: CalibrationState,
    /// Bit 4 of the flag byte: a firmware update is in progress.
    pub dfu_active: bool,
    /// Bit 5 of the flag byte: integrations are enabled.
    pub integrations: bool,
    /// Firmware version, from bytes 1 to 3.
    pub version: Version,
}

/// Whether bit `n` of the flag byte `b` is set.
pub open spec fn spec_flag(b: u8, n: u8) -> bool {
    b & (1u8 << n) != 0
}

/// The two-bit calibration field of the flag byte `b`.
pub open spec fn spec_calibration_bits(b: u8) -> u8 {
    (b >> 2u8) & 0x03
}

impl ManufacturerData {
    /// Whether `data` is a manufacturer-data record: seven bytes.
    pub open spec fn spec_decodable(data: Seq<u8>) -> bool {
        data.len() == 7
    }

    /// What a manufacturer-data record holds.
    pub open spec fn spec_parse(data: Seq<u8>) -> ManufacturerData
        recommends
            Self::spec_decodable(data),
    {
        ManufacturerData {
            disconnected: spec_flag(data[0], 0),
            calibration_state: CalibrationState::spec_from_raw(
                spec_calibration_bits(data[0]),
            ).unwrap(),
            dfu_active: spec_flag(data[0], 4),
            integrations: spec_flag(data[0], 5),
            version: Version::spec_from_wire(data.subrange(1, 4)),
        }
    }

    /// Decodes a manufacturer-data record. Fails on any other length.
    pub fn parse(data: &[u8]) -> (res: Result<ManufacturerData, Error>)
        ensures
            res is Ok <==> Self::spec_decodable(data@),
            res is Ok ==> res.unwrap() == Self::spec_parse(data@),
            res is Err ==> res == Err::<ManufacturerData, Error>(Error::MalformedInput),
    {
        if data.len() != MANUFACTURER_DATA_LEN {
            return Err(Error::MalformedInput);
        }
        let flags: u8 = data[0];
        let bits: u8 = (flags >> 2u8) & 0x03;
        assert(bits <= 3) by (bit_vector)
            requires
                bits == (flags >> 2u8) & 0x03,
        ;
        let calibration_state = match CalibrationState::from_raw(bits) {
            Some(state) => state,
            None => {
                return Err(Error::MalformedInput);
            },
        };
        Ok(
            ManufacturerData {
                disconnected: flags & (1u8 << 0u8) != 0,
                calibration_state,
                dfu_active: flags & (1u8 << 4u8) != 0,
                integrations: flags & (1u8 << 5u8) != 0,
                version: Version::new(data[3], data[2], data[1]),
            },
        )
    }

    /// The version of a decoded record, written back to the wire, is bytes
    /// 1 to 3 of the record, and its fields are those bytes in the order
    /// patch, minor, major.
    pub proof fn lemma_version_round_trip(data: Seq<u8>)
        requires
            Self::spec_decodable(data),
        ensures
            Self::spec_parse(data).version.spec_wire() == data.subrange(1, 4),
            Self::spec_parse(data).version.patch == data[1],
            Self::spec_parse(data).version.minor == data[2],
            Self::spec_parse(data).version.major == data[3],
    {
        Version::lemma_wire_round_trip(data.subrange(1, 4));
    }

    /// The flags of a record are the parities of its flag byte divided by
    /// 1, 16 and 32, and its calibration field is that byte divided by 4,
    /// modulo 4.
    pub proof fn lemma_flag_byte(b: u8)
        ensures
            spec_flag(b, 0) <==> b % 2 == 1,
            spec_flag(b, 4) <==> (b / 16) % 2 == 1,
            spec_flag(b, 5) <==> (b / 32) % 2 == 1,
            spec_calibration_bits(b) == (b / 4) % 4,
    {
        assert((b & (1u8 << 0u8) != 0) <==> b % 2 == 1) by (bit_vector);
        assert((b & (1u8 << 4u8) != 0) <==> (b / 16) % 2 == 1) by (bit_vector);
        assert((b & (1u8 << 5u8) != 0) <==> (b / 32) % 2 == 1) by (bit_vector);
        assert((b >> 2u8) & 0x03 == (b / 4) % 4) by (bit_vector);
    }
}

} // verus!
