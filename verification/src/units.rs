//! Unit conversions in exact fixed-point arithmetic.

use vstd::prelude::*;

verus! {

/// Thousandths of a degree Fahrenheit for hundredths of a degree Celsius:
/// `f = c * 1.8 + 32`.
pub open spec fn spec_temperature_c_to_f(centi_c: i32) -> i64 {
    (18 * centi_c + 32000) as i64
}

/// Billionths of a standard atmosphere for tenths of a hectopascal, rounded
/// down: `atm = hpa / 1013.25`.
pub open spec fn spec_pressure_hpa_to_atm(deci_hpa: u32) -> u64 {
    ((400000000 * deci_hpa) / 4053) as u64
}

/// Converts hundredths of a degree Celsius to thousandths of a degree
/// Fahrenheit. The result is exact.
pub fn temperature_c_to_f(centi_c: i32) -> (milli_f: i64)
    ensures
        milli_f == spec_temperature_c_to_f(centi_c),
        milli_f == 18 * centi_c + 32000,
{
    18 * (centi_c as i64) + 32000
}

/// Converts tenths of a hectopascal to billionths of a standard atmosphere,
/// rounding down.
pub fn pressure_hpa_to_atm(deci_hpa: u32) -> (nano_atm: u64)
    ensures
        nano_atm == spec_pressure_hpa_to_atm(deci_hpa),
        4053 * nano_atm <= 400000000 * deci_hpa < 4053 * (nano_atm + 1),
{
    400000000 * (deci_hpa as u64) / 4053
}

/// Hundredths of a degree Celsius for thousandths of a degree Fahrenheit,
/// rounded down: `c = (f - 32) / 1.8`.
pub open spec fn spec_temperature_f_to_c(milli_f: int) -> int {
    (milli_f - 32000) / 18
}

/// Tenths of a hectopascal for billionths of a standard atmosphere, rounded
/// down: `hpa = atm * 1013.25`.
pub open spec fn spec_pressure_atm_to_hpa(nano_atm: int) -> int {
    (4053 * nano_atm) / 400000000
}

/// Converting a temperature to Fahrenheit and back gives it unchanged.
pub proof fn lemma_temperature_round_trip(centi_c: i32)
    ensures
        spec_temperature_f_to_c(spec_temperature_c_to_f(centi_c) as int) == centi_c,
{
}

/// The atmospheres that a pressure converts to stand for a pressure that is
/// not above it, less than 0.00000102 hPa below it, and within one part in
/// 100000 of it. In units of a four-billionth of a hectopascal the pressure
/// is `400000000 * deci_hpa` and what the atmospheres stand for, by
/// `hpa = atm * 1013.25`, is `4053 * nano_atm`.
pub proof fn lemma_pressure_tolerance(deci_hpa: u32)
    ensures
        4053 * spec_pressure_hpa_to_atm(deci_hpa) <= 400000000 * deci_hpa,
        400000000 * deci_hpa - 4053 * spec_pressure_hpa_to_atm(deci_hpa) < 4053,
        100000 * (400000000 * deci_hpa - 4053 * spec_pressure_hpa_to_atm(deci_hpa)) <= 400000000
            * deci_hpa,
{
    if deci_hpa == 1 {
        assert(400000000int / 4053 == 98692);
    }
}

/// Converting a pressure to atmospheres and back in whole tenths of a
/// hectopascal gives the pressure or the tenth below it, and the pressure
/// itself where the atmospheres came out without rounding.
pub proof fn lemma_pressure_round_trip(deci_hpa: u32)
    ensures
        deci_hpa - 1 <= spec_pressure_atm_to_hpa(spec_pressure_hpa_to_atm(deci_hpa) as int)
            <= deci_hpa,
        (400000000 * deci_hpa) % 4053 == 0 ==> spec_pressure_atm_to_hpa(
            spec_pressure_hpa_to_atm(deci_hpa) as int,
        ) == deci_hpa,
{
}

} // verus!
