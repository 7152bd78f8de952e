//! Decode core for a consumer CO2/temperature sensor that reports through
//! 8-byte obfuscated HID frames, plus the air-quality banding used when the
//! readings are published.

pub mod zytemp;

use vstd::prelude::*;

verus! {

/// Air quality band for a co2 concentration, as shown on consumer monitors.
#[derive(Clone, Copy, Debug, PartialEq, Eq, Structural)]
pub enum AirQuality {
    Excellent,
    Good,
    Fair,
    Inferior,
    Poor,
    Unknown,
}

/// The band a co2 concentration (in ppm) falls into. Band edges overlap at
/// 1200 ppm; the lower band wins there, as the first matching range does.
pub open spec fn quality_of(co2level: u16) -> AirQuality {
    if 200 <= co2level && co2level <= 400 {
        AirQuality::Excellent
    } else if 401 <= co2level && co2level <= 600 {
        AirQuality::Good
    } else if 601 <= co2level && co2level <= 800 {
        AirQuality::Fair
    } else if 801 <= co2level && co2level <= 1200 {
        AirQuality::Inferior
    } else if 1200 <= co2level && co2level <= 2000 {
        AirQuality::Poor
    } else {
        AirQuality::Unknown
    }
}

/// Classify a co2 concentration (ppm) into its air quality band.
pub fn by_co2(co2level: u16) -> (r: AirQuality)
    ensures
        r == quality_of(co2level),
{
    if 200 <= co2level && co2level <= 400 {
        AirQuality::Excellent
    } else if 401 <= co2level && co2level <= 600 {
        AirQuality::Good
    } else if 601 <= co2level && co2level <= 800 {
        AirQuality::Fair
    } else if 801 <= co2level && co2level <= 1200 {
        AirQuality::Inferior
    } else if 1200 <= co2level && co2level <= 2000 {
        AirQuality::Poor
    } else {
        AirQuality::Unknown
    }
}

impl AirQuality {
    /// The band's name, as published alongside the co2 value.
    pub open spec fn label_spec(self) -> Seq<char> {
        match self {
            AirQuality::Excellent => "Excellent"@,
            AirQuality::Good => "Good"@,
            AirQuality::Fair => "Fair"@,
            AirQuality::Inferior => "Inferior"@,
            AirQuality::Poor => "Poor"@,
            AirQuality::Unknown => "Unknown"@,
        }
    }

    /// The band's name as a string.
    pub fn label(&self) -> (r: &'static str)
        ensures
            r@ == self.label_spec(),
    {
        match self {
            AirQuality::Excellent => "Excellent",
            AirQuality::Good => "Good",
            AirQuality::Fair => "Fair",
            AirQuality::Inferior => "Inferior",
            AirQuality::Poor => "Poor",
            AirQuality::Unknown => "Unknown",
        }
    }
}

} // verus!
