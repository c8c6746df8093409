//! The header line of the per-device sensor-data CSV files the acquisition
//! pipeline produces and the mirror moves around.

use vstd::prelude::*;
use vstd::string::*;
use crate::text::{decimal_string_of, u64_to_string};

verus! {

/// The column names of a sensor-data CSV file, ended by the serial number of
/// the device the file belongs to.
pub fn csv_header(device_serial_number: &u32) -> (header: String)
    ensures
        header@ ==
            "Timestamp,Temperature (C),Humidity (%),Atmospheric pressure (mbar),CO2 (ppm),TVOC (ppb),Radon short-term average (Bq/m3),Radon long-term average (Bq/m3),"@
            + decimal_string_of(*device_serial_number as nat),
{
    String::from_str(
        "Timestamp,Temperature (C),Humidity (%),Atmospheric pressure (mbar),CO2 (ppm),TVOC (ppb),Radon short-term average (Bq/m3),Radon long-term average (Bq/m3),",
    ).concat(u64_to_string(*device_serial_number as u64).as_str())
}

} // verus!
