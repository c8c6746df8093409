//! Rating rules that classify a single sensor reading, rounded to an
//! integer, as good, bad or terrible air quality.

use vstd::prelude::*;

verus! {

/// How healthy one sensor reading (or a whole set of readings) is.
#[derive(Clone, Copy, PartialEq, Eq, Structural, Debug)]
pub enum SensorQuality {
    Good,
    Bad,
    Terrible,
    DependsOnContext,
}

/// The dashboard label of a quality rating.
pub open spec fn sensor_quality_text(quality: SensorQuality) -> Seq<char> {
    match quality {
        SensorQuality::Good => "GOOD"@,
        SensorQuality::Bad => "BAD"@,
        SensorQuality::Terrible => "TERRIBLE"@,
        SensorQuality::DependsOnContext => "DEPENDS"@,
    }
}

/// Renders a quality rating as the fixed label the dashboard shows.
pub fn sensor_quality_into_text(sensor_quality: &SensorQuality) -> (text: &'static str)
    ensures
        text@ == sensor_quality_text(*sensor_quality),
{
    match *sensor_quality {
        SensorQuality::Good => "GOOD",
        SensorQuality::Bad => "BAD",
        SensorQuality::Terrible => "TERRIBLE",
        SensorQuality::DependsOnContext => "DEPENDS",
    }
}

impl SensorQuality {
    /// Rates a temperature reading in whole degrees Celsius.
    pub fn temperature_quality(value: i32) -> (quality: SensorQuality)
        ensures
            quality == SensorQuality::Terrible <==> value >= 26,
            quality == SensorQuality::Good <==> 18 <= value <= 25,
            quality == SensorQuality::DependsOnContext <==> value <= 17,
    {
        if value >= 26 {
            SensorQuality::Terrible
        } else if value >= 18 {
            SensorQuality::Good
        } else {
            SensorQuality::DependsOnContext
        }
    }

    /// Rates a relative-humidity reading in whole percent.
    pub fn humidity_quality(value: u32) -> (quality: SensorQuality)
        ensures
            quality == SensorQuality::Terrible <==> (value >= 70 || value <= 24),
            quality == SensorQuality::Bad <==> (60 <= value <= 69 || 25 <= value <= 29),
            quality == SensorQuality::Good <==> 30 <= value <= 59,
    {
        if value >= 70 {
            SensorQuality::Terrible
        } else if value >= 60 {
            SensorQuality::Bad
        } else if value >= 30 {
            SensorQuality::Good
        } else if value >= 25 {
            SensorQuality::Bad
        } else {
            SensorQuality::Terrible
        }
    }

    /// Atmospheric pressure has no context-free healthy range.
    pub fn atmospheric_pressure_quality(_value: u32) -> (quality: SensorQuality)
        ensures
            quality == SensorQuality::DependsOnContext,
    {
        SensorQuality::DependsOnContext
    }

    /// Rates a carbon-dioxide reading in whole ppm.
    pub fn co2_quality(value: u32) -> (quality: SensorQuality)
        ensures
            quality == SensorQuality::Terrible <==> value >= 1000,
            quality == SensorQuality::Bad <==> 800 <= value <= 999,
            quality == SensorQuality::Good <==> value <= 799,
    {
        if value >= 1000 {
            SensorQuality::Terrible
        } else if value >= 800 {
            SensorQuality::Bad
        } else {
            SensorQuality::Good
        }
    }

    /// Rates a volatile-organic-compound reading in whole ppb.
    pub fn voc_quality(value: u32) -> (quality: SensorQuality)
        ensures
            quality == SensorQuality::Terrible <==> value >= 2000,
            quality == SensorQuality::Bad <==> 250 <= value <= 1999,
            quality == SensorQuality::Good <==> value <= 249,
    {
        if value >= 2000 {
            SensorQuality::Terrible
        } else if value >= 250 {
            SensorQuality::Bad
        } else {
            SensorQuality::Good
        }
    }

    /// Rates a radon reading in whole Bq/m3.
    pub fn radon_quality(value: u32) -> (quality: SensorQuality)
        ensures
            quality == SensorQuality::Terrible <==> value >= 150,
            quality == SensorQuality::Bad <==> 100 <= value <= 149,
            quality == SensorQuality::Good <==> value <= 99,
    {
        if value >= 150 {
            SensorQuality::Terrible
        } else if value >= 100 {
            SensorQuality::Bad
        } else {
            SensorQuality::Good
        }
    }

    /// Collapses a list of per-sensor ratings to the worst one, where
    /// `DependsOnContext` entries count as neither good nor bad.
    pub fn worst_sensor_quality(sensor_data_list: Vec<SensorQuality>) -> (quality: SensorQuality)
        ensures
            quality == SensorQuality::Terrible <==> (exists|i: int|
                0 <= i < sensor_data_list@.len() && sensor_data_list@[i]
                    == SensorQuality::Terrible),
            quality == SensorQuality::Bad <==> ((forall|i: int|
                0 <= i < sensor_data_list@.len() ==> sensor_data_list@[i]
                    != SensorQuality::Terrible) && (exists|i: int|
                0 <= i < sensor_data_list@.len() && sensor_data_list@[i] == SensorQuality::Bad)),
            quality == SensorQuality::Good <==> (forall|i: int|
                0 <= i < sensor_data_list@.len() ==> (sensor_data_list@[i]
                    != SensorQuality::Terrible && sensor_data_list@[i] != SensorQuality::Bad)),
    {
        let mut any_terrible: bool = false;
        let mut any_bad: bool = false;
        let mut index: usize = 0;
        while index < sensor_data_list.len()
            invariant
                0 <= index <= sensor_data_list@.len(),
                any_terrible <==> (exists|i: int|
                    0 <= i < index && sensor_data_list@[i] == SensorQuality::Terrible),
                any_bad <==> (exists|i: int|
                    0 <= i < index && sensor_data_list@[i] == SensorQuality::Bad),
            decreases sensor_data_list@.len() - index,
        {
            if sensor_data_list[index] == SensorQuality::Terrible {
                any_terrible = true;
            }
            if sensor_data_list[index] == SensorQuality::Bad {
                any_bad = true;
            }
            index += 1;
        }
        if any_terrible {
            SensorQuality::Terrible
        } else if any_bad {
            SensorQuality::Bad
        } else {
            SensorQuality::Good
        }
    }
}

} // verus!
