//! Sensor reports as decoded from the bus, their normalization, and the
//! measurements that one report decomposes into.
use chrono::{Datelike, Timelike};
use vstd::prelude::*;

use crate::channel::{Channel, SensorIds, channel_order, sensor_id_of};

verus! {

/// A timezone-less date and time, field by field.
#[derive(Debug, Clone, Copy, PartialEq, Eq, Structural)]
pub struct Timestamp {
    pub year: i32,
    pub month: u32,
    pub day: u32,
    pub hour: u32,
    pub minute: u32,
    pub second: u32,
    pub nanosecond: u32,
}

/// The four numeric readings of a report, each as the bit pattern of an
/// IEEE-754 single-precision number, carried without conversion.
#[derive(Debug, Clone, Copy, PartialEq, Eq, Structural)]
pub struct Readings {
    pub ds18b20_temperature: u32,
    pub dht11_temperature: u32,
    pub dht11_humidity: u32,
    pub dht11_dew_point: u32,
}

/// A bus message decoded structurally; its time is still text.
#[derive(Debug, Clone)]
pub struct WireReport {
    pub time: String,
    pub probe_id: String,
    pub readings: Readings,
    pub temp_unit: String,
}

/// A well-formed sensor report.
#[derive(Debug, Clone)]
pub struct SensorReport {
    pub time: Timestamp,
    pub probe_id: String,
    pub readings: Readings,
    pub temp_unit: String,
}

/// Why an inbound message was dropped.
#[derive(Debug, Clone, Copy, PartialEq, Eq, Structural)]
pub enum ParseError {
    /// The payload is not UTF-8 text of the report's structure.
    Decode,
    /// The time is not a naive date-time.
    Timestamp,
}

/// The date-time that chrono reads from the text `s`, if any.
pub uninterp spec fn naive_datetime_of(s: Seq<char>) -> Option<Timestamp>;

/// Relies on chrono's `FromStr` for `NaiveDateTime` (the form
/// `%Y-%m-%dT%H:%M:%S%.f`, which its serde support also reads): the result
/// depends on the text alone.
#[verifier::external_body]
fn parse_naive_datetime(s: &String) -> (r: Option<Timestamp>)
    ensures
        r == naive_datetime_of(s@),
{
    match s.parse::<chrono::NaiveDateTime>() {
        Ok(t) => Some(Timestamp {
            year: t.year(),
            month: t.month(),
            day: t.day(),
            hour: t.hour(),
            minute: t.minute(),
            second: t.second(),
            nanosecond: t.nanosecond(),
        }),
        Err(_) => None,
    }
}

/// The report that a decoded message with parsed time `time` stands for.
pub open spec fn report_of(wire: WireReport, time: Option<Timestamp>) -> Result<SensorReport, ParseError> {
    match time {
        Some(t) => Ok(SensorReport { time: t, probe_id: wire.probe_id, readings: wire.readings, temp_unit: wire.temp_unit }),
        None => Err(ParseError::Timestamp),
    }
}

/// Completes a decoded message with the parse of its time.
pub fn report_from_parts(wire: WireReport, time: Option<Timestamp>) -> (r: Result<SensorReport, ParseError>)
    ensures
        r == report_of(wire, time),
{
    match time {
        Some(t) => Ok(SensorReport { time: t, probe_id: wire.probe_id, readings: wire.readings, temp_unit: wire.temp_unit }),
        None => Err(ParseError::Timestamp),
    }
}

/// Normalizes a decoded message: its time must read as a naive date-time; the
/// readings pass unchanged.
pub fn normalize(wire: WireReport) -> (r: Result<SensorReport, ParseError>)
    ensures
        r == report_of(wire, naive_datetime_of(wire.time@)),
{
    let time = parse_naive_datetime(&wire.time);
    report_from_parts(wire, time)
}

/// One point to persist: a device, one of its sensors, and a value (the bit
/// pattern of a single-precision number).
#[derive(Debug, Clone, Copy, PartialEq, Eq, Structural)]
pub struct Measurement {
    pub device: i32,
    pub sensor: i32,
    pub measurement: u32,
}

impl Measurement {
    pub fn new(device: i32, sensor: i32, measurement: u32) -> (r: Self)
        ensures
            r == (Measurement { device, sensor, measurement }),
    {
        Measurement { device, sensor, measurement }
    }
}

pub open spec fn reading_of(readings: Readings, c: Channel) -> u32 {
    match c {
        Channel::Ds18b20 => readings.ds18b20_temperature,
        Channel::Dht11Temperature => readings.dht11_temperature,
        Channel::Dht11Humidity => readings.dht11_humidity,
        Channel::Dht11DewPoint => readings.dht11_dew_point,
    }
}

/// The measurement of channel `c`.
pub open spec fn channel_measurement(device: i32, ids: SensorIds, readings: Readings, c: Channel) -> Measurement {
    Measurement { device, sensor: sensor_id_of(ids, c), measurement: reading_of(readings, c) }
}

/// The measurements of one report: one per channel, in dispatch order.
pub open spec fn measurements_spec(device: i32, ids: SensorIds, readings: Readings) -> Seq<Measurement> {
    channel_order().map_values(|c: Channel| channel_measurement(device, ids, readings, c))
}

/// The reading of channel `c`.
pub fn reading(readings: &Readings, c: Channel) -> (r: u32)
    ensures
        r == reading_of(*readings, c),
{
    match c {
        Channel::Ds18b20 => readings.ds18b20_temperature,
        Channel::Dht11Temperature => readings.dht11_temperature,
        Channel::Dht11Humidity => readings.dht11_humidity,
        Channel::Dht11DewPoint => readings.dht11_dew_point,
    }
}

/// Decomposes readings into the four measurements of device `device`.
pub fn measurements_of(device: i32, ids: &SensorIds, readings: &Readings) -> (r: Vec<Measurement>)
    ensures
        r@ == measurements_spec(device, *ids, *readings),
{
    let channels = crate::channel::all_channels();
    let mut r: Vec<Measurement> = Vec::new();
    let mut i: usize = 0;
    while i < channels.len()
        invariant
            channels@ == channel_order(),
            i <= channels@.len(),
            r@ == measurements_spec(device, *ids, *readings).take(i as int),
        decreases channels.len() - i,
    {
        let c = channels[i];
        r.push(Measurement::new(device, ids.id_of(c), reading(readings, c)));
        i = i + 1;
        assert(r@ =~= measurements_spec(device, *ids, *readings).take(i as int));
    }
    assert(r@ =~= measurements_spec(device, *ids, *readings));
    r
}

} // verus!
