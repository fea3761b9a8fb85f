//! The closed set of measurement channels and the identifiers resolved for them.
use vstd::prelude::*;

verus! {

/// One of the four fixed measurement channels of the sensor box.
#[derive(Debug, Clone, Copy, PartialEq, Eq, Structural)]
pub enum Channel {
    Ds18b20,
    Dht11Temperature,
    Dht11Humidity,
    Dht11DewPoint,
}

pub open spec fn channel_name(c: Channel) -> Seq<char> {
    match c {
        Channel::Ds18b20 => "DS18B20"@,
        Channel::Dht11Temperature => "DHT11 Temperature"@,
        Channel::Dht11Humidity => "DHT11 Humidity"@,
        Channel::Dht11DewPoint => "DHT11 Dew Point"@,
    }
}

pub open spec fn channel_unit(c: Channel) -> Seq<char> {
    match c {
        Channel::Dht11Humidity => "%"@,
        _ => "°C"@,
    }
}

/// The channels in the order in which a report is dispatched.
pub open spec fn channel_order() -> Seq<Channel> {
    seq![Channel::Ds18b20, Channel::Dht11Temperature, Channel::Dht11Humidity, Channel::Dht11DewPoint]
}

impl Channel {
    /// The channel's sensor name in the catalog, its identity key there.
    pub fn name(&self) -> (r: &'static str)
        ensures
            r@ == channel_name(*self),
    {
        match self {
            Channel::Ds18b20 => "DS18B20",
            Channel::Dht11Temperature => "DHT11 Temperature",
            Channel::Dht11Humidity => "DHT11 Humidity",
            Channel::Dht11DewPoint => "DHT11 Dew Point",
        }
    }

    /// The unit recorded when the channel's sensor is created in the catalog.
    pub fn unit(&self) -> (r: &'static str)
        ensures
            r@ == channel_unit(*self),
    {
        match self {
            Channel::Dht11Humidity => "%",
            _ => "°C",
        }
    }
}

/// All channels, in dispatch order.
pub fn all_channels() -> (r: Vec<Channel>)
    ensures
        r@ == channel_order(),
{
    let r = vec![Channel::Ds18b20, Channel::Dht11Temperature, Channel::Dht11Humidity, Channel::Dht11DewPoint];
    assert(r@ =~= channel_order());
    r
}

/// The catalog identifiers of the four channels' sensors.
#[derive(Debug, Clone, Copy, PartialEq, Eq, Structural)]
pub struct SensorIds {
    pub ds18b20: i32,
    pub dht11_temperature: i32,
    pub dht11_humidity: i32,
    pub dht11_dew_point: i32,
}

pub open spec fn sensor_id_of(ids: SensorIds, c: Channel) -> i32 {
    match c {
        Channel::Ds18b20 => ids.ds18b20,
        Channel::Dht11Temperature => ids.dht11_temperature,
        Channel::Dht11Humidity => ids.dht11_humidity,
        Channel::Dht11DewPoint => ids.dht11_dew_point,
    }
}

/// The four identifiers are pairwise different.
pub open spec fn sensor_ids_distinct(ids: SensorIds) -> bool {
    forall|a: Channel, b: Channel| a != b ==> sensor_id_of(ids, a) != sensor_id_of(ids, b)
}

impl SensorIds {
    /// The identifier of the sensor of channel `c`.
    pub fn id_of(&self, c: Channel) -> (r: i32)
        ensures
            r == sensor_id_of(*self, c),
    {
        match c {
            Channel::Ds18b20 => self.ds18b20,
            Channel::Dht11Temperature => self.dht11_temperature,
            Channel::Dht11Humidity => self.dht11_humidity,
            Channel::Dht11DewPoint => self.dht11_dew_point,
        }
    }
}

} // verus!
