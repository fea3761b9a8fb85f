use beer_collector::bridge::{Bridge, BridgeContext, BridgeStats, BusEvent, LoopAction};
use beer_collector::channel::{all_channels, Channel, SensorIds};
use beer_collector::report::{
    measurements_of, normalize, report_from_parts, Measurement, ParseError, Readings, Timestamp,
    WireReport,
};

fn bits(x: f32) -> u32 {
    x.to_bits()
}

fn context() -> BridgeContext {
    BridgeContext {
        device_id: 1,
        sensor_ids: SensorIds {
            ds18b20: 10,
            dht11_temperature: 11,
            dht11_humidity: 12,
            dht11_dew_point: 13,
        },
    }
}

fn wire(time: &str, t1: f32, t2: f32, h: f32, dp: f32) -> WireReport {
    WireReport {
        time: time.to_string(),
        probe_id: "x".to_string(),
        readings: Readings {
            ds18b20_temperature: bits(t1),
            dht11_temperature: bits(t2),
            dht11_humidity: bits(h),
            dht11_dew_point: bits(dp),
        },
        temp_unit: "C".to_string(),
    }
}

fn dispatched(a: LoopAction) -> Vec<Measurement> {
    match a {
        LoopAction::Dispatch(v) => v,
        other => panic!("expected a dispatch, got {:?}", other),
    }
}

#[test]
fn example_report_yields_four_writes() {
    let mut bridge = Bridge::new(context());
    let ev = BusEvent::Publish(wire("2023-01-01T00:00:00", 21.5, 22.0, 55.0, 12.3));
    let ms = dispatched(bridge.handle_event(ev));
    assert_eq!(
        ms,
        vec![
            Measurement::new(1, 10, bits(21.5)),
            Measurement::new(1, 11, bits(22.0)),
            Measurement::new(1, 12, bits(55.0)),
            Measurement::new(1, 13, bits(12.3)),
        ]
    );
    assert_eq!(f32::from_bits(ms[3].measurement), 12.3);
    assert_eq!(bridge.stats.dispatched, 1);
}

#[test]
fn decomposition_copies_each_reading_verbatim() {
    let readings = Readings {
        ds18b20_temperature: bits(-3.25),
        dht11_temperature: bits(100.0),
        dht11_humidity: bits(0.0),
        dht11_dew_point: bits(-0.5),
    };
    let ids = context().sensor_ids;
    let ms = measurements_of(7, &ids, &readings);
    assert_eq!(ms.len(), 4);
    for m in &ms {
        assert_eq!(m.device, 7);
    }
    let sensors: Vec<i32> = ms.iter().map(|m| m.sensor).collect();
    assert_eq!(sensors, vec![10, 11, 12, 13]);
    assert_eq!(ms[0].measurement, bits(-3.25));
    assert_eq!(ms[1].measurement, bits(100.0));
    assert_eq!(ms[2].measurement, bits(0.0));
    assert_eq!(ms[3].measurement, bits(-0.5));
}

#[test]
fn malformed_message_between_two_good_ones_is_dropped() {
    let mut bridge = Bridge::new(context());
    let first = bridge.handle_event(BusEvent::Publish(wire("2023-01-01T00:00:00", 1.0, 2.0, 3.0, 4.0)));
    let bad = bridge.handle_event(BusEvent::Undecodable);
    let last = bridge.handle_event(BusEvent::Publish(wire("2023-01-01T00:00:05", 5.0, 6.0, 7.0, 8.0)));
    assert_eq!(dispatched(first).len(), 4);
    assert!(matches!(bad, LoopAction::Drop(ParseError::Decode)));
    assert_eq!(dispatched(last).len(), 4);
    assert_eq!(bridge.stats.dispatched, 2);
    assert_eq!(bridge.stats.dropped, 1);
    assert_eq!(bridge.stats.transport_errors, 0);
}

#[test]
fn bad_timestamp_drops_the_message() {
    let mut bridge = Bridge::new(context());
    let a = bridge.handle_event(BusEvent::Publish(wire("yesterday", 1.0, 2.0, 3.0, 4.0)));
    assert!(matches!(a, LoopAction::Drop(ParseError::Timestamp)));
    assert_eq!(bridge.stats.dropped, 1);
    assert_eq!(bridge.stats.dispatched, 0);
}

#[test]
fn transport_and_outgoing_events_do_not_stop_the_loop() {
    let mut bridge = Bridge::new(context());
    assert!(matches!(bridge.handle_event(BusEvent::TransportError), LoopAction::ReportTransportError));
    assert!(matches!(bridge.handle_event(BusEvent::Outgoing), LoopAction::Ignore));
    assert!(matches!(bridge.handle_event(BusEvent::OtherIncoming), LoopAction::Ignore));
    let ms = dispatched(bridge.handle_event(BusEvent::Publish(wire("2023-06-30T23:59:59", 1.0, 2.0, 3.0, 4.0))));
    assert_eq!(ms.len(), 4);
    assert_eq!(bridge.stats.transport_errors, 1);
    assert_eq!(bridge.stats.dispatched, 1);
    assert_eq!(bridge.context, context());
}

#[test]
fn counters_saturate() {
    let mut bridge = Bridge::new(context());
    bridge.stats.dropped = u64::MAX;
    bridge.handle_event(BusEvent::Undecodable);
    assert_eq!(bridge.stats.dropped, u64::MAX);
}

#[test]
fn write_results_are_tallied() {
    let mut bridge = Bridge::new(context());
    bridge.record_write(true);
    bridge.record_write(false);
    bridge.record_write(true);
    assert_eq!(
        bridge.stats,
        BridgeStats { dispatched: 0, dropped: 0, transport_errors: 0, writes_ok: 2, writes_failed: 1 }
    );
}

#[test]
fn normalize_reads_the_timestamp() {
    let r = normalize(wire("2023-01-02T03:04:05.5", 1.0, 2.0, 3.0, 4.0)).unwrap();
    assert_eq!(
        r.time,
        Timestamp { year: 2023, month: 1, day: 2, hour: 3, minute: 4, second: 5, nanosecond: 500_000_000 }
    );
    assert_eq!(r.probe_id, "x");
    assert_eq!(r.temp_unit, "C");
    assert_eq!(r.readings.dht11_humidity, bits(3.0));
}

#[test]
fn normalize_rejects_a_zoned_or_partial_timestamp() {
    assert_eq!(normalize(wire("2023-01-01", 1.0, 2.0, 3.0, 4.0)).unwrap_err(), ParseError::Timestamp);
    assert_eq!(normalize(wire("2023-13-01T00:00:00", 1.0, 2.0, 3.0, 4.0)).unwrap_err(), ParseError::Timestamp);
    assert_eq!(normalize(wire("", 1.0, 2.0, 3.0, 4.0)).unwrap_err(), ParseError::Timestamp);
}

#[test]
fn report_from_parts_follows_the_time() {
    let t = Timestamp { year: 2020, month: 2, day: 29, hour: 0, minute: 0, second: 0, nanosecond: 0 };
    let r = report_from_parts(wire("ignored", 1.0, 2.0, 3.0, 4.0), Some(t)).unwrap();
    assert_eq!(r.time, t);
    assert_eq!(r.readings.ds18b20_temperature, bits(1.0));
    let e = report_from_parts(wire("2023-01-01T00:00:00", 1.0, 2.0, 3.0, 4.0), None).unwrap_err();
    assert_eq!(e, ParseError::Timestamp);
}

#[test]
fn channels_have_their_catalog_names_and_units() {
    let chans = all_channels();
    assert_eq!(
        chans,
        vec![Channel::Ds18b20, Channel::Dht11Temperature, Channel::Dht11Humidity, Channel::Dht11DewPoint]
    );
    let names: Vec<&str> = chans.iter().map(|c| c.name()).collect();
    assert_eq!(names, vec!["DS18B20", "DHT11 Temperature", "DHT11 Humidity", "DHT11 Dew Point"]);
    let units: Vec<&str> = chans.iter().map(|c| c.unit()).collect();
    assert_eq!(units, vec!["°C", "°C", "%", "°C"]);
    let ids = context().sensor_ids;
    assert_eq!(ids.id_of(Channel::Dht11Humidity), 12);
    assert_eq!(ids.id_of(Channel::Ds18b20), 10);
}
