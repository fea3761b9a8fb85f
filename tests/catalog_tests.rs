use beer_collector::catalog::{
    find_device, find_sensor, Device, DeviceResolver, Resolution, Sensor, SensorResolver,
};

fn device(id: i32, name: &str, location: &str) -> Device {
    Device { id, name: name.to_string(), location: location.to_string() }
}

fn sensor(id: i32, name: &str, unit: &str) -> Sensor {
    Sensor { id, name: name.to_string(), unit: unit.to_string() }
}

#[test]
fn device_key_is_name_and_location() {
    let devices = vec![device(1, "Beer", "Kitchen"), device(2, "Beer", "Celar"), device(3, "Beer", "Celar")];
    assert_eq!(find_device(&devices, &"Beer".to_string(), &"Celar".to_string()), Some(2));
    assert_eq!(find_device(&devices, &"Beer".to_string(), &"Attic".to_string()), None);
    assert_eq!(find_device(&devices, &"Wine".to_string(), &"Celar".to_string()), None);
    assert_eq!(find_device(&vec![], &"Beer".to_string(), &"Celar".to_string()), None);
}

#[test]
fn sensor_key_is_name_only() {
    let sensors = vec![sensor(4, "DS18B20", "°C"), sensor(5, "DHT11 Humidity", "kg")];
    assert_eq!(find_sensor(&sensors, &"DHT11 Humidity".to_string()), Some(5));
    assert_eq!(find_sensor(&sensors, &"DHT11 Dew Point".to_string()), None);
}

#[test]
fn resolving_twice_against_unchanged_catalog_is_idempotent() {
    let devices = vec![device(9, "Beer", "Celar")];
    let mut first = DeviceResolver::new("Beer".to_string(), "Celar".to_string(), 3);
    let mut second = DeviceResolver::new("Beer".to_string(), "Celar".to_string(), 3);
    assert!(matches!(first.on_listing(&devices), Resolution::Found(9)));
    assert!(matches!(second.on_listing(&devices), Resolution::Found(9)));
    assert_eq!(second.creates, 0);

    let sensors = vec![sensor(4, "DS18B20", "°C")];
    let mut s1 = SensorResolver::new("DS18B20".to_string(), "°C".to_string(), 3);
    let mut s2 = SensorResolver::new("DS18B20".to_string(), "°C".to_string(), 3);
    assert!(matches!(s1.on_listing(&sensors), Resolution::Found(4)));
    assert!(matches!(s2.on_listing(&sensors), Resolution::Found(4)));
    assert_eq!(s2.creates, 0);
}

#[test]
fn absent_device_is_created_once_then_found() {
    let mut devices = vec![device(1, "Beer", "Kitchen")];
    let mut r = DeviceResolver::new("Beer".to_string(), "Celar".to_string(), 3);
    let created = match r.on_listing(&devices) {
        Resolution::Create(d) => d,
        other => panic!("expected a creation, got {:?}", other),
    };
    assert_eq!(created.id, 0);
    assert_eq!(created.name, "Beer");
    assert_eq!(created.location, "Celar");
    assert_eq!(r.creates, 1);
    devices.push(Device { id: 17, ..created });
    assert!(matches!(r.on_listing(&devices), Resolution::Found(17)));
    assert_eq!(r.creates, 1);
}

#[test]
fn resolver_gives_up_when_creations_never_show() {
    let devices: Vec<Device> = vec![];
    let mut r = DeviceResolver::new("Beer".to_string(), "Celar".to_string(), 2);
    assert!(matches!(r.on_listing(&devices), Resolution::Create(_)));
    assert!(matches!(r.on_listing(&devices), Resolution::Create(_)));
    assert!(matches!(r.on_listing(&devices), Resolution::GiveUp));
    assert_eq!(r.creates, 2);

    let mut s = SensorResolver::new("DS18B20".to_string(), "°C".to_string(), 0);
    assert!(matches!(s.on_listing(&vec![]), Resolution::GiveUp));
    assert_eq!(s.creates, 0);
}

#[test]
fn sensor_unit_change_keeps_the_identifier() {
    let mut sensors = vec![sensor(4, "DS18B20", "°C")];
    let mut first = SensorResolver::new("DHT11 Humidity".to_string(), "%".to_string(), 3);
    let created = match first.on_listing(&sensors) {
        Resolution::Create(s) => s,
        other => panic!("expected a creation, got {:?}", other),
    };
    assert_eq!(created.unit, "%");
    sensors.push(Sensor { id: 12, ..created });
    assert!(matches!(first.on_listing(&sensors), Resolution::Found(12)));
    let mut second = SensorResolver::new("DHT11 Humidity".to_string(), "kg".to_string(), 3);
    assert!(matches!(second.on_listing(&sensors), Resolution::Found(12)));
    assert_eq!(second.creates, 0);
}
