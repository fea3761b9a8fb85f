//! Records of the remote catalog and the resolution of a device or a sensor to
//! its stable identifier (an upsert by identity key).
use vstd::prelude::*;

verus! {

/// A device record of the catalog; its identity key is (name, location).
#[derive(Debug, Clone)]
pub struct Device {
    pub id: i32,
    pub name: String,
    pub location: String,
}

/// A sensor record of the catalog; its identity key is the name alone.
#[derive(Debug, Clone)]
pub struct Sensor {
    pub id: i32,
    pub name: String,
    pub unit: String,
}

/// What a resolver asks for after it has seen a listing of the catalog.
#[derive(Debug)]
pub enum Resolution<T> {
    /// The key is in the listing, under this identifier.
    Found(i32),
    /// The key is absent: submit this record, then list the catalog again.
    Create(T),
    /// The key is absent and no more creations are allowed.
    GiveUp,
}

pub open spec fn device_has_key(d: Device, name: Seq<char>, location: Seq<char>) -> bool {
    d.name@ == name && d.location@ == location
}

pub open spec fn sensor_has_key(s: Sensor, name: Seq<char>) -> bool {
    s.name@ == name
}

/// The identifier of the first device from index `from` on whose key is (name, location).
pub open spec fn first_device(devices: Seq<Device>, name: Seq<char>, location: Seq<char>, from: int) -> Option<i32>
    decreases devices.len() - from,
{
    if from < 0 || from >= devices.len() {
        None
    } else if device_has_key(devices[from], name, location) {
        Some(devices[from].id)
    } else {
        first_device(devices, name, location, from + 1)
    }
}

/// The identifier of the first sensor from index `from` on named `name`.
pub open spec fn first_sensor(sensors: Seq<Sensor>, name: Seq<char>, from: int) -> Option<i32>
    decreases sensors.len() - from,
{
    if from < 0 || from >= sensors.len() {
        None
    } else if sensor_has_key(sensors[from], name) {
        Some(sensors[from].id)
    } else {
        first_sensor(sensors, name, from + 1)
    }
}

/// The identifier of the first device in the listing whose key is (name, location).
pub fn find_device(devices: &Vec<Device>, name: &String, location: &String) -> (r: Option<i32>)
    ensures
        r == first_device(devices@, name@, location@, 0),
{
    let mut i: usize = 0;
    while i < devices.len()
        invariant
            i <= devices@.len(),
            first_device(devices@, name@, location@, 0) == first_device(devices@, name@, location@, i as int),
        decreases devices.len() - i,
    {
        let d = &devices[i];
        if d.name == *name && d.location == *location {
            return Some(d.id);
        }
        i = i + 1;
    }
    None
}

/// The identifier of the first sensor in the listing named `name`; the unit plays no part.
pub fn find_sensor(sensors: &Vec<Sensor>, name: &String) -> (r: Option<i32>)
    ensures
        r == first_sensor(sensors@, name@, 0),
{
    let mut i: usize = 0;
    while i < sensors.len()
        invariant
            i <= sensors@.len(),
            first_sensor(sensors@, name@, 0) == first_sensor(sensors@, name@, i as int),
        decreases sensors.len() - i,
    {
        let s = &sensors[i];
        if s.name == *name {
            return Some(s.id);
        }
        i = i + 1;
    }
    None
}

/// Resolution of one device key: each listing of the catalog is answered with
/// the identifier, a record to create, or giving up once `max_creates`
/// creations went unanswered.
#[derive(Debug)]
pub struct DeviceResolver {
    pub name: String,
    pub location: String,
    pub creates: u32,
    pub max_creates: u32,
}

/// Resolution of one sensor key (its name); the unit only fills a created record.
#[derive(Debug)]
pub struct SensorResolver {
    pub name: String,
    pub unit: String,
    pub creates: u32,
    pub max_creates: u32,
}

/// What a device resolver in state `r` answers to a listing.
pub open spec fn device_resolution(r: DeviceResolver, devices: Seq<Device>) -> Resolution<Device> {
    match first_device(devices, r.name@, r.location@, 0) {
        Some(id) => Resolution::Found(id),
        None => if r.creates < r.max_creates {
            Resolution::Create(Device { id: 0, name: r.name, location: r.location })
        } else {
            Resolution::GiveUp
        },
    }
}

/// What a sensor resolver in state `r` answers to a listing.
pub open spec fn sensor_resolution(r: SensorResolver, sensors: Seq<Sensor>) -> Resolution<Sensor> {
    match first_sensor(sensors, r.name@, 0) {
        Some(id) => Resolution::Found(id),
        None => if r.creates < r.max_creates {
            Resolution::Create(Sensor { id: 0, name: r.name, unit: r.unit })
        } else {
            Resolution::GiveUp
        },
    }
}

impl DeviceResolver {
    /// A resolver for the device (name, location) that has created nothing yet.
    pub fn new(name: String, location: String, max_creates: u32) -> (r: Self)
        ensures
            r.name == name,
            r.location == location,
            r.creates == 0,
            r.max_creates == max_creates,
    {
        DeviceResolver { name, location, creates: 0, max_creates }
    }

    /// Answers one listing of the devices; counts a creation when it asks for one.
    pub fn on_listing(&mut self, devices: &Vec<Device>) -> (r: Resolution<Device>)
        ensures
            r == device_resolution(*old(self), devices@),
            final(self).name == old(self).name,
            final(self).location == old(self).location,
            final(self).max_creates == old(self).max_creates,
            final(self).creates == if r is Create {
                old(self).creates + 1
            } else {
                old(self).creates as int
            },
    {
        match find_device(devices, &self.name, &self.location) {
            Some(id) => Resolution::Found(id),
            None => {
                if self.creates < self.max_creates {
                    self.creates = self.creates + 1;
                    Resolution::Create(
                        Device { id: 0, name: self.name.clone(), location: self.location.clone() },
                    )
                } else {
                    Resolution::GiveUp
                }
            },
        }
    }
}

impl SensorResolver {
    /// A resolver for the sensor named `name` that has created nothing yet.
    pub fn new(name: String, unit: String, max_creates: u32) -> (r: Self)
        ensures
            r.name == name,
            r.unit == unit,
            r.creates == 0,
            r.max_creates == max_creates,
    {
        SensorResolver { name, unit, creates: 0, max_creates }
    }

    /// Answers one listing of the sensors; counts a creation when it asks for one.
    pub fn on_listing(&mut self, sensors: &Vec<Sensor>) -> (r: Resolution<Sensor>)
        ensures
            r == sensor_resolution(*old(self), sensors@),
            final(self).name == old(self).name,
            final(self).unit == old(self).unit,
            final(self).max_creates == old(self).max_creates,
            final(self).creates == if r is Create {
                old(self).creates + 1
            } else {
                old(self).creates as int
            },
    {
        match find_sensor(sensors, &self.name) {
            Some(id) => Resolution::Found(id),
            None => {
                if self.creates < self.max_creates {
                    self.creates = self.creates + 1;
                    Resolution::Create(
                        Sensor { id: 0, name: self.name.clone(), unit: self.unit.clone() },
                    )
                } else {
                    Resolution::GiveUp
                }
            },
        }
    }
}

proof fn lemma_first_device_push(devices: Seq<Device>, d: Device, name: Seq<char>, location: Seq<char>, from: int)
    requires
        0 <= from <= devices.len(),
    ensures
        first_device(devices.push(d), name, location, from) == match first_device(devices, name, location, from) {
            Some(id) => Some(id),
            None => if device_has_key(d, name, location) { Some(d.id) } else { None },
        },
    decreases devices.len() - from,
{
    let pushed = devices.push(d);
    assert(pushed[devices.len() as int] == d);
    if from < devices.len() {
        assert(pushed[from] == devices[from]);
        lemma_first_device_push(devices, d, name, location, from + 1);
    } else {
        assert(first_device(pushed, name, location, from + 1) == None::<i32>);
    }
}

proof fn lemma_first_sensor_push(sensors: Seq<Sensor>, s: Sensor, name: Seq<char>, from: int)
    requires
        0 <= from <= sensors.len(),
    ensures
        first_sensor(sensors.push(s), name, from) == match first_sensor(sensors, name, from) {
            Some(id) => Some(id),
            None => if sensor_has_key(s, name) { Some(s.id) } else { None },
        },
    decreases sensors.len() - from,
{
    let pushed = sensors.push(s);
    assert(pushed[sensors.len() as int] == s);
    if from < sensors.len() {
        assert(pushed[from] == sensors[from]);
        lemma_first_sensor_push(sensors, s, name, from + 1);
    } else {
        assert(first_sensor(pushed, name, from + 1) == None::<i32>);
    }
}

/// Resolving the same device key twice against an unchanged catalog gives the
/// same identifier both times, and the second resolution asks for no creation.
pub proof fn lemma_device_resolution_idempotent(first: DeviceResolver, second: DeviceResolver, devices: Seq<Device>, id: i32)
    requires
        device_resolution(first, devices) == Resolution::<Device>::Found(id),
        second.name@ == first.name@,
        second.location@ == first.location@,
    ensures
        device_resolution(second, devices) == Resolution::<Device>::Found(id),
{
}

/// Resolving the same sensor key twice against an unchanged catalog gives the
/// same identifier both times, and the second resolution asks for no creation.
pub proof fn lemma_sensor_resolution_idempotent(first: SensorResolver, second: SensorResolver, sensors: Seq<Sensor>, id: i32)
    requires
        sensor_resolution(first, sensors) == Resolution::<Sensor>::Found(id),
        second.name@ == first.name@,
    ensures
        sensor_resolution(second, sensors) == Resolution::<Sensor>::Found(id),
{
}

/// A device key absent from the catalog leads to exactly one creation request
/// for that key; once the catalog lists the created record under identifier
/// `id`, the next listing resolves to `id`.
pub proof fn lemma_device_created_then_found(r: DeviceResolver, next: DeviceResolver, devices: Seq<Device>, id: i32)
    requires
        first_device(devices, r.name@, r.location@, 0) is None,
        r.creates < r.max_creates,
        next.name@ == r.name@,
        next.location@ == r.location@,
    ensures
        device_resolution(r, devices) == Resolution::Create(Device { id: 0, name: r.name, location: r.location }),
        device_resolution(next, devices.push(Device { id, name: r.name, location: r.location }))
            == Resolution::<Device>::Found(id),
{
    lemma_first_device_push(devices, Device { id, name: r.name, location: r.location }, r.name@, r.location@, 0);
}

/// A sensor name absent from the catalog leads to exactly one creation request
/// for that name; once the catalog lists the created record under identifier
/// `id`, the next listing resolves to `id`.
pub proof fn lemma_sensor_created_then_found(r: SensorResolver, next: SensorResolver, sensors: Seq<Sensor>, id: i32)
    requires
        first_sensor(sensors, r.name@, 0) is None,
        r.creates < r.max_creates,
        next.name@ == r.name@,
    ensures
        sensor_resolution(r, sensors) == Resolution::Create(Sensor { id: 0, name: r.name, unit: r.unit }),
        sensor_resolution(next, sensors.push(Sensor { id, name: r.name, unit: r.unit }))
            == Resolution::<Sensor>::Found(id),
{
    lemma_first_sensor_push(sensors, Sensor { id, name: r.name, unit: r.unit }, r.name@, 0);
}

/// The unit never takes part in a sensor's identity: two resolvers for the
/// same name and any two units answer a listing with the same identifier, and
/// a sensor created with one unit is found afterwards under another.
pub proof fn lemma_sensor_unit_not_in_key(first: SensorResolver, second: SensorResolver, sensors: Seq<Sensor>, id: i32)
    requires
        second.name@ == first.name@,
    ensures
        first_sensor(sensors, first.name@, 0) == first_sensor(sensors, second.name@, 0),
        sensor_resolution(first, sensors) is Found ==> sensor_resolution(second, sensors) == sensor_resolution(first, sensors),
        first_sensor(sensors, first.name@, 0) is None ==>
            sensor_resolution(second, sensors.push(Sensor { id, name: first.name, unit: first.unit }))
                == Resolution::<Sensor>::Found(id),
{
    lemma_first_sensor_push(sensors, Sensor { id, name: first.name, unit: first.unit }, first.name@, 0);
}

} // verus!
