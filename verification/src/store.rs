//! The last known reading of every sensor heard so far.
//!
//! A sensor reports one or two quantities per frame. The store keeps, for
//! each hardware address, the most recent value of every quantity: a frame
//! replaces the quantities it carries and leaves the others as they were.

use crate::frame::{parse_advertising_data, spec_parse, SensorUpdate};
use std::collections::HashMap;
use vstd::prelude::*;

verus! {

broadcast use vstd::std_specs::hash::group_hash_axioms;

/// The values last reported by one sensor, as the sensor encodes them:
/// battery in percent, temperature in tenths of a degree Celsius, humidity
/// in tenths of a percent. A quantity not reported yet is zero.
#[derive(Debug, Clone, Copy, PartialEq, Eq, Structural)]
pub struct SensorRawData {
    pub battery: u8,
    pub temperature: i16,
    pub humidity: u16,
}

impl SensorRawData {
    /// The snapshot of a sensor that has reported nothing yet.
    pub open spec fn spec_default() -> SensorRawData {
        SensorRawData { battery: 0, temperature: 0, humidity: 0 }
    }

    /// This snapshot with the quantities of `update` replaced.
    pub open spec fn spec_update(self, update: SensorUpdate) -> SensorRawData {
        match update {
            SensorUpdate::Temperature(temp) => SensorRawData { temperature: temp, ..self },
            SensorUpdate::Humidity(hum) => SensorRawData { humidity: hum, ..self },
            SensorUpdate::Battery(bat) => SensorRawData { battery: bat, ..self },
            SensorUpdate::TemperatureAndHumidity(temp, hum) => SensorRawData {
                temperature: temp,
                humidity: hum,
                ..self
            },
        }
    }

    /// Replaces the quantities that `update` carries and keeps the others.
    pub fn update(&mut self, update: SensorUpdate)
        ensures
            *final(self) == old(self).spec_update(update),
    {
        match update {
            SensorUpdate::Temperature(temp) => self.temperature = temp,
            SensorUpdate::Humidity(hum) => self.humidity = hum,
            SensorUpdate::Battery(bat) => self.battery = bat,
            SensorUpdate::TemperatureAndHumidity(temp, hum) => {
                self.humidity = hum;
                self.temperature = temp
            },
        }
    }
}

/// A reading replaces the quantities it carries and no others: battery
/// changes only with a battery reading, temperature and humidity only with
/// a reading that carries them.
pub proof fn lemma_update_is_sticky(data: SensorRawData, update: SensorUpdate)
    ensures
        data.spec_update(update).battery == match update {
            SensorUpdate::Battery(bat) => bat,
            _ => data.battery,
        },
        data.spec_update(update).temperature == match update {
            SensorUpdate::Temperature(temp) => temp,
            SensorUpdate::TemperatureAndHumidity(temp, _) => temp,
            _ => data.temperature,
        },
        data.spec_update(update).humidity == match update {
            SensorUpdate::Humidity(hum) => hum,
            SensorUpdate::TemperatureAndHumidity(_, hum) => hum,
            _ => data.humidity,
        },
{
}

/// Merging a reading under one address leaves the snapshot of every other
/// address as it was, and the merged address holds its former snapshot
/// with the reading applied.
pub proof fn lemma_merge_touches_one_address(
    sensors: Map<Seq<u8>, SensorRawData>,
    address: Seq<u8>,
    update: SensorUpdate,
    other: Seq<u8>,
)
    requires
        other != address,
    ensures
        spec_merge(sensors, address, update).contains_key(address),
        spec_merge(sensors, address, update)[address] == spec_snapshot(
            sensors,
            address,
        ).spec_update(update),
        spec_merge(sensors, address, update).contains_key(other) == sensors.contains_key(other),
        spec_snapshot(spec_merge(sensors, address, update), other) == spec_snapshot(
            sensors,
            other,
        ),
{
}

/// A temperature reading survives a later battery reading for the same
/// address, and the battery reading is kept beside it.
pub proof fn lemma_temperature_survives_battery(
    sensors: Map<Seq<u8>, SensorRawData>,
    address: Seq<u8>,
    temperature: i16,
    battery: u8,
)
    ensures
        ({
            let first = spec_merge(sensors, address, SensorUpdate::Temperature(temperature));
            let second = spec_merge(first, address, SensorUpdate::Battery(battery));
            &&& second[address].temperature == temperature
            &&& second[address].battery == battery
            &&& second[address].humidity == spec_snapshot(sensors, address).humidity
        }),
{
}

impl Default for SensorRawData {
    fn default() -> (data: SensorRawData)
        ensures
            data == SensorRawData::spec_default(),
    {
        SensorRawData { battery: 0, temperature: 0, humidity: 0 }
    }
}

/// A sensor and the values last reported by it.
#[derive(Debug, Clone, Copy, PartialEq, Eq)]
pub struct Sensor {
    pub mac: [u8; 6],
    pub data: SensorRawData,
}

/// What one accepted frame did: the sensor it was filed under with its
/// snapshot after the frame, and whether the address carried in the frame
/// differs from the address the transport gave.
#[derive(Debug, Clone, Copy, PartialEq, Eq)]
pub struct Observation {
    pub sensor: Sensor,
    pub address_mismatch: bool,
}

/// The number `high` followed by one more base-256 digit.
pub open spec fn spec_append_byte(high: int, byte: u8) -> int {
    high * 256 + byte
}

/// The number that stands for a six-byte hardware address: its bytes read
/// as one big-endian integer.
pub open spec fn spec_address_key(address: Seq<u8>) -> u64 {
    spec_append_byte(
        spec_append_byte(
            spec_append_byte(
                spec_append_byte(spec_append_byte(address[0] as int, address[1]), address[2]),
                address[3],
            ),
            address[4],
        ),
        address[5],
    ) as u64
}

/// A number followed by a digit determines both.
pub proof fn lemma_append_byte_injective(high1: int, byte1: u8, high2: int, byte2: u8)
    requires
        spec_append_byte(high1, byte1) == spec_append_byte(high2, byte2),
    ensures
        high1 == high2,
        byte1 == byte2,
{
}

/// Two six-byte addresses with the same number are the same address.
pub proof fn lemma_address_key_injective(a: Seq<u8>, b: Seq<u8>)
    requires
        a.len() == 6,
        b.len() == 6,
        spec_address_key(a) == spec_address_key(b),
    ensures
        a == b,
{
    let a1 = spec_append_byte(a[0] as int, a[1]);
    let a2 = spec_append_byte(a1, a[2]);
    let a3 = spec_append_byte(a2, a[3]);
    let a4 = spec_append_byte(a3, a[4]);
    let b1 = spec_append_byte(b[0] as int, b[1]);
    let b2 = spec_append_byte(b1, b[2]);
    let b3 = spec_append_byte(b2, b[3]);
    let b4 = spec_append_byte(b3, b[4]);
    assert(0 <= a1 < 0x1_0000 && 0 <= b1 < 0x1_0000);
    assert(0 <= a2 < 0x100_0000 && 0 <= b2 < 0x100_0000);
    assert(0 <= a3 < 0x1_0000_0000 && 0 <= b3 < 0x1_0000_0000);
    assert(0 <= a4 < 0x100_0000_0000 && 0 <= b4 < 0x100_0000_0000);
    lemma_append_byte_injective(a4, a[5], b4, b[5]);
    lemma_append_byte_injective(a3, a[4], b3, b[4]);
    lemma_append_byte_injective(a2, a[3], b2, b[3]);
    lemma_append_byte_injective(a1, a[2], b1, b[2]);
    lemma_append_byte_injective(a[0] as int, a[1], b[0] as int, b[1]);
    assert(a =~= b);
}

/// Computes the number that stands for a hardware address.
pub fn address_key(address: &[u8; 6]) -> (key: u64)
    ensures
        key == spec_address_key(address@),
{
    let key1: u64 = (address[0] as u64) * 256 + address[1] as u64;
    let key2: u64 = key1 * 256 + address[2] as u64;
    let key3: u64 = key2 * 256 + address[3] as u64;
    let key4: u64 = key3 * 256 + address[4] as u64;
    key4 * 256 + address[5] as u64
}

/// The snapshot filed under `address`, or the all-zero snapshot where the
/// address has not been heard.
pub open spec fn spec_snapshot(
    sensors: Map<Seq<u8>, SensorRawData>,
    address: Seq<u8>,
) -> SensorRawData {
    if sensors.contains_key(address) {
        sensors[address]
    } else {
        SensorRawData::spec_default()
    }
}

/// The sensors after `update` has been merged under `address`.
pub open spec fn spec_merge(
    sensors: Map<Seq<u8>, SensorRawData>,
    address: Seq<u8>,
    update: SensorUpdate,
) -> Map<Seq<u8>, SensorRawData> {
    sensors.insert(address, spec_snapshot(sensors, address).spec_update(update))
}

/// The address a frame is filed under: the one the transport gave, or the
/// one carried in the frame where the transport gave none.
pub open spec fn spec_resolve_address(transport: Option<Seq<u8>>, embedded: Seq<u8>) -> Seq<u8> {
    match transport {
        Some(address) => address,
        None => embedded,
    }
}

/// Whether two hardware addresses hold the same bytes.
pub fn same_address(a: &[u8; 6], b: &[u8; 6]) -> (same: bool)
    ensures
        same == (a@ == b@),
{
    let same = a[0] == b[0] && a[1] == b[1] && a[2] == b[2] && a[3] == b[3] && a[4] == b[4] && a[5]
        == b[5];
    assert(same == (a@ =~= b@));
    same
}

/// The snapshots of all sensors heard so far, by hardware address.
pub struct SensorStore {
    sensors: HashMap<u64, SensorRawData>,
}

impl View for SensorStore {
    type V = Map<Seq<u8>, SensorRawData>;

    /// The snapshot of every address heard so far, each address as its six
    /// bytes.
    closed spec fn view(&self) -> Map<Seq<u8>, SensorRawData> {
        Map::new(
            |address: Seq<u8>|
                address.len() == 6 && self.sensors@.contains_key(spec_address_key(address)),
            |address: Seq<u8>| self.sensors@[spec_address_key(address)],
        )
    }
}

impl SensorStore {
    /// A store that has heard no sensor.
    pub fn new() -> (store: SensorStore)
        ensures
            store@ == Map::<Seq<u8>, SensorRawData>::empty(),
    {
        let store = SensorStore { sensors: HashMap::new() };
        assert(store@ =~= Map::<Seq<u8>, SensorRawData>::empty());
        store
    }

    /// The snapshot of the sensor at `address`, if it has been heard.
    pub fn get(&self, address: &[u8; 6]) -> (data: Option<SensorRawData>)
        ensures
            data == if self@.contains_key(address@) {
                Some(self@[address@])
            } else {
                None::<SensorRawData>
            },
    {
        let key = address_key(address);
        match self.sensors.get(&key) {
            Some(data) => Some(*data),
            None => None,
        }
    }

    /// Merges one reading into the snapshot of the sensor at `address`,
    /// starting from the all-zero snapshot where the address is new, and
    /// returns the snapshot after the merge. No other sensor changes.
    pub fn merge(&mut self, address: &[u8; 6], update: SensorUpdate) -> (data: SensorRawData)
        ensures
            data == spec_snapshot(old(self)@, address@).spec_update(update),
            final(self)@ == spec_merge(old(self)@, address@, update),
    {
        let key = address_key(address);
        let mut data = match self.sensors.get(&key) {
            Some(data) => *data,
            None => SensorRawData::default(),
        };
        data.update(update);
        self.sensors.insert(key, data);
        proof {
            assert forall|other: Seq<u8>| other.len() == 6 && spec_address_key(other) == key
                implies other == address@ by {
                lemma_address_key_injective(other, address@);
            }
            assert(self@ =~= spec_merge(old(self)@, address@, update));
        }
        data
    }

    /// Decodes one service-data frame and merges its reading. The frame is
    /// filed under the address the transport gave, or under the address it
    /// carries where the transport gave none. Bytes that are no frame change
    /// nothing.
    pub fn observe(&mut self, transport: Option<[u8; 6]>, service_data: &[u8]) -> (seen: Option<
        Observation,
    >)
        ensures
            match spec_parse(service_data@) {
                None => seen is None && final(self)@ == old(self)@,
                Some((embedded, update)) => {
                    let address = spec_resolve_address(
                        match transport {
                            Some(given) => Some(given@),
                            None => None,
                        },
                        embedded,
                    );
                    &&& final(self)@ == spec_merge(old(self)@, address, update)
                    &&& seen matches Some(observation)
                    &&& observation.sensor.mac@ == address
                    &&& observation.sensor.data == spec_snapshot(old(self)@, address).spec_update(
                        update,
                    )
                    &&& observation.address_mismatch == (address != embedded)
                },
            },
    {
        match parse_advertising_data(service_data) {
            Err(_) => None,
            Ok((embedded, update)) => {
                let (mac, address_mismatch) = match transport {
                    Some(given) => (given, !same_address(&given, &embedded)),
                    None => (embedded, false),
                };
                let data = self.merge(&mac, update);
                Some(Observation { sensor: Sensor { mac, data }, address_mismatch })
            },
        }
    }
}

} // verus!
