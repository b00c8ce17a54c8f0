use mitemp::frame::SensorUpdate;
use mitemp::store::{address_key, same_address, Observation, Sensor, SensorRawData, SensorStore};

const MAC: [u8; 6] = [0x58, 0x2D, 0x34, 0x35, 0xF3, 0xD4];
const OTHER: [u8; 6] = [0x58, 0x2D, 0x34, 0x35, 0xF3, 0xD5];

fn frame(kind: u8, payload: &[u8]) -> Vec<u8> {
    let mut data = vec![
        0x50, 0x20, 0xAA, 0x01, 0x07, 0xD4, 0xF3, 0x35, 0x34, 0x2D, 0x58, kind, 0x10,
        payload.len() as u8,
    ];
    data.extend_from_slice(payload);
    data
}

#[test]
fn default_snapshot_is_zero() {
    assert_eq!(
        SensorRawData::default(),
        SensorRawData { battery: 0, temperature: 0, humidity: 0 }
    );
}

#[test]
fn update_overwrites_only_what_it_carries() {
    let start = SensorRawData { battery: 1, temperature: 2, humidity: 3 };
    let mut data = start;
    data.update(SensorUpdate::Battery(80));
    assert_eq!(data, SensorRawData { battery: 80, temperature: 2, humidity: 3 });
    let mut data = start;
    data.update(SensorUpdate::Temperature(-7));
    assert_eq!(data, SensorRawData { battery: 1, temperature: -7, humidity: 3 });
    let mut data = start;
    data.update(SensorUpdate::Humidity(999));
    assert_eq!(data, SensorRawData { battery: 1, temperature: 2, humidity: 999 });
    let mut data = start;
    data.update(SensorUpdate::TemperatureAndHumidity(-50, 650));
    assert_eq!(data, SensorRawData { battery: 1, temperature: -50, humidity: 650 });
}

#[test]
fn temperature_survives_battery() {
    let mut store = SensorStore::new();
    let first = store.merge(&MAC, SensorUpdate::Temperature(215));
    assert_eq!(first, SensorRawData { battery: 0, temperature: 215, humidity: 0 });
    let second = store.merge(&MAC, SensorUpdate::Battery(80));
    assert_eq!(second, SensorRawData { battery: 80, temperature: 215, humidity: 0 });
    assert_eq!(second.temperature as f32 / 10.0, 21.5);
    assert_eq!(store.get(&MAC), Some(second));
}

#[test]
fn temperature_and_humidity_in_tenths() {
    let mut store = SensorStore::new();
    let data = store.merge(&MAC, SensorUpdate::TemperatureAndHumidity(-50, 650));
    assert_eq!(data, SensorRawData { battery: 0, temperature: -50, humidity: 650 });
    assert_eq!(data.temperature as f32 / 10.0, -5.0);
    assert_eq!(data.humidity as f32 / 10.0, 65.0);
}

#[test]
fn new_store_knows_no_sensor() {
    let store = SensorStore::new();
    assert_eq!(store.get(&MAC), None);
    assert_eq!(store.get(&[0; 6]), None);
}

#[test]
fn merge_keeps_sensors_apart() {
    let mut store = SensorStore::new();
    store.merge(&MAC, SensorUpdate::Temperature(215));
    store.merge(&OTHER, SensorUpdate::Humidity(400));
    store.merge(&MAC, SensorUpdate::Battery(80));
    assert_eq!(
        store.get(&MAC),
        Some(SensorRawData { battery: 80, temperature: 215, humidity: 0 })
    );
    assert_eq!(
        store.get(&OTHER),
        Some(SensorRawData { battery: 0, temperature: 0, humidity: 400 })
    );
}

#[test]
fn merge_keeps_addresses_with_swapped_bytes_apart() {
    let mut store = SensorStore::new();
    store.merge(&[0, 1, 0, 0, 0, 0], SensorUpdate::Battery(1));
    store.merge(&[1, 0, 0, 0, 0, 0], SensorUpdate::Battery(2));
    store.merge(&[0, 0, 0, 0, 0, 1], SensorUpdate::Battery(3));
    assert_eq!(store.get(&[0, 1, 0, 0, 0, 0]).map(|d| d.battery), Some(1));
    assert_eq!(store.get(&[1, 0, 0, 0, 0, 0]).map(|d| d.battery), Some(2));
    assert_eq!(store.get(&[0, 0, 0, 0, 0, 1]).map(|d| d.battery), Some(3));
    assert_eq!(store.get(&[0, 0, 0, 0, 1, 0]), None);
}

#[test]
fn address_key_is_big_endian() {
    assert_eq!(address_key(&MAC), 0x582D_3435_F3D4);
    assert_eq!(address_key(&[0; 6]), 0);
    assert_eq!(address_key(&[0xFF; 6]), 0xFFFF_FFFF_FFFF);
    assert_eq!(address_key(&[0, 0, 0, 0, 1, 0]), 256);
}

#[test]
fn same_address_compares_every_byte() {
    assert!(same_address(&MAC, &MAC));
    for i in 0..6 {
        let mut other = MAC;
        other[i] ^= 0x80;
        assert!(!same_address(&MAC, &other));
    }
}

#[test]
fn observe_files_under_embedded_address() {
    let mut store = SensorStore::new();
    let seen = store.observe(None, &frame(0x04, &[0xD7, 0x00]));
    assert_eq!(
        seen,
        Some(Observation {
            sensor: Sensor {
                mac: MAC,
                data: SensorRawData { battery: 0, temperature: 215, humidity: 0 },
            },
            address_mismatch: false,
        })
    );
    let seen = store.observe(None, &frame(0x0A, &[80]));
    assert_eq!(
        seen.map(|o| o.sensor.data),
        Some(SensorRawData { battery: 80, temperature: 215, humidity: 0 })
    );
}

#[test]
fn observe_prefers_transport_address() {
    let mut store = SensorStore::new();
    let seen = store.observe(Some(OTHER), &frame(0x0A, &[80]));
    assert_eq!(
        seen,
        Some(Observation {
            sensor: Sensor {
                mac: OTHER,
                data: SensorRawData { battery: 80, temperature: 0, humidity: 0 },
            },
            address_mismatch: true,
        })
    );
    assert_eq!(store.get(&MAC), None);
    assert_eq!(store.get(&OTHER).map(|d| d.battery), Some(80));
}

#[test]
fn observe_with_matching_transport_address() {
    let mut store = SensorStore::new();
    let seen = store.observe(Some(MAC), &frame(0x06, &[0x8A, 0x02]));
    assert_eq!(seen.map(|o| o.address_mismatch), Some(false));
    assert_eq!(store.get(&MAC).map(|d| d.humidity), Some(650));
}

#[test]
fn observe_drops_corrupt_frames_without_change() {
    let mut store = SensorStore::new();
    store.observe(None, &frame(0x04, &[0xD7, 0x00]));
    let before = store.get(&MAC);

    let mut bad_marker = frame(0x0A, &[80]);
    bad_marker[2] = 0xAB;
    assert_eq!(store.observe(None, &bad_marker), None);

    let mut bad_length = frame(0x0A, &[80]);
    bad_length[13] = 2;
    assert_eq!(store.observe(Some(OTHER), &bad_length), None);

    assert_eq!(store.observe(None, &[]), None);
    assert_eq!(store.get(&MAC), before);
    assert_eq!(store.get(&OTHER), None);
}
