//! Decoding of the service-data frame that a sensor broadcasts.
//!
//! A frame is at least fourteen bytes long. Bytes 1 to 3 hold a fixed
//! marker, bytes 5 to 10 the sender's hardware address in reverse order,
//! byte 11 the kind of reading, byte 13 the length of the payload, and the
//! payload fills the rest of the frame exactly.

use vstd::prelude::*;

verus! {

/// Offset of the first payload byte, and the length of the shortest frame.
pub const HEADER_LEN: usize = 14;

/// The kind of reading that a frame carries.
#[derive(Debug, Clone, Copy, PartialEq, Eq, Structural)]
pub enum SensorType {
    Temperature,
    Humidity,
    Battery,
    TemperatureAndHumidity,
}

/// One decoded reading. Temperature is in tenths of a degree Celsius,
/// humidity in tenths of a percent, battery in percent.
#[derive(Debug, Clone, Copy, PartialEq, Eq, Structural)]
pub enum SensorUpdate {
    Battery(u8),
    Temperature(i16),
    Humidity(u16),
    TemperatureAndHumidity(i16, u16),
}

/// The bytes are not a frame of this format.
#[derive(Debug, Clone, Copy, PartialEq, Eq, Structural)]
pub struct InvalidServiceData;

/// The kind of reading that a type byte stands for, if any.
pub open spec fn spec_sensor_type(code: u8) -> Option<SensorType> {
    if code == 0x04 {
        Some(SensorType::Temperature)
    } else if code == 0x06 {
        Some(SensorType::Humidity)
    } else if code == 0x0A {
        Some(SensorType::Battery)
    } else if code == 0x0D {
        Some(SensorType::TemperatureAndHumidity)
    } else {
        None
    }
}

impl SensorType {
    /// The type byte that stands for this kind of reading.
    pub open spec fn spec_code(self) -> u8 {
        match self {
            SensorType::Temperature => 0x04,
            SensorType::Humidity => 0x06,
            SensorType::Battery => 0x0A,
            SensorType::TemperatureAndHumidity => 0x0D,
        }
    }

    /// The number of payload bytes that this kind of reading needs.
    pub open spec fn spec_payload_len(self) -> nat {
        match self {
            SensorType::Temperature => 2,
            SensorType::Humidity => 2,
            SensorType::Battery => 1,
            SensorType::TemperatureAndHumidity => 4,
        }
    }

    /// Reads a type byte; `None` for a byte that stands for no kind.
    pub fn from_code(code: u8) -> (kind: Option<SensorType>)
        ensures
            kind == spec_sensor_type(code),
    {
        if code == 0x04 {
            Some(SensorType::Temperature)
        } else if code == 0x06 {
            Some(SensorType::Humidity)
        } else if code == 0x0A {
            Some(SensorType::Battery)
        } else if code == 0x0D {
            Some(SensorType::TemperatureAndHumidity)
        } else {
            None
        }
    }

    /// The type byte that stands for this kind of reading.
    pub fn code(self) -> (code: u8)
        ensures
            code == self.spec_code(),
    {
        match self {
            SensorType::Temperature => 0x04,
            SensorType::Humidity => 0x06,
            SensorType::Battery => 0x0A,
            SensorType::TemperatureAndHumidity => 0x0D,
        }
    }

    /// The number of payload bytes that this kind of reading needs.
    pub fn payload_len(self) -> (len: usize)
        ensures
            len == self.spec_payload_len(),
    {
        match self {
            SensorType::Temperature => 2,
            SensorType::Humidity => 2,
            SensorType::Battery => 1,
            SensorType::TemperatureAndHumidity => 4,
        }
    }
}

/// A type byte is read back as the kind it was written for, and only the
/// four listed bytes are read as a kind.
pub proof fn lemma_sensor_type_codes(kind: SensorType, code: u8)
    ensures
        spec_sensor_type(kind.spec_code()) == Some(kind),
        spec_sensor_type(code) == Some(kind) <==> code == kind.spec_code(),
{
}

/// The unsigned 16-bit number whose little-endian bytes are `low`, `high`.
pub open spec fn spec_u16_le(low: u8, high: u8) -> u16 {
    (low + 256 * high) as u16
}

/// The signed 16-bit number whose little-endian bytes, in two's complement,
/// are `low`, `high`.
pub open spec fn spec_i16_le(low: u8, high: u8) -> i16 {
    if high >= 128 {
        (low + 256 * high - 65536) as i16
    } else {
        (low + 256 * high) as i16
    }
}

/// Reads an unsigned 16-bit number from its little-endian bytes.
pub fn u16_from_le(low: u8, high: u8) -> (value: u16)
    ensures
        value == spec_u16_le(low, high),
{
    low as u16 + 256 * (high as u16)
}

/// Reads a signed 16-bit number from its little-endian bytes.
pub fn i16_from_le(low: u8, high: u8) -> (value: i16)
    ensures
        value == spec_i16_le(low, high),
{
    let raw: u16 = u16_from_le(low, high);
    let value: i16 = raw as i16;
    assert(value == if raw >= 32768 {
        raw - 65536
    } else {
        raw as int
    }) by (bit_vector)
        requires
            value == raw as i16,
    ;
    value
}

/// The marker is in place and the declared payload length accounts for
/// every byte after the header.
pub open spec fn has_valid_header(data: Seq<u8>) -> bool {
    &&& data.len() >= 14
    &&& data[1] == 0x20
    &&& data[2] == 0xAA
    &&& data[3] == 0x01
    &&& data.len() == 14 + data[13]
}

/// The hardware address carried in a frame: bytes 10 down to 5.
pub open spec fn spec_embedded_address(data: Seq<u8>) -> Seq<u8> {
    seq![data[10], data[9], data[8], data[7], data[6], data[5]]
}

/// The reading that a payload holds for a kind, for a payload that is long
/// enough.
pub open spec fn spec_decode_payload(kind: SensorType, payload: Seq<u8>) -> SensorUpdate {
    match kind {
        SensorType::Battery => SensorUpdate::Battery(payload[0]),
        SensorType::Temperature => SensorUpdate::Temperature(spec_i16_le(payload[0], payload[1])),
        SensorType::Humidity => SensorUpdate::Humidity(spec_u16_le(payload[0], payload[1])),
        SensorType::TemperatureAndHumidity => SensorUpdate::TemperatureAndHumidity(
            spec_i16_le(payload[0], payload[1]),
            spec_u16_le(payload[2], payload[3]),
        ),
    }
}

/// The reading that a frame carries, or `None` where the bytes are no frame:
/// too short, a wrong marker, an unknown type byte, a length byte that
/// disagrees with the frame's length, or a payload too short for its kind.
pub open spec fn spec_parse_update(data: Seq<u8>) -> Option<SensorUpdate> {
    if !has_valid_header(data) {
        None
    } else {
        match spec_sensor_type(data[11]) {
            None => None,
            Some(kind) => {
                let payload = data.subrange(14, data.len() as int);
                if payload.len() < kind.spec_payload_len() {
                    None
                } else {
                    Some(spec_decode_payload(kind, payload))
                }
            },
        }
    }
}

/// The sender's address and the reading that a frame carries, or `None`
/// where the bytes are no frame.
pub open spec fn spec_parse(data: Seq<u8>) -> Option<(Seq<u8>, SensorUpdate)> {
    match spec_parse_update(data) {
        None => None,
        Some(update) => Some((spec_embedded_address(data), update)),
    }
}

/// A frame with a wrong marker byte, or with a length byte that disagrees
/// with the number of bytes after the header, carries no reading.
pub proof fn lemma_corrupt_frame_is_rejected(data: Seq<u8>)
    requires
        data.len() < 14 || data[1] != 0x20 || data[2] != 0xAA || data[3] != 0x01 || data.len()
            != 14 + data[13],
    ensures
        spec_parse_update(data) is None,
        spec_parse(data) is None,
{
}

/// Decodes the payload of a frame of the given kind.
pub fn decode_payload(kind: SensorType, payload: &[u8]) -> (update: SensorUpdate)
    requires
        payload@.len() >= kind.spec_payload_len(),
    ensures
        update == spec_decode_payload(kind, payload@),
{
    match kind {
        SensorType::Battery => SensorUpdate::Battery(payload[0]),
        SensorType::Temperature => SensorUpdate::Temperature(i16_from_le(payload[0], payload[1])),
        SensorType::Humidity => SensorUpdate::Humidity(u16_from_le(payload[0], payload[1])),
        SensorType::TemperatureAndHumidity => SensorUpdate::TemperatureAndHumidity(
            i16_from_le(payload[0], payload[1]),
            u16_from_le(payload[2], payload[3]),
        ),
    }
}

/// Decodes one service-data frame into the sender's hardware address and the
/// reading it carries. Bytes that are no frame are rejected.
pub fn parse_advertising_data(service_data: &[u8]) -> (result: Result<
    ([u8; 6], SensorUpdate),
    InvalidServiceData,
>)
    ensures
        match result {
            Ok((address, update)) => spec_parse(service_data@) == Some((address@, update)),
            Err(_) => spec_parse(service_data@) is None,
        },
{
    if service_data.len() < HEADER_LEN {
        return Err(InvalidServiceData);
    }
    if service_data[1] != 0x20 || service_data[2] != 0xAA || service_data[3] != 0x01 {
        return Err(InvalidServiceData);
    }
    let address: [u8; 6] = [
        service_data[10],
        service_data[9],
        service_data[8],
        service_data[7],
        service_data[6],
        service_data[5],
    ];
    let kind = match SensorType::from_code(service_data[11]) {
        Some(kind) => kind,
        None => {
            return Err(InvalidServiceData);
        },
    };
    let data_length: usize = service_data[13] as usize;
    if HEADER_LEN + data_length != service_data.len() {
        return Err(InvalidServiceData);
    }
    if data_length < kind.payload_len() {
        return Err(InvalidServiceData);
    }
    let payload = &service_data[HEADER_LEN..HEADER_LEN + data_length];
    let update = decode_payload(kind, payload);
    assert(address@ =~= spec_embedded_address(service_data@));
    Ok((address, update))
}

} // verus!
