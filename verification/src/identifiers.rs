//! The identifiers under which a sensor publishes its data.

use uuid::Uuid;
use vstd::prelude::*;

verus! {

/// The identifier type of the `uuid` crate. Nothing inside a value is
/// visible here; values are made by `Uuid::from_bytes` and compared.
#[verifier::external_type_specification]
#[verifier::external_body]
pub struct ExUuid(Uuid);

/// The identifier that `Uuid::from_bytes` makes of sixteen bytes.
pub uninterp spec fn spec_uuid_from_bytes(bytes: Seq<u8>) -> Uuid;

/// `Uuid::from_bytes` stores the sixteen bytes as they are, so its result
/// depends on nothing but these bytes.
pub assume_specification[ Uuid::from_bytes ](bytes: uuid::Bytes) -> (id: Uuid)
    ensures
        id == spec_uuid_from_bytes(bytes@),
;

/// The sixteen bytes of the identifier that tags a sensor's service data
/// in an advertisement.
pub open spec fn spec_service_data_bytes() -> Seq<u8> {
    seq![
        0u8, 0u8, 254u8, 149u8, 0u8, 0u8, 16u8, 0u8, 128u8, 0u8, 0u8, 128u8, 95u8, 155u8, 52u8,
        251u8,
    ]
}

/// The identifier that tags a sensor's service data in an advertisement.
pub fn service_data_uuid() -> (id: Uuid)
    ensures
        id == spec_uuid_from_bytes(spec_service_data_bytes()),
{
    let bytes: [u8; 16] = [0, 0, 254, 149, 0, 0, 16, 0, 128, 0, 0, 128, 95, 155, 52, 251];
    assert(bytes@ =~= spec_service_data_bytes());
    Uuid::from_bytes(bytes)
}

} // verus!
