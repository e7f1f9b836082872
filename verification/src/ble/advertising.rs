//! BLE advertising data and scan response data.
//!
//! Both are sequences of AD structures: a length byte, counting the type byte
//! and the data, then the AD type, then the data.
use vstd::prelude::*;
use crate::ble::services::UART_SERVICE_UUID;

verus! {

/// AD type: flags.
pub const BLE_GAP_AD_TYPE_FLAGS: u8 = 0x01;

/// AD type: complete list of 128-bit service UUIDs.
pub const BLE_GAP_AD_TYPE_128BIT_SERVICE_UUID_COMPLETE: u8 = 0x07;

/// AD type: complete local name.
pub const BLE_GAP_AD_TYPE_COMPLETE_LOCAL_NAME: u8 = 0x09;

/// Flags value: LE only, general discoverable mode.
pub const BLE_GAP_ADV_FLAGS_LE_ONLY_GENERAL_DISC_MODE: u8 = 0x06;

/// Maximum length of legacy advertising data and of scan response data.
pub const MAX_ADV_DATA_LEN: usize = 31;

/// One AD structure.
pub open spec fn ad_structure(ad_type: u8, data: Seq<u8>) -> Seq<u8> {
    seq![(data.len() + 1) as u8, ad_type] + data
}

/// The bytes split exactly into AD structures, each with a type byte.
pub open spec fn ad_well_formed(bytes: Seq<u8>) -> bool
    decreases bytes.len(),
{
    if bytes.len() == 0 {
        true
    } else {
        let n = bytes[0] as int;
        &&& 1 <= n
        &&& n + 1 <= bytes.len()
        &&& ad_well_formed(bytes.subrange(n + 1, bytes.len() as int))
    }
}

/// The name that the device advertises: "HelloRust".
pub open spec fn device_name() -> Seq<u8> {
    seq![0x48u8, 0x65, 0x6c, 0x6c, 0x6f, 0x52, 0x75, 0x73, 0x74]
}

/// The 16 bytes of a UUID, least significant byte first, as BLE sends them.
pub open spec fn uuid_le_bytes(uuid: u128) -> Seq<u8> {
    Seq::new(16, |i: int| ((uuid >> ((8 * i) as u128)) & 0xff) as u8)
}

/// Advertising data: the flags, then the complete local name.
pub open spec fn advertising_payload() -> Seq<u8> {
    ad_structure(BLE_GAP_AD_TYPE_FLAGS, seq![BLE_GAP_ADV_FLAGS_LE_ONLY_GENERAL_DISC_MODE])
        + ad_structure(BLE_GAP_AD_TYPE_COMPLETE_LOCAL_NAME, device_name())
}

/// Scan response data: the UART service's UUID as the complete list of
/// 128-bit service UUIDs.
pub open spec fn scan_response_payload() -> Seq<u8> {
    ad_structure(BLE_GAP_AD_TYPE_128BIT_SERVICE_UUID_COMPLETE, uuid_le_bytes(UART_SERVICE_UUID))
}

/// The BLE advertising data.
pub fn advertising_data() -> (r: [u8; 14])
    ensures
        r@ == advertising_payload(),
{
    let r: [u8; 14] = [
        // flags
        0x02,
        BLE_GAP_AD_TYPE_FLAGS,
        BLE_GAP_ADV_FLAGS_LE_ONLY_GENERAL_DISC_MODE,
        // complete local name: "HelloRust"
        0x0a,
        BLE_GAP_AD_TYPE_COMPLETE_LOCAL_NAME,
        0x48,
        0x65,
        0x6c,
        0x6c,
        0x6f,
        0x52,
        0x75,
        0x73,
        0x74,
    ];
    assert(r@ =~= advertising_payload());
    r
}

/// The BLE scan response data.
pub fn scan_response_data() -> (r: [u8; 18])
    ensures
        r@ == scan_response_payload(),
{
    let r: [u8; 18] = [
        // the UART service UUID, least significant byte first
        0x11,
        BLE_GAP_AD_TYPE_128BIT_SERVICE_UUID_COMPLETE,
        0x38,
        0xcf,
        0x62,
        0x0a,
        0xc3,
        0xfb,
        0x10,
        0x9f,
        0xeb,
        0x11,
        0x54,
        0x23,
        0xe1,
        0x12,
        0x73,
        0x9E,
    ];
    let ghost uuid: u128 = UART_SERVICE_UUID;
    assert(
        ((uuid >> 0u128) & 0xff) as u8 == 0x38 && ((uuid >> 8u128) & 0xff) as u8 == 0xcf && ((uuid
            >> 16u128) & 0xff) as u8 == 0x62 && ((uuid >> 24u128) & 0xff) as u8 == 0x0a && ((uuid
            >> 32u128) & 0xff) as u8 == 0xc3 && ((uuid >> 40u128) & 0xff) as u8 == 0xfb && ((uuid
            >> 48u128) & 0xff) as u8 == 0x10 && ((uuid >> 56u128) & 0xff) as u8 == 0x9f && ((uuid
            >> 64u128) & 0xff) as u8 == 0xeb && ((uuid >> 72u128) & 0xff) as u8 == 0x11 && ((uuid
            >> 80u128) & 0xff) as u8 == 0x54 && ((uuid >> 88u128) & 0xff) as u8 == 0x23 && ((uuid
            >> 96u128) & 0xff) as u8 == 0xe1 && ((uuid >> 104u128) & 0xff) as u8 == 0x12 && ((uuid
            >> 112u128) & 0xff) as u8 == 0x73 && ((uuid >> 120u128) & 0xff) as u8 == 0x9e
    ) by (bit_vector)
        requires
            uuid == 0x9e7312e1_2354_11eb_9f10_fbc30a62cf38u128,
    ;
    assert(r@ =~= scan_response_payload());
    r
}

/// An AD structure in front of well-formed AD structures gives well-formed
/// AD structures.
pub proof fn lemma_ad_structure_prepend(ad_type: u8, data: Seq<u8>, rest: Seq<u8>)
    requires
        data.len() + 1 < 256,
        ad_well_formed(rest),
    ensures
        ad_well_formed(ad_structure(ad_type, data) + rest),
{
    let bytes = ad_structure(ad_type, data) + rest;
    assert(bytes.subrange(data.len() as int + 2, bytes.len() as int) =~= rest);
}

/// Both payloads split exactly into AD structures and fit the 31 bytes of
/// legacy advertising; the name advertised is "HelloRust" and the service
/// advertised is the UART service.
pub proof fn lemma_payloads_well_formed()
    ensures
        ad_well_formed(advertising_payload()),
        advertising_payload().len() <= MAX_ADV_DATA_LEN,
        ad_well_formed(scan_response_payload()),
        scan_response_payload().len() <= MAX_ADV_DATA_LEN,
        advertising_payload().subrange(5, 14) == device_name(),
        scan_response_payload().subrange(2, 18) == uuid_le_bytes(UART_SERVICE_UUID),
{
    let empty = Seq::<u8>::empty();
    assert(ad_well_formed(empty));
    let name = ad_structure(BLE_GAP_AD_TYPE_COMPLETE_LOCAL_NAME, device_name());
    lemma_ad_structure_prepend(BLE_GAP_AD_TYPE_COMPLETE_LOCAL_NAME, device_name(), empty);
    assert(name + empty =~= name);
    lemma_ad_structure_prepend(
        BLE_GAP_AD_TYPE_FLAGS,
        seq![BLE_GAP_ADV_FLAGS_LE_ONLY_GENERAL_DISC_MODE],
        name,
    );
    let scan = scan_response_payload();
    lemma_ad_structure_prepend(
        BLE_GAP_AD_TYPE_128BIT_SERVICE_UUID_COMPLETE,
        uuid_le_bytes(UART_SERVICE_UUID),
        empty,
    );
    assert(scan + empty =~= scan);
    assert(advertising_payload().subrange(5, 14) =~= device_name());
    assert(scan.subrange(2, 18) =~= uuid_le_bytes(UART_SERVICE_UUID));
}

} // verus!
