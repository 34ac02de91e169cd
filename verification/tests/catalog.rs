use uuid::Uuid;
use watchmate::catalog;

fn check(id: u128, text: &str) {
    let expected = Uuid::parse_str(text).unwrap();
    assert_eq!(Uuid::from_u128(id), expected);
    assert_eq!(Uuid::from_u128(id).to_string(), text);
}

#[test]
fn current_time_identifiers() {
    check(catalog::SRV_CURRENT_TIME, "00001805-0000-1000-8000-00805f9b34fb");
    check(catalog::CHR_CURRENT_TIME, "00002a2b-0000-1000-8000-00805f9b34fb");
}

#[test]
fn device_information_identifiers() {
    check(catalog::CHR_BATTERY_LEVEL, "00002a19-0000-1000-8000-00805f9b34fb");
    check(
        catalog::CHR_FIRMWARE_REVISION,
        "00002a26-0000-1000-8000-00805f9b34fb",
    );
    check(catalog::CHR_HEART_RATE, "00002a37-0000-1000-8000-00805f9b34fb");
}

#[test]
fn firmware_update_identifiers() {
    check(
        catalog::CHR_FWUPD_CONTROL_POINT,
        "00001531-1212-efde-1523-785feabcd123",
    );
    check(catalog::CHR_FWUPD_PACKET, "00001532-1212-efde-1523-785feabcd123");
}

#[test]
fn media_control_identifiers() {
    check(catalog::CHR_MP_EVENTS, "00000001-78fc-48fe-8e23-433b3a1942d0");
    check(catalog::CHR_MP_STATUS, "00000002-78fc-48fe-8e23-433b3a1942d0");
    check(catalog::CHR_MP_ARTIST, "00000003-78fc-48fe-8e23-433b3a1942d0");
    check(catalog::CHR_MP_TRACK, "00000004-78fc-48fe-8e23-433b3a1942d0");
    check(catalog::CHR_MP_ALBUM, "00000005-78fc-48fe-8e23-433b3a1942d0");
}

#[test]
fn identifiers_are_pairwise_distinct() {
    let all: [u128; 12] = [
        catalog::SRV_CURRENT_TIME,
        catalog::CHR_CURRENT_TIME,
        catalog::CHR_BATTERY_LEVEL,
        catalog::CHR_FIRMWARE_REVISION,
        catalog::CHR_HEART_RATE,
        catalog::CHR_FWUPD_CONTROL_POINT,
        catalog::CHR_FWUPD_PACKET,
        catalog::CHR_MP_EVENTS,
        catalog::CHR_MP_STATUS,
        catalog::CHR_MP_ARTIST,
        catalog::CHR_MP_TRACK,
        catalog::CHR_MP_ALBUM,
    ];
    for i in 0..all.len() {
        for j in 0..all.len() {
            if i != j {
                assert_ne!(all[i], all[j]);
            }
        }
    }
}
