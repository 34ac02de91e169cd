//! The GATT profile catalog: the fixed 128-bit identifiers under which the
//! wearable exposes its services and characteristics.
//!
//! Each identifier is a service or characteristic UUID given here as its
//! 128-bit value, most significant byte first.  The values are wire-level
//! constants of the peripheral's protocol and must be reproduced exactly;
//! they are never computed and never mutated.  The host shell converts them
//! into its Bluetooth stack's UUID type when it addresses remote attributes.

use vstd::prelude::*;

verus! {

/// Current Time service.
pub const SRV_CURRENT_TIME: u128 = 0x00001805_0000_1000_8000_00805f9b34fb;

/// Current Time characteristic.
pub const CHR_CURRENT_TIME: u128 = 0x00002a2b_0000_1000_8000_00805f9b34fb;

/// Battery Level characteristic.
pub const CHR_BATTERY_LEVEL: u128 = 0x00002a19_0000_1000_8000_00805f9b34fb;

/// Firmware Revision characteristic.
pub const CHR_FIRMWARE_REVISION: u128 = 0x00002a26_0000_1000_8000_00805f9b34fb;

/// Heart Rate characteristic.
pub const CHR_HEART_RATE: u128 = 0x00002a37_0000_1000_8000_00805f9b34fb;

/// Firmware-update control point characteristic.
pub const CHR_FWUPD_CONTROL_POINT: u128 = 0x00001531_1212_efde_1523_785feabcd123;

/// Firmware-update packet characteristic.
pub const CHR_FWUPD_PACKET: u128 = 0x00001532_1212_efde_1523_785feabcd123;

/// Media-control events characteristic.
pub const CHR_MP_EVENTS: u128 = 0x00000001_78fc_48fe_8e23_433b3a1942d0;

/// Media-control status characteristic.
pub const CHR_MP_STATUS: u128 = 0x00000002_78fc_48fe_8e23_433b3a1942d0;

/// Media-control artist characteristic.
pub const CHR_MP_ARTIST: u128 = 0x00000003_78fc_48fe_8e23_433b3a1942d0;

/// Media-control track characteristic.
pub const CHR_MP_TRACK: u128 = 0x00000004_78fc_48fe_8e23_433b3a1942d0;

/// Media-control album characteristic.
pub const CHR_MP_ALBUM: u128 = 0x00000005_78fc_48fe_8e23_433b3a1942d0;

} // verus!
