//! HID output report encoder for the lightbar. The controller firmware
//! expects a fixed byte layout per transport: a 48-byte report over USB and a
//! 78-byte report over Bluetooth, the latter closed by a little-endian CRC-32
//! trailer over everything before it. The report identifiers, flag bytes and
//! channel offsets are firmware protocol constants.

use vstd::prelude::*;

use crate::checksum::{calculate_crc32, crc32_of};

verus! {

/// How the controller is connected; fixed for the lifetime of a session and
/// decides the report layout.
#[derive(Clone, Copy, Debug, PartialEq, Eq, Structural)]
pub enum TransportMode {
    Usb,
    Bluetooth,
}

/// An 8-bit-per-channel RGB color. Two colors are equal iff all three
/// channels match exactly.
#[derive(Clone, Copy, Debug, PartialEq, Eq, Structural)]
pub struct Color {
    pub r: u8,
    pub g: u8,
    pub b: u8,
}

/// Total length of a USB output report.
pub const USB_REPORT_LEN: usize = 48;

/// Total length of a Bluetooth output report, checksum trailer included.
pub const BT_REPORT_LEN: usize = 78;

/// Length of the Bluetooth report body covered by the checksum; the CRC-32
/// trailer occupies the four bytes after it.
pub const BT_CRC_OFFSET: usize = 74;

/// Report identifier of the USB output report.
pub const USB_REPORT_ID: u8 = 0x02;

/// Report identifier of the Bluetooth output report.
pub const BT_REPORT_ID: u8 = 0x31;

/// Flag byte that enables edits to the controller state.
pub const ENABLE_EDITS_FLAG: u8 = 0xFF;

/// Flag byte that selects the features being edited, LED control included.
pub const FEATURE_SELECT_FLAG: u8 = 0xF7;

/// Offset of the red channel in a USB report.
pub const USB_RGB_OFFSET: usize = 45;

/// Offset of the red channel in a Bluetooth report.
pub const BT_RGB_OFFSET: usize = 47;

/// The byte at index `i` of a USB report for `color`: report id, the two flag
/// bytes, the three color channels, and zero everywhere else.
pub open spec fn usb_report_byte(color: Color, i: int) -> u8 {
    if i == 0 {
        USB_REPORT_ID
    } else if i == 1 {
        ENABLE_EDITS_FLAG
    } else if i == 2 {
        FEATURE_SELECT_FLAG
    } else if i == 45 {
        color.r
    } else if i == 46 {
        color.g
    } else if i == 47 {
        color.b
    } else {
        0
    }
}

/// The byte at index `i` of the Bluetooth report body (the part covered by
/// the checksum): report id, a fixed `0x02`, the two flag bytes, the three
/// color channels, and zero everywhere else.
pub open spec fn bt_body_byte(color: Color, i: int) -> u8 {
    if i == 0 {
        BT_REPORT_ID
    } else if i == 1 {
        0x02
    } else if i == 2 {
        ENABLE_EDITS_FLAG
    } else if i == 3 {
        FEATURE_SELECT_FLAG
    } else if i == 47 {
        color.r
    } else if i == 48 {
        color.g
    } else if i == 49 {
        color.b
    } else {
        0
    }
}

/// A USB report: 48 bytes laid out by `usb_report_byte`.
pub open spec fn spec_usb_report(color: Color) -> Seq<u8> {
    Seq::new(USB_REPORT_LEN as nat, |i: int| usb_report_byte(color, i))
}

/// The checksummed body of a Bluetooth report: 74 bytes laid out by
/// `bt_body_byte`.
pub open spec fn spec_bt_body(color: Color) -> Seq<u8> {
    Seq::new(BT_CRC_OFFSET as nat, |i: int| bt_body_byte(color, i))
}

/// A 32-bit value as four little-endian bytes.
pub open spec fn le_bytes(x: u32) -> Seq<u8> {
    seq![
        (x & 0xFF) as u8,
        ((x >> 8) & 0xFF) as u8,
        ((x >> 16) & 0xFF) as u8,
        ((x >> 24) & 0xFF) as u8,
    ]
}

/// A Bluetooth report: the 74-byte body followed by the little-endian CRC-32
/// of that body.
pub open spec fn spec_bt_report(color: Color) -> Seq<u8> {
    spec_bt_body(color) + le_bytes(crc32_of(spec_bt_body(color)))
}

/// The full wire image of the output report for `color` on `mode`.
pub open spec fn spec_report(mode: TransportMode, color: Color) -> Seq<u8> {
    match mode {
        TransportMode::Usb => spec_usb_report(color),
        TransportMode::Bluetooth => spec_bt_report(color),
    }
}

/// The fixed report length of each transport.
pub open spec fn spec_report_len(mode: TransportMode) -> int {
    match mode {
        TransportMode::Usb => USB_REPORT_LEN as int,
        TransportMode::Bluetooth => BT_REPORT_LEN as int,
    }
}

/// A vector of `len` zero bytes.
fn zeroed(len: usize) -> (v: Vec<u8>)
    ensures
        v@ == Seq::new(len as nat, |i: int| 0u8),
{
    let mut v: Vec<u8> = Vec::new();
    let mut i: usize = 0;
    while i < len
        invariant
            i <= len,
            v@.len() == i,
            forall|k: int| 0 <= k < i ==> v@[k] == 0u8,
        decreases len - i,
    {
        v.push(0);
        i = i + 1;
    }
    proof {
        assert(v@ =~= Seq::new(len as nat, |i: int| 0u8));
    }
    v
}

/// Encode the output report that sets the lightbar to `color` on `mode`.
/// Pure and total: the result is exactly the byte layout of `spec_report`.
pub fn encode(mode: TransportMode, color: Color) -> (report: Vec<u8>)
    ensures
        report@ == spec_report(mode, color),
{
    match mode {
        TransportMode::Usb => {
            let mut report = zeroed(USB_REPORT_LEN);
            report[0] = USB_REPORT_ID;
            report[1] = ENABLE_EDITS_FLAG;
            report[2] = FEATURE_SELECT_FLAG;
            report[USB_RGB_OFFSET] = color.r;
            report[USB_RGB_OFFSET + 1] = color.g;
            report[USB_RGB_OFFSET + 2] = color.b;
            proof {
                assert(report@ =~= spec_usb_report(color));
            }
            report
        },
        TransportMode::Bluetooth => {
            let mut report = zeroed(BT_CRC_OFFSET);
            report[0] = BT_REPORT_ID;
            report[1] = 0x02;
            report[2] = ENABLE_EDITS_FLAG;
            report[3] = FEATURE_SELECT_FLAG;
            report[BT_RGB_OFFSET] = color.r;
            report[BT_RGB_OFFSET + 1] = color.g;
            report[BT_RGB_OFFSET + 2] = color.b;
            proof {
                assert(report@ =~= spec_bt_body(color));
            }
            let crc = calculate_crc32(report.as_slice());
            report.push((crc & 0xFF) as u8);
            report.push(((crc >> 8) & 0xFF) as u8);
            report.push(((crc >> 16) & 0xFF) as u8);
            report.push(((crc >> 24) & 0xFF) as u8);
            proof {
                assert(report@ =~= spec_bt_report(color));
            }
            report
        },
    }
}

/// Classify the transport from the HID interface number the device reports:
/// interface 3 is the USB HID interface, anything else is Bluetooth.
pub fn transport_mode_for_interface(interface_number: i32) -> (mode: TransportMode)
    ensures
        mode == (if interface_number == 3 {
            TransportMode::Usb
        } else {
            TransportMode::Bluetooth
        }),
{
    if interface_number == 3 {
        TransportMode::Usb
    } else {
        TransportMode::Bluetooth
    }
}

/// Every encoded report has the fixed length of its transport: 48 bytes over
/// USB and 78 bytes over Bluetooth, whatever the color.
pub proof fn lemma_report_len(mode: TransportMode, color: Color)
    ensures
        spec_report(mode, color).len() == spec_report_len(mode),
{
}

/// Byte 0 of every report is the report identifier of its transport,
/// whatever the color.
pub proof fn lemma_report_id(mode: TransportMode, color: Color)
    ensures
        mode == TransportMode::Usb ==> spec_report(mode, color)[0] == USB_REPORT_ID,
        mode == TransportMode::Bluetooth ==> spec_report(mode, color)[0] == BT_REPORT_ID,
{
}

/// The color channels stand at their transport's offsets, and every byte the
/// encoder does not assign (headers, channels and, over Bluetooth, the
/// checksum trailer aside) is zero.
pub proof fn lemma_color_placement(color: Color)
    ensures
        spec_report(TransportMode::Usb, color)[USB_RGB_OFFSET as int] == color.r,
        spec_report(TransportMode::Usb, color)[USB_RGB_OFFSET + 1] == color.g,
        spec_report(TransportMode::Usb, color)[USB_RGB_OFFSET + 2] == color.b,
        forall|i: int|
            3 <= i < USB_RGB_OFFSET ==> spec_report(TransportMode::Usb, color)[i] == 0,
        spec_report(TransportMode::Bluetooth, color)[BT_RGB_OFFSET as int] == color.r,
        spec_report(TransportMode::Bluetooth, color)[BT_RGB_OFFSET + 1] == color.g,
        spec_report(TransportMode::Bluetooth, color)[BT_RGB_OFFSET + 2] == color.b,
        forall|i: int|
            4 <= i < BT_RGB_OFFSET ==> spec_report(TransportMode::Bluetooth, color)[i] == 0,
        forall|i: int|
            BT_RGB_OFFSET + 3 <= i < BT_CRC_OFFSET ==> spec_report(
                TransportMode::Bluetooth,
                color,
            )[i] == 0,
{
}

/// The last four bytes of a Bluetooth report are the little-endian CRC-32 of
/// the 74 bytes before them.
pub proof fn lemma_checksum_trailer(color: Color)
    ensures
        ({
            let report = spec_report(TransportMode::Bluetooth, color);
            let crc = crc32_of(report.take(BT_CRC_OFFSET as int));
            &&& report[74] == (crc & 0xFF) as u8
            &&& report[75] == ((crc >> 8) & 0xFF) as u8
            &&& report[76] == ((crc >> 16) & 0xFF) as u8
            &&& report[77] == ((crc >> 24) & 0xFF) as u8
        }),
{
    let report = spec_report(TransportMode::Bluetooth, color);
    assert(report.take(BT_CRC_OFFSET as int) =~= spec_bt_body(color));
}

} // verus!
