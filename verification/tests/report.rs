use dualsense_lightbar::checksum::calculate_crc32;
use dualsense_lightbar::report::{encode, transport_mode_for_interface, Color, TransportMode};

#[test]
fn usb_report_layout() {
    let report = encode(TransportMode::Usb, Color { r: 10, g: 20, b: 30 });
    assert_eq!(report.len(), 48);
    assert_eq!(report[0], 0x02);
    assert_eq!(report[1], 0xFF);
    assert_eq!(report[2], 0xF7);
    assert_eq!(report[45], 10);
    assert_eq!(report[46], 20);
    assert_eq!(report[47], 30);
    for i in 3..45 {
        assert_eq!(report[i], 0, "byte {} must be zero", i);
    }
}

#[test]
fn bluetooth_report_layout() {
    let report = encode(TransportMode::Bluetooth, Color { r: 10, g: 20, b: 30 });
    assert_eq!(report.len(), 78);
    assert_eq!(report[0], 0x31);
    assert_eq!(report[1], 0x02);
    assert_eq!(report[2], 0xFF);
    assert_eq!(report[3], 0xF7);
    assert_eq!(report[47], 10);
    assert_eq!(report[48], 20);
    assert_eq!(report[49], 30);
    for i in 4..47 {
        assert_eq!(report[i], 0, "byte {} must be zero", i);
    }
    for i in 50..74 {
        assert_eq!(report[i], 0, "byte {} must be zero", i);
    }
}

#[test]
fn bluetooth_checksum_trailer() {
    let report = encode(TransportMode::Bluetooth, Color { r: 10, g: 20, b: 30 });
    let crc = calculate_crc32(&report[0..74]);
    assert_eq!(report[74], (crc & 0xFF) as u8);
    assert_eq!(report[75], ((crc >> 8) & 0xFF) as u8);
    assert_eq!(report[76], ((crc >> 16) & 0xFF) as u8);
    assert_eq!(report[77], ((crc >> 24) & 0xFF) as u8);
}

#[test]
fn report_lengths_at_color_extremes() {
    for color in [Color { r: 0, g: 0, b: 0 }, Color { r: 255, g: 255, b: 255 }] {
        assert_eq!(encode(TransportMode::Usb, color).len(), 48);
        assert_eq!(encode(TransportMode::Bluetooth, color).len(), 78);
    }
}

#[test]
fn report_ids_do_not_depend_on_color() {
    for color in [
        Color { r: 0, g: 0, b: 0 },
        Color { r: 255, g: 255, b: 255 },
        Color { r: 7, g: 200, b: 99 },
    ] {
        assert_eq!(encode(TransportMode::Usb, color)[0], 0x02);
        assert_eq!(encode(TransportMode::Bluetooth, color)[0], 0x31);
    }
}

#[test]
fn interface_number_picks_transport() {
    assert_eq!(transport_mode_for_interface(3), TransportMode::Usb);
    assert_eq!(transport_mode_for_interface(0), TransportMode::Bluetooth);
    assert_eq!(transport_mode_for_interface(-1), TransportMode::Bluetooth);
    assert_eq!(transport_mode_for_interface(4), TransportMode::Bluetooth);
}
