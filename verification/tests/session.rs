use dualsense_lightbar::report::{Color, TransportMode};
use dualsense_lightbar::session::Session;

#[test]
fn dedup_skips_second_identical_write() {
    let mut session = Session::new(TransportMode::Usb);
    let color = Color { r: 1, g: 2, b: 3 };

    let mut writes: u64 = 0;
    for _ in 0..2 {
        if let Some(report) = session.set_lightbar_request(color) {
            assert_eq!(report.len(), 48);
            writes += 1;
            session.set_lightbar_complete(color, true);
        }
    }

    assert_eq!(writes, 1);
    assert_eq!(session.get_stats(), (1, 0));
}

#[test]
fn fresh_session_attempts_first_write_even_for_black() {
    // De-duplication compares against the last successfully applied color;
    // a fresh session has none, so the first request asks for a write
    // whatever the color — black included.
    let mut session = Session::new(TransportMode::Bluetooth);
    let black = Color { r: 0, g: 0, b: 0 };
    let first = session.set_lightbar_request(black);
    assert!(first.is_some());
    session.set_lightbar_complete(black, true);
    assert!(session.set_lightbar_request(black).is_none());
    assert!(session.set_lightbar_request(Color { r: 0, g: 0, b: 1 }).is_some());
}

#[test]
fn failed_write_counts_one_error_and_keeps_retrying() {
    let mut session = Session::new(TransportMode::Bluetooth);
    let color = Color { r: 40, g: 50, b: 60 };

    let first = session.set_lightbar_request(color);
    assert!(first.is_some());
    session.set_lightbar_complete(color, false);
    assert_eq!(session.get_stats(), (0, 1));

    // The failure did not record the color as applied: the same color is
    // attempted again rather than skipped.
    let second = session.set_lightbar_request(color);
    assert!(second.is_some());
    session.set_lightbar_complete(color, true);
    assert_eq!(session.get_stats(), (1, 1));

    // Now the color is applied and the request is skipped.
    assert!(session.set_lightbar_request(color).is_none());
}

#[test]
fn distinct_colors_each_write() {
    let mut session = Session::new(TransportMode::Usb);
    let a = Color { r: 9, g: 9, b: 9 };
    let b = Color { r: 9, g: 9, b: 8 };
    for color in [a, b, a] {
        let report = session.set_lightbar_request(color);
        assert!(report.is_some());
        session.set_lightbar_complete(color, true);
    }
    assert_eq!(session.get_stats(), (3, 0));
}

#[test]
fn request_uses_session_transport() {
    let usb = Session::new(TransportMode::Usb);
    let bt = Session::new(TransportMode::Bluetooth);
    let color = Color { r: 100, g: 0, b: 0 };
    let usb_report = usb.set_lightbar_request(color).unwrap();
    let bt_report = bt.set_lightbar_request(color).unwrap();
    assert_eq!(usb_report.len(), 48);
    assert_eq!(usb_report[0], 0x02);
    assert_eq!(bt_report.len(), 78);
    assert_eq!(bt_report[0], 0x31);
}
