use groundsaver::xscreensaver::dimension;
use groundsaver::xscreensaver::hex_digit_value;
use groundsaver::xscreensaver::is_whitespace;
use groundsaver::xscreensaver::parse_window_id;
use groundsaver::xscreensaver::Event;
use groundsaver::xscreensaver::NativeEvent;
use groundsaver::xscreensaver::ScreensaverWindow;
use groundsaver::xscreensaver::WindowInitError;
use groundsaver::xscreensaver::WindowSource;
use groundsaver::xscreensaver::CONFIGURE_NOTIFY;
use groundsaver::xscreensaver::DEFAULT_BORDER_WIDTH;
use groundsaver::xscreensaver::DEFAULT_HEIGHT;
use groundsaver::xscreensaver::DEFAULT_WIDTH;
use groundsaver::xscreensaver::EXPOSURE_MASK;
use groundsaver::xscreensaver::KEY_PRESS;
use groundsaver::xscreensaver::KEY_PRESS_MASK;
use groundsaver::xscreensaver::STRUCTURE_NOTIFY_MASK;

fn own_window() -> WindowSource {
    WindowSource::OwnedCreated { x: 0, y: 0, width: 1200, height: 800, border_width: 10 }
}

#[test]
fn window_id_with_prefix() {
    assert_eq!(parse_window_id("0x1f"), Some(0x1f));
    assert_eq!(parse_window_id("0x3a00007"), Some(0x3a00007));
}

#[test]
fn window_id_without_prefix() {
    assert_eq!(parse_window_id("1f"), Some(0x1f));
    assert_eq!(parse_window_id("0"), Some(0));
    assert_eq!(parse_window_id("10"), Some(16));
}

#[test]
fn window_id_in_either_case() {
    assert_eq!(parse_window_id("0xABCDEF"), Some(0xabcdef));
    assert_eq!(parse_window_id("0xabcdef"), Some(0xabcdef));
    assert_eq!(parse_window_id("DeadBeef"), Some(0xdead_beef));
}

#[test]
fn window_id_is_the_first_token() {
    assert_eq!(parse_window_id("  0x2a  0x2b"), Some(0x2a));
    assert_eq!(parse_window_id("\t\n0x2a\r\n"), Some(0x2a));
    assert_eq!(parse_window_id("7 not a number"), Some(7));
    assert_eq!(parse_window_id("\u{3000}0x10\u{a0}"), Some(16));
}

#[test]
fn window_id_rejects_what_is_no_number() {
    assert_eq!(parse_window_id(""), None);
    assert_eq!(parse_window_id("   "), None);
    assert_eq!(parse_window_id("0x"), None);
    assert_eq!(parse_window_id("window"), None);
    assert_eq!(parse_window_id("0x12g"), None);
    assert_eq!(parse_window_id("12,13"), None);
    assert_eq!(parse_window_id("-1"), None);
    assert_eq!(parse_window_id("0X12"), None);
    assert_eq!(parse_window_id("1_000"), None);
    assert_eq!(parse_window_id("\u{e9}"), None);
}

#[test]
fn window_id_takes_one_prefix_only() {
    assert_eq!(parse_window_id("0x0x12"), None);
    assert_eq!(parse_window_id("0x0"), Some(0));
    assert_eq!(parse_window_id("00x12"), None);
}

#[test]
fn window_id_may_carry_a_plus() {
    assert_eq!(parse_window_id("+1f"), Some(0x1f));
    assert_eq!(parse_window_id("0x+1f"), Some(0x1f));
    assert_eq!(parse_window_id("+"), None);
    assert_eq!(parse_window_id("0x+"), None);
    assert_eq!(parse_window_id("++1"), None);
    assert_eq!(parse_window_id("+0x1f"), None);
}

#[test]
fn window_id_must_fit() {
    assert_eq!(parse_window_id("0xffffffffffffffff"), Some(u64::MAX));
    assert_eq!(parse_window_id("0x10000000000000000"), None);
    assert_eq!(parse_window_id("0xfffffffffffffffff"), None);
    assert_eq!(parse_window_id("0x0000000000000000000000001"), Some(1));
}

#[test]
fn window_id_agrees_with_integer_parsing() {
    let digits = ["0", "7", "a", "F", "10", "ff", "1234abcd", "ffffffffffffffff", "g", "", "+5"];
    for text in digits {
        assert_eq!(parse_window_id(text), u64::from_str_radix(text, 16).ok());
    }
}

#[test]
fn white_space_is_what_unicode_says() {
    for code in 0u32..=0x10_ffff {
        if let Some(c) = char::from_u32(code) {
            assert_eq!(is_whitespace(c), c.is_whitespace());
        }
    }
}

#[test]
fn hex_digits_are_what_they_are_everywhere() {
    for code in 0u32..=0x10_ffff {
        if let Some(c) = char::from_u32(code) {
            assert_eq!(hex_digit_value(c), c.to_digit(16).map(u64::from));
        }
    }
}

#[test]
fn no_host_window_means_a_window_of_our_own() {
    assert_eq!(WindowSource::select(None), own_window());
    let session = ScreensaverWindow::new(None, true);
    assert_eq!(session, Ok(ScreensaverWindow { source: own_window() }));
    assert_eq!(DEFAULT_WIDTH, 1200);
    assert_eq!(DEFAULT_HEIGHT, 800);
    assert_eq!(DEFAULT_BORDER_WIDTH, 10);
}

#[test]
fn unreadable_host_window_means_a_window_of_our_own() {
    assert_eq!(WindowSource::select(Some("")), own_window());
    assert_eq!(WindowSource::select(Some("none")), own_window());
    let session = ScreensaverWindow::new(Some("0xzz"), true);
    assert_eq!(session, Ok(ScreensaverWindow { source: own_window() }));
}

#[test]
fn host_window_is_attached_to() {
    assert_eq!(WindowSource::select(Some("0x2c00003")), WindowSource::Attached { id: 0x2c00003 });
    let session = ScreensaverWindow::new(Some("0x2c00003 1"), true);
    assert_eq!(
        session,
        Ok(ScreensaverWindow { source: WindowSource::Attached { id: 0x2c00003 } })
    );
}

#[test]
fn no_display_means_no_session() {
    assert_eq!(ScreensaverWindow::new(None, false), Err(WindowInitError::DisplayUnavailable));
    assert_eq!(
        ScreensaverWindow::new(Some("0x2c00003"), false),
        Err(WindowInitError::DisplayUnavailable)
    );
}

#[test]
fn only_a_window_of_our_own_is_created() {
    let owned = ScreensaverWindow::new(None, true).unwrap();
    let attached = ScreensaverWindow::new(Some("0x10"), true).unwrap();
    assert!(owned.creates_window());
    assert!(!attached.creates_window());
}

#[test]
fn both_kinds_of_window_select_the_same_events() {
    let owned = ScreensaverWindow::new(None, true).unwrap();
    let attached = ScreensaverWindow::new(Some("0x10"), true).unwrap();
    assert_eq!(owned.event_mask(), 0x28001);
    assert_eq!(attached.event_mask(), 0x28001);
    assert_eq!(owned.event_mask(), EXPOSURE_MASK | KEY_PRESS_MASK | STRUCTURE_NOTIFY_MASK);
}

#[test]
fn native_codes_are_those_of_xlib() {
    assert_eq!(KEY_PRESS, x11::xlib::KeyPress);
    assert_eq!(CONFIGURE_NOTIFY, x11::xlib::ConfigureNotify);
    assert_eq!(KEY_PRESS_MASK, x11::xlib::KeyPressMask);
    assert_eq!(EXPOSURE_MASK, x11::xlib::ExposureMask);
    assert_eq!(STRUCTURE_NOTIFY_MASK, x11::xlib::StructureNotifyMask);
}

#[test]
fn structure_change_gives_exactly_one_resize() {
    let session = ScreensaverWindow::new(None, true).unwrap();
    let natives = vec![NativeEvent { kind: CONFIGURE_NOTIFY, width: 800, height: 600 }];
    let events = session.process_events(&natives);
    assert_eq!(events, vec![Event::Resized { width: 800, height: 600 }]);
}

#[test]
fn key_press_gives_no_event() {
    let session = ScreensaverWindow::new(None, true).unwrap();
    let natives = vec![NativeEvent { kind: KEY_PRESS, width: 800, height: 600 }];
    assert_eq!(session.process_events(&natives), Vec::<Event>::new());
    assert_eq!(NativeEvent { kind: KEY_PRESS, width: 0, height: 0 }.to_event(), None);
}

#[test]
fn other_kinds_give_no_event() {
    let session = ScreensaverWindow::new(Some("0x10"), true).unwrap();
    for kind in -3..40 {
        let native = NativeEvent { kind, width: 10, height: 20 };
        let events = session.process_events(&vec![native]);
        if kind == 22 {
            assert_eq!(events, vec![Event::Resized { width: 10, height: 20 }]);
        } else {
            assert!(events.is_empty());
        }
    }
}

#[test]
fn events_keep_their_order() {
    let session = ScreensaverWindow::new(None, true).unwrap();
    let natives = vec![
        NativeEvent { kind: 12, width: 1, height: 1 },
        NativeEvent { kind: 22, width: 640, height: 480 },
        NativeEvent { kind: 2, width: 2, height: 2 },
        NativeEvent { kind: 22, width: 800, height: 600 },
        NativeEvent { kind: 22, width: 800, height: 600 },
        NativeEvent { kind: 19, width: 3, height: 3 },
    ];
    let events = session.process_events(&natives);
    assert_eq!(
        events,
        vec![
            Event::Resized { width: 640, height: 480 },
            Event::Resized { width: 800, height: 600 },
            Event::Resized { width: 800, height: 600 },
        ]
    );
}

#[test]
fn empty_queue_gives_no_event() {
    let session = ScreensaverWindow::new(None, true).unwrap();
    assert!(session.process_events(&Vec::new()).is_empty());
}

#[test]
fn native_extents_keep_their_bits() {
    assert_eq!(dimension(0), 0);
    assert_eq!(dimension(1200), 1200);
    assert_eq!(dimension(i32::MAX), 0x7fff_ffff);
    assert_eq!(dimension(-1), u32::MAX);
    assert_eq!(dimension(i32::MIN), 0x8000_0000);
    let native = NativeEvent { kind: 22, width: -1, height: 5 };
    assert_eq!(native.to_event(), Some(Event::Resized { width: u32::MAX, height: 5 }));
}
