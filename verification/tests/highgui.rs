use std::sync::atomic::AtomicUsize;
use std::sync::atomic::Ordering;
use std::sync::Arc;
use std::sync::Mutex;

use cv::highgui::key_code_from_raw;
use cv::highgui::set_mouse_callback;
use cv::highgui::validate_window_name;
use cv::highgui::Delay;
use cv::highgui::MouseEventFlags;
use cv::highgui::MouseEventType;
use cv::highgui::SelectionStatus;
use cv::highgui::EVENT_FLAG_ALTKEY;
use cv::highgui::EVENT_FLAG_LBUTTON;
use cv::highgui::EVENT_FLAG_SHIFTKEY;
use cv::Error;
use cv::Rect;
use cv::video::TermType;

#[test]
fn event_kinds_round_trip_through_their_values() {
    for value in 0..12 {
        let kind = MouseEventType::from_value(value).unwrap();
        assert_eq!(kind.as_value(), value);
    }
    assert_eq!(MouseEventType::from_value(0), Some(MouseEventType::MouseMove));
    assert_eq!(MouseEventType::from_value(1), Some(MouseEventType::LButtonDown));
    assert_eq!(MouseEventType::from_value(4), Some(MouseEventType::LButtonUp));
    assert_eq!(MouseEventType::from_value(11), Some(MouseEventType::MouseHWheel));
    assert_eq!(MouseEventType::from_value(12), None);
    assert_eq!(MouseEventType::from_value(-1), None);
}

#[test]
fn event_flags_keep_only_known_bits() {
    assert_eq!(MouseEventFlags::from_bits_truncate(63).bits, 63);
    assert_eq!(MouseEventFlags::from_bits_truncate(64).bits, 0);
    assert_eq!(MouseEventFlags::from_bits_truncate(65).bits, 1);
    assert_eq!(MouseEventFlags::from_bits_truncate(-1).bits, 63);
    assert_eq!(MouseEventFlags::empty().bits, 0);
    let flags = MouseEventFlags::from_bits_truncate(EVENT_FLAG_LBUTTON | EVENT_FLAG_SHIFTKEY);
    assert!(flags.contains(MouseEventFlags::from_bits_truncate(EVENT_FLAG_LBUTTON)));
    assert!(!flags.contains(MouseEventFlags::from_bits_truncate(EVENT_FLAG_ALTKEY)));
}

#[test]
fn delay_maps_to_milliseconds() {
    assert_eq!(Delay::default(), Delay::Forever);
    assert_eq!(Delay::Forever.to_millis(), 0);
    assert_eq!(Delay::Msec(30).to_millis(), 30);
    assert_eq!(Delay::Msec(-5).to_millis(), -5);
}

#[test]
fn key_codes_are_non_negative_returns() {
    assert_eq!(key_code_from_raw(0), Some(0));
    assert_eq!(key_code_from_raw(13), Some(13));
    assert_eq!(key_code_from_raw(-1), None);
}

#[test]
fn window_names_reject_embedded_terminators() {
    assert!(validate_window_name("Window").is_ok());
    assert!(validate_window_name("").is_ok());
    assert_eq!(validate_window_name("ab\0cd").unwrap_err(), Error::EmbeddedNul);
    assert_eq!(validate_window_name("\0").unwrap_err(), Error::EmbeddedNul);
}

#[test]
fn registration_rejects_bad_names() {
    let r = set_mouse_callback("bad\0name", 1u32);
    assert_eq!(r.unwrap_err(), Error::EmbeddedNul);
}

#[test]
fn registration_starts_live_and_lends_its_state() {
    let h = set_mouse_callback("Window", 41u32).unwrap();
    assert!(h.is_registered());
    assert_eq!(h.window_name(), "Window");
    assert_eq!(h.invocation_count(), 0);
    assert_eq!(h.user_data(), Some(&41));
}

#[test]
fn dispatch_decodes_events_and_flags() {
    let mut h = set_mouse_callback("Window", ()).unwrap();
    let ev = h.dispatch_event(1, 10, 20, 65).unwrap();
    assert_eq!(ev.kind, MouseEventType::LButtonDown);
    assert_eq!(ev.x, 10);
    assert_eq!(ev.y, 20);
    assert_eq!(ev.flags.bits, 1);
    assert_eq!(h.invocation_count(), 1);
}

#[test]
fn dispatch_ignores_unknown_event_kinds() {
    let mut h = set_mouse_callback("Window", ()).unwrap();
    assert!(h.dispatch_event(99, 0, 0, 0).is_none());
    assert!(h.dispatch_event(-7, 0, 0, 0).is_none());
    assert_eq!(h.invocation_count(), 0);
}

struct DropCounter {
    drops: Arc<AtomicUsize>,
}

impl Drop for DropCounter {
    fn drop(&mut self) {
        self.drops.fetch_add(1, Ordering::SeqCst);
    }
}

#[test]
fn n_events_give_n_invocations_and_one_release() {
    let drops = Arc::new(AtomicUsize::new(0));
    let mut h = set_mouse_callback("Window", DropCounter { drops: drops.clone() }).unwrap();
    let n = 5;
    for i in 0..n {
        assert!(h.dispatch_event(0, i, i, 0).is_some());
    }
    assert_eq!(h.invocation_count(), n as u64);
    // the captured state is still owned by the registration
    assert_eq!(drops.load(Ordering::SeqCst), 0);
    // detaching silences the window first, then hands the state back once
    let payload = h.detach();
    assert!(payload.is_some());
    assert!(!h.is_registered());
    drop(payload);
    assert_eq!(drops.load(Ordering::SeqCst), 1);
    // no invocation after the detach
    assert!(h.dispatch_event(0, 1, 1, 0).is_none());
    assert_eq!(h.invocation_count(), n as u64);
    // a second detach has nothing to hand back: no double release
    assert!(h.detach().is_none());
    drop(h);
    assert_eq!(drops.load(Ordering::SeqCst), 1);
}

#[test]
fn selection_scenario_reads_the_dragged_rectangle() {
    let state = Arc::new(Mutex::new(SelectionStatus::new()));
    let mut h = set_mouse_callback("Window", state.clone()).unwrap();
    // left button pressed at (10, 20)
    let ev = h.dispatch_event(1, 10, 20, 0).unwrap();
    {
        let shared = h.user_data().unwrap();
        let mut s = shared.lock().unwrap();
        s.on_mouse_event(ev.kind, ev.x, ev.y);
    }
    // left button released at (50, 70)
    let ev = h.dispatch_event(4, 50, 70, 0).unwrap();
    {
        let shared = h.user_data().unwrap();
        let mut s = shared.lock().unwrap();
        s.on_mouse_event(ev.kind, ev.x, ev.y);
    }
    let s = state.lock().unwrap();
    assert_eq!(s.selection, Rect::new(10, 20, 40, 50));
    assert!(s.status);
}

#[test]
fn selection_ignores_other_events_and_flat_drags() {
    let mut s = SelectionStatus::new();
    s.on_mouse_event(MouseEventType::MouseMove, 9, 9);
    assert_eq!(s, SelectionStatus::new());
    // a drag with no extent completes without raising the flag
    s.on_mouse_event(MouseEventType::LButtonDown, 5, 5);
    s.on_mouse_event(MouseEventType::LButtonUp, 5, 9);
    assert_eq!(s.selection, Rect::new(5, 5, 0, 4));
    assert!(!s.status);
}

#[test]
fn term_type_tags() {
    assert_eq!(TermType::Count.as_value(), 1);
    assert_eq!(TermType::EPS.as_value(), 2);
}
