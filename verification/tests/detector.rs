use contact_sense::buffers::Buffers;
use contact_sense::buffers::DetectionMsg;
use contact_sense::buffers::DETECTION_EVENT_SLOTS;
use contact_sense::buffers::LONGTERM_CAPACITY;
use contact_sense::counter::SampleCounter;
use contact_sense::status::{StatusLedMulti, StatusLedStates};

fn normal_leds() -> StatusLedMulti {
    StatusLedMulti {
        state: StatusLedStates::Normal,
        normal_led: true,
        alert_led: false,
        error_led: false,
    }
}

#[test]
fn wrapping_add_concrete() {
    assert_eq!(SampleCounter(5).wrapping_counter_add(4, 8), 1);
    assert_eq!(SampleCounter(0).wrapping_counter_add(1, 8), 1);
    assert_eq!(SampleCounter(7).wrapping_counter_add(1, 8), 0);
    assert_eq!(SampleCounter(3).wrapping_counter_add(0, 8), 3);
    assert_eq!(SampleCounter(44999).wrapping_counter_add(1, 45000), 0);
}

#[test]
fn wrapping_sub_concrete() {
    assert_eq!(SampleCounter(5).wrapping_counter_sub(7, 8), 6);
    assert_eq!(SampleCounter(0).wrapping_counter_sub(1, 8), 7);
    assert_eq!(SampleCounter(5).wrapping_counter_sub(2, 8), 3);
    assert_eq!(SampleCounter(3).wrapping_counter_sub(8, 8), 3);
    assert_eq!(SampleCounter(0).wrapping_counter_sub(0, 45000), 0);
}

#[test]
fn wrapping_round_trip_grid() {
    for cap in [2usize, 3, 8, 11] {
        for v in 0..cap {
            for delta in 0..cap {
                let added = SampleCounter(v).wrapping_counter_add(delta, cap);
                assert!(added < cap);
                let restored = SampleCounter(added).wrapping_counter_sub(delta, cap);
                assert!(restored < cap);
                assert_eq!(restored, v);
            }
        }
    }
}

#[test]
fn get_counter_and_increment() {
    let mut leds = normal_leds();
    let mut c = SampleCounter(41);
    assert_eq!(c.get_counter(), 41);
    c.increment(&mut leds);
    assert_eq!(c.get_counter(), 42);
    assert_eq!(leds.state, StatusLedStates::Normal);
    assert!(leds.normal_led && !leds.error_led);
}

#[test]
fn increment_overflow_escalates_to_error() {
    let mut leds = normal_leds();
    let mut c = SampleCounter(usize::MAX);
    c.increment(&mut leds);
    assert_eq!(c.get_counter(), usize::MAX);
    assert_eq!(leds.state, StatusLedStates::Error);
    assert!(!leds.normal_led && !leds.alert_led && leds.error_led);
}

#[test]
fn init_defaults() {
    let b = Buffers::init();
    assert_eq!(b.longterm_buffer.len(), LONGTERM_CAPACITY);
    assert!(b.longterm_buffer.iter().all(|&s| s == 0));
    assert_eq!(b.current_sample.get_counter(), 0);
    assert_eq!(b.head.get_counter(), 0);
    assert!(!b.awaiting_confirmation());
    for i in 0..DETECTION_EVENT_SLOTS {
        assert_eq!(b.detection_event(i), None);
    }
}

#[test]
fn status_led_init_starts_in_alert() {
    let s = StatusLedMulti::init();
    assert_eq!(s.state, StatusLedStates::Alert);
    assert!(!s.normal_led && s.alert_led && !s.error_led);
}

#[test]
fn insert_writes_wrapped_successor_slot() {
    let mut leds = normal_leds();
    let mut b = Buffers::with_capacity(4);
    b.insert(10, &mut leds);
    b.insert(20, &mut leds);
    b.insert(30, &mut leds);
    b.insert(40, &mut leds);
    // The first sample lands in slot 1; the fourth wraps to slot 0.
    assert_eq!(b.longterm_buffer, vec![40, 10, 20, 30]);
    assert_eq!(b.current_sample.get_counter(), 4);
    assert_eq!(b.head.get_counter(), 0);
    b.insert(50, &mut leds);
    assert_eq!(b.longterm_buffer, vec![40, 50, 20, 30]);
    assert_eq!(b.head.get_counter(), 1);
    assert_eq!(leds.state, StatusLedStates::Normal);
}

#[test]
fn detection_idx_is_counter_minus_one() {
    let mut leds = normal_leds();
    let mut b = Buffers::with_capacity(8);
    b.insert(12, &mut leds);
    assert_eq!(b.detection_idx(), b.current_sample.get_counter() - 1);
    assert_eq!(b.detection_idx(), 0);
    for s in 0..20u8 {
        b.insert(s, &mut leds);
        assert_eq!(b.detection_idx(), b.current_sample.get_counter() - 1);
    }
}

#[test]
fn detection_msg_reports_previous_index() {
    let mut leds = normal_leds();
    let mut b = Buffers::with_capacity(8);
    b.insert(1, &mut leds);
    b.insert(2, &mut leds);
    let msg = DetectionMsg::create(&b);
    assert_eq!(msg.sample_index(), 1);
}

#[test]
fn detection_msg_renders_fixed_line() {
    assert_eq!(
        DetectionMsg(SampleCounter(0)).render(),
        "contact detected on sample 0! Adding to detection events"
    );
    assert_eq!(
        DetectionMsg(SampleCounter(7)).render(),
        "contact detected on sample 7! Adding to detection events"
    );
    assert_eq!(
        DetectionMsg(SampleCounter(12034)).render(),
        "contact detected on sample 12034! Adding to detection events"
    );
    assert_eq!(
        DetectionMsg(SampleCounter(45000)).render(),
        "contact detected on sample 45000! Adding to detection events"
    );
}

#[test]
fn detect_contact_on_fresh_store_does_nothing() {
    let mut leds = normal_leds();
    let mut b = Buffers::with_capacity(8);
    b.detect_contact(&mut leds);
    assert!(!b.awaiting_confirmation());
    assert_eq!(leds.state, StatusLedStates::Normal);
    assert_eq!(b.detection_event(0), None);
}

#[test]
fn detection_works_after_wraparound() {
    // Fill a capacity-4 store past its horizon, then trigger and confirm:
    // the folded head keeps indexing valid once the counter exceeds the
    // capacity.
    let mut leds = normal_leds();
    let mut b = Buffers::with_capacity(4);
    for _ in 0..6 {
        b.insert(200, &mut leds);
        b.detect_contact(&mut leds);
    }
    assert!(!b.awaiting_confirmation());
    b.insert(30, &mut leds);
    b.detect_contact(&mut leds);
    assert!(b.awaiting_confirmation());
    b.insert(20, &mut leds);
    b.detect_contact(&mut leds);
    assert!(!b.awaiting_confirmation());
    assert_eq!(leds.state, StatusLedStates::Alert);
    assert_eq!(b.detection_event(0), Some((SampleCounter(8), 180)));
}

#[test]
fn event_history_keeps_ten_newest_first() {
    let mut leds = normal_leds();
    let mut b = Buffers::with_capacity(8);
    // Record eleven events, each under a distinct counter stamp.
    for k in 0..11usize {
        b.insert(k as u8, &mut leds);
        b.add_detection_event();
        assert_eq!(b.detection_event(0).unwrap().0, SampleCounter(k + 1));
    }
    // Ten slots remain; the newest sits at position 0, and the oldest stamp
    // (counter 1) is no longer retrievable anywhere in the history.
    for i in 0..DETECTION_EVENT_SLOTS {
        let (stamp, _delta) = b.detection_event(i).unwrap();
        assert_eq!(stamp, SampleCounter(11 - i));
        assert_ne!(stamp, SampleCounter(1));
    }
}

#[test]
fn end_to_end_arm_without_confirmation() {
    // Insert 200, 200, 30, 200: the 200 -> 30 drop (170) arms the detector;
    // the fourth step compares the step-2 reading (200) with the latest
    // (200), drop 0, so the machine stays armed and no alert fires.
    let mut leds = normal_leds();
    let mut b = Buffers::with_capacity(8);
    for s in [200u8, 200, 30] {
        b.insert(s, &mut leds);
        b.detect_contact(&mut leds);
    }
    assert!(b.awaiting_confirmation());
    assert_eq!(leds.state, StatusLedStates::Normal);
    b.insert(200, &mut leds);
    b.detect_contact(&mut leds);
    assert!(b.awaiting_confirmation());
    assert_eq!(leds.state, StatusLedStates::Normal);
    assert!(leds.normal_led && !leds.alert_led);
    assert_eq!(b.detection_event(0), None);
}

#[test]
fn debounce_fires_exactly_once_at_confirmation() {
    // A qualifying drop at step 3 only arms; the confirming drop at step 4
    // fires exactly one alert, records one event, and disarms.
    let mut leds = normal_leds();
    let mut b = Buffers::with_capacity(8);
    for s in [200u8, 200, 30] {
        b.insert(s, &mut leds);
        b.detect_contact(&mut leds);
    }
    assert!(b.awaiting_confirmation());
    assert_eq!(leds.state, StatusLedStates::Normal);
    assert_eq!(b.detection_event(0), None);
    b.insert(20, &mut leds);
    b.detect_contact(&mut leds);
    assert!(!b.awaiting_confirmation());
    assert_eq!(leds.state, StatusLedStates::Alert);
    assert!(!leds.normal_led && leds.alert_led && !leds.error_led);
    // The event stamps the confirming sample's counter with the drop 200 - 20.
    assert_eq!(b.detection_event(0), Some((SampleCounter(4), 180)));
    assert_eq!(b.detection_event(1), None);
    // Later unremarkable samples fire nothing further.
    b.insert(20, &mut leds);
    b.detect_contact(&mut leds);
    assert_eq!(b.detection_event(1), None);
    assert_eq!(leds.state, StatusLedStates::Alert);
}

#[test]
fn armed_without_confirmation_stays_armed_indefinitely() {
    // A single candidate trigger with no confirming drop leaves the machine
    // armed forever: no alert, no event, however many samples follow.
    let mut leds = normal_leds();
    let mut b = Buffers::with_capacity(8);
    for s in [200u8, 200, 30] {
        b.insert(s, &mut leds);
        b.detect_contact(&mut leds);
    }
    assert!(b.awaiting_confirmation());
    for _ in 0..50 {
        b.insert(200, &mut leds);
        b.detect_contact(&mut leds);
        assert!(b.awaiting_confirmation());
        assert_eq!(leds.state, StatusLedStates::Normal);
        assert_eq!(b.detection_event(0), None);
    }
}

#[test]
fn led_transition_table() {
    // From Normal, set_alert yields Alert: Normal LED off, Alert LED on.
    let mut s = normal_leds();
    critical_section::with(|cs| s.set_alert(cs, None));
    assert_eq!(s.state, StatusLedStates::Alert);
    assert!(!s.normal_led && s.alert_led && !s.error_led);
    // From Alert, set_error yields Error: Alert LED off, Error LED on.
    critical_section::with(|cs| s.set_error(cs, None));
    assert_eq!(s.state, StatusLedStates::Error);
    assert!(!s.normal_led && !s.alert_led && s.error_led);
    // From Error, set_error changes nothing.
    critical_section::with(|cs| s.set_error(cs, Some("fault")));
    assert_eq!(s.state, StatusLedStates::Error);
    assert!(!s.normal_led && !s.alert_led && s.error_led);
    // From Error, set_alert leaves the already-off Normal LED untouched.
    critical_section::with(|cs| s.set_alert(cs, None));
    assert_eq!(s.state, StatusLedStates::Alert);
    assert!(!s.normal_led && s.alert_led && !s.error_led);
}

#[test]
fn set_error_from_disabled_asserts_error_only() {
    let mut s = StatusLedMulti {
        state: StatusLedStates::Disabled,
        normal_led: false,
        alert_led: false,
        error_led: false,
    };
    critical_section::with(|cs| s.set_error(cs, None));
    assert_eq!(s.state, StatusLedStates::Error);
    assert!(!s.normal_led && !s.alert_led && s.error_led);
}

#[test]
fn detect_end_contact_rise_after_event() {
    let mut leds = normal_leds();
    let mut b = Buffers::with_capacity(8);
    for s in [200u8, 200, 30] {
        b.insert(s, &mut leds);
        b.detect_contact(&mut leds);
    }
    b.insert(20, &mut leds);
    b.detect_contact(&mut leds);
    assert_eq!(b.detection_event(0), Some((SampleCounter(4), 180)));
    // Still low: a rise of 5 over the event's reading (20) is below 100.
    b.insert(25, &mut leds);
    assert!(!b.detect_end_contact());
    // Recovered: 200 - 20 = 180 >= 100.
    b.insert(200, &mut leds);
    assert!(b.detect_end_contact());
}

#[test]
fn detect_end_contact_without_events_is_false() {
    let mut leds = normal_leds();
    let mut b = Buffers::with_capacity(8);
    assert!(!b.detect_end_contact());
    b.insert(200, &mut leds);
    assert!(!b.detect_end_contact());
}

#[test]
fn detect_end_contact_event_past_horizon_is_false() {
    let mut leds = normal_leds();
    let mut b = Buffers::with_capacity(4);
    b.insert(200, &mut leds);
    b.add_detection_event();
    // Push the event's slot out of the store's horizon.
    for _ in 0..4 {
        b.insert(255, &mut leds);
    }
    assert!(!b.detect_end_contact());
}
