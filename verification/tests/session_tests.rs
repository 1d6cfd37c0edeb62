//! Tests of the handshake state machine, the key-read timing decisions and
//! the device-discovery decisions.

use roccat_vulcan_api_rs::CONTROL_READINESS_PROBE;
use roccat_vulcan_api_rs::ControlerFeatureKind;
use roccat_vulcan_api_rs::ErrorRoccatVulcanApi;
use roccat_vulcan_api_rs::Handshake;
use roccat_vulcan_api_rs::HandshakeAction;
use roccat_vulcan_api_rs::HidDeviceInfo;
use roccat_vulcan_api_rs::HidInterfaceFilter;
use roccat_vulcan_api_rs::KeyCode;
use roccat_vulcan_api_rs::KeyPress;
use roccat_vulcan_api_rs::KeyboardIntrefacesFilter;
use roccat_vulcan_api_rs::MAX_READ_TIMEOUT_MILLIS;
use roccat_vulcan_api_rs::MAX_WAIT_NANOS;
use roccat_vulcan_api_rs::PROBE_BUFFER_LEN;
use roccat_vulcan_api_rs::check_read_duration;
use roccat_vulcan_api_rs::control_candidates;
use roccat_vulcan_api_rs::discovery_plan;
use roccat_vulcan_api_rs::feature_reports;
use roccat_vulcan_api_rs::find_interface;
use roccat_vulcan_api_rs::keyboard_present;
use roccat_vulcan_api_rs::probe_accepts;
use roccat_vulcan_api_rs::probe_request;
use roccat_vulcan_api_rs::push_key_event;
use roccat_vulcan_api_rs::read_step;

fn device(product_id: u16, interface_number: i32, usage_page: u16) -> HidDeviceInfo {
    HidDeviceInfo {
        product_id,
        interface_number,
        usage_page,
    }
}

/// The device list of one plugged-in Vulcan 100: read, control and LED
/// interfaces.
fn vulcan_100_devices() -> Vec<HidDeviceInfo> {
    vec![
        device(12_410, 1, 10),
        device(12_410, 1, 0),
        device(12_410, 3, 0),
    ]
}

#[test]
fn handshake_completes_when_probes_answer() {
    let mut handshake = Handshake::new(ControlerFeatureKind::Custom);
    let reports = feature_reports(ControlerFeatureKind::Custom);
    let mut sent: usize = 0;
    loop {
        match handshake.next_action() {
            HandshakeAction::SendReport(i) => {
                assert_eq!(i, sent);
                assert!(i < reports.len());
                sent += 1;
                assert_eq!(handshake.on_report_sent(true), Ok(()));
            }
            HandshakeAction::Probe => {
                assert_eq!(handshake.on_probe(Some(8), 1_000_000), Ok(()));
            }
            HandshakeAction::Done => break,
        }
    }
    assert!(handshake.is_ready());
    assert_eq!(sent, reports.len());
}

#[test]
fn handshake_failed_send_is_fatal() {
    let mut handshake = Handshake::new(ControlerFeatureKind::Rainbow);
    assert_eq!(
        handshake.on_report_sent(false),
        Err(ErrorRoccatVulcanApi::ControlDeviceError)
    );
}

/// A probe that never answers positively lets the handshake fail with
/// `WaitedToMuchTime` as soon as the budget is exceeded, never later.
#[test]
fn handshake_times_out_when_probe_never_answers() {
    let mut handshake = Handshake::new(ControlerFeatureKind::Custom);
    assert_eq!(handshake.on_report_sent(true), Ok(()));
    let mut elapsed: u128 = 0;
    loop {
        assert!(matches!(handshake.next_action(), HandshakeAction::Probe));
        let outcome = handshake.on_probe(Some(0), elapsed);
        if elapsed > MAX_WAIT_NANOS {
            assert_eq!(
                outcome,
                Err(ErrorRoccatVulcanApi::WaitedToMuchTime(elapsed))
            );
            break;
        }
        assert_eq!(outcome, Ok(()));
        elapsed += 30_000_000;
    }
    assert!(!handshake.is_ready());

    let mut failed_call = Handshake::new(ControlerFeatureKind::Custom);
    assert_eq!(failed_call.on_report_sent(true), Ok(()));
    assert_eq!(
        failed_call.on_probe(None, MAX_WAIT_NANOS + 1),
        Err(ErrorRoccatVulcanApi::WaitedToMuchTime(MAX_WAIT_NANOS + 1))
    );
}

#[test]
fn probe_request_shape() {
    let request = probe_request(CONTROL_READINESS_PROBE);
    assert_eq!(request.len(), PROBE_BUFFER_LEN);
    assert_eq!(request[0], CONTROL_READINESS_PROBE);
    for byte in request.iter().skip(1) {
        assert_eq!(*byte, 0);
    }
}

#[test]
fn probe_acceptance_requires_positive_count() {
    assert!(probe_accepts(Some(1)));
    assert!(probe_accepts(Some(255)));
    assert!(!probe_accepts(Some(0)));
    assert!(!probe_accepts(None));
}

#[test]
fn read_duration_validation() {
    assert_eq!(check_read_duration(0), Ok(()));
    assert_eq!(check_read_duration(MAX_READ_TIMEOUT_MILLIS), Ok(()));
    assert_eq!(
        check_read_duration(MAX_READ_TIMEOUT_MILLIS + 1),
        Err(ErrorRoccatVulcanApi::InvalidInput)
    );
}

/// A zero duration never asks for a read; otherwise the next timeout is the
/// remaining budget.
#[test]
fn read_step_timing() {
    assert_eq!(read_step(0, 0), None);
    assert_eq!(read_step(0, 12_345), None);
    assert_eq!(read_step(100, 0), Some(100));
    assert_eq!(read_step(100, 40), Some(60));
    assert_eq!(read_step(100, 100), None);
    assert_eq!(read_step(100, 140), None);
}

#[test]
fn key_events_accumulate_only_on_real_reports() {
    let mut events: Vec<KeyPress> = Vec::new();
    push_key_event(&mut events, [0, 0, 0, 0, 0]);
    assert!(events.is_empty());
    push_key_event(&mut events, [0, 0, 5, 33, 1]);
    push_key_event(&mut events, [0, 0, 10, 57, 0]);
    assert_eq!(events.len(), 2);
    assert_eq!(*events[0].key_code(), KeyCode::new(5, 33));
    assert!(events[0].is_pressed());
    assert_eq!(*events[1].key_code(), KeyCode::new(10, 57));
    assert!(events[1].is_pressed());
}

#[test]
fn discovery_finds_the_three_channels() {
    let devices = vulcan_100_devices();
    let interface = KeyboardIntrefacesFilter::vulcan_100();
    assert!(keyboard_present(&devices, &interface));
    let plan = discovery_plan(&devices, &interface).unwrap();
    assert_eq!(plan.read_index, 0);
    assert_eq!(plan.led_index, 2);
    assert_eq!(plan.control_candidates, vec![0, 1]);
}

#[test]
fn discovery_reports_each_missing_channel() {
    let interface = KeyboardIntrefacesFilter::vulcan_100();

    let none: Vec<HidDeviceInfo> = vec![device(1, 1, 0)];
    assert_eq!(
        discovery_plan(&none, &interface),
        Err(ErrorRoccatVulcanApi::KeyboardNotFound)
    );

    let no_read = vec![device(12_410, 1, 0), device(12_410, 3, 0)];
    assert_eq!(
        discovery_plan(&no_read, &interface),
        Err(ErrorRoccatVulcanApi::NoReadDevice)
    );

    let no_led = vec![device(12_410, 1, 10), device(12_410, 1, 0)];
    assert_eq!(
        discovery_plan(&no_led, &interface),
        Err(ErrorRoccatVulcanApi::NoLedDevice)
    );
}

#[test]
fn discovery_tries_models_in_order() {
    let vulcan_120 = vec![
        device(12_440, 1, 10),
        device(12_440, 1, 0),
        device(12_440, 3, 0),
    ];
    let models = KeyboardIntrefacesFilter::default_models();
    assert_eq!(
        discovery_plan(&vulcan_120, &models[0]),
        Err(ErrorRoccatVulcanApi::KeyboardNotFound)
    );
    let plan = discovery_plan(&vulcan_120, &models[1]).unwrap();
    assert_eq!(plan.read_index, 0);
}

#[test]
fn interface_filters_match_by_fields() {
    let filter = HidInterfaceFilter::new_with_usage_page(12_410, 1, 10);
    assert!(filter.match_filter(&device(12_410, 1, 10)));
    assert!(!filter.match_filter(&device(12_410, 1, 11)));
    assert!(!filter.match_filter(&device(12_410, 2, 10)));
    assert!(!filter.match_filter(&device(12_411, 1, 10)));
    let no_page = HidInterfaceFilter::new(12_410, 1);
    assert!(no_page.match_filter(&device(12_410, 1, 10)));
    assert!(no_page.match_filter(&device(12_410, 1, 0)));

    let devices = vulcan_100_devices();
    assert_eq!(find_interface(&devices, &no_page), Some(0));
    assert_eq!(find_interface(&devices, &HidInterfaceFilter::new(1, 1)), None);
    assert_eq!(control_candidates(&devices, &no_page), vec![0, 1]);
}
