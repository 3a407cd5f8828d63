use ble_link::config::{characteristic_id, CHARACTERISTIC_UUID, DEVICE_NAME};
use ble_link::error::PipelineError;
use ble_link::lifecycle::{Action, Event, Phase, Pipeline, Status};
use ble_link::matching::{locate_adapter, select_characteristic, select_peripheral};
use ble_link::notification::{notifications_from_frames, BleNotification};
use ble_link::state::BleState;

const CHAR_ID: u128 = 0xbeb5483e_36e1_4688_b7f5_ea07361b26a8;

fn statuses(actions: &[Action]) -> Vec<Status> {
    actions
        .iter()
        .filter_map(|a| match a {
            Action::Announce(s) => Some(*s),
            _ => None,
        })
        .collect()
}

fn pipeline() -> Pipeline {
    Pipeline::configured().expect("configured identifier parses")
}

#[test]
fn configured_identifier_parses_to_its_value() {
    assert_eq!(characteristic_id(CHARACTERISTIC_UUID), Ok(CHAR_ID));
    let p = pipeline();
    assert_eq!(p.char_id, CHAR_ID);
    assert_eq!(p.target_name, DEVICE_NAME);
    assert_eq!(p.phase(), Phase::Idle);
}

#[test]
fn malformed_identifier_is_refused() {
    assert_eq!(characteristic_id("not-an-id"), Err(PipelineError::InvalidIdentifier));
    assert_eq!(characteristic_id(""), Err(PipelineError::InvalidIdentifier));
}

#[test]
fn end_to_end_reaches_listening_and_delivers_frame() {
    let mut p = pipeline();
    let mut all = Vec::new();
    all.extend(p.step(Event::Start));
    all.extend(p.step(Event::AdaptersListed(1)));
    all.extend(p.step(Event::ScanStarted));
    let listed = p.step(Event::PeripheralsListed(vec![Some("ValentineScanner-42".to_string())]));
    assert!(matches!(listed[2], Action::Connect(0)));
    all.extend(listed);
    assert_eq!(p.phase(), Phase::Connecting);
    let connected = p.step(Event::Connected);
    assert!(matches!(connected[0], Action::RecordDevice(id) if id == CHAR_ID));
    all.extend(connected);
    all.extend(p.step(Event::ServicesDiscovered));
    let chars = p.step(Event::CharacteristicsListed(vec![CHAR_ID]));
    assert!(matches!(chars[1], Action::Subscribe(0)));
    all.extend(chars);
    all.extend(p.step(Event::Subscribed));
    assert_eq!(p.phase(), Phase::Listening);
    assert_eq!(
        statuses(&all),
        vec![Status::Scanning, Status::DeviceFound, Status::Connected, Status::Subscribed]
    );

    let out = p.step(Event::Frame(vec![0x48, 0x69]));
    assert_eq!(out.len(), 2);
    match &out[0] {
        Action::Deliver(n) => {
            assert_eq!(n.data, vec![0x48, 0x69]);
            assert_eq!(n.data_string, "Hi");
        }
        other => panic!("unexpected action {:?}", other),
    }
    assert!(matches!(out[1], Action::ReceiveNext));
    assert_eq!(p.phase(), Phase::Listening);
}

#[test]
fn no_adapter_tears_down_without_status() {
    let mut p = pipeline();
    let mut all = p.step(Event::Start);
    let out = p.step(Event::AdaptersListed(0));
    assert!(matches!(out.as_slice(), [Action::Report(PipelineError::NoAdapterFound)]));
    all.extend(out);
    assert!(statuses(&all).is_empty());
    assert_eq!(p.phase(), Phase::TornDown);
}

#[test]
fn no_matching_peripheral_stops_scan() {
    let mut p = pipeline();
    let mut all = p.step(Event::Start);
    all.extend(p.step(Event::AdaptersListed(1)));
    all.extend(p.step(Event::ScanStarted));
    let out = p.step(Event::PeripheralsListed(vec![
        Some("Thermometer".to_string()),
        None,
        Some("valentinescanner".to_string()),
    ]));
    assert!(matches!(
        out.as_slice(),
        [Action::StopScan, Action::Report(PipelineError::DeviceNotFound)]
    ));
    all.extend(out);
    assert_eq!(statuses(&all), vec![Status::Scanning]);
    assert_eq!(p.phase(), Phase::TornDown);
}

#[test]
fn missing_characteristic_issues_no_subscribe() {
    let mut p = pipeline();
    p.step(Event::Start);
    p.step(Event::AdaptersListed(1));
    p.step(Event::ScanStarted);
    p.step(Event::PeripheralsListed(vec![Some("ValentineScanner".to_string())]));
    p.step(Event::Connected);
    p.step(Event::ServicesDiscovered);
    let out = p.step(Event::CharacteristicsListed(vec![1, 2, 3]));
    assert!(matches!(out.as_slice(), [Action::Report(PipelineError::CharacteristicNotFound)]));
    assert!(!out.iter().any(|a| matches!(a, Action::Subscribe(_))));
    assert_eq!(p.phase(), Phase::TornDown);
}

#[test]
fn failed_steps_report_their_stage() {
    let mut p = pipeline();
    p.step(Event::Start);
    assert!(matches!(p.step(Event::StepFailed).as_slice(), [Action::Report(PipelineError::Transport)]));

    let mut p = pipeline();
    p.step(Event::Start);
    p.step(Event::AdaptersListed(1));
    p.step(Event::PeripheralsListed(vec![Some("ValentineScanner".to_string())]));
    assert!(matches!(p.step(Event::StepFailed).as_slice(), [Action::Report(PipelineError::ConnectError)]));

    let mut p = pipeline();
    p.step(Event::Start);
    p.step(Event::AdaptersListed(1));
    p.step(Event::PeripheralsListed(vec![Some("ValentineScanner".to_string())]));
    p.step(Event::Connected);
    assert!(matches!(p.step(Event::StepFailed).as_slice(), [Action::Report(PipelineError::DiscoveryError)]));
    assert_eq!(p.phase(), Phase::TornDown);

    let mut p = pipeline();
    p.step(Event::Start);
    p.step(Event::AdaptersListed(1));
    p.step(Event::PeripheralsListed(vec![Some("ValentineScanner".to_string())]));
    p.step(Event::Connected);
    p.step(Event::ServicesDiscovered);
    p.step(Event::CharacteristicsListed(vec![CHAR_ID]));
    assert!(matches!(p.step(Event::StepFailed).as_slice(), [Action::Report(PipelineError::SubscribeError)]));
}

#[test]
fn stream_end_and_transport_error_finish_quietly() {
    for last in [Event::StreamEnded, Event::StepFailed] {
        let mut p = pipeline();
        p.step(Event::Start);
        p.step(Event::AdaptersListed(1));
        p.step(Event::PeripheralsListed(vec![Some("ValentineScanner".to_string())]));
        p.step(Event::Connected);
        p.step(Event::ServicesDiscovered);
        p.step(Event::CharacteristicsListed(vec![CHAR_ID]));
        p.step(Event::Subscribed);
        assert!(matches!(p.step(last).as_slice(), [Action::Finish]));
        assert_eq!(p.phase(), Phase::TornDown);
    }
}

#[test]
fn shutdown_ends_any_stage_and_later_events_are_ignored() {
    let mut p = pipeline();
    p.step(Event::Start);
    p.step(Event::AdaptersListed(1));
    assert!(p.step(Event::Shutdown).is_empty());
    assert_eq!(p.phase(), Phase::TornDown);
    assert!(p.step(Event::ScanStarted).is_empty());
    assert!(p.step(Event::Start).is_empty());
    assert_eq!(p.phase(), Phase::TornDown);
}

#[test]
fn events_out_of_stage_change_nothing() {
    let mut p = pipeline();
    assert!(p.step(Event::Connected).is_empty());
    assert!(p.step(Event::Frame(vec![1])).is_empty());
    assert_eq!(p.phase(), Phase::Idle);
}

#[test]
fn status_lines() {
    assert_eq!(Status::Scanning.text(), "Scanning for device...");
    assert_eq!(Status::DeviceFound.text(), "Device found! Connecting...");
    assert_eq!(Status::Connected.text(), "Connected! Discovering services...");
    assert_eq!(Status::Subscribed.text(), "Subscribed to notifications!");
}

#[test]
fn first_adapter_is_chosen() {
    assert_eq!(locate_adapter(0), Err(PipelineError::NoAdapterFound));
    assert_eq!(locate_adapter(1), Ok(0));
    assert_eq!(locate_adapter(5), Ok(0));
}

#[test]
fn scanner_takes_first_match_in_order() {
    let names = vec![
        None,
        Some("Other".to_string()),
        Some("xValentineScanner-1".to_string()),
        Some("ValentineScanner-2".to_string()),
    ];
    assert_eq!(select_peripheral(&names, DEVICE_NAME), Ok(2));
    assert_eq!(select_peripheral(&names, "Other"), Ok(1));
    assert_eq!(select_peripheral(&names, "missing"), Err(PipelineError::DeviceNotFound));
    assert_eq!(select_peripheral(&Vec::new(), DEVICE_NAME), Err(PipelineError::DeviceNotFound));
    assert_eq!(select_peripheral(&names, "valentine"), Err(PipelineError::DeviceNotFound));
    assert_eq!(select_peripheral(&names, ""), Ok(1));
}

#[test]
fn characteristic_lookup_is_exact_and_first() {
    assert_eq!(select_characteristic(&vec![5, CHAR_ID, CHAR_ID], CHAR_ID), Ok(1));
    assert_eq!(select_characteristic(&vec![], CHAR_ID), Err(PipelineError::CharacteristicNotFound));
    assert_eq!(select_characteristic(&vec![CHAR_ID + 1], CHAR_ID), Err(PipelineError::CharacteristicNotFound));
}

#[test]
fn notifications_keep_order_and_bytes() {
    let frames = vec![vec![0x48, 0x69], vec![], vec![0x61, 0xff, 0x62], vec![0xe2, 0x82, 0xac]];
    let out = notifications_from_frames(frames.clone());
    assert_eq!(out.len(), frames.len());
    for (n, f) in out.iter().zip(frames.iter()) {
        assert_eq!(&n.data, f);
    }
    assert_eq!(out[0].data_string, "Hi");
    assert_eq!(out[1].data_string, "");
    assert_eq!(out[2].data_string, "a\u{FFFD}b");
    assert_eq!(out[3].data_string, "\u{20AC}");
}

#[test]
fn invalid_bytes_are_replaced_not_dropped() {
    let n = BleNotification::from_frame(vec![0xff, 0xfe]);
    assert_eq!(n.data, vec![0xff, 0xfe]);
    assert_eq!(n.data_string, "\u{FFFD}\u{FFFD}");
}

#[test]
fn teardown_twice_releases_once() {
    let mut s: BleState<&str, &str> = BleState::new();
    s.record_adapter("hci0");
    s.record_device("dev", CHAR_ID);
    let first = s.take_teardown();
    assert_eq!(first.unsubscribe, Some(CHAR_ID));
    assert_eq!(first.disconnect, Some("dev"));
    assert_eq!(first.stop_scan, Some("hci0"));
    assert!(!first.is_nothing());
    let second = s.take_teardown();
    assert!(second.is_nothing());
}

#[test]
fn teardown_of_empty_state_is_nothing() {
    let mut s: BleState<u8, u8> = BleState::new();
    assert!(s.take_teardown().is_nothing());
    assert!(s.take_teardown().is_nothing());
}

#[test]
fn teardown_mid_scan_stops_scan() {
    let mut s: BleState<&str, &str> = BleState::new();
    s.record_adapter("hci0");
    let t = s.take_teardown();
    assert_eq!(t.stop_scan, Some("hci0"));
    assert_eq!(t.disconnect, None);
    assert_eq!(t.unsubscribe, None);
}
