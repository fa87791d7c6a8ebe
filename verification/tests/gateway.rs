use ble_gateway::contract::{CONTROLLER_SERVICE_ID, KEYBOARD_DISPLAY_ID};
use ble_gateway::dispatch::{send_message, WriteOutcome};
use ble_gateway::gateway::{Gateway, Link, Liveness, TickAction, Verdict};
use ble_gateway::handle::DeviceHandle;
use ble_gateway::http::{send_message_handler, Accepted, Rejection};
use ble_gateway::lifecycle::{Action, Event, Phase, ScanMode};
use ble_gateway::selector::{DeviceProperties, DiscoveredDevice};
use ble_gateway::status::Status;
use std::cell::RefCell;
use std::rc::Rc;

/// A peripheral that records what is written to it.
#[derive(Clone, Debug, PartialEq)]
struct Mock {
    name: &'static str,
    characteristics: Vec<u128>,
    fails: bool,
    written: Rc<RefCell<Vec<(u128, Vec<u8>)>>>,
}

impl Mock {
    fn new(name: &'static str, characteristics: Vec<u128>) -> Mock {
        Mock { name, characteristics, fails: false, written: Rc::new(RefCell::new(Vec::new())) }
    }

    fn write(&self, characteristic: usize, payload: &[u8]) -> Result<(), String> {
        if self.fails {
            return Err("write failed".to_string());
        }
        self.written.borrow_mut().push((self.characteristics[characteristic], payload.to_vec()));
        Ok(())
    }
}

/// Serves one request the way a handler does: look for the connection,
/// deliver over it, answer.
fn serve(gateway: &Gateway<Mock>, message: &str) -> Result<Accepted, Rejection> {
    let delivery = match gateway.connection() {
        None => None,
        Some(peripheral) => {
            Some(match send_message(&peripheral.characteristics, KEYBOARD_DISPLAY_ID, message) {
                None => WriteOutcome::CharacteristicNotFound,
                Some(command) => match peripheral.write(command.characteristic, &command.payload) {
                    Ok(()) => WriteOutcome::Written,
                    Err(text) => WriteOutcome::TransportError(text),
                },
            })
        }
    };
    gateway.send_to_peripheral(delivery, message)
}

fn advertisement() -> Vec<DiscoveredDevice> {
    vec![DiscoveredDevice {
        address: 0x0000_a1b2_c3d4_e5f6,
        properties: Some(DeviceProperties {
            local_name: None,
            rssi: None,
            services: vec![CONTROLLER_SERVICE_ID],
        }),
    }]
}

/// Drives the running acquisition against `peripheral` until it is
/// published, and gives back the actions it took.
fn acquire(gateway: &mut Gateway<Mock>, peripheral: &Mock) -> Vec<Action> {
    let mut actions = Vec::new();
    let mut action = gateway.advance(Event::Begin);
    loop {
        actions.push(action);
        let event = match action {
            Action::ListDiscovered => Event::Discovered(advertisement()),
            Action::ListCharacteristics { .. } => {
                Event::Characteristics(peripheral.characteristics.clone())
            }
            Action::WriteGreeting { characteristic, .. } => {
                match peripheral.write(characteristic, ble_gateway::contract::greeting().as_bytes()) {
                    Ok(()) => Event::Done,
                    Err(_) => Event::Failed,
                }
            }
            Action::Publish { .. } => {
                assert_eq!(gateway.publish(peripheral.clone()), None);
                return actions;
            }
            Action::Rest => panic!("the acquisition came to rest before it published"),
            _ => Event::Done,
        };
        action = gateway.advance(event);
    }
}

fn connected(peripheral: &Mock) -> Gateway<Mock> {
    let mut gateway = Gateway::new();
    acquire(&mut gateway, peripheral);
    gateway
}

#[test]
fn a_handle_holds_what_was_installed_last() {
    let mut handle: DeviceHandle<&str> = DeviceHandle::new();
    assert!(!handle.is_present());
    assert_eq!(handle.connection(), None);
    handle.install("first");
    assert!(handle.is_present());
    assert_eq!(handle.connection(), Some(&"first"));
    handle.install("second");
    assert_eq!(handle.connection(), Some(&"second"));
    handle.clear();
    assert!(!handle.is_present());
    assert_eq!(handle.connection(), None);
    handle.clear();
    assert_eq!(handle.connection(), None);
}

#[test]
fn a_new_gateway_has_no_connection_and_has_not_begun() {
    let gateway: Gateway<Mock> = Gateway::new();
    assert_eq!(gateway.connection(), None);
    assert_eq!(gateway.link(), Link::Acquiring { mode: ScanMode::Filtered, phase: Phase::Idle });
    assert_eq!(gateway.tick(), TickAction::Skip);
}

#[test]
fn start_up_scans_with_the_filter_and_greets() {
    let peripheral = Mock::new("keys", vec![3, KEYBOARD_DISPLAY_ID]);
    let mut gateway = Gateway::new();
    let actions = acquire(&mut gateway, &peripheral);
    assert_eq!(actions[0], Action::StartScan { filter: Some(CONTROLLER_SERVICE_ID) });
    assert_eq!(actions.last(), Some(&Action::Publish { device: 0 }));
    assert_eq!(gateway.link(), Link::Watching);
    assert_eq!(gateway.connection(), Some(&peripheral));
    assert_eq!(*peripheral.written.borrow(), vec![(KEYBOARD_DISPLAY_ID, b"Connected".to_vec())]);
}

#[test]
fn nothing_is_published_before_the_acquisition_is_ready() {
    let peripheral = Mock::new("keys", vec![KEYBOARD_DISPLAY_ID]);
    let mut gateway = Gateway::new();
    assert_eq!(gateway.publish(peripheral.clone()), Some(peripheral.clone()));
    assert_eq!(gateway.connection(), None);
    gateway.advance(Event::Begin);
    gateway.advance(Event::Done);
    assert_eq!(gateway.publish(peripheral.clone()), Some(peripheral.clone()));
    assert_eq!(gateway.connection(), None);
    assert_eq!(gateway.link(), Link::Acquiring { mode: ScanMode::Filtered, phase: Phase::Collecting });
}

#[test]
fn there_is_never_more_than_one_connection() {
    let first = Mock::new("first", vec![KEYBOARD_DISPLAY_ID]);
    let second = Mock::new("second", vec![KEYBOARD_DISPLAY_ID]);
    let mut gateway = connected(&first);
    assert_eq!(gateway.publish(second.clone()), Some(second.clone()));
    assert_eq!(gateway.connection(), Some(&first));
    assert_eq!(gateway.advance(Event::Begin), Action::Rest);
    assert_eq!(gateway.link(), Link::Watching);
    assert_eq!(gateway.observe(Liveness::Disconnected), Verdict::Lost);
    assert_eq!(gateway.connection(), None);
    acquire(&mut gateway, &second);
    assert_eq!(gateway.connection(), Some(&second));
}

#[test]
fn a_live_connection_is_polled_and_kept() {
    let peripheral = Mock::new("keys", vec![KEYBOARD_DISPLAY_ID]);
    let mut gateway = connected(&peripheral);
    assert_eq!(gateway.tick(), TickAction::QueryLiveness);
    assert_eq!(gateway.observe(Liveness::Connected), Verdict::Healthy);
    assert_eq!(gateway.link(), Link::Watching);
    assert_eq!(gateway.connection(), Some(&peripheral));
    assert_eq!(gateway.tick(), TickAction::QueryLiveness);
}

#[test]
fn a_loss_empties_the_handle_before_the_reconnection_begins() {
    let peripheral = Mock::new("keys", vec![KEYBOARD_DISPLAY_ID]);
    let mut gateway = connected(&peripheral);
    assert!(serve(&gateway, "before").is_ok());
    assert_eq!(gateway.observe(Liveness::Disconnected), Verdict::Lost);
    assert_eq!(gateway.connection(), None);
    assert_eq!(gateway.link(), Link::Acquiring { mode: ScanMode::Unfiltered, phase: Phase::Idle });
    let written = peripheral.written.borrow().len();
    assert_eq!(
        serve(&gateway, "after"),
        Err(Rejection { code: 503, text: "No BLE device connected".to_string() })
    );
    assert_eq!(peripheral.written.borrow().len(), written);
    assert_eq!(gateway.advance(Event::Begin), Action::StartScan { filter: None });
    assert_eq!(gateway.connection(), None);
}

#[test]
fn a_failed_liveness_query_counts_as_a_loss() {
    let peripheral = Mock::new("keys", vec![KEYBOARD_DISPLAY_ID]);
    let mut gateway = connected(&peripheral);
    assert_eq!(gateway.observe(Liveness::Unknown), Verdict::Lost);
    assert_eq!(gateway.connection(), None);
}

#[test]
fn polling_pauses_while_the_gateway_reconnects() {
    let peripheral = Mock::new("keys", vec![KEYBOARD_DISPLAY_ID]);
    let mut gateway = connected(&peripheral);
    gateway.observe(Liveness::Disconnected);
    assert_eq!(gateway.tick(), TickAction::Skip);
    assert_eq!(gateway.observe(Liveness::Disconnected), Verdict::Ignored);
    assert_eq!(gateway.observe(Liveness::Connected), Verdict::Ignored);
    gateway.advance(Event::Begin);
    gateway.advance(Event::Done);
    assert_eq!(gateway.tick(), TickAction::Skip);
    assert_eq!(gateway.link(), Link::Acquiring { mode: ScanMode::Unfiltered, phase: Phase::Collecting });
    assert_eq!(
        gateway.send_to_peripheral(Some(WriteOutcome::Written), "stale"),
        Err(Rejection { code: 503, text: "No BLE device connected".to_string() })
    );
}

#[test]
fn a_reconnection_brings_the_requests_back() {
    let old = Mock::new("old", vec![KEYBOARD_DISPLAY_ID]);
    let new = Mock::new("new", vec![8, KEYBOARD_DISPLAY_ID]);
    let mut gateway = connected(&old);
    gateway.observe(Liveness::Disconnected);
    let actions = acquire(&mut gateway, &new);
    assert_eq!(actions[0], Action::StartScan { filter: None });
    assert_eq!(gateway.link(), Link::Watching);
    assert_eq!(gateway.tick(), TickAction::QueryLiveness);
    assert_eq!(
        serve(&gateway, "again"),
        Ok(Accepted { status: "ok".to_string(), message: "again".to_string() })
    );
    assert_eq!(new.written.borrow().last(), Some(&(KEYBOARD_DISPLAY_ID, b"again".to_vec())));
    assert_eq!(*old.written.borrow(), vec![(KEYBOARD_DISPLAY_ID, b"Connected".to_vec())]);
}

#[test]
fn a_status_sent_to_an_empty_handle_is_answered_as_unavailable() {
    let gateway: Gateway<Mock> = Gateway::new();
    let status = Status::from_token("working").unwrap();
    assert_eq!(
        serve(&gateway, status.message()),
        Err(Rejection { code: 503, text: "No BLE device connected".to_string() })
    );
}

#[test]
fn a_message_to_a_device_without_the_characteristic_is_answered_as_sent() {
    let peripheral = Mock::new("bare", vec![1, 2]);
    let gateway = connected(&peripheral);
    assert_eq!(
        serve(&gateway, "hi"),
        Ok(Accepted { status: "ok".to_string(), message: "hi".to_string() })
    );
    assert!(peripheral.written.borrow().is_empty());
}

#[test]
fn a_failed_write_is_answered_with_the_error() {
    let mut peripheral = Mock::new("flaky", vec![KEYBOARD_DISPLAY_ID]);
    peripheral.fails = true;
    let gateway = connected(&peripheral);
    assert_eq!(serve(&gateway, "hi"), Err(Rejection { code: 500, text: "write failed".to_string() }));
    assert_eq!(gateway.link(), Link::Watching);
}

#[test]
fn identical_requests_are_written_one_by_one() {
    let peripheral = Mock::new("keys", vec![KEYBOARD_DISPLAY_ID]);
    let gateway = connected(&peripheral);
    peripheral.written.borrow_mut().clear();
    for _ in 0..7 {
        assert!(serve(&gateway, "hi").is_ok());
    }
    let expected: Vec<(u128, Vec<u8>)> = (0..7).map(|_| (KEYBOARD_DISPLAY_ID, b"hi".to_vec())).collect();
    assert_eq!(*peripheral.written.borrow(), expected);
}

#[test]
fn requests_behind_a_lock_are_written_whole_and_in_order() {
    let peripheral = Mock::new("keys", vec![KEYBOARD_DISPLAY_ID]);
    let shared = std::sync::Mutex::new(connected(&peripheral));
    peripheral.written.borrow_mut().clear();
    let messages = ["one", "two", send_message_handler(), "[stopped]"];
    for message in messages {
        let gateway = shared.lock().unwrap();
        assert!(serve(&gateway, message).is_ok());
    }
    let written: Vec<Vec<u8>> = peripheral.written.borrow().iter().map(|w| w.1.clone()).collect();
    assert_eq!(
        written,
        vec![
            b"one".to_vec(),
            b"two".to_vec(),
            b"Hello from HTTP GET!".to_vec(),
            b"[stopped]".to_vec()
        ]
    );
}
