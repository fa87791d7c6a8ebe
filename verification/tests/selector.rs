use ble_gateway::contract::CONTROLLER_SERVICE_ID;
use ble_gateway::selector::{select_device, DeviceProperties, DiscoveredDevice};

const OTHER_SERVICE: u128 = 0x0000180f_0000_1000_8000_00805f9b34fb;

fn device(address: u64, rssi: i16, services: Vec<u128>) -> DiscoveredDevice {
    DiscoveredDevice {
        address,
        properties: Some(DeviceProperties { local_name: None, rssi: Some(rssi), services }),
    }
}

fn unreadable(address: u64) -> DiscoveredDevice {
    DiscoveredDevice { address, properties: None }
}

#[test]
fn picks_the_device_with_the_target_service_over_a_stronger_one() {
    let a = device(0xa, -60, vec![CONTROLLER_SERVICE_ID]);
    let b = device(0xb, -30, vec![OTHER_SERVICE]);
    assert_eq!(select_device(&vec![a.clone(), b.clone()], CONTROLLER_SERVICE_ID), Some(0));
    assert_eq!(select_device(&vec![b, a], CONTROLLER_SERVICE_ID), Some(1));
}

#[test]
fn picks_the_first_of_two_matches_whatever_their_signal() {
    let weak = device(1, -90, vec![CONTROLLER_SERVICE_ID]);
    let strong = device(2, -20, vec![CONTROLLER_SERVICE_ID]);
    assert_eq!(select_device(&vec![weak.clone(), strong.clone()], CONTROLLER_SERVICE_ID), Some(0));
    assert_eq!(select_device(&vec![strong, weak], CONTROLLER_SERVICE_ID), Some(0));
}

#[test]
fn finds_nothing_in_an_empty_pass() {
    assert_eq!(select_device(&Vec::new(), CONTROLLER_SERVICE_ID), None);
}

#[test]
fn finds_nothing_where_no_device_matches() {
    let devices = vec![device(1, -40, vec![OTHER_SERVICE]), device(2, -50, Vec::new())];
    assert_eq!(select_device(&devices, CONTROLLER_SERVICE_ID), None);
}

#[test]
fn passes_over_a_device_whose_properties_cannot_be_read() {
    let devices = vec![
        unreadable(1),
        device(2, -70, vec![OTHER_SERVICE, CONTROLLER_SERVICE_ID]),
        device(3, -10, vec![CONTROLLER_SERVICE_ID]),
    ];
    assert_eq!(select_device(&devices, CONTROLLER_SERVICE_ID), Some(1));
    assert_eq!(select_device(&vec![unreadable(1), unreadable(2)], CONTROLLER_SERVICE_ID), None);
}

#[test]
fn has_service_looks_at_every_advertised_service() {
    let d = device(1, 0, vec![OTHER_SERVICE, 7, CONTROLLER_SERVICE_ID]);
    assert!(d.has_service(CONTROLLER_SERVICE_ID));
    assert!(d.has_service(7));
    assert!(!d.has_service(8));
    assert!(!unreadable(1).has_service(CONTROLLER_SERVICE_ID));
}

#[test]
fn selects_by_the_target_it_is_given() {
    let devices = vec![device(1, -40, vec![OTHER_SERVICE]), device(2, -50, vec![CONTROLLER_SERVICE_ID])];
    assert_eq!(select_device(&devices, OTHER_SERVICE), Some(0));
    assert_eq!(select_device(&devices, CONTROLLER_SERVICE_ID), Some(1));
}
