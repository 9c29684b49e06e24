use diotd::device::HardwareDeviceType;
use diotd::hardware::FullSensorData;
use diotd::measurement::Measurement;
use diotd::node_id::NodeId;
use diotd::store::{PeerData, RemotePeerDevice, Storage};

fn node(b: u8) -> NodeId {
    NodeId::from_bytes(vec![0, 36, 8, b])
}

fn peer(name: &str, devices: &[(&str, HardwareDeviceType)]) -> PeerData {
    PeerData {
        name: name.to_string(),
        devices: devices.iter().map(|(n, t)| (n.to_string(), RemotePeerDevice { device_type: *t })).collect(),
    }
}

fn event(device: &str, name: &str, value: Measurement) -> FullSensorData {
    FullSensorData { device: device.to_string(), sensor_name: name.to_string(), value }
}

fn s(x: &str) -> String {
    x.to_string()
}

#[test]
fn new_store_knows_local_peer() {
    let store = Storage::new(node(1), peer("me", &[("clk", HardwareDeviceType::Timer)]));
    assert_eq!(store.local_peer_id().bytes, vec![0, 36, 8, 1]);
    assert_eq!(store.peer_name(&node(1)), Some(s("me")));
    assert_eq!(store.peer_name(&node(2)), None);
    assert_eq!(store.full_system_state().peers.len(), 1);
}

#[test]
fn sensor_values_are_recorded_for_declared_devices() {
    let mut store = Storage::new(node(1), peer("me", &[("clk", HardwareDeviceType::Timer)]));
    assert_eq!(store.insert_sensor_data(&node(1), event("clk", "tick", Measurement::Signal)), Some(()));
    assert!(matches!(store.sensor_data(&node(1), &s("clk"), &s("tick")), Some(Measurement::Signal)));
    assert_eq!(store.insert_sensor_data(&node(1), event("clk", "n", Measurement::Integer(1))), Some(()));
    assert_eq!(store.insert_sensor_data(&node(1), event("clk", "n", Measurement::Integer(2))), Some(()));
    assert!(matches!(store.sensor_data(&node(1), &s("clk"), &s("n")), Some(Measurement::Integer(2))));
    assert!(store.sensor_data(&node(1), &s("clk"), &s("other")).is_none());
}

#[test]
fn orphan_events_are_dropped() {
    let mut store = Storage::new(node(1), peer("me", &[("clk", HardwareDeviceType::Timer)]));
    assert_eq!(store.insert_sensor_data(&node(9), event("clk", "tick", Measurement::Signal)), None);
    assert_eq!(store.insert_sensor_data(&node(1), event("ghost", "tick", Measurement::Signal)), None);
    assert!(store.sensor_data(&node(9), &s("clk"), &s("tick")).is_none());
    assert!(store.sensor_data(&node(1), &s("ghost"), &s("tick")).is_none());
    assert_eq!(store.full_system_state().peers.len(), 1);
}

#[test]
fn identity_replaces_what_was_known() {
    let mut store = Storage::new(node(1), peer("me", &[]));
    store.insert_peer_data(&node(2), peer("b", &[("temp", HardwareDeviceType::Dht11)]));
    assert_eq!(store.insert_sensor_data(&node(2), event("temp", "temperature", Measurement::Integer(3))), Some(()));
    store.insert_peer_data(&node(2), peer("b2", &[("temp", HardwareDeviceType::Dht11)]));
    assert_eq!(store.peer_name(&node(2)), Some(s("b2")));
    assert!(store.sensor_data(&node(2), &s("temp"), &s("temperature")).is_none());
    assert_eq!(store.full_system_state().peers.len(), 2);
}

#[test]
fn node_ids_print_in_base58() {
    assert_eq!(NodeId::from_bytes(vec![0, 1]).to_base58(), "12");
    assert_eq!(NodeId::from_bytes(vec![]).to_base58(), "");
    assert_eq!(NodeId::from_bytes(vec![0xff]).to_base58(), "5Q");
    assert!(node(3).same_as(&node(3)));
    assert!(!node(3).same_as(&node(4)));
    assert!(!node(3).same_as(&NodeId::from_bytes(vec![0, 36])));
}

#[test]
fn duplicate_delivery_changes_nothing() {
    let mut store = Storage::new(node(1), peer("me", &[("clk", HardwareDeviceType::Timer)]));
    assert_eq!(store.insert_sensor_data(&node(1), event("clk", "n", Measurement::Integer(5))), Some(()));
    let peers_before = store.full_system_state().peers.len();
    let sensors_before = store.full_system_state().peers[0].1.devices[0].1.sensors.len();
    assert_eq!(store.insert_sensor_data(&node(1), event("clk", "n", Measurement::Integer(5))), Some(()));
    assert_eq!(store.full_system_state().peers.len(), peers_before);
    assert_eq!(store.full_system_state().peers[0].1.devices[0].1.sensors.len(), sensors_before);
    assert!(matches!(store.sensor_data(&node(1), &s("clk"), &s("n")), Some(Measurement::Integer(5))));
}

#[test]
fn repeated_device_names_resolve_to_the_last() {
    let mut store = Storage::new(node(1), peer("me", &[]));
    store.insert_peer_data(
        &node(2),
        peer("b", &[("temp", HardwareDeviceType::Timer), ("temp", HardwareDeviceType::Dht11)]),
    );
    assert_eq!(store.insert_sensor_data(&node(2), event("temp", "t", Measurement::Integer(1))), Some(()));
    let b = &store.full_system_state().peers[1].1;
    assert_eq!(b.devices[1].1.device_type, HardwareDeviceType::Dht11);
    assert_eq!(b.devices[1].1.sensors.len(), 1);
    assert!(b.devices[0].1.sensors.is_empty());
}
