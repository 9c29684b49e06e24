use diotd::actuation::{ActuationRequestData, ActuationResult, ActuatorValue};
use diotd::control::{Action, ConditionOp, Rule, UniversalSensorIdentifier};
use diotd::device::{BeepPlan, BeepTime, Buzzer, BuzzerConfig, HardwareDeviceType};
use diotd::hardware::{FullActuatorData, FullSensorData, HardwareSupervisor};
use diotd::measurement::Measurement;
use diotd::node_id::NodeId;
use diotd::store::{PeerData, RemotePeerDevice};
use diotd::system::{DiotdBroadcast, Dispatch, System, WebserverMessage};

fn node(b: u8) -> NodeId {
    NodeId::from_bytes(vec![0, 36, 8, b])
}

fn peer(name: &str, devices: &[(&str, HardwareDeviceType)]) -> PeerData {
    PeerData {
        name: name.to_string(),
        devices: devices.iter().map(|(n, t)| (n.to_string(), RemotePeerDevice { device_type: *t })).collect(),
    }
}

fn beep_action(node: Option<NodeId>) -> Action {
    Action {
        node,
        actuator: FullActuatorData { device: "buzzer".to_string(), actuator_name: "beep".to_string(), data: ActuatorValue::Signal },
    }
}

#[test]
fn remote_reading_triggers_local_buzzer() {
    // Node A holds the rule; node B reports a temperature.
    let rule = Rule {
        sensor: UniversalSensorIdentifier { node: Some(node(2)), device: "temp".to_string(), sensor_name: "temperature".to_string() },
        on: ConditionOp::GreaterThan { value: Measurement::Double(30.0f64.to_bits()) },
        action: beep_action(None),
    };
    let mut a = System::new(node(1), peer("a", &[("buzzer", HardwareDeviceType::Buzzer)]), vec![rule]);
    let b = System::new(node(2), peer("b", &[("temp", HardwareDeviceType::Dht11)]), Vec::new());

    let identity = match b.identity_broadcast() {
        DiotdBroadcast::Identity(d) => d,
        _ => panic!("identity expected"),
    };
    let web = a.handle_identity(&b.local_peer_id(), identity);
    assert!(matches!(web, WebserverMessage::PeerIdentity { ref data, .. } if data.name == "b"));

    let reading = FullSensorData {
        device: "temp".to_string(),
        sensor_name: "temperature".to_string(),
        value: Measurement::Double(31.2f64.to_bits()),
    };
    let effects = a.handle_remote_sensor_data(&node(2), &reading);
    assert!(matches!(effects.web, Some(WebserverMessage::SensorData { .. })));
    assert_eq!(effects.dispatches.len(), 1);
    let actuator = match &effects.dispatches[0] {
        Dispatch::Local(act) => act.clone(),
        other => panic!("local dispatch expected, got {:?}", other),
    };
    assert_eq!(actuator.device, "buzzer");

    let buzzer = Buzzer::init(BuzzerConfig { pin: 17 });
    let request: ActuationRequestData = actuator.into_local_data();
    let plan = buzzer.plan(&request);
    assert_eq!(plan, BeepPlan::Beep(BeepTime::Seconds(1)));
    assert_eq!(plan.outcome("<signal>"), ActuationResult::Success);
}

#[test]
fn reading_from_unknown_peer_is_dropped() {
    let rule = Rule {
        sensor: UniversalSensorIdentifier { node: Some(node(5)), device: "temp".to_string(), sensor_name: "t".to_string() },
        on: ConditionOp::Any,
        action: beep_action(None),
    };
    let mut a = System::new(node(1), peer("a", &[("buzzer", HardwareDeviceType::Buzzer)]), vec![rule]);
    let reading = FullSensorData { device: "temp".to_string(), sensor_name: "t".to_string(), value: Measurement::Integer(1) };
    let effects = a.handle_remote_sensor_data(&node(5), &reading);
    assert!(effects.web.is_none());
    assert!(effects.dispatches.is_empty());
    assert_eq!(a.storage().full_system_state().peers.len(), 1);
    assert!(a.storage().peer_name(&node(5)).is_none());
}

#[test]
fn local_tick_drives_logger_rule() {
    let rule = Rule {
        sensor: UniversalSensorIdentifier { node: None, device: "clk".to_string(), sensor_name: "tick".to_string() },
        on: ConditionOp::Any,
        action: Action {
            node: None,
            actuator: FullActuatorData { device: "log".to_string(), actuator_name: "hb".to_string(), data: ActuatorValue::Signal },
        },
    };
    let mut a = System::new(
        node(1),
        peer("a", &[("clk", HardwareDeviceType::Timer), ("log", HardwareDeviceType::Logger)]),
        vec![rule],
    );
    let tick = FullSensorData { device: "clk".to_string(), sensor_name: "tick".to_string(), value: Measurement::Signal };
    let effects = a.handle_local_sensor_data(&tick);
    match &effects.web {
        Some(WebserverMessage::SensorData { node: n, data }) => {
            assert_eq!(n, &node(1).to_base58());
            assert_eq!(data.sensor_name, "tick");
        },
        other => panic!("sensor push expected, got {:?}", other),
    }
    assert_eq!(effects.dispatches.len(), 1);
    assert!(matches!(&effects.dispatches[0], Dispatch::Local(act) if act.device == "log"));
    assert!(matches!(a.storage().sensor_data(&node(1), &"clk".to_string(), &"tick".to_string()), Some(Measurement::Signal)));
}

#[test]
fn actions_go_local_or_remote() {
    let a = System::new(node(1), peer("a", &[]), Vec::new());
    let actions = vec![beep_action(None), beep_action(Some(node(1))), beep_action(Some(node(2)))];
    let d = a.handle_actions(&actions);
    assert_eq!(d.len(), 3);
    assert!(matches!(d[0], Dispatch::Local(_)));
    assert!(matches!(d[1], Dispatch::Local(_)));
    assert!(matches!(&d[2], Dispatch::Remote { node: n, .. } if n.bytes == vec![0, 36, 8, 2]));
}

#[test]
fn unknown_local_device_is_not_routed() {
    let mut sup: HardwareSupervisor<&str> = HardwareSupervisor::new();
    sup.register("buzzer".to_string(), "buzzer-worker");
    assert!(sup.device(&"toaster".to_string()).is_none());
    assert_eq!(sup.device(&"buzzer".to_string()), Some(&"buzzer-worker"));
}

#[test]
fn sender_names_and_broadcasts() {
    let mut a = System::new(node(1), peer("a", &[]), Vec::new());
    assert_eq!(a.sender_name(&node(1)), "a");
    let unknown = NodeId::from_bytes(vec![0, 1]);
    assert_eq!(a.sender_name(&unknown), "<unregistered peer 12>");
    let effects = a.handle_broadcast(&unknown, DiotdBroadcast::Identity(peer("z", &[("temp", HardwareDeviceType::Dht11)])));
    assert!(matches!(effects.web, Some(WebserverMessage::PeerIdentity { ref node, .. }) if node == "12"));
    assert!(effects.dispatches.is_empty());
    assert_eq!(a.sender_name(&unknown), "z");
    let reading = FullSensorData { device: "temp".to_string(), sensor_name: "t".to_string(), value: Measurement::Integer(4) };
    let effects = a.handle_broadcast(&unknown, DiotdBroadcast::SensorData(reading));
    assert!(matches!(effects.web, Some(WebserverMessage::SensorData { .. })));
    assert!(matches!(a.storage().sensor_data(&unknown, &"temp".to_string(), &"t".to_string()), Some(Measurement::Integer(4))));
}

#[test]
fn local_rules_run_even_for_undeclared_devices() {
    let rule = Rule {
        sensor: UniversalSensorIdentifier { node: None, device: "clk".to_string(), sensor_name: "tick".to_string() },
        on: ConditionOp::Any,
        action: Action {
            node: None,
            actuator: FullActuatorData { device: "log".to_string(), actuator_name: "hb".to_string(), data: ActuatorValue::Signal },
        },
    };
    let mut a = System::new(node(1), peer("a", &[]), vec![rule]);
    let tick = FullSensorData { device: "clk".to_string(), sensor_name: "tick".to_string(), value: Measurement::Signal };
    let effects = a.handle_local_sensor_data(&tick);
    assert!(effects.web.is_none());
    assert_eq!(effects.dispatches.len(), 1);
    assert!(matches!(&effects.dispatches[0], Dispatch::Local(act) if act.device == "log" && act.actuator_name == "hb"));
    assert!(a.storage().sensor_data(&node(1), &"clk".to_string(), &"tick".to_string()).is_none());
}
