use diotd::actuation::ActuatorValue;
use diotd::control::{Action, ConditionOp, ControlLayer, Rule, UniversalSensorIdentifier};
use diotd::hardware::{FullActuatorData, FullSensorData};
use diotd::measurement::Measurement;
use diotd::node_id::NodeId;

fn node(b: u8) -> NodeId {
    NodeId::from_bytes(vec![0, 36, 8, b])
}

fn sensor(node: Option<NodeId>, device: &str, name: &str) -> UniversalSensorIdentifier {
    UniversalSensorIdentifier { node, device: device.to_string(), sensor_name: name.to_string() }
}

fn action(device: &str, actuator: &str) -> Action {
    Action {
        node: None,
        actuator: FullActuatorData { device: device.to_string(), actuator_name: actuator.to_string(), data: ActuatorValue::Signal },
    }
}

fn event(device: &str, name: &str, value: Measurement) -> FullSensorData {
    FullSensorData { device: device.to_string(), sensor_name: name.to_string(), value }
}

fn names(actions: &[Action]) -> Vec<String> {
    actions.iter().map(|a| a.actuator.actuator_name.clone()).collect()
}

#[test]
fn empty_rule_set_fires_nothing() {
    let control = ControlLayer::from_ruleset(Vec::new());
    assert!(control.trigger_local(&event("clk", "tick", Measurement::Signal)).is_none());
    assert!(control.trigger_remote(&node(1), &event("temp", "t", Measurement::Integer(3))).is_none());
}

#[test]
fn matching_rules_fire_in_declaration_order() {
    let rules = vec![
        Rule { sensor: sensor(None, "temp", "t"), on: ConditionOp::GreaterThan { value: Measurement::Integer(10) }, action: action("a", "first") },
        Rule { sensor: sensor(None, "other", "t"), on: ConditionOp::Any, action: action("b", "unrelated") },
        Rule { sensor: sensor(None, "temp", "t"), on: ConditionOp::LessThan { value: Measurement::Integer(0) }, action: action("c", "cold") },
        Rule { sensor: sensor(None, "temp", "t"), on: ConditionOp::Any, action: action("d", "always") },
        Rule { sensor: sensor(None, "temp", "t"), on: ConditionOp::Equal { value: Measurement::Integer(20) }, action: action("e", "exact") },
    ];
    let control = ControlLayer::from_ruleset(rules);
    let fired = control.trigger_local(&event("temp", "t", Measurement::Integer(20))).unwrap();
    assert_eq!(names(&fired), vec!["first", "always", "exact"]);
    let fired = control.trigger_local(&event("temp", "t", Measurement::Integer(-5))).unwrap();
    assert_eq!(names(&fired), vec!["cold", "always"]);
}

#[test]
fn listened_channel_with_no_match_gives_empty_list() {
    let rules = vec![Rule {
        sensor: sensor(None, "temp", "t"),
        on: ConditionOp::GreaterThan { value: Measurement::Double(30.0f64.to_bits()) },
        action: action("a", "hot"),
    }];
    let control = ControlLayer::from_ruleset(rules);
    let fired = control.trigger_local(&event("temp", "t", Measurement::Double(12.0f64.to_bits()))).unwrap();
    assert!(fired.is_empty());
    // A value of another kind never satisfies an ordering condition.
    let fired = control.trigger_local(&event("temp", "t", Measurement::Integer(100))).unwrap();
    assert!(fired.is_empty());
}

#[test]
fn rules_tell_origins_apart() {
    let rules = vec![
        Rule { sensor: sensor(Some(node(2)), "temp", "t"), on: ConditionOp::Any, action: action("a", "from_b") },
        Rule { sensor: sensor(None, "temp", "t"), on: ConditionOp::Any, action: action("b", "from_self") },
    ];
    let control = ControlLayer::from_ruleset(rules);
    let e = event("temp", "t", Measurement::Signal);
    assert_eq!(names(&control.trigger_local(&e).unwrap()), vec!["from_self"]);
    assert_eq!(names(&control.trigger_remote(&node(2), &e).unwrap()), vec!["from_b"]);
    assert!(control.trigger_remote(&node(3), &e).is_none());
}

#[test]
fn identifiers() {
    let e = event("temp", "t", Measurement::Signal);
    let local = UniversalSensorIdentifier::from_local(e.clone());
    assert!(local.node.is_none());
    assert!(local.corresponds_with(&e));
    assert!(!local.corresponds_with(&event("temp", "u", Measurement::Signal)));
    let remote = UniversalSensorIdentifier::from_remote(node(7), e.clone());
    assert!(remote.corresponds_with(&e));
    assert!(!remote.same_as(&local));
    assert!(remote.same_as(&sensor(Some(node(7)), "temp", "t")));
}
