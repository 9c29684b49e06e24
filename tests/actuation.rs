use diotd::actuation::{ActuationRequestData, ActuationResult, ActuatorValue, RemoteActuationResponse};
use diotd::hardware::{remote_reply, ActuationOutcome, ActuationQueue, FullActuatorData, HardwareSupervisor};

#[test]
fn plain_text_of_values() {
    assert_eq!(ActuatorValue::Signal.plain_text(), Some("<signal>".to_string()));
    assert_eq!(ActuatorValue::Unsigned(42).plain_text(), Some("42".to_string()));
    assert_eq!(ActuatorValue::Unsigned(u64::MAX).plain_text(), Some("18446744073709551615".to_string()));
    assert_eq!(ActuatorValue::Signed(-7).plain_text(), Some("-7".to_string()));
    assert_eq!(ActuatorValue::Signed(i64::MIN).plain_text(), Some("-9223372036854775808".to_string()));
    assert_eq!(ActuatorValue::String("hi".to_string()).plain_text(), Some("hi".to_string()));
    assert_eq!(ActuatorValue::Double(1.5f64.to_bits()).plain_text(), None);
}

fn all_results() -> Vec<ActuationResult> {
    vec![
        ActuationResult::Success,
        ActuationResult::Ignored,
        ActuationResult::NoResponse,
        ActuationResult::BadRequest { reason: "bad".to_string() },
        ActuationResult::ActuatorError { error_code: -3, error_description: "broken".to_string() },
    ]
}

#[test]
fn wire_form_round_trips() {
    for r in all_results() {
        let remote: RemoteActuationResponse = r.clone().into();
        let back: ActuationResult = remote.into();
        assert_eq!(back, r);
    }
    let remote = RemoteActuationResponse::ActuatorError { error_code: 9, error_description: "x".to_string() };
    let local = ActuationResult::from(remote.clone());
    assert_eq!(local, ActuationResult::ActuatorError { error_code: 9, error_description: "x".to_string() });
    assert_eq!(RemoteActuationResponse::from(local), remote);
}

#[test]
fn remote_reply_passes_device_answer() {
    for r in all_results() {
        assert_eq!(remote_reply("buzzer", ActuationOutcome::Answered(r.clone())), r);
    }
}

#[test]
fn remote_reply_for_unknown_device() {
    assert_eq!(
        remote_reply("toaster", ActuationOutcome::UnknownDevice),
        ActuationResult::ActuatorError { error_code: -500, error_description: "Unknown device: toaster".to_string() }
    );
}

#[test]
fn remote_reply_for_lost_answer() {
    assert_eq!(
        remote_reply("buzzer", ActuationOutcome::Failed("channel closed".to_string())),
        ActuationResult::ActuatorError { error_code: -500, error_description: "channel closed".to_string() }
    );
}

#[test]
fn supervisor_routes_by_name() {
    let mut sup: HardwareSupervisor<u32> = HardwareSupervisor::new();
    sup.register("buzzer".to_string(), 1);
    sup.register("log".to_string(), 2);
    assert_eq!(sup.device(&"buzzer".to_string()), Some(&1));
    assert_eq!(sup.device(&"log".to_string()), Some(&2));
    assert_eq!(sup.device(&"toaster".to_string()), None);
    sup.register("buzzer".to_string(), 3);
    assert_eq!(sup.device(&"buzzer".to_string()), Some(&3));
}

#[test]
fn request_data_from_command() {
    let cmd = FullActuatorData { device: "buzzer".to_string(), actuator_name: "beep".to_string(), data: ActuatorValue::Unsigned(2) };
    let req = cmd.into_local_data();
    assert_eq!(req.actuator_name(), "beep");
    assert!(matches!(req.data(), ActuatorValue::Unsigned(2)));
    let req2 = ActuationRequestData::new("x".to_string(), ActuatorValue::Signal);
    assert_eq!(req2.actuator_name, "x");
}

#[test]
fn actuation_queue_is_fifo() {
    let mut q: ActuationQueue<u8> = ActuationQueue::new();
    assert_eq!(q.pop_front(), None);
    q.push_back(1);
    q.push_back(2);
    q.push_back(3);
    assert_eq!(q.len(), 3);
    assert_eq!(q.pop_front(), Some(1));
    q.push_back(4);
    assert_eq!(q.pop_front(), Some(2));
    assert_eq!(q.pop_front(), Some(3));
    assert_eq!(q.pop_front(), Some(4));
    assert_eq!(q.pop_front(), None);
    assert_eq!(q.len(), 0);
}
