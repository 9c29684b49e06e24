use diotd::actuation::{ActuationRequestData, ActuationResult, ActuatorValue};
use diotd::device::{
    BeepPlan, BeepTime, Buzzer, BuzzerConfig, Dht11, Dht11Config, HardwareDeviceType, Logger, LoggerConfig, Timer,
    TimerConfig,
};
use diotd::measurement::Measurement;

fn buzz(value: ActuatorValue) -> (BeepPlan, ActuationResult) {
    let buzzer = Buzzer::init(BuzzerConfig { pin: 17 });
    let text = match &value {
        ActuatorValue::Double(bits) => format!("{}", f64::from_bits(*bits)),
        other => other.plain_text().unwrap(),
    };
    let req = ActuationRequestData::new("beep".to_string(), value);
    let (plan, result) = buzzer.actuate(&req, &text);
    assert_eq!(plan, buzzer.plan(&req));
    assert_eq!(result, plan.outcome(&text));
    (plan, result)
}

#[test]
fn buzzer_zero_beep_time() {
    let (plan, r) = buzz(ActuatorValue::Unsigned(0));
    assert_eq!(plan, BeepPlan::ZeroTime);
    assert_eq!(r, ActuationResult::BadRequest { reason: "Zero beep time".to_string() });
}

#[test]
fn buzzer_five_seconds() {
    let (plan, r) = buzz(ActuatorValue::Unsigned(5));
    assert_eq!(plan, BeepPlan::Beep(BeepTime::Seconds(5)));
    assert_eq!(r, ActuationResult::Success);
}

#[test]
fn buzzer_six_seconds_too_long() {
    let (plan, r) = buzz(ActuatorValue::Unsigned(6));
    assert_eq!(plan, BeepPlan::TooLong);
    assert_eq!(
        r,
        ActuationResult::BadRequest { reason: "Beep time too long, expected <= 5 seconds, found 6 seconds".to_string() }
    );
}

#[test]
fn buzzer_negative_double() {
    let (plan, r) = buzz(ActuatorValue::Double((-1.0f64).to_bits()));
    assert_eq!(plan, BeepPlan::NotPositive);
    assert_eq!(r, ActuationResult::BadRequest { reason: "Zero or negative beep time: -1 seconds".to_string() });
}

#[test]
fn buzzer_strings_unsupported() {
    let (plan, r) = buzz(ActuatorValue::String("loud".to_string()));
    assert_eq!(plan, BeepPlan::Unsupported);
    assert_eq!(r, ActuationResult::BadRequest { reason: "Strings are unsupported".to_string() });
}

#[test]
fn buzzer_refuses_every_string() {
    for text in ["", "5", "loud", "1.0"] {
        let (plan, r) = buzz(ActuatorValue::String(text.to_string()));
        assert_eq!(plan, BeepPlan::Unsupported);
        assert_eq!(r, ActuationResult::BadRequest { reason: "Strings are unsupported".to_string() });
    }
}

#[test]
fn buzzer_other_payloads() {
    assert_eq!(buzz(ActuatorValue::Signal).0, BeepPlan::Beep(BeepTime::Seconds(1)));
    assert_eq!(buzz(ActuatorValue::Signed(3)).0, BeepPlan::Beep(BeepTime::Seconds(3)));
    assert_eq!(buzz(ActuatorValue::Signed(0)).1, ActuationResult::BadRequest { reason: "Zero or negative beep time: 0 seconds".to_string() });
    assert_eq!(buzz(ActuatorValue::Signed(9)).0, BeepPlan::TooLong);
    assert_eq!(buzz(ActuatorValue::Double(2.5f64.to_bits())).0, BeepPlan::Beep(BeepTime::FractionalSeconds(2.5f64.to_bits())));
    assert_eq!(buzz(ActuatorValue::Double(5.0f64.to_bits())).1, ActuationResult::Success);
    assert_eq!(buzz(ActuatorValue::Double(5.5f64.to_bits())).0, BeepPlan::TooLong);
    assert_eq!(buzz(ActuatorValue::Double(f64::NAN.to_bits())).0, BeepPlan::NotPositive);
    assert_eq!(buzz(ActuatorValue::Double(0.0f64.to_bits())).0, BeepPlan::NotPositive);
}

#[test]
fn logger_defaults_and_lines() {
    let logger = Logger::init(LoggerConfig { prefix: None, suffix: None, signal: None });
    assert_eq!(logger.signal, "Received signal!");
    let sig = ActuationRequestData::new("hb".to_string(), ActuatorValue::Signal);
    assert_eq!(logger.log_line(&sig, "<signal>"), "hb: Received signal!");
    assert_eq!(logger.actuate(&sig), ActuationResult::Success);

    let custom = Logger::init(LoggerConfig {
        prefix: Some("[".to_string()),
        suffix: Some("]".to_string()),
        signal: Some("ping".to_string()),
    });
    let val = ActuationRequestData::new("out".to_string(), ActuatorValue::Signed(-4));
    let text = val.data().plain_text().unwrap();
    assert_eq!(custom.log_line(&val, &text), "out: [-4]");
    assert_eq!(custom.log_line(&sig, "<signal>"), "hb: ping");
}

#[test]
fn timer_ticks_after_period() {
    let mut timer = Timer::init(TimerConfig { tick_every_ms: 100 }, 1000);
    assert!(timer.sense(1050).is_empty());
    assert!(timer.sense(1100).is_empty());
    let r = timer.sense(1101);
    assert_eq!(r.len(), 1);
    assert_eq!(r[0].name, "tick");
    assert!(matches!(r[0].value, Measurement::Signal));
    assert_eq!(timer.last_tick_ms, 1101);
    assert!(timer.sense(1150).is_empty());
    assert!(timer.sense(900).is_empty());
}

#[test]
fn timer_rate_over_one_second() {
    let mut timer = Timer::init(TimerConfig { tick_every_ms: 100 }, 0);
    let mut ticks = 0;
    let mut now: u128 = 0;
    while now <= 1000 {
        ticks += timer.sense(now).len();
        now += 5;
    }
    assert!((8..=12).contains(&ticks), "{} ticks", ticks);
}

#[test]
fn dht11_reports_only_good_reads() {
    let dht = Dht11::init(Dht11Config { pin: 4 });
    let r = dht.sense(0, 40.0f64.to_bits(), 21.5f64.to_bits());
    assert_eq!(r.len(), 2);
    assert_eq!(r[0].name, "temperature");
    assert!(matches!(r[0].value, Measurement::Double(b) if b == 21.5f64.to_bits()));
    assert_eq!(r[1].name, "humidity");
    assert!(matches!(r[1].value, Measurement::Double(b) if b == 40.0f64.to_bits()));
    assert!(dht.sense(-1, 0, 0).is_empty());
    assert!(dht.sense(-2, 0, 0).is_empty());
}

#[test]
fn device_type_names() {
    assert_eq!(HardwareDeviceType::Timer.name(), "timer");
    assert_eq!(HardwareDeviceType::Logger.name(), "logger");
    assert_eq!(HardwareDeviceType::Dht11.name(), "dht11");
    assert_eq!(HardwareDeviceType::Buzzer.name(), "buzzer");
}
