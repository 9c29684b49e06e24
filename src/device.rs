//! The kinds of devices a node can drive, and the decisions each of them
//! makes. The hardware access itself (GPIO, sensor reads, clocks, logging)
//! stays with the caller.
use vstd::prelude::*;
use crate::actuation::{ActuationRequestData, ActuationResult, ActuatorValue};
use crate::measurement::{Measurement, double_lt, double_le, double_less, double_less_eq};

verus! {

/// The closed set of device kinds that a node configuration may name.
#[derive(Clone, Copy, Debug, PartialEq, Eq, Structural)]
pub enum HardwareDeviceType {
    Timer,
    Logger,
    Dht11,
    Buzzer,
}

pub open spec fn device_type_name(t: HardwareDeviceType) -> Seq<char> {
    match t {
        HardwareDeviceType::Timer => "timer"@,
        HardwareDeviceType::Logger => "logger"@,
        HardwareDeviceType::Dht11 => "dht11"@,
        HardwareDeviceType::Buzzer => "buzzer"@,
    }
}

impl HardwareDeviceType {
    /// The name under which configuration files and peers know this kind.
    pub fn name(&self) -> (r: &'static str)
        ensures
            r@ == device_type_name(*self),
    {
        match self {
            HardwareDeviceType::Timer => "timer",
            HardwareDeviceType::Logger => "logger",
            HardwareDeviceType::Dht11 => "dht11",
            HardwareDeviceType::Buzzer => "buzzer",
        }
    }
}

/// A value that one sensor channel of a device reports in one tick.
#[derive(Debug)]
pub struct SensorReading {
    pub name: String,
    pub value: Measurement,
}

/// The bit pattern of `0.0`.
pub const ZERO_BITS: u64 = 0;

/// The bit pattern of `5.0`.
pub const FIVE_BITS: u64 = 0x4014_0000_0000_0000;

/// The longest beep, in seconds.
pub const MAX_BEEP_SECONDS: u64 = 5;

#[derive(Clone, Copy, Debug, PartialEq, Eq, Structural)]
pub struct BuzzerConfig {
    pub pin: u8,
}

/// A buzzer on a GPIO pin.
#[derive(Debug)]
pub struct Buzzer {
    pub config: BuzzerConfig,
}

/// How long to sound the buzzer.
#[derive(Clone, Copy, Debug, PartialEq, Eq, Structural)]
pub enum BeepTime {
    Seconds(u64),
    /// A duration in seconds given as a double's bit pattern.
    FractionalSeconds(u64),
}

/// What the buzzer does with a request.
#[derive(Clone, Copy, Debug, PartialEq, Eq, Structural)]
pub enum BeepPlan {
    Beep(BeepTime),
    /// An unsigned duration of zero.
    ZeroTime,
    /// A signed or double duration that is zero, negative or NaN.
    NotPositive,
    /// More than five seconds.
    TooLong,
    /// A payload that is no duration at all.
    Unsupported,
}

/// A signal beeps for one second; a duration beeps for that long if it is
/// positive and at most five seconds; strings are refused.
pub open spec fn beep_plan(v: ActuatorValue) -> BeepPlan {
    match v {
        ActuatorValue::Signal => BeepPlan::Beep(BeepTime::Seconds(1)),
        ActuatorValue::Unsigned(n) => {
            if n == 0 {
                BeepPlan::ZeroTime
            } else if n <= 5 {
                BeepPlan::Beep(BeepTime::Seconds(n))
            } else {
                BeepPlan::TooLong
            }
        },
        ActuatorValue::Signed(n) => {
            if n <= 0 {
                BeepPlan::NotPositive
            } else if n <= 5 {
                BeepPlan::Beep(BeepTime::Seconds(n as u64))
            } else {
                BeepPlan::TooLong
            }
        },
        ActuatorValue::Double(b) => {
            if !double_lt(ZERO_BITS, b) {
                BeepPlan::NotPositive
            } else if double_le(b, FIVE_BITS) {
                BeepPlan::Beep(BeepTime::FractionalSeconds(b))
            } else {
                BeepPlan::TooLong
            }
        },
        ActuatorValue::String(_) => BeepPlan::Unsupported,
    }
}

/// Why a request planned as `plan`, whose value reads as `text`, is
/// refused; `None` when it is carried out.
pub open spec fn beep_refusal(plan: BeepPlan, text: Seq<char>) -> Option<Seq<char>> {
    match plan {
        BeepPlan::Beep(_) => None,
        BeepPlan::ZeroTime => Some("Zero beep time"@),
        BeepPlan::NotPositive => Some("Zero or negative beep time: "@ + text + " seconds"@),
        BeepPlan::TooLong => Some("Beep time too long, expected <= 5 seconds, found "@ + text + " seconds"@),
        BeepPlan::Unsupported => Some("Strings are unsupported"@),
    }
}

impl BeepPlan {
    /// The answer to the request: `Success` for a beep, else `BadRequest`
    /// with the reason. `value_text` is the request's value as text.
    pub fn outcome(&self, value_text: &str) -> (r: ActuationResult)
        ensures
            r is Success <==> beep_refusal(*self, value_text@) is None,
            r is Success || r is BadRequest,
            r matches ActuationResult::BadRequest { reason } ==> beep_refusal(*self, value_text@) == Some(reason@),
    {
        match self {
            BeepPlan::Beep(_) => ActuationResult::Success,
            BeepPlan::ZeroTime => ActuationResult::BadRequest { reason: String::from_str("Zero beep time") },
            BeepPlan::NotPositive => {
                let reason = String::from_str("Zero or negative beep time: ").concat(value_text).concat(" seconds");
                ActuationResult::BadRequest { reason }
            },
            BeepPlan::TooLong => {
                let reason = String::from_str("Beep time too long, expected <= 5 seconds, found ")
                    .concat(value_text).concat(" seconds");
                ActuationResult::BadRequest { reason }
            },
            BeepPlan::Unsupported => ActuationResult::BadRequest { reason: String::from_str("Strings are unsupported") },
        }
    }
}

impl Buzzer {
    pub fn init(config: BuzzerConfig) -> (r: Self)
        ensures
            r.config == config,
    {
        Buzzer { config }
    }

    /// Handles a request: what to sound (the caller drives the pin when the
    /// plan is a beep) and the answer. `value_text` is the request's value
    /// as text, used in refusal reasons.
    pub fn actuate(&self, request: &ActuationRequestData, value_text: &str) -> (r: (BeepPlan, ActuationResult))
        ensures
            r.0 == beep_plan(request.data),
            r.1 is Success <==> r.0 is Beep,
            r.1 is Success || r.1 is BadRequest,
            r.1 matches ActuationResult::BadRequest { reason } ==> beep_refusal(r.0, value_text@) == Some(reason@),
            request.data is String ==> (r.1 matches ActuationResult::BadRequest { reason }
                && reason@ == "Strings are unsupported"@),
    {
        let plan = self.plan(request);
        let result = plan.outcome(value_text);
        (plan, result)
    }

    /// Decides what to do with a request; the caller drives the pin.
    pub fn plan(&self, request: &ActuationRequestData) -> (r: BeepPlan)
        ensures
            r == beep_plan(request.data),
    {
        match request.data() {
            ActuatorValue::Signal => BeepPlan::Beep(BeepTime::Seconds(1)),
            ActuatorValue::Unsigned(n) => {
                if *n == 0 {
                    BeepPlan::ZeroTime
                } else if *n <= MAX_BEEP_SECONDS {
                    BeepPlan::Beep(BeepTime::Seconds(*n))
                } else {
                    BeepPlan::TooLong
                }
            },
            ActuatorValue::Signed(n) => {
                if *n <= 0 {
                    BeepPlan::NotPositive
                } else if (*n as u64) <= MAX_BEEP_SECONDS {
                    BeepPlan::Beep(BeepTime::Seconds(*n as u64))
                } else {
                    BeepPlan::TooLong
                }
            },
            ActuatorValue::Double(b) => {
                if !double_less(ZERO_BITS, *b) {
                    BeepPlan::NotPositive
                } else if double_less_eq(*b, FIVE_BITS) {
                    BeepPlan::Beep(BeepTime::FractionalSeconds(*b))
                } else {
                    BeepPlan::TooLong
                }
            },
            ActuatorValue::String(_) => BeepPlan::Unsupported,
        }
    }
}

/// The line a logger writes for a signal when its configuration names none.
pub const SIGNAL_DEFAULT: &'static str = "Received signal!";

#[derive(Debug)]
pub struct LoggerConfig {
    pub prefix: Option<String>,
    pub suffix: Option<String>,
    pub signal: Option<String>,
}

/// A device that writes each actuation it receives to the node's log.
#[derive(Debug)]
pub struct Logger {
    pub prefix: String,
    pub suffix: String,
    pub signal: String,
}

/// The line a logger with these settings writes for a request to actuator
/// `name` whose value is `value` and reads as `text`.
pub open spec fn log_line_of(logger: Logger, name: Seq<char>, value: ActuatorValue, text: Seq<char>) -> Seq<char> {
    if value is Signal {
        name + ": "@ + logger.signal@
    } else {
        name + ": "@ + logger.prefix@ + text + logger.suffix@
    }
}

impl Logger {
    /// A logger with the configured texts; a missing prefix or suffix is
    /// empty, a missing signal text is [`SIGNAL_DEFAULT`].
    pub fn init(config: LoggerConfig) -> (r: Self)
        ensures
            r.prefix@ == (match config.prefix { Some(p) => p@, None => Seq::<char>::empty() }),
            r.suffix@ == (match config.suffix { Some(p) => p@, None => Seq::<char>::empty() }),
            r.signal@ == (match config.signal { Some(p) => p@, None => SIGNAL_DEFAULT@ }),
    {
        let prefix = match config.prefix {
            Some(p) => p,
            None => String::new(),
        };
        let suffix = match config.suffix {
            Some(p) => p,
            None => String::new(),
        };
        let signal = match config.signal {
            Some(p) => p,
            None => String::from_str(SIGNAL_DEFAULT),
        };
        Logger { prefix, suffix, signal }
    }

    /// The log line for a request. `value_text` is the request's value as
    /// text; it is not used for a signal.
    pub fn log_line(&self, request: &ActuationRequestData, value_text: &str) -> (r: String)
        ensures
            r@ == log_line_of(*self, request.actuator_name@, request.data, value_text@),
    {
        let line = String::from_str(request.actuator_name()).concat(": ");
        match request.data() {
            ActuatorValue::Signal => line.concat(self.signal.as_str()),
            _ => line.concat(self.prefix.as_str()).concat(value_text).concat(self.suffix.as_str()),
        }
    }

    /// A logger takes every request.
    pub fn actuate(&self, request: &ActuationRequestData) -> (r: ActuationResult)
        ensures
            r is Success,
    {
        ActuationResult::Success
    }
}

/// The name of the timer's only sensor.
pub const TICK_SENSOR: &'static str = "tick";

#[derive(Clone, Copy, Debug, PartialEq, Eq, Structural)]
pub struct TimerConfig {
    pub tick_every_ms: u128,
}

/// A device that reports a `tick` signal whenever more than
/// `tick_every_ms` milliseconds have passed since its last tick. Times are
/// milliseconds of a monotonic clock that the caller reads.
#[derive(Debug)]
pub struct Timer {
    pub config: TimerConfig,
    pub last_tick_ms: u128,
}

/// Milliseconds from `since` to `now`; a clock that seems to go back counts
/// as no time.
pub open spec fn elapsed_ms(since: u128, now: u128) -> int {
    if now >= since { now - since } else { 0 }
}

impl Timer {
    pub fn init(config: TimerConfig, now_ms: u128) -> (r: Self)
        ensures
            r.config == config,
            r.last_tick_ms == now_ms,
    {
        Timer { config, last_tick_ms: now_ms }
    }

    /// One tick of the device at time `now_ms`.
    pub fn sense(&mut self, now_ms: u128) -> (r: Vec<SensorReading>)
        ensures
            final(self).config == old(self).config,
            elapsed_ms(old(self).last_tick_ms, now_ms) > old(self).config.tick_every_ms ==> {
                &&& r@.len() == 1
                &&& r@[0].name@ == TICK_SENSOR@
                &&& r@[0].value is Signal
                &&& final(self).last_tick_ms == now_ms
            },
            elapsed_ms(old(self).last_tick_ms, now_ms) <= old(self).config.tick_every_ms ==> {
                &&& r@.len() == 0
                &&& final(self).last_tick_ms == old(self).last_tick_ms
            },
    {
        let elapsed: u128 = if now_ms >= self.last_tick_ms { now_ms - self.last_tick_ms } else { 0 };
        let mut readings: Vec<SensorReading> = Vec::new();
        if elapsed > self.config.tick_every_ms {
            readings.push(SensorReading { name: String::from_str(TICK_SENSOR), value: Measurement::Signal });
            self.last_tick_ms = now_ms;
        }
        readings
    }
}

/// Ticks counted, and the last tick's time, when a timer with period
/// `period` that last ticked at `last` is sensed at the times `ts`, in
/// order: each call ticks exactly when [`Timer::sense`] does.
pub open spec fn timer_run(period: u128, last: u128, ts: Seq<u128>) -> (nat, u128)
    decreases ts.len(),
{
    if ts.len() == 0 {
        (0, last)
    } else {
        let (count, l) = timer_run(period, last, ts.drop_last());
        if elapsed_ms(l, ts.last()) > period {
            (count + 1, ts.last())
        } else {
            (count, l)
        }
    }
}

/// The time of the call before call `i`; the timer's start before the first.
pub open spec fn call_before(t0: u128, ts: Seq<u128>, i: int) -> u128 {
    if i == 0 { t0 } else { ts[i - 1] }
}

/// Calls that start at `t0`, never go back in time, and are at most `step`
/// milliseconds apart.
pub open spec fn spaced_calls(t0: u128, ts: Seq<u128>, step: int) -> bool {
    forall|i: int| 0 <= i < ts.len() ==> call_before(t0, ts, i) <= #[trigger] ts[i]
        && ts[i] <= call_before(t0, ts, i) + step
}

proof fn lemma_timer_run_bounds(period: u128, t0: u128, ts: Seq<u128>, step: int)
    requires
        step >= 0,
        spaced_calls(t0, ts, step),
    ensures
        ({
            let (count, l) = timer_run(period, t0, ts);
            let prev: int = if ts.len() == 0 { t0 as int } else { ts.last() as int };
            &&& t0 <= l <= prev
            &&& count * (period + 1) <= l - t0
            &&& prev - l <= period
            &&& l - t0 <= count * (period + step)
        }),
    decreases ts.len(),
{
    if ts.len() > 0 {
        let init = ts.drop_last();
        assert(spaced_calls(t0, init, step)) by {
            assert forall|i: int| 0 <= i < init.len() implies call_before(t0, init, i) <= #[trigger] init[i]
                && init[i] <= call_before(t0, init, i) + step by {
                assert(init[i] == ts[i]);
                assert(call_before(t0, init, i) == call_before(t0, ts, i));
            }
        }
        lemma_timer_run_bounds(period, t0, init, step);
        let (c, l) = timer_run(period, t0, init);
        let prev: int = if init.len() == 0 { t0 as int } else { init.last() as int };
        let n = ts.len() - 1;
        let t = ts[n];
        assert(call_before(t0, ts, n) as int == prev);
        assert(prev <= t && t <= prev + step);
        let p = period as int;
        if elapsed_ms(l, t) > period {
            assert((c + 1) * (p + 1) == c * (p + 1) + (p + 1)) by (nonlinear_arith);
            assert((c + 1) * (p + step) == c * (p + step) + (p + step)) by (nonlinear_arith);
        }
    }
}

/// A timer with period `period` sensed by calls at most `step` ms apart
/// ticks, over calls that end at `t_end`, no more than `(t_end - t0) /
/// (period + 1)` times (ticks are more than `period` apart), and at least
/// often enough that `t_end - t0 <= period + ticks * (period + step)`.
pub proof fn lemma_timer_tick_rate(period: u128, t0: u128, ts: Seq<u128>, step: int)
    requires
        step >= 0,
        ts.len() > 0,
        spaced_calls(t0, ts, step),
    ensures
        timer_run(period, t0, ts).0 * (period + 1) <= ts.last() - t0,
        ts.last() - t0 <= period + timer_run(period, t0, ts).0 * (period + step),
{
    lemma_timer_run_bounds(period, t0, ts, step);
}

/// A timer ticking every 100 ms, sensed every 5 ms or faster for one second,
/// ticks between 8 and 12 times.
pub proof fn lemma_timer_one_second(t0: u128, ts: Seq<u128>)
    requires
        ts.len() > 0,
        spaced_calls(t0, ts, 5),
        ts.last() <= t0 + 1000,
        ts.last() + 5 >= t0 + 1000,
    ensures
        8 <= timer_run(100, t0, ts).0 <= 12,
{
    lemma_timer_tick_rate(100, t0, ts, 5);
    let c = timer_run(100, t0, ts).0 as int;
    assert(c * 101 <= 1000);
    assert(995 <= 100 + c * 105);
    assert(c <= 12) by (nonlinear_arith) requires c * 101 <= 1000;
    assert(c >= 8) by (nonlinear_arith) requires 995 <= 100 + c * 105;
}

/// The status a DHT11 read returns when it has a measurement.
pub const DHT_OK: i32 = 0;

#[derive(Clone, Copy, Debug, PartialEq, Eq, Structural)]
pub struct Dht11Config {
    pub pin: i32,
}

/// A DHT11 temperature and humidity sensor.
#[derive(Debug)]
pub struct Dht11 {
    pub config: Dht11Config,
}

impl Dht11 {
    pub fn init(config: Dht11Config) -> (r: Self)
        ensures
            r.config == config,
    {
        Dht11 { config }
    }

    /// The readings of one sensor read that returned `status` and the two
    /// values (as double bit patterns). Only a successful read reports;
    /// a sensor that is not ready or a checksum error report nothing.
    pub fn sense(&self, status: i32, humidity_bits: u64, temperature_bits: u64) -> (r: Vec<SensorReading>)
        ensures
            status == DHT_OK ==> {
                &&& r@.len() == 2
                &&& r@[0].name@ == "temperature"@
                &&& r@[0].value == Measurement::Double(temperature_bits)
                &&& r@[1].name@ == "humidity"@
                &&& r@[1].value == Measurement::Double(humidity_bits)
            },
            status != DHT_OK ==> r@.len() == 0,
    {
        let mut readings: Vec<SensorReading> = Vec::new();
        if status == DHT_OK {
            readings.push(SensorReading { name: String::from_str("temperature"), value: Measurement::Double(temperature_bits) });
            readings.push(SensorReading { name: String::from_str("humidity"), value: Measurement::Double(humidity_bits) });
        }
        readings
    }
}

} // verus!
