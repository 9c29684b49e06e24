//! Events and commands exchanged between devices, the node and the mesh,
//! and the supervisor's routing of actuation requests.
use vstd::prelude::*;
use crate::actuation::{ActuationRequestData, ActuationResult, ActuatorValue};
use crate::assoc::{assoc, last_for_key, lemma_assoc_last, lemma_assoc_absent, lemma_assoc_update, lemma_assoc_push};
use crate::device::SensorReading;
use crate::measurement::Measurement;

verus! {

/// One reading of one sensor channel of one device.
#[derive(Debug)]
pub struct FullSensorData {
    pub device: String,
    pub sensor_name: String,
    pub value: Measurement,
}

impl Clone for FullSensorData {
    fn clone(&self) -> (r: Self)
        ensures
            r == *self,
    {
        FullSensorData {
            device: self.device.clone(),
            sensor_name: self.sensor_name.clone(),
            value: self.value.clone(),
        }
    }
}

impl FullSensorData {
    /// A reading of one of the sensors of device `device`.
    pub fn from_reading(device: String, reading: SensorReading) -> (r: Self)
        ensures
            r.device == device,
            r.sensor_name == reading.name,
            r.value == reading.value,
    {
        FullSensorData { device, sensor_name: reading.name, value: reading.value }
    }
}

/// A command for one actuator of one device.
#[derive(Debug)]
pub struct FullActuatorData {
    pub device: String,
    pub actuator_name: String,
    pub data: ActuatorValue,
}

impl Clone for FullActuatorData {
    fn clone(&self) -> (r: Self)
        ensures
            r == *self,
    {
        FullActuatorData {
            device: self.device.clone(),
            actuator_name: self.actuator_name.clone(),
            data: self.data.clone(),
        }
    }
}

impl FullActuatorData {
    /// The part of the command that the device itself sees.
    pub fn into_local_data(self) -> (r: ActuationRequestData)
        ensures
            r.actuator_name == self.actuator_name,
            r.data == self.data,
    {
        ActuationRequestData::new(self.actuator_name, self.data)
    }
}

/// The error code of every actuation error that the node itself reports.
pub const SUPERVISOR_ERROR_CODE: i64 = -500;

/// How an actuation request for a device of this node ended.
#[derive(Debug)]
pub enum ActuationOutcome {
    /// The device answered.
    Answered(ActuationResult),
    /// No device of that name runs on this node.
    UnknownDevice,
    /// The request or its answer was lost on the way; the text says how.
    Failed(String),
}

/// The single answer a peer that asked for an actuation of `device` is
/// sent: the device's own answer, or an `ActuatorError` with code -500 when
/// there is none.
pub fn remote_reply(device: &str, outcome: ActuationOutcome) -> (r: ActuationResult)
    ensures
        match outcome {
            ActuationOutcome::Answered(res) => r == res,
            ActuationOutcome::UnknownDevice => r matches ActuationResult::ActuatorError {
                error_code,
                error_description,
            } && error_code == SUPERVISOR_ERROR_CODE && error_description@ == "Unknown device: "@ + device@,
            ActuationOutcome::Failed(why) => r == (ActuationResult::ActuatorError {
                error_code: SUPERVISOR_ERROR_CODE,
                error_description: why,
            }),
        },
{
    match outcome {
        ActuationOutcome::Answered(res) => res,
        ActuationOutcome::UnknownDevice => ActuationResult::ActuatorError {
            error_code: SUPERVISOR_ERROR_CODE,
            error_description: String::from_str("Unknown device: ").concat(device),
        },
        ActuationOutcome::Failed(why) => ActuationResult::ActuatorError {
            error_code: SUPERVISOR_ERROR_CODE,
            error_description: why,
        },
    }
}

pub open spec fn handle_entries<H>(s: Seq<(String, H)>) -> Seq<(Seq<char>, H)> {
    s.map_values(|e: (String, H)| (e.0@, e.1))
}

/// The devices of this node, by name, each with the handle `H` through
/// which requests reach its worker.
pub struct HardwareSupervisor<H> {
    hw_threads: Vec<(String, H)>,
}

impl<H> View for HardwareSupervisor<H> {
    type V = Map<Seq<char>, H>;

    closed spec fn view(&self) -> Map<Seq<char>, H> {
        assoc(handle_entries(self.hw_threads@))
    }
}

/// The position of the entry that decides which handle serves `name`.
fn find_handle<H>(threads: &Vec<(String, H)>, name: &String) -> (r: Option<usize>)
    ensures
        r matches Some(p) ==> last_for_key(handle_entries(threads@), p as int)
            && threads@[p as int].0@ == name@,
        r is None ==> forall|j: int| 0 <= j < threads@.len() ==> (#[trigger] handle_entries(threads@)[j]).0 != name@,
{
    let mut i: usize = threads.len();
    while i > 0
        invariant
            i <= threads@.len(),
            forall|j: int| i <= j < threads@.len() ==> (#[trigger] handle_entries(threads@)[j]).0 != name@,
        decreases i,
    {
        if threads[i - 1].0 == *name {
            return Some(i - 1);
        }
        i = i - 1;
    }
    None
}

impl<H> HardwareSupervisor<H> {
    /// A supervisor with no devices yet.
    pub fn new() -> (r: Self)
        ensures
            r@ == Map::<Seq<char>, H>::empty(),
    {
        let r = HardwareSupervisor { hw_threads: Vec::new() };
        proof {
            assert(handle_entries(r.hw_threads@) =~= Seq::empty());
        }
        r
    }

    /// Makes `handle` the way to reach the device `name`, in place of any
    /// earlier one (a restarted worker).
    pub fn register(&mut self, name: String, handle: H)
        ensures
            final(self)@ == old(self)@.insert(name@, handle),
    {
        let ghost entries = handle_entries(self.hw_threads@);
        match find_handle(&self.hw_threads, &name) {
            Some(p) => {
                self.hw_threads[p].1 = handle;
                proof {
                    lemma_assoc_update(entries, p as int, handle);
                    assert(handle_entries(self.hw_threads@) =~= entries.update(p as int, (entries[p as int].0, handle)));
                }
            },
            None => {
                let ghost key = name@;
                self.hw_threads.push((name, handle));
                proof {
                    lemma_assoc_push(entries, key, handle);
                    assert(handle_entries(self.hw_threads@) =~= entries.push((key, handle)));
                }
            },
        }
    }

    /// The handle of the device `device_name`; `None` when this node runs no
    /// such device, so that the caller can report a mis-targeted request.
    pub fn device(&self, device_name: &String) -> (r: Option<&H>)
        ensures
            r is Some <==> self@.contains_key(device_name@),
            r matches Some(h) ==> *h == self@[device_name@],
    {
        match find_handle(&self.hw_threads, device_name) {
            Some(p) => {
                proof {
                    lemma_assoc_last(handle_entries(self.hw_threads@), p as int);
                }
                Some(&self.hw_threads[p].1)
            },
            None => {
                proof {
                    lemma_assoc_absent(handle_entries(self.hw_threads@), device_name@);
                }
                None
            },
        }
    }
}

/// The queue of actuation requests a device worker has taken from its
/// mailbox and not answered yet. Requests are answered in arrival order.
pub struct ActuationQueue<T> {
    requests: std::collections::VecDeque<T>,
}

impl<T> View for ActuationQueue<T> {
    type V = Seq<T>;

    closed spec fn view(&self) -> Seq<T> {
        self.requests@
    }
}

impl<T> ActuationQueue<T> {
    pub fn new() -> (r: Self)
        ensures
            r@ == Seq::<T>::empty(),
    {
        ActuationQueue { requests: std::collections::VecDeque::new() }
    }

    /// Queues a request behind the others.
    pub fn push_back(&mut self, request: T)
        ensures
            final(self)@ == old(self)@.push(request),
    {
        self.requests.push_back(request);
    }

    /// The oldest request, taken off the queue.
    pub fn pop_front(&mut self) -> (r: Option<T>)
        ensures
            old(self)@.len() == 0 ==> r is None && final(self)@ == old(self)@,
            old(self)@.len() > 0 ==> r == Some(old(self)@[0]) && final(self)@ == old(self)@.drop_first(),
    {
        self.requests.pop_front()
    }

    pub fn len(&self) -> (r: usize)
        ensures
            r == self@.len(),
    {
        self.requests.len()
    }
}

} // verus!
