//! The node's in-memory view of the mesh: every known peer, the devices it
//! declared, and the latest value of each of their sensors.
use vstd::prelude::*;
use crate::assoc::{assoc, last_for_key, lemma_assoc_last, lemma_assoc_absent, lemma_assoc_update, lemma_assoc_push, lemma_assoc_same_keys};
use crate::device::HardwareDeviceType;
use crate::hardware::FullSensorData;
use crate::measurement::Measurement;
use crate::node_id::NodeId;

verus! {

/// A device as a peer declares it: its kind only, never its configuration.
#[derive(Clone, Copy, Debug, PartialEq, Eq, Structural)]
pub struct RemotePeerDevice {
    pub device_type: HardwareDeviceType,
}

/// A peer's identity: its display name and its device catalogue.
#[derive(Debug)]
pub struct PeerData {
    pub name: String,
    pub devices: Vec<(String, RemotePeerDevice)>,
}

impl PeerData {
    pub fn copy(&self) -> (r: Self)
        ensures
            r.name == self.name,
            r.devices@ == self.devices@,
    {
        let mut devices: Vec<(String, RemotePeerDevice)> = Vec::new();
        let mut i: usize = 0;
        while i < self.devices.len()
            invariant
                i <= self.devices@.len(),
                devices@ == self.devices@.subrange(0, i as int),
            decreases self.devices@.len() - i,
        {
            let entry = &self.devices[i];
            devices.push((entry.0.clone(), entry.1));
            proof {
                assert(devices@ =~= self.devices@.subrange(0, i + 1));
            }
            i = i + 1;
        }
        proof {
            assert(devices@ =~= self.devices@);
        }
        PeerData { name: self.name.clone(), devices }
    }
}

/// The model of a device in the store.
pub ghost struct DeviceModel {
    pub device_type: HardwareDeviceType,
    pub sensors: Map<Seq<char>, Measurement>,
}

/// The model of a peer in the store.
pub ghost struct PeerModel {
    pub name: Seq<char>,
    pub devices: Map<Seq<char>, DeviceModel>,
}

/// The devices that an identity declares, by name.
pub open spec fn declared_devices(data: PeerData) -> Map<Seq<char>, HardwareDeviceType> {
    assoc(data.devices@.map_values(|e: (String, RemotePeerDevice)| (e.0@, e.1.device_type)))
}

/// What the store holds of a peer right after its identity arrived: its
/// name, and each declared device with no sensor value yet.
pub open spec fn fresh_peer(data: PeerData) -> PeerModel {
    PeerModel {
        name: data.name@,
        devices: assoc(data.devices@.map_values(|e: (String, RemotePeerDevice)|
            (e.0@, DeviceModel { device_type: e.1.device_type, sensors: Map::empty() }))),
    }
}

/// The latest value of one sensor.
#[derive(Debug)]
pub struct SensorState {
    pub current_value: Measurement,
}

impl SensorState {
    pub fn new(current_value: Measurement) -> (r: Self)
        ensures
            r.current_value == current_value,
    {
        SensorState { current_value }
    }
}

pub open spec fn sensor_entries(s: Seq<(String, SensorState)>) -> Seq<(Seq<char>, Measurement)> {
    s.map_values(|e: (String, SensorState)| (e.0@, e.1.current_value))
}

/// One device of a peer, with the latest value of each of its sensors.
#[derive(Debug)]
pub struct DeviceState {
    pub device_type: HardwareDeviceType,
    pub sensors: Vec<(String, SensorState)>,
}

impl View for DeviceState {
    type V = DeviceModel;

    open spec fn view(&self) -> DeviceModel {
        DeviceModel { device_type: self.device_type, sensors: assoc(sensor_entries(self.sensors@)) }
    }
}

impl DeviceState {
    pub fn from_device_type(device_type: HardwareDeviceType) -> (r: Self)
        ensures
            r@ == (DeviceModel { device_type, sensors: Map::empty() }),
    {
        let r = DeviceState { device_type, sensors: Vec::new() };
        proof {
            assert(sensor_entries(r.sensors@) =~= Seq::empty());
        }
        r
    }
}

pub open spec fn device_entries(s: Seq<(String, DeviceState)>) -> Seq<(Seq<char>, DeviceModel)> {
    s.map_values(|e: (String, DeviceState)| (e.0@, e.1@))
}

/// One peer: its name and its devices.
#[derive(Debug)]
pub struct PeerState {
    pub name: String,
    pub devices: Vec<(String, DeviceState)>,
}

impl View for PeerState {
    type V = PeerModel;

    open spec fn view(&self) -> PeerModel {
        PeerModel { name: self.name@, devices: assoc(device_entries(self.devices@)) }
    }
}

impl PeerState {
    fn from_peer_data(data: PeerData) -> (r: Self)
        ensures
            r@ == fresh_peer(data),
    {
        let ghost declared = data.devices@.map_values(|e: (String, RemotePeerDevice)|
            (e.0@, DeviceModel { device_type: e.1.device_type, sensors: Map::empty() }));
        let mut devices: Vec<(String, DeviceState)> = Vec::new();
        let mut i: usize = 0;
        while i < data.devices.len()
            invariant
                i <= data.devices@.len(),
                declared == data.devices@.map_values(|e: (String, RemotePeerDevice)|
                    (e.0@, DeviceModel { device_type: e.1.device_type, sensors: Map::empty() })),
                devices@.len() == i,
                device_entries(devices@) == declared.subrange(0, i as int),
            decreases data.devices@.len() - i,
        {
            let entry = &data.devices[i];
            let state = DeviceState::from_device_type(entry.1.device_type);
            let ghost before = devices@;
            devices.push((entry.0.clone(), state));
            proof {
                assert(device_entries(devices@)[i as int] == declared[i as int]);
                assert forall|j: int| 0 <= j < i implies device_entries(devices@)[j]
                    == #[trigger] device_entries(before)[j] by {
                    assert(devices@[j] == before[j]);
                }
                assert(device_entries(devices@) =~= declared.subrange(0, i + 1));
            }
            i = i + 1;
        }
        proof {
            assert(declared.subrange(0, declared.len() as int) =~= declared);
        }
        PeerState { name: data.name, devices }
    }
}

pub open spec fn peer_entries(s: Seq<(NodeId, PeerState)>) -> Seq<(Seq<u8>, PeerModel)> {
    s.map_values(|e: (NodeId, PeerState)| (e.0@, e.1@))
}

/// Every peer the node knows of, with what it knows of it.
#[derive(Debug)]
pub struct FullSystemState {
    pub peers: Vec<(NodeId, PeerState)>,
}

impl View for FullSystemState {
    type V = Map<Seq<u8>, PeerModel>;

    open spec fn view(&self) -> Map<Seq<u8>, PeerModel> {
        assoc(peer_entries(self.peers@))
    }
}

/// The position of the entry that decides what the store holds of `peer`.
fn find_peer(peers: &Vec<(NodeId, PeerState)>, peer: &NodeId) -> (r: Option<usize>)
    ensures
        r matches Some(p) ==> last_for_key(peer_entries(peers@), p as int)
            && peers@[p as int].0@ == peer@,
        r is None ==> forall|j: int| 0 <= j < peers@.len() ==> (#[trigger] peer_entries(peers@)[j]).0 != peer@,
{
    let mut i: usize = peers.len();
    while i > 0
        invariant
            i <= peers@.len(),
            forall|j: int| i <= j < peers@.len() ==> (#[trigger] peer_entries(peers@)[j]).0 != peer@,
        decreases i,
    {
        if peers[i - 1].0.same_as(peer) {
            return Some(i - 1);
        }
        i = i - 1;
    }
    None
}

/// The position of the entry that decides what a peer holds of `device`.
fn find_device(devices: &Vec<(String, DeviceState)>, device: &String) -> (r: Option<usize>)
    ensures
        r matches Some(p) ==> last_for_key(device_entries(devices@), p as int)
            && devices@[p as int].0@ == device@,
        r is None ==> forall|j: int| 0 <= j < devices@.len() ==> (#[trigger] device_entries(devices@)[j]).0 != device@,
{
    let mut i: usize = devices.len();
    while i > 0
        invariant
            i <= devices@.len(),
            forall|j: int| i <= j < devices@.len() ==> (#[trigger] device_entries(devices@)[j]).0 != device@,
        decreases i,
    {
        if devices[i - 1].0 == *device {
            return Some(i - 1);
        }
        i = i - 1;
    }
    None
}

/// The position of the entry that decides what a device holds of `sensor`.
fn find_sensor(sensors: &Vec<(String, SensorState)>, sensor: &String) -> (r: Option<usize>)
    ensures
        r matches Some(p) ==> last_for_key(sensor_entries(sensors@), p as int)
            && sensors@[p as int].0@ == sensor@,
        r is None ==> forall|j: int| 0 <= j < sensors@.len() ==> (#[trigger] sensor_entries(sensors@)[j]).0 != sensor@,
{
    let mut i: usize = sensors.len();
    while i > 0
        invariant
            i <= sensors@.len(),
            forall|j: int| i <= j < sensors@.len() ==> (#[trigger] sensor_entries(sensors@)[j]).0 != sensor@,
        decreases i,
    {
        if sensors[i - 1].0 == *sensor {
            return Some(i - 1);
        }
        i = i - 1;
    }
    None
}

/// What the store holds of a peer once a sensor value was recorded for one
/// of its devices.
pub open spec fn with_sensor_value(peer: PeerModel, data: FullSensorData) -> PeerModel {
    PeerModel {
        name: peer.name,
        devices: peer.devices.insert(data.device@, DeviceModel {
            device_type: peer.devices[data.device@].device_type,
            sensors: peer.devices[data.device@].sensors.insert(data.sensor_name@, data.value),
        }),
    }
}

/// Whether the store knows `peer` and the device that the event names.
pub open spec fn declares(state: Map<Seq<u8>, PeerModel>, peer: Seq<u8>, data: FullSensorData) -> bool {
    state.contains_key(peer) && state[peer].devices.contains_key(data.device@)
}

/// The mesh store of one node. It always holds the node's own identity.
pub struct Storage {
    local_peer_id: NodeId,
    cache: FullSystemState,
}

impl View for Storage {
    type V = Map<Seq<u8>, PeerModel>;

    closed spec fn view(&self) -> Map<Seq<u8>, PeerModel> {
        self.cache@
    }
}

impl Storage {
    /// The bytes of this node's own id.
    pub closed spec fn local(&self) -> Seq<u8> {
        self.local_peer_id@
    }

    pub closed spec fn wf(&self) -> bool {
        self@.contains_key(self.local())
    }

    /// A store that knows only this node, as `local_peer_data` describes it.
    pub fn new(local_peer_id: NodeId, local_peer_data: PeerData) -> (r: Self)
        ensures
            r.wf(),
            r.local() == local_peer_id@,
            r@ == Map::<Seq<u8>, PeerModel>::empty().insert(local_peer_id@, fresh_peer(local_peer_data)),
    {
        let mut storage = Storage { local_peer_id, cache: FullSystemState { peers: Vec::new() } };
        proof {
            assert(peer_entries(storage.cache.peers@) =~= Seq::empty());
        }
        let id = storage.local_peer_id();
        storage.insert_peer_data(&id, local_peer_data);
        storage
    }

    pub fn local_peer_id(&self) -> (r: NodeId)
        ensures
            r@ == self.local(),
    {
        self.local_peer_id.clone()
    }

    /// The display name of a known peer.
    pub fn peer_name(&self, peer: &NodeId) -> (r: Option<String>)
        ensures
            r is Some <==> self@.contains_key(peer@),
            r matches Some(name) ==> name@ == self@[peer@].name,
    {
        match find_peer(&self.cache.peers, peer) {
            Some(p) => {
                proof {
                    lemma_assoc_last(peer_entries(self.cache.peers@), p as int);
                }
                Some(self.cache.peers[p].1.name.clone())
            },
            None => {
                proof {
                    lemma_assoc_absent(peer_entries(self.cache.peers@), peer@);
                }
                None
            },
        }
    }

    /// The latest value of one sensor of one device of a peer, if any.
    pub fn sensor_data(&self, peer: &NodeId, device_name: &String, sensor_name: &String) -> (r: Option<Measurement>)
        ensures
            r is Some <==> (self@.contains_key(peer@)
                && self@[peer@].devices.contains_key(device_name@)
                && self@[peer@].devices[device_name@].sensors.contains_key(sensor_name@)),
            r matches Some(v) ==> v == self@[peer@].devices[device_name@].sensors[sensor_name@],
    {
        let p = match find_peer(&self.cache.peers, peer) {
            Some(p) => p,
            None => {
                proof {
                    lemma_assoc_absent(peer_entries(self.cache.peers@), peer@);
                }
                return None;
            },
        };
        proof {
            lemma_assoc_last(peer_entries(self.cache.peers@), p as int);
        }
        let devices = &self.cache.peers[p].1.devices;
        let d = match find_device(devices, device_name) {
            Some(d) => d,
            None => {
                proof {
                    lemma_assoc_absent(device_entries(devices@), device_name@);
                }
                return None;
            },
        };
        proof {
            lemma_assoc_last(device_entries(devices@), d as int);
        }
        let sensors = &devices[d].1.sensors;
        match find_sensor(sensors, sensor_name) {
            Some(q) => {
                proof {
                    lemma_assoc_last(sensor_entries(sensors@), q as int);
                }
                Some(sensors[q].1.current_value.clone())
            },
            None => {
                proof {
                    lemma_assoc_absent(sensor_entries(sensors@), sensor_name@);
                }
                None
            },
        }
    }

    /// Everything the store knows, for a full snapshot.
    pub fn full_system_state(&self) -> (r: &FullSystemState)
        ensures
            r@ == self@,
    {
        &self.cache
    }

    /// Records a peer's identity. Whatever was known of the peer before,
    /// sensor values included, is replaced.
    pub fn insert_peer_data(&mut self, peer: &NodeId, peer_data: PeerData)
        ensures
            final(self)@ == old(self)@.insert(peer@, fresh_peer(peer_data)),
            final(self).local() == old(self).local(),
            old(self).wf() ==> final(self).wf(),
    {
        let state = PeerState::from_peer_data(peer_data);
        let ghost entries = peer_entries(self.cache.peers@);
        match find_peer(&self.cache.peers, peer) {
            Some(p) => {
                self.cache.peers[p].1 = state;
                proof {
                    lemma_assoc_update(entries, p as int, fresh_peer(peer_data));
                    assert(peer_entries(self.cache.peers@) =~= entries.update(p as int, (entries[p as int].0, fresh_peer(peer_data))));
                }
            },
            None => {
                self.cache.peers.push((peer.clone(), state));
                proof {
                    lemma_assoc_push(entries, peer@, fresh_peer(peer_data));
                    assert(peer_entries(self.cache.peers@) =~= entries.push((peer@, fresh_peer(peer_data))));
                }
            },
        }
    }

    /// Records a sensor value, provided the store knows the peer and the
    /// peer declared the device; otherwise the event is an orphan and the
    /// store stays as it was.
    pub fn insert_sensor_data(&mut self, peer: &NodeId, sensor_data: FullSensorData) -> (r: Option<()>)
        ensures
            r is Some <==> declares(old(self)@, peer@, sensor_data),
            r is Some ==> final(self)@ == old(self)@.insert(peer@, with_sensor_value(old(self)@[peer@], sensor_data)),
            r is None ==> final(self)@ == old(self)@,
            final(self).local() == old(self).local(),
            old(self).wf() ==> final(self).wf(),
    {
        let ghost peers0 = peer_entries(self.cache.peers@);
        let p = match find_peer(&self.cache.peers, peer) {
            Some(p) => p,
            None => {
                proof {
                    lemma_assoc_absent(peers0, peer@);
                }
                return None;
            },
        };
        proof {
            lemma_assoc_last(peers0, p as int);
        }
        let ghost devices0 = device_entries(self.cache.peers@[p as int].1.devices@);
        let d = match find_device(&self.cache.peers[p].1.devices, &sensor_data.device) {
            Some(d) => d,
            None => {
                proof {
                    lemma_assoc_absent(devices0, sensor_data.device@);
                }
                return None;
            },
        };
        proof {
            lemma_assoc_last(devices0, d as int);
        }
        let ghost sensors0 = sensor_entries(self.cache.peers@[p as int].1.devices@[d as int].1.sensors@);
        let ghost old_peer = self.cache.peers@[p as int].1@;
        let ghost old_device = self.cache.peers@[p as int].1.devices@[d as int].1@;
        let found = find_sensor(&self.cache.peers[p].1.devices[d].1.sensors, &sensor_data.sensor_name);
        let ghost name = sensor_data.sensor_name@;
        let ghost value = sensor_data.value;
        match found {
            Some(q) => {
                self.cache.peers[p].1.devices[d].1.sensors[q].1 = SensorState::new(sensor_data.value);
                proof {
                    lemma_assoc_update(sensors0, q as int, value);
                    assert(sensor_entries(self.cache.peers@[p as int].1.devices@[d as int].1.sensors@)
                        =~= sensors0.update(q as int, (sensors0[q as int].0, value)));
                }
            },
            None => {
                self.cache.peers[p].1.devices[d].1.sensors.push((sensor_data.sensor_name, SensorState::new(sensor_data.value)));
                proof {
                    lemma_assoc_push(sensors0, name, value);
                    assert(sensor_entries(self.cache.peers@[p as int].1.devices@[d as int].1.sensors@)
                        =~= sensors0.push((name, value)));
                }
            },
        }
        proof {
            let new_device = DeviceModel { device_type: old_device.device_type, sensors: old_device.sensors.insert(name, value) };
            assert(self.cache.peers@[p as int].1.devices@[d as int].1@ == new_device);
            lemma_assoc_update(devices0, d as int, new_device);
            assert(device_entries(self.cache.peers@[p as int].1.devices@)
                =~= devices0.update(d as int, (devices0[d as int].0, new_device)));
            let new_peer = with_sensor_value(old_peer, sensor_data);
            assert(self.cache.peers@[p as int].1@ == new_peer);
            lemma_assoc_update(peers0, p as int, new_peer);
            assert(peer_entries(self.cache.peers@) =~= peers0.update(p as int, (peers0[p as int].0, new_peer)));
        }
        Some(())
    }
}

/// Right after an identity arrives, the store holds exactly the devices the
/// identity declares, each of the declared kind.
pub proof fn lemma_identity_sets_catalogue(data: PeerData)
    ensures
        fresh_peer(data).devices.dom() == declared_devices(data).dom(),
{
    let s = data.devices@.map_values(|e: (String, RemotePeerDevice)|
        (e.0@, DeviceModel { device_type: e.1.device_type, sensors: Map::empty() }));
    let t = data.devices@.map_values(|e: (String, RemotePeerDevice)| (e.0@, e.1.device_type));
    lemma_assoc_same_keys(s, t);
}

/// Recording a sensor value neither adds nor removes peers or devices, and
/// renames no peer: every device that holds a value was declared by the
/// latest identity of its peer.
pub proof fn lemma_recording_keeps_catalogues(state: Map<Seq<u8>, PeerModel>, peer: Seq<u8>, data: FullSensorData)
    requires
        declares(state, peer, data),
    ensures
        ({
            let after = state.insert(peer, with_sensor_value(state[peer], data));
            &&& after.dom() == state.dom()
            &&& forall|p: Seq<u8>| #[trigger] state.contains_key(p) ==> after[p].name == state[p].name
                && after[p].devices.dom() == state[p].devices.dom()
        }),
{
    let after = state.insert(peer, with_sensor_value(state[peer], data));
    assert(after.dom() =~= state.dom());
    assert forall|p: Seq<u8>| #[trigger] state.contains_key(p) implies after[p].name == state[p].name
        && after[p].devices.dom() == state[p].devices.dom() by {
        if p == peer {
            assert(after[p].devices.dom() =~= state[p].devices.dom());
        }
    }
}

/// Recording the same sensor event twice leaves the store as recording it
/// once: duplicate deliveries from the mesh change nothing.
pub proof fn lemma_duplicate_delivery_is_idempotent(state: Map<Seq<u8>, PeerModel>, peer: Seq<u8>, data: FullSensorData)
    requires
        declares(state, peer, data),
    ensures
        ({
            let once = state.insert(peer, with_sensor_value(state[peer], data));
            &&& declares(once, peer, data)
            &&& once.insert(peer, with_sensor_value(once[peer], data)) == once
        }),
{
    let once = state.insert(peer, with_sensor_value(state[peer], data));
    let known = once[peer];
    let twice = with_sensor_value(known, data);
    assert(twice.devices[data.device@].sensors =~= known.devices[data.device@].sensors);
    assert(twice.devices =~= known.devices);
    assert(once.insert(peer, twice) =~= once);
}

} // verus!
