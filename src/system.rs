//! The decisions of a node's event loop. The loop itself (timers, the
//! network, the web bridge, device workers) runs outside; it hands each
//! event to a [`System`] and carries out what comes back.
use vstd::prelude::*;
use crate::control::{Action, ActionModel, ControlLayer, Rule, triggered, fired_upto, local_key, remote_key, condition_holds, lemma_matching_local_rule_fires};
use crate::hardware::{FullActuatorData, FullSensorData};
use crate::node_id::{NodeId, base58_of};
use crate::store::{PeerData, PeerModel, Storage, declares, fresh_peer, with_sensor_value};

verus! {

/// What nodes gossip to each other.
#[derive(Debug)]
pub enum DiotdBroadcast {
    /// The sender's name and device catalogue.
    Identity(PeerData),
    /// One sensor event of the sender.
    SensorData(FullSensorData),
}

/// What the web bridge pushes to its clients; `node` is the Base58 id of
/// the node the data is about.
#[derive(Debug)]
#[allow(inconsistent_fields)]
pub enum WebserverMessage {
    SensorData { node: String, data: FullSensorData },
    PeerIdentity { node: String, data: PeerData },
}

/// Where the web bridge listens.
#[derive(Clone, Copy, Debug, PartialEq, Eq, Structural)]
pub struct WebserverConfig {
    pub port: u16,
}

/// Where an action is carried out.
#[derive(Debug)]
pub enum Dispatch {
    /// On a device of this node.
    Local(FullActuatorData),
    /// On a device of another node, through a network request.
    Remote { node: NodeId, actuator: FullActuatorData },
}

pub ghost enum DispatchModel {
    Local(FullActuatorData),
    Remote(Seq<u8>, FullActuatorData),
}

impl View for Dispatch {
    type V = DispatchModel;

    open spec fn view(&self) -> DispatchModel {
        match self {
            Dispatch::Local(a) => DispatchModel::Local(*a),
            Dispatch::Remote { node, actuator } => DispatchModel::Remote(node@, *actuator),
        }
    }
}

/// An action is local when it names no node or names this node.
pub open spec fn dispatch_of(a: ActionModel, local: Seq<u8>) -> DispatchModel {
    match a.node {
        Some(n) => if n == local {
            DispatchModel::Local(a.actuator)
        } else {
            DispatchModel::Remote(n, a.actuator)
        },
        None => DispatchModel::Local(a.actuator),
    }
}

pub open spec fn dispatches_of(actions: Seq<ActionModel>, local: Seq<u8>) -> Seq<DispatchModel> {
    actions.map_values(|a: ActionModel| dispatch_of(a, local))
}

/// What the rules make of an event, as dispatches, in rule order.
pub open spec fn fired_dispatches(answer: Option<Seq<ActionModel>>, local: Seq<u8>) -> Seq<DispatchModel> {
    match answer {
        Some(acts) => dispatches_of(acts, local),
        None => Seq::empty(),
    }
}

/// A local event on a channel that a rule listens to, with a value for
/// which the rule's condition holds, makes the node carry out that rule's
/// action, after the actions of the matching rules declared before it.
pub proof fn lemma_matching_local_rule_is_dispatched(rules: Seq<Rule>, i: int, event: FullSensorData, local: Seq<u8>)
    requires
        0 <= i < rules.len(),
        rules[i].sensor.node is None,
        rules[i].sensor.device@ == event.device@,
        rules[i].sensor.sensor_name@ == event.sensor_name@,
        condition_holds(rules[i].on, event.value),
    ensures
        ({
            let out = fired_dispatches(triggered(rules, local_key(event), event.value), local);
            let k = fired_upto(rules, local_key(event), event.value, i as nat).len() as int;
            k < out.len() && out[k] == dispatch_of(rules[i].action@, local)
        }),
{
    lemma_matching_local_rule_fires(rules, i, event);
}

/// What the loop must do after an event: push `web` to the web bridge,
/// then carry out `dispatches` in order.
#[derive(Debug)]
pub struct EventEffects {
    pub web: Option<WebserverMessage>,
    pub dispatches: Vec<Dispatch>,
}

/// The web message for a sensor event of node `origin`.
pub open spec fn is_sensor_push(m: WebserverMessage, origin: Seq<u8>, data: FullSensorData) -> bool {
    m matches WebserverMessage::SensorData { node, data: d } && node@ == base58_of(origin) && d == data
}

/// The web message for an identity of node `sender`.
pub open spec fn is_identity_push(m: WebserverMessage, sender: Seq<u8>, data: PeerData) -> bool {
    m matches WebserverMessage::PeerIdentity { node, data: d } && node@ == base58_of(sender)
        && d.name == data.name && d.devices@ == data.devices@
}

/// The state a node's loop decides with: its own identity, its view of the
/// mesh and its rules.
pub struct System {
    local_peer_id: NodeId,
    identity: PeerData,
    storage: Storage,
    control: ControlLayer,
}

impl System {
    pub closed spec fn local(&self) -> Seq<u8> {
        self.local_peer_id@
    }

    /// The node's view of the mesh.
    pub closed spec fn mesh(&self) -> Map<Seq<u8>, PeerModel> {
        self.storage@
    }

    pub closed spec fn rules(&self) -> Seq<Rule> {
        self.control.rules()
    }

    pub closed spec fn identity(&self) -> PeerData {
        self.identity
    }

    pub closed spec fn wf(&self) -> bool {
        &&& self.storage.wf()
        &&& self.control.wf()
        &&& self.storage.local() == self.local_peer_id@
    }

    /// A node that knows only itself, with a fixed rule set.
    pub fn new(local_peer_id: NodeId, identity: PeerData, rules: Vec<Rule>) -> (r: Self)
        ensures
            r.wf(),
            r.local() == local_peer_id@,
            r.mesh() == Map::<Seq<u8>, PeerModel>::empty().insert(local_peer_id@, fresh_peer(identity)),
            r.rules() == rules@,
            r.identity() == identity,
    {
        let storage = Storage::new(local_peer_id.clone(), identity.copy());
        let control = ControlLayer::from_ruleset(rules);
        System { local_peer_id, identity, storage, control }
    }

    pub fn local_peer_id(&self) -> (r: NodeId)
        ensures
            r@ == self.local(),
    {
        self.local_peer_id.clone()
    }

    /// The node's view of the mesh, for snapshots.
    pub fn storage(&self) -> (r: &Storage)
        ensures
            r@ == self.mesh(),
    {
        &self.storage
    }

    /// The identity that the node publishes on every heartbeat.
    pub fn identity_broadcast(&self) -> (r: DiotdBroadcast)
        ensures
            r matches DiotdBroadcast::Identity(d) && d.name == self.identity().name
                && d.devices@ == self.identity().devices@,
    {
        DiotdBroadcast::Identity(self.identity.copy())
    }

    /// Where each action is carried out, in order.
    pub fn handle_actions(&self, actions: &Vec<Action>) -> (r: Vec<Dispatch>)
        ensures
            r@.map_values(|d: Dispatch| d@) == dispatches_of(actions@.map_values(|a: Action| a@), self.local()),
    {
        let ghost want = dispatches_of(actions@.map_values(|a: Action| a@), self.local());
        let mut out: Vec<Dispatch> = Vec::new();
        let mut i: usize = 0;
        while i < actions.len()
            invariant
                i <= actions@.len(),
                want == dispatches_of(actions@.map_values(|a: Action| a@), self.local()),
                out@.len() == i,
                out@.map_values(|d: Dispatch| d@) == want.subrange(0, i as int),
            decreases actions@.len() - i,
        {
            let action = &actions[i];
            let d = match &action.node {
                Some(n) => if n.same_as(&self.local_peer_id) {
                    Dispatch::Local(action.actuator.clone())
                } else {
                    Dispatch::Remote { node: n.clone(), actuator: action.actuator.clone() }
                },
                None => Dispatch::Local(action.actuator.clone()),
            };
            assert(d@ == want[i as int]);
            let ghost before = out@;
            out.push(d);
            proof {
                assert forall|j: int| 0 <= j < i implies out@[j]@ == #[trigger] before[j]@ by {
                    assert(out@[j] == before[j]);
                }
                assert(out@.map_values(|d: Dispatch| d@) =~= want.subrange(0, i + 1));
            }
            i = i + 1;
        }
        proof {
            assert(want.subrange(0, actions@.len() as int) =~= want);
        }
        out
    }

    /// Records a sensor event of node `origin`; the web message when it
    /// was recorded, `None` for an orphan.
    fn handle_sensor_data(&mut self, origin: &NodeId, sensor_data: &FullSensorData) -> (r: Option<WebserverMessage>)
        requires
            old(self).wf(),
        ensures
            final(self).wf(),
            final(self).local() == old(self).local(),
            final(self).rules() == old(self).rules(),
            final(self).identity() == old(self).identity(),
            r is Some <==> declares(old(self).mesh(), origin@, *sensor_data),
            declares(old(self).mesh(), origin@, *sensor_data) ==> final(self).mesh()
                == old(self).mesh().insert(origin@, with_sensor_value(old(self).mesh()[origin@], *sensor_data)),
            !declares(old(self).mesh(), origin@, *sensor_data) ==> final(self).mesh() == old(self).mesh(),
            r matches Some(m) ==> is_sensor_push(m, origin@, *sensor_data),
    {
        match self.storage.insert_sensor_data(origin, sensor_data.clone()) {
            Some(_) => Some(WebserverMessage::SensorData { node: origin.to_base58(), data: sensor_data.clone() }),
            None => None,
        }
    }

    /// The dispatches for the rules' answer to an event.
    fn dispatch_answer(&self, answer: Option<Vec<Action>>) -> (r: Vec<Dispatch>)
        ensures
            r@.map_values(|d: Dispatch| d@) == fired_dispatches(
                match answer { Some(acts) => Some(acts@.map_values(|a: Action| a@)), None => None },
                self.local(),
            ),
    {
        match answer {
            Some(actions) => self.handle_actions(&actions),
            None => {
                let r: Vec<Dispatch> = Vec::new();
                proof {
                    assert(r@.map_values(|d: Dispatch| d@) =~= Seq::empty());
                }
                r
            },
        }
    }

    /// An event of one of this node's own devices (already published to the
    /// mesh by the loop): record it, push it to the web, and run the rules
    /// that listen to local sensors. The rules run on every local event; an
    /// event the store cannot place is only left out of the store and the
    /// web push.
    pub fn handle_local_sensor_data(&mut self, sensor_data: &FullSensorData) -> (r: EventEffects)
        requires
            old(self).wf(),
        ensures
            final(self).wf(),
            final(self).local() == old(self).local(),
            final(self).rules() == old(self).rules(),
            final(self).identity() == old(self).identity(),
            r.web is Some <==> declares(old(self).mesh(), old(self).local(), *sensor_data),
            declares(old(self).mesh(), old(self).local(), *sensor_data) ==> final(self).mesh()
                == old(self).mesh().insert(old(self).local(), with_sensor_value(old(self).mesh()[old(self).local()], *sensor_data)),
            !declares(old(self).mesh(), old(self).local(), *sensor_data) ==> final(self).mesh() == old(self).mesh(),
            r.web matches Some(m) ==> is_sensor_push(m, old(self).local(), *sensor_data),
            r.dispatches@.map_values(|d: Dispatch| d@)
                == fired_dispatches(triggered(old(self).rules(), local_key(*sensor_data), sensor_data.value), old(self).local()),
    {
        let local = self.local_peer_id.clone();
        let web = self.handle_sensor_data(&local, sensor_data);
        let answer = self.control.trigger_local(sensor_data);
        let dispatches = self.dispatch_answer(answer);
        EventEffects { web, dispatches }
    }

    /// A sensor event that node `sender` published: record it, push it to
    /// the web, and run the rules that listen to that node's sensor. An
    /// event from an unknown node, or for a device it did not declare, is
    /// dropped and fires nothing.
    pub fn handle_remote_sensor_data(&mut self, sender: &NodeId, sensor_data: &FullSensorData) -> (r: EventEffects)
        requires
            old(self).wf(),
        ensures
            final(self).wf(),
            final(self).local() == old(self).local(),
            final(self).rules() == old(self).rules(),
            final(self).identity() == old(self).identity(),
            r.web is Some <==> declares(old(self).mesh(), sender@, *sensor_data),
            declares(old(self).mesh(), sender@, *sensor_data) ==> final(self).mesh()
                == old(self).mesh().insert(sender@, with_sensor_value(old(self).mesh()[sender@], *sensor_data)),
            !declares(old(self).mesh(), sender@, *sensor_data) ==> final(self).mesh() == old(self).mesh(),
            r.web matches Some(m) ==> is_sensor_push(m, sender@, *sensor_data),
            r.dispatches@.map_values(|d: Dispatch| d@) == if declares(old(self).mesh(), sender@, *sensor_data) {
                fired_dispatches(triggered(old(self).rules(), remote_key(sender@, *sensor_data), sensor_data.value), old(self).local())
            } else {
                Seq::empty()
            },
    {
        let web = self.handle_sensor_data(sender, sensor_data);
        if web.is_none() {
            let dispatches: Vec<Dispatch> = Vec::new();
            proof {
                assert(dispatches@.map_values(|d: Dispatch| d@) =~= Seq::empty());
            }
            return EventEffects { web, dispatches };
        }
        let answer = self.control.trigger_remote(sender, sensor_data);
        let dispatches = self.dispatch_answer(answer);
        EventEffects { web, dispatches }
    }

    /// How logs name node `sender`: its declared name, or a placeholder with
    /// its id while it has not introduced itself.
    pub fn sender_name(&self, sender: &NodeId) -> (r: String)
        ensures
            self.mesh().contains_key(sender@) ==> r@ == self.mesh()[sender@].name,
            !self.mesh().contains_key(sender@) ==> r@ == "<unregistered peer "@ + base58_of(sender@) + ">"@,
    {
        match self.storage.peer_name(sender) {
            Some(name) => name,
            None => String::from_str("<unregistered peer ").concat(sender.to_base58().as_str()).concat(">"),
        }
    }

    /// A broadcast that node `sender` published: an identity or a sensor
    /// event, each handled as its own handler says.
    pub fn handle_broadcast(&mut self, sender: &NodeId, broadcast: DiotdBroadcast) -> (r: EventEffects)
        requires
            old(self).wf(),
        ensures
            final(self).wf(),
            final(self).local() == old(self).local(),
            final(self).rules() == old(self).rules(),
            final(self).identity() == old(self).identity(),
            match broadcast {
                DiotdBroadcast::Identity(data) => {
                    &&& final(self).mesh() == old(self).mesh().insert(sender@, fresh_peer(data))
                    &&& r.web matches Some(m) && is_identity_push(m, sender@, data)
                    &&& r.dispatches@.len() == 0
                },
                DiotdBroadcast::SensorData(data) => {
                    &&& r.web is Some <==> declares(old(self).mesh(), sender@, data)
                    &&& declares(old(self).mesh(), sender@, data) ==> final(self).mesh()
                        == old(self).mesh().insert(sender@, with_sensor_value(old(self).mesh()[sender@], data))
                    &&& !declares(old(self).mesh(), sender@, data) ==> final(self).mesh() == old(self).mesh()
                    &&& r.web matches Some(m) ==> is_sensor_push(m, sender@, data)
                    &&& r.dispatches@.map_values(|d: Dispatch| d@) == if declares(old(self).mesh(), sender@, data) {
                        fired_dispatches(triggered(old(self).rules(), remote_key(sender@, data), data.value), old(self).local())
                    } else {
                        Seq::empty()
                    }
                },
            },
    {
        match broadcast {
            DiotdBroadcast::Identity(data) => {
                let web = self.handle_identity(sender, data);
                EventEffects { web: Some(web), dispatches: Vec::new() }
            },
            DiotdBroadcast::SensorData(data) => self.handle_remote_sensor_data(sender, &data),
        }
    }

    /// An identity that node `sender` published: it replaces what the node
    /// knew of the sender, and goes to the web.
    pub fn handle_identity(&mut self, sender: &NodeId, peer_data: PeerData) -> (r: WebserverMessage)
        requires
            old(self).wf(),
        ensures
            final(self).wf(),
            final(self).local() == old(self).local(),
            final(self).rules() == old(self).rules(),
            final(self).identity() == old(self).identity(),
            final(self).mesh() == old(self).mesh().insert(sender@, fresh_peer(peer_data)),
            is_identity_push(r, sender@, peer_data),
    {
        let copy = peer_data.copy();
        self.storage.insert_peer_data(sender, peer_data);
        WebserverMessage::PeerIdentity { node: sender.to_base58(), data: copy }
    }
}

} // verus!
