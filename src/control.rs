//! The rule engine: an immutable rule set, indexed by the sensor each rule
//! listens to, that turns sensor events into actions.
use vstd::prelude::*;
use crate::hardware::{FullActuatorData, FullSensorData};
use crate::measurement::{Measurement, kind_of, measurement_eq, measurement_lt, measurement_le};
use crate::node_id::{NodeId, node_view, same_node, copy_node};

verus! {

/// A condition on the value of a sensor event.
#[derive(Debug)]
pub enum ConditionOp {
    Any,
    Equal { value: Measurement },
    GreaterThan { value: Measurement },
    LessThan { value: Measurement },
    GreaterOrEqualThan { value: Measurement },
    LessOrEqualThan { value: Measurement },
}

/// Whether a condition holds of a value. A comparison between values that
/// cannot be ordered against each other never holds.
pub open spec fn condition_holds(op: ConditionOp, v: Measurement) -> bool {
    match op {
        ConditionOp::Any => true,
        ConditionOp::Equal { value } => measurement_eq(v, value),
        ConditionOp::GreaterThan { value } => measurement_lt(value, v) == Some(true),
        ConditionOp::LessThan { value } => measurement_lt(v, value) == Some(true),
        ConditionOp::GreaterOrEqualThan { value } => measurement_le(value, v) == Some(true),
        ConditionOp::LessOrEqualThan { value } => measurement_le(v, value) == Some(true),
    }
}

impl ConditionOp {
    /// Evaluates the condition on a value.
    pub fn holds_for(&self, v: &Measurement) -> (r: bool)
        ensures
            r == condition_holds(*self, *v),
    {
        match self {
            ConditionOp::Any => true,
            ConditionOp::Equal { value } => v.equals(value),
            ConditionOp::GreaterThan { value } => v.gt(value).unwrap_or(false),
            ConditionOp::LessThan { value } => v.lt(value).unwrap_or(false),
            ConditionOp::GreaterOrEqualThan { value } => v.geq(value).unwrap_or(false),
            ConditionOp::LessOrEqualThan { value } => v.leq(value).unwrap_or(false),
        }
    }
}

/// The model of a [`UniversalSensorIdentifier`]: its node (by bytes), device
/// and sensor name.
pub ghost struct SensorKey {
    pub node: Option<Seq<u8>>,
    pub device: Seq<char>,
    pub sensor_name: Seq<char>,
}

/// One sensor channel anywhere in the mesh; `node == None` is this node.
#[derive(Debug)]
pub struct UniversalSensorIdentifier {
    pub node: Option<NodeId>,
    pub device: String,
    pub sensor_name: String,
}

impl View for UniversalSensorIdentifier {
    type V = SensorKey;

    open spec fn view(&self) -> SensorKey {
        SensorKey {
            node: node_view(self.node),
            device: self.device@,
            sensor_name: self.sensor_name@,
        }
    }
}

/// The key under which a local event is looked up.
pub open spec fn local_key(data: FullSensorData) -> SensorKey {
    SensorKey { node: None, device: data.device@, sensor_name: data.sensor_name@ }
}

/// The key under which an event from node `peer` is looked up.
pub open spec fn remote_key(peer: Seq<u8>, data: FullSensorData) -> SensorKey {
    SensorKey { node: Some(peer), device: data.device@, sensor_name: data.sensor_name@ }
}

impl UniversalSensorIdentifier {
    pub fn from_local(data: FullSensorData) -> (r: Self)
        ensures
            r@ == local_key(data),
    {
        UniversalSensorIdentifier { node: None, device: data.device, sensor_name: data.sensor_name }
    }

    pub fn from_remote(node: NodeId, data: FullSensorData) -> (r: Self)
        ensures
            r@ == remote_key(node@, data),
    {
        UniversalSensorIdentifier {
            node: Some(node),
            device: data.device,
            sensor_name: data.sensor_name,
        }
    }

    /// Whether the event comes from this identifier's device and sensor
    /// (whatever its node).
    pub fn corresponds_with(&self, data: &FullSensorData) -> (r: bool)
        ensures
            r == (data.device@ == self.device@ && data.sensor_name@ == self.sensor_name@),
    {
        data.device == self.device && data.sensor_name == self.sensor_name
    }

    /// Whether two identifiers name the same channel.
    pub fn same_as(&self, other: &UniversalSensorIdentifier) -> (r: bool)
        ensures
            r == (self@ == other@),
    {
        same_node(&self.node, &other.node) && self.device == other.device
            && self.sensor_name == other.sensor_name
    }

    pub fn copy(&self) -> (r: Self)
        ensures
            r@ == self@,
    {
        UniversalSensorIdentifier {
            node: copy_node(&self.node),
            device: self.device.clone(),
            sensor_name: self.sensor_name.clone(),
        }
    }
}

/// The model of an [`Action`].
pub ghost struct ActionModel {
    pub node: Option<Seq<u8>>,
    pub actuator: FullActuatorData,
}

/// A command for an actuator on some node; `node == None` is this node.
#[derive(Debug)]
pub struct Action {
    pub node: Option<NodeId>,
    pub actuator: FullActuatorData,
}

impl View for Action {
    type V = ActionModel;

    open spec fn view(&self) -> ActionModel {
        ActionModel { node: node_view(self.node), actuator: self.actuator }
    }
}

impl Action {
    pub fn copy(&self) -> (r: Self)
        ensures
            r@ == self@,
    {
        Action { node: copy_node(&self.node), actuator: self.actuator.clone() }
    }
}

/// When the sensor `sensor` reports a value for which `on` holds, do `action`.
#[derive(Debug)]
pub struct Rule {
    pub sensor: UniversalSensorIdentifier,
    pub on: ConditionOp,
    pub action: Action,
}

/// The positions, in increasing order, of the first `n` rules that listen
/// to `key`.
pub open spec fn indices_upto(rules: Seq<Rule>, key: SensorKey, n: nat) -> Seq<usize>
    decreases n,
{
    if n == 0 {
        Seq::empty()
    } else {
        let prev = indices_upto(rules, key, (n - 1) as nat);
        if rules[n - 1].sensor@ == key {
            prev.push((n - 1) as usize)
        } else {
            prev
        }
    }
}

/// The actions of the first `n` rules that listen to `key` and whose
/// condition holds of `v`, in declaration order.
pub open spec fn fired_upto(rules: Seq<Rule>, key: SensorKey, v: Measurement, n: nat) -> Seq<ActionModel>
    decreases n,
{
    if n == 0 {
        Seq::empty()
    } else {
        let prev = fired_upto(rules, key, v, (n - 1) as nat);
        if rules[n - 1].sensor@ == key && condition_holds(rules[n - 1].on, v) {
            prev.push(rules[n - 1].action@)
        } else {
            prev
        }
    }
}

/// The actions that the rule set fires on value `v` coming from `key`.
pub open spec fn fired(rules: Seq<Rule>, key: SensorKey, v: Measurement) -> Seq<ActionModel> {
    fired_upto(rules, key, v, rules.len())
}

/// Whether some rule listens to `key`.
pub open spec fn listened(rules: Seq<Rule>, key: SensorKey) -> bool {
    exists|i: int| 0 <= i < rules.len() && #[trigger] rules[i].sensor@ == key
}

/// What the engine answers to an event with value `v` from `key`: nothing
/// when no rule listens to `key`, else the fired actions (maybe none).
pub open spec fn triggered(rules: Seq<Rule>, key: SensorKey, v: Measurement) -> Option<Seq<ActionModel>> {
    if listened(rules, key) {
        Some(fired(rules, key, v))
    } else {
        None
    }
}

/// The actions of the rules at positions `idxs` whose condition holds of `v`.
pub open spec fn fired_at(rules: Seq<Rule>, idxs: Seq<usize>, v: Measurement) -> Seq<ActionModel>
    decreases idxs.len(),
{
    if idxs.len() == 0 {
        Seq::empty()
    } else {
        let prev = fired_at(rules, idxs.drop_last(), v);
        let i = idxs.last() as int;
        if condition_holds(rules[i].on, v) {
            prev.push(rules[i].action@)
        } else {
            prev
        }
    }
}

proof fn lemma_indices_bounded(rules: Seq<Rule>, key: SensorKey, n: nat)
    requires
        n <= rules.len() <= usize::MAX,
    ensures
        forall|j: int| 0 <= j < indices_upto(rules, key, n).len()
            ==> #[trigger] indices_upto(rules, key, n)[j] < n,
        forall|j: int| 0 <= j < indices_upto(rules, key, n).len()
            ==> rules[indices_upto(rules, key, n)[j] as int].sensor@ == key,
    decreases n,
{
    if n > 0 {
        lemma_indices_bounded(rules, key, (n - 1) as nat);
    }
}

proof fn lemma_fired_by_index(rules: Seq<Rule>, key: SensorKey, v: Measurement, n: nat)
    requires
        n <= rules.len() <= usize::MAX,
    ensures
        fired_at(rules, indices_upto(rules, key, n), v) == fired_upto(rules, key, v, n),
    decreases n,
{
    if n > 0 {
        lemma_fired_by_index(rules, key, v, (n - 1) as nat);
        let prev = indices_upto(rules, key, (n - 1) as nat);
        if rules[n - 1].sensor@ == key {
            assert(prev.push((n - 1) as usize).drop_last() =~= prev);
        }
    }
}

proof fn lemma_not_listened(rules: Seq<Rule>, key: SensorKey, n: nat)
    requires
        n <= rules.len(),
        forall|i: int| 0 <= i < n ==> rules[i].sensor@ != key,
    ensures
        indices_upto(rules, key, n) == Seq::<usize>::empty(),
    decreases n,
{
    if n > 0 {
        lemma_not_listened(rules, key, (n - 1) as nat);
    }
}

proof fn lemma_fired_prefix(rules: Seq<Rule>, key: SensorKey, v: Measurement, m: nat, n: nat)
    requires
        m <= n <= rules.len(),
    ensures
        fired_upto(rules, key, v, m).len() <= fired_upto(rules, key, v, n).len(),
        fired_upto(rules, key, v, n).subrange(0, fired_upto(rules, key, v, m).len() as int)
            == fired_upto(rules, key, v, m),
    decreases n - m,
{
    if m < n {
        lemma_fired_prefix(rules, key, v, m, (n - 1) as nat);
        let a = fired_upto(rules, key, v, m);
        let b = fired_upto(rules, key, v, (n - 1) as nat);
        assert(b.push(rules[n - 1].action@).subrange(0, a.len() as int) =~= b.subrange(0, a.len() as int));
    } else {
        assert(fired_upto(rules, key, v, n).subrange(0, fired_upto(rules, key, v, n).len() as int)
            =~= fired_upto(rules, key, v, n));
    }
}

/// A rule that listens to the channel of a local event, and whose condition
/// holds of its value, fires: its action is in the engine's answer, right
/// after the actions of the rules declared before it that fire too.
pub proof fn lemma_matching_local_rule_fires(rules: Seq<Rule>, i: int, event: FullSensorData)
    requires
        0 <= i < rules.len(),
        rules[i].sensor.node is None,
        rules[i].sensor.device@ == event.device@,
        rules[i].sensor.sensor_name@ == event.sensor_name@,
        condition_holds(rules[i].on, event.value),
    ensures
        triggered(rules, local_key(event), event.value) matches Some(acts)
            && fired_upto(rules, local_key(event), event.value, i as nat).len() < acts.len()
            && acts[fired_upto(rules, local_key(event), event.value, i as nat).len() as int]
                == rules[i].action@,
{
    let key = local_key(event);
    assert(rules[i].sensor@ == key);
    assert(listened(rules, key));
    lemma_fired_prefix(rules, key, event.value, (i + 1) as nat, rules.len());
    let before = fired_upto(rules, key, event.value, i as nat);
    let upto = fired_upto(rules, key, event.value, (i + 1) as nat);
    assert(upto == before.push(rules[i].action@));
    let all = fired(rules, key, event.value);
    assert(all.subrange(0, upto.len() as int)[before.len() as int] == all[before.len() as int]);
}

/// Comparing measurements of different kinds is undefined, and a rule whose
/// condition orders the event's value against a value of another kind never
/// fires.
pub proof fn lemma_mixed_kinds_never_match(a: Measurement, b: Measurement)
    requires
        kind_of(a) != kind_of(b),
    ensures
        measurement_lt(a, b) is None,
        measurement_lt(b, a) is None,
        measurement_le(a, b) is None,
        measurement_le(b, a) is None,
        !condition_holds(ConditionOp::GreaterThan { value: b }, a),
        !condition_holds(ConditionOp::LessThan { value: b }, a),
        !condition_holds(ConditionOp::GreaterOrEqualThan { value: b }, a),
        !condition_holds(ConditionOp::LessOrEqualThan { value: b }, a),
{
}

/// Every action the engine fires comes from a rule that listens to exactly
/// the event's channel, node included: a rule for a sensor of node `p`
/// fires only on events that `p` reported, and a rule for a local sensor
/// only on local events.
pub proof fn lemma_fired_only_by_listeners(rules: Seq<Rule>, key: SensorKey, v: Measurement, n: nat)
    requires
        n <= rules.len(),
    ensures
        forall|k: int| 0 <= k < fired_upto(rules, key, v, n).len() ==> exists|i: int| 0 <= i < n
            && rules[i].sensor@ == key
            && condition_holds(rules[i].on, v)
            && #[trigger] fired_upto(rules, key, v, n)[k] == rules[i].action@,
    decreases n,
{
    if n > 0 {
        lemma_fired_only_by_listeners(rules, key, v, (n - 1) as nat);
        let prev = fired_upto(rules, key, v, (n - 1) as nat);
        let cur = fired_upto(rules, key, v, n);
        assert forall|k: int| 0 <= k < cur.len() implies exists|i: int| 0 <= i < n
            && rules[i].sensor@ == key
            && condition_holds(rules[i].on, v)
            && #[trigger] cur[k] == rules[i].action@ by {
            if k < prev.len() {
                assert(cur[k] == prev[k]);
                let i = choose|i: int| 0 <= i < n - 1 && rules[i].sensor@ == key
                    && condition_holds(rules[i].on, v) && #[trigger] prev[k] == rules[i].action@;
            } else {
                assert(cur[k] == rules[n - 1].action@);
            }
        }
    }
}

/// With no rules, no event triggers anything.
pub proof fn lemma_empty_rules_fire_nothing(key: SensorKey, v: Measurement)
    ensures
        triggered(Seq::<Rule>::empty(), key, v) is None,
{
}

/// The rules listening to one sensor channel.
struct Trigger {
    sensor: UniversalSensorIdentifier,
    rule_indices: Vec<usize>,
}

/// The position of the index entry for `key`, if there is one.
fn find_trigger(triggers: &Vec<Trigger>, key: &UniversalSensorIdentifier) -> (r: Option<usize>)
    ensures
        r matches Some(t) ==> t < triggers@.len() && triggers@[t as int].sensor@ == key@,
        r is None ==> forall|u: int| 0 <= u < triggers@.len() ==> (#[trigger] triggers@[u]).sensor@ != key@,
{
    let mut t: usize = 0;
    while t < triggers.len()
        invariant
            t <= triggers@.len(),
            forall|u: int| 0 <= u < t ==> (#[trigger] triggers@[u]).sensor@ != key@,
        decreases triggers@.len() - t,
    {
        if triggers[t].sensor.same_as(key) {
            return Some(t);
        }
        t = t + 1;
    }
    None
}

/// The engine: the rules, and for each channel that some rule listens to,
/// the positions of those rules.
pub struct ControlLayer {
    rule_triggers: Vec<Trigger>,
    rules: Vec<Rule>,
}

impl ControlLayer {
    pub closed spec fn rules(&self) -> Seq<Rule> {
        self.rules@
    }

    /// The index lists, for the channels seen among the first `n` rules,
    /// the positions of exactly the rules that listen to each.
    spec fn index_upto(triggers: Seq<Trigger>, rules: Seq<Rule>, n: nat) -> bool {
        &&& forall|t: int| 0 <= t < triggers.len()
            ==> (#[trigger] triggers[t]).rule_indices@ == indices_upto(rules, triggers[t].sensor@, n)
                && triggers[t].rule_indices@.len() > 0
        &&& forall|t: int, u: int| 0 <= t < triggers.len() && 0 <= u < triggers.len() && t != u
            ==> (#[trigger] triggers[t]).sensor@ != (#[trigger] triggers[u]).sensor@
        &&& forall|i: int| 0 <= i < n ==> exists|t: int| 0 <= t < triggers.len()
            && (#[trigger] triggers[t]).sensor@ == (#[trigger] rules[i]).sensor@
    }

    pub closed spec fn wf(&self) -> bool {
        &&& Self::index_upto(self.rule_triggers@, self.rules@, self.rules@.len())
        &&& self.rules@.len() <= usize::MAX
    }

    /// Loads a rule set and builds its index.
    pub fn from_ruleset(rules: Vec<Rule>) -> (r: Self)
        ensures
            r.wf(),
            r.rules() == rules@,
    {
        let mut rule_triggers: Vec<Trigger> = Vec::new();
        let n = rules.len();
        let mut i: usize = 0;
        while i < n
            invariant
                n == rules@.len(),
                i <= n,
                Self::index_upto(rule_triggers@, rules@, i as nat),
            decreases n - i,
        {
            let ghost before = rule_triggers@;
            let sensor = &rules[i].sensor;
            let found = find_trigger(&rule_triggers, sensor);
            proof {
                reveal_with_fuel(indices_upto, 2);
            }
            if let Some(t) = found {
                rule_triggers[t].rule_indices.push(i);
                proof {
                    let after = rule_triggers@;
                    assert(indices_upto(rules@, sensor@, (i + 1) as nat)
                        == indices_upto(rules@, sensor@, i as nat).push(i));
                    assert forall|u: int| 0 <= u < after.len() implies
                        (#[trigger] after[u]).rule_indices@
                            == indices_upto(rules@, after[u].sensor@, (i + 1) as nat) by {
                        if u != t {
                            assert(after[u] == before[u]);
                            assert(before[u].sensor@ != sensor@);
                            assert(indices_upto(rules@, after[u].sensor@, (i + 1) as nat)
                                == indices_upto(rules@, after[u].sensor@, i as nat));
                        }
                    }
                    assert forall|j: int| 0 <= j < i + 1 implies exists|u: int| 0 <= u < after.len()
                        && (#[trigger] after[u]).sensor@ == (#[trigger] rules@[j]).sensor@ by {
                        if j < i {
                            let u = choose|u: int| 0 <= u < before.len()
                                && (#[trigger] before[u]).sensor@ == (#[trigger] rules@[j]).sensor@;
                            assert(after[u].sensor@ == before[u].sensor@);
                        } else {
                            assert(after[t as int].sensor@ == rules@[j].sensor@);
                        }
                    }
                }
            } else {
                let mut idxs: Vec<usize> = Vec::new();
                idxs.push(i);
                proof {
                    assert forall|j: int| 0 <= j < i implies #[trigger] rules@[j].sensor@ != sensor@ by {
                        let u = choose|u: int| 0 <= u < before.len()
                            && (#[trigger] before[u]).sensor@ == (#[trigger] rules@[j]).sensor@;
                    }
                    lemma_not_listened(rules@, sensor@, i as nat);
                    assert(idxs@ =~= indices_upto(rules@, sensor@, (i + 1) as nat));
                }
                rule_triggers.push(Trigger { sensor: sensor.copy(), rule_indices: idxs });
                proof {
                    let after = rule_triggers@;
                    assert forall|u: int| 0 <= u < after.len() implies
                        (#[trigger] after[u]).rule_indices@
                            == indices_upto(rules@, after[u].sensor@, (i + 1) as nat) by {
                        if u < before.len() {
                            assert(after[u] == before[u]);
                            assert(before[u].sensor@ != sensor@);
                            assert(indices_upto(rules@, after[u].sensor@, (i + 1) as nat)
                                == indices_upto(rules@, after[u].sensor@, i as nat));
                        }
                    }
                    assert forall|j: int| 0 <= j < i + 1 implies exists|u: int| 0 <= u < after.len()
                        && (#[trigger] after[u]).sensor@ == (#[trigger] rules@[j]).sensor@ by {
                        if j < i {
                            let u = choose|u: int| 0 <= u < before.len()
                                && (#[trigger] before[u]).sensor@ == (#[trigger] rules@[j]).sensor@;
                            assert(after[u] == before[u]);
                        } else {
                            assert(after[before.len() as int].sensor@ == rules@[j].sensor@);
                        }
                    }
                }
            }
            i = i + 1;
        }
        ControlLayer { rule_triggers, rules }
    }

    /// Whether `rule`'s condition holds for the event; with `check_source`,
    /// the event must also come from the rule's device and sensor.
    fn evaluate_rule(rule: &Rule, input: &FullSensorData, check_source: bool) -> (r: bool)
        ensures
            r == ((!check_source || (input.device@ == rule.sensor.device@
                && input.sensor_name@ == rule.sensor.sensor_name@))
                && condition_holds(rule.on, input.value)),
    {
        if check_source && !rule.sensor.corresponds_with(input) {
            return false;
        }
        rule.on.holds_for(&input.value)
    }

    /// The actions that the rules listening to `key` fire on `sensor`.
    fn trigger_key(&self, key: &UniversalSensorIdentifier, sensor: &FullSensorData) -> (r: Option<Vec<Action>>)
        requires
            self.wf(),
        ensures
            r is None <==> triggered(self.rules(), key@, sensor.value) is None,
            r matches Some(acts) ==> Some(acts@.map_values(|a: Action| a@))
                == triggered(self.rules(), key@, sensor.value),
    {
        let t = match find_trigger(&self.rule_triggers, key) {
            Some(t) => t,
            None => {
                proof {
                    assert forall|i: int| 0 <= i < self.rules@.len() implies
                        #[trigger] self.rules@[i].sensor@ != key@ by {
                        let u = choose|u: int| 0 <= u < self.rule_triggers@.len()
                            && (#[trigger] self.rule_triggers@[u]).sensor@ == (#[trigger] self.rules@[i]).sensor@;
                    }
                }
                return None;
            },
        };
        let idxs = &self.rule_triggers[t].rule_indices;
        let ghost all = idxs@;
        proof {
            lemma_indices_bounded(self.rules@, key@, self.rules@.len());
            lemma_fired_by_index(self.rules@, key@, sensor.value, self.rules@.len());
        }
        let mut actions: Vec<Action> = Vec::new();
        let mut j: usize = 0;
        while j < idxs.len()
            invariant
                self.wf(),
                all == idxs@,
                all == indices_upto(self.rules@, key@, self.rules@.len()),
                forall|k: int| 0 <= k < all.len() ==> #[trigger] all[k] < self.rules@.len(),
                j <= all.len(),
                actions@.map_values(|a: Action| a@) == fired_at(self.rules@, all.subrange(0, j as int), sensor.value),
            decreases all.len() - j,
        {
            let rule = &self.rules[idxs[j]];
            if Self::evaluate_rule(rule, sensor, false) {
                actions.push(rule.action.copy());
            }
            proof {
                assert(all.subrange(0, j + 1).drop_last() =~= all.subrange(0, j as int));
                assert(actions@.map_values(|a: Action| a@) =~= fired_at(self.rules@, all.subrange(0, j + 1), sensor.value));
            }
            j = j + 1;
        }
        proof {
            assert(all.subrange(0, all.len() as int) =~= all);
            if all.len() > 0 {
                assert(self.rules@[all[0] as int].sensor@ == key@);
            }
        }
        Some(actions)
    }

    /// The actions fired by an event of this node's own devices.
    pub fn trigger_local(&self, sensor: &FullSensorData) -> (r: Option<Vec<Action>>)
        requires
            self.wf(),
        ensures
            r is None <==> triggered(self.rules(), local_key(*sensor), sensor.value) is None,
            r matches Some(acts) ==> Some(acts@.map_values(|a: Action| a@))
                == triggered(self.rules(), local_key(*sensor), sensor.value),
    {
        let key = UniversalSensorIdentifier::from_local(sensor.clone());
        self.trigger_key(&key, sensor)
    }

    /// The actions fired by an event that node `peer` reported.
    pub fn trigger_remote(&self, peer: &NodeId, sensor: &FullSensorData) -> (r: Option<Vec<Action>>)
        requires
            self.wf(),
        ensures
            r is None <==> triggered(self.rules(), remote_key(peer@, *sensor), sensor.value) is None,
            r matches Some(acts) ==> Some(acts@.map_values(|a: Action| a@))
                == triggered(self.rules(), remote_key(peer@, *sensor), sensor.value),
    {
        let key = UniversalSensorIdentifier::from_remote(peer.clone(), sensor.clone());
        self.trigger_key(&key, sensor)
    }
}

} // verus!
