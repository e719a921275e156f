//! The EC2 instances of Ray clusters: how they are recognised from their tags,
//! which of them are listed, and how a listed one is shown.

use vstd::prelude::*;
use vstd::string::*;
use crate::pattern::{regex_matches, regex_valid, Pattern, PatternError};
use crate::text::{concat, decimal, str_eq, to_decimal};

verus! {

/// The role of a node in a Ray cluster.
#[derive(Debug, Clone, Copy, PartialEq, Eq, Structural)]
pub enum NodeType {
    Head,
    Worker,
}

/// The name of a node type, as Ray writes it in the `ray-node-type` tag.
pub open spec fn node_type_name(t: NodeType) -> Seq<char> {
    match t {
        NodeType::Head => "head"@,
        NodeType::Worker => "worker"@,
    }
}

/// The node type of the given name, if it names one.
pub open spec fn parse_node_type(s: Seq<char>) -> Option<NodeType> {
    if s == "head"@ {
        Some(NodeType::Head)
    } else if s == "worker"@ {
        Some(NodeType::Worker)
    } else {
        None
    }
}

/// A name that is not one of a node type.
#[derive(Debug, Clone, PartialEq, Eq)]
pub struct UnrecognizedNodeType(pub String);

impl NodeType {
    pub fn as_str(self) -> (s: &'static str)
        ensures
            s@ == node_type_name(self),
    {
        match self {
            NodeType::Head => "head",
            NodeType::Worker => "worker",
        }
    }

    /// The node type named `s`.
    pub fn from_str(s: &str) -> (r: Result<NodeType, UnrecognizedNodeType>)
        ensures
            match parse_node_type(s@) {
                Some(t) => r == Ok::<NodeType, UnrecognizedNodeType>(t),
                None => r matches Err(e) && e.0@ == s@,
            },
    {
        if str_eq(s, "head") {
            Ok(NodeType::Head)
        } else if str_eq(s, "worker") {
            Ok(NodeType::Worker)
        } else {
            Err(UnrecognizedNodeType(s.to_owned()))
        }
    }
}

/// The name of a node type reads back as that node type, and only the names
/// of node types read as node types.
pub proof fn lemma_node_type_names_round_trip(t: NodeType, s: Seq<char>)
    ensures
        parse_node_type(node_type_name(t)) == Some(t),
        parse_node_type(s) matches Some(u) ==> s == node_type_name(u),
{
    reveal_strlit("head");
    reveal_strlit("worker");
    assert("head"@ != "worker"@) by {
        assert("head"@.len() != "worker"@.len());
    }
}

/// The state of an EC2 instance.
#[derive(Debug, Clone, PartialEq, Eq)]
pub enum InstanceState {
    Pending,
    Running,
    ShuttingDown,
    Stopped,
    Stopping,
    Terminated,
    /// A state this library does not know, by its name.
    Unknown(String),
}

impl InstanceState {
    /// The name of the state, as EC2 writes it.
    pub fn as_str(&self) -> (s: &str)
        ensures
            match self {
                InstanceState::Pending => s@ == "pending"@,
                InstanceState::Running => s@ == "running"@,
                InstanceState::ShuttingDown => s@ == "shutting-down"@,
                InstanceState::Stopped => s@ == "stopped"@,
                InstanceState::Stopping => s@ == "stopping"@,
                InstanceState::Terminated => s@ == "terminated"@,
                InstanceState::Unknown(name) => s@ == name@,
            },
    {
        match self {
            InstanceState::Pending => "pending",
            InstanceState::Running => "running",
            InstanceState::ShuttingDown => "shutting-down",
            InstanceState::Stopped => "stopped",
            InstanceState::Stopping => "stopping",
            InstanceState::Terminated => "terminated",
            InstanceState::Unknown(name) => name.as_str(),
        }
    }

    /// A copy of the state.
    pub fn duplicate(&self) -> (r: InstanceState)
        ensures
            r == *self,
    {
        match self {
            InstanceState::Pending => InstanceState::Pending,
            InstanceState::Running => InstanceState::Running,
            InstanceState::ShuttingDown => InstanceState::ShuttingDown,
            InstanceState::Stopped => InstanceState::Stopped,
            InstanceState::Stopping => InstanceState::Stopping,
            InstanceState::Terminated => InstanceState::Terminated,
            InstanceState::Unknown(name) => InstanceState::Unknown(name.clone()),
        }
    }
}

/// An IPv4 address.
#[derive(Debug, Clone, Copy, PartialEq, Eq, Structural)]
pub struct Ipv4Address {
    pub a: u8,
    pub b: u8,
    pub c: u8,
    pub d: u8,
}

/// The dotted-decimal spelling of an address.
pub open spec fn ipv4_text(addr: Ipv4Address) -> Seq<char> {
    decimal(addr.a as nat) + seq!['.'] + decimal(addr.b as nat) + seq!['.'] + decimal(
        addr.c as nat,
    ) + seq!['.'] + decimal(addr.d as nat)
}

impl Ipv4Address {
    /// The dotted-decimal spelling of the address.
    pub fn to_text(&self) -> (s: String)
        ensures
            s@ == ipv4_text(*self),
    {
        proof {
            reveal_strlit(".");
        }
        let mut s = to_decimal(self.a as u64);
        s.append(".");
        s.append(to_decimal(self.b as u64).as_str());
        s.append(".");
        s.append(to_decimal(self.c as u64).as_str());
        s.append(".");
        s.append(to_decimal(self.d as u64).as_str());
        s
    }
}

/// A tag of an EC2 instance, as the EC2 API reports it.
pub struct Tag {
    pub key: Option<String>,
    pub value: Option<String>,
}

/// What the EC2 API reports of an instance, as far as the launcher reads it.
pub struct InstanceRecord {
    pub instance_id: Option<String>,
    pub tags: Option<Vec<Tag>>,
    pub key_name: Option<String>,
    /// The public address, where one is reported and reads as an address.
    pub public_ipv4_address: Option<Ipv4Address>,
    pub state: Option<InstanceState>,
}

/// An instance of a Ray cluster.
pub struct AwsInstance {
    pub instance_id: String,
    /// The cluster name (the `ray-cluster-name` tag).
    pub regular_name: String,
    /// The instance name Ray gave (the `Name` tag).
    pub ray_name: String,
    pub key_pair_name: Option<String>,
    pub public_ipv4_address: Option<Ipv4Address>,
    pub state: Option<InstanceState>,
    pub node_type: NodeType,
}

/// The value of the last tag with the given key (tags lacking a key or a
/// value are skipped).
pub open spec fn tag_value(tags: Seq<Tag>, key: Seq<char>) -> Option<String>
    decreases tags.len(),
{
    if tags.len() == 0 {
        None
    } else {
        let t = tags.last();
        if t.key is Some && t.value is Some && t.key->0@ == key {
            Some(t.value->0)
        } else {
            tag_value(tags.drop_last(), key)
        }
    }
}

/// The node type given by the last `ray-node-type` tag.
pub open spec fn tagged_node_type(tags: Seq<Tag>) -> Option<NodeType> {
    match tag_value(tags, "ray-node-type"@) {
        Some(v) => parse_node_type(v@),
        None => None,
    }
}

/// The instance of a Ray cluster that a record describes: it needs tags, an
/// id, a `Name` tag, a `ray-cluster-name` tag and a readable `ray-node-type`
/// tag.
pub open spec fn instance_of_record(rec: InstanceRecord) -> Option<AwsInstance> {
    match rec.tags {
        None => None,
        Some(tags) => {
            let tags = tags@;
            match (
                tag_value(tags, "Name"@),
                tag_value(tags, "ray-cluster-name"@),
                rec.instance_id,
                tagged_node_type(tags),
            ) {
                (Some(ray_name), Some(regular_name), Some(instance_id), Some(node_type)) => Some(
                    AwsInstance {
                        instance_id,
                        regular_name,
                        ray_name,
                        key_pair_name: rec.key_name,
                        public_ipv4_address: rec.public_ipv4_address,
                        state: rec.state,
                        node_type,
                    },
                ),
                _ => None,
            }
        },
    }
}

fn clone_opt_string(s: &Option<String>) -> (r: Option<String>)
    ensures
        r == *s,
{
    match s {
        Some(s) => Some(s.clone()),
        None => None,
    }
}

fn clone_opt_state(s: &Option<InstanceState>) -> (r: Option<InstanceState>)
    ensures
        r == *s,
{
    match s {
        Some(s) => Some(s.duplicate()),
        None => None,
    }
}

/// The instance of a Ray cluster that a record describes, if it describes
/// one.
pub fn instance_from_record(rec: &InstanceRecord) -> (r: Option<AwsInstance>)
    ensures
        r == instance_of_record(*rec),
{
    let tags = match &rec.tags {
        Some(tags) => tags,
        None => {
            return None;
        },
    };
    let mut ray_name: Option<String> = None;
    let mut regular_name: Option<String> = None;
    let mut node_type: Option<NodeType> = None;
    let n = tags.len();
    for i in 0..n
        invariant
            n == tags@.len(),
            ray_name == tag_value(tags@.take(i as int), "Name"@),
            regular_name == tag_value(tags@.take(i as int), "ray-cluster-name"@),
            node_type == tagged_node_type(tags@.take(i as int)),
    {
        let ghost prefix = tags@.take(i + 1);
        assert(prefix.drop_last() =~= tags@.take(i as int));
        assert(prefix.last() == tags@[i as int]);
        let tag = &tags[i];
        proof {
            reveal_strlit("Name");
            reveal_strlit("ray-cluster-name");
            reveal_strlit("ray-node-type");
            assert("Name"@.len() == 4);
            assert("ray-cluster-name"@.len() == 16);
            assert("ray-node-type"@.len() == 13);
        }
        match (&tag.key, &tag.value) {
            (Some(key), Some(value)) => {
                if str_eq(key.as_str(), "Name") {
                    ray_name = Some(value.clone());
                } else if str_eq(key.as_str(), "ray-cluster-name") {
                    regular_name = Some(value.clone());
                } else if str_eq(key.as_str(), "ray-node-type") {
                    node_type = match NodeType::from_str(value.as_str()) {
                        Ok(t) => Some(t),
                        Err(_) => None,
                    };
                }
            },
            _ => {},
        }
    }
    assert(tags@.take(n as int) =~= tags@);
    match (ray_name, regular_name, &rec.instance_id, node_type) {
        (Some(ray_name), Some(regular_name), Some(instance_id), Some(node_type)) => Some(
            AwsInstance {
                instance_id: instance_id.clone(),
                regular_name,
                ray_name,
                key_pair_name: clone_opt_string(&rec.key_name),
                public_ipv4_address: rec.public_ipv4_address,
                state: clone_opt_state(&rec.state),
                node_type,
            },
        ),
        _ => None,
    }
}

/// The instances of Ray clusters among the records, in order.
pub fn instances_from_records(records: &Vec<InstanceRecord>) -> (r: Vec<AwsInstance>)
    ensures
        r@ == records@.filter_map(|rec: InstanceRecord| instance_of_record(rec)),
{
    let mut r: Vec<AwsInstance> = Vec::new();
    let n = records.len();
    for i in 0..n
        invariant
            n == records@.len(),
            r@ == records@.take(i as int).filter_map(|rec: InstanceRecord| instance_of_record(rec)),
    {
        proof {
            records@.lemma_filter_map_take_succ(
                |rec: InstanceRecord| instance_of_record(rec),
                i as int,
            );
        }
        match instance_from_record(&records[i]) {
            Some(inst) => {
                r.push(inst);
            },
            None => {},
        }
    }
    assert(records@.take(n as int) =~= records@);
    r
}

/// The name of a state, as EC2 writes it.
pub open spec fn state_name(s: InstanceState) -> Seq<char> {
    match s {
        InstanceState::Pending => "pending"@,
        InstanceState::Running => "running"@,
        InstanceState::ShuttingDown => "shutting-down"@,
        InstanceState::Stopped => "stopped"@,
        InstanceState::Stopping => "stopping"@,
        InstanceState::Terminated => "terminated"@,
        InstanceState::Unknown(name) => name@,
    }
}

/// Whether an instance is listed: when `head` is set only head nodes are,
/// when `running` is set only running instances are, and when a pattern is
/// given only instances whose cluster name it matches are.
pub open spec fn is_listed(
    inst: AwsInstance,
    pattern: Option<Seq<char>>,
    head: bool,
    running: bool,
) -> bool {
    &&& !(head && inst.node_type != NodeType::Head)
    &&& !(running && !(inst.state matches Some(InstanceState::Running)))
    &&& match pattern {
        Some(p) => regex_matches(p, inst.regular_name@),
        None => true,
    }
}

/// `ix` are, in increasing order, exactly the positions of the listed
/// instances.
pub open spec fn is_listing(
    ix: Seq<usize>,
    instances: Seq<AwsInstance>,
    pattern: Option<Seq<char>>,
    head: bool,
    running: bool,
) -> bool {
    &&& forall|k: int|
        0 <= k < ix.len() ==> (#[trigger] ix[k]) < instances.len() && is_listed(
            instances[ix[k] as int],
            pattern,
            head,
            running,
        )
    &&& forall|k1: int, k2: int| 0 <= k1 < k2 < ix.len() ==> (#[trigger] ix[k1]) < (#[trigger] ix[k2])
    &&& forall|i: int|
        0 <= i < instances.len() && is_listed(#[trigger] instances[i], pattern, head, running)
            ==> exists|k: int| 0 <= k < ix.len() && ix[k] == i
}

/// The text of an optional pattern.
pub open spec fn pattern_text(regex: Option<&str>) -> Option<Seq<char>> {
    match regex {
        Some(p) => Some(p@),
        None => None,
    }
}

fn listed(inst: &AwsInstance, pattern: &Option<Pattern>, head: bool, running: bool) -> (b: bool)
    ensures
        b == is_listed(
            *inst,
            match pattern {
                Some(p) => Some(p@),
                None => None,
            },
            head,
            running,
        ),
{
    if head && inst.node_type != NodeType::Head {
        return false;
    }
    let is_running = match &inst.state {
        Some(InstanceState::Running) => true,
        _ => false,
    };
    if running && !is_running {
        return false;
    }
    match pattern {
        Some(p) => p.is_match(inst.regular_name.as_str()),
        None => true,
    }
}

/// The positions of the instances to list (see [`is_listed`]). A pattern
/// that does not compile is refused, whether or not there are instances.
pub fn listed_instances(
    instances: &Vec<AwsInstance>,
    regex: Option<&str>,
    head: bool,
    running: bool,
) -> (r: Result<Vec<usize>, PatternError>)
    ensures
        r is Err <==> (regex matches Some(p) && !regex_valid(p@)),
        r matches Ok(ix) ==> is_listing(ix@, instances@, pattern_text(regex), head, running),
{
    let pattern = match regex {
        Some(p) => Some(Pattern::new(p)?),
        None => None,
    };
    let ghost pt = pattern_text(regex);
    assert(pt == match pattern {
        Some(p) => Some(p@),
        None => None::<Seq<char>>,
    });
    let mut ix: Vec<usize> = Vec::new();
    let n = instances.len();
    for i in 0..n
        invariant
            n == instances@.len(),
            pt == match pattern {
                Some(p) => Some(p@),
                None => None::<Seq<char>>,
            },
            forall|k: int|
                0 <= k < ix@.len() ==> (#[trigger] ix@[k]) < i && is_listed(
                    instances@[ix@[k] as int],
                    pt,
                    head,
                    running,
                ),
            forall|k1: int, k2: int|
                0 <= k1 < k2 < ix@.len() ==> (#[trigger] ix@[k1]) < (#[trigger] ix@[k2]),
            forall|j: int|
                0 <= j < i && is_listed(#[trigger] instances@[j], pt, head, running) ==> exists|
                    k: int,
                | 0 <= k < ix@.len() && ix@[k] == j,
    {
        let ghost old_ix = ix@;
        let keep = listed(&instances[i], &pattern, head, running);
        if keep {
            ix.push(i);
            assert(ix@[ix@.len() - 1] == i);
        }
        assert forall|j: int|
            0 <= j < i + 1 && is_listed(#[trigger] instances@[j], pt, head, running) implies exists|
                k: int,
            | 0 <= k < ix@.len() && ix@[k] == j by {
            if j < i {
                let k = choose|k: int| 0 <= k < old_ix.len() && old_ix[k] == j;
                assert(ix@[k] == old_ix[k]);
            } else {
                assert(ix@[ix@.len() - 1] == i);
            }
        }
    }
    Ok(ix)
}

/// How the state of an instance is shown.
#[derive(Debug, Clone, Copy, PartialEq, Eq, Structural)]
pub enum StatusStyle {
    /// No state is known.
    Dim,
    Green,
    Yellow,
    DarkYellow,
    Red,
    Plain,
}

/// How the state of an instance is shown: running in green, pending in
/// yellow, on the way down in dark yellow, down in red.
pub fn status_style(state: &Option<InstanceState>) -> (s: StatusStyle)
    ensures
        s == match state {
            None => StatusStyle::Dim,
            Some(InstanceState::Running) => StatusStyle::Green,
            Some(InstanceState::Pending) => StatusStyle::Yellow,
            Some(InstanceState::ShuttingDown) | Some(InstanceState::Stopping) => StatusStyle::DarkYellow,
            Some(InstanceState::Stopped) | Some(InstanceState::Terminated) => StatusStyle::Red,
            Some(InstanceState::Unknown(_)) => StatusStyle::Plain,
        },
{
    match state {
        None => StatusStyle::Dim,
        Some(InstanceState::Running) => StatusStyle::Green,
        Some(InstanceState::Pending) => StatusStyle::Yellow,
        Some(InstanceState::ShuttingDown) | Some(InstanceState::Stopping) => StatusStyle::DarkYellow,
        Some(InstanceState::Stopped) | Some(InstanceState::Terminated) => StatusStyle::Red,
        Some(InstanceState::Unknown(_)) => StatusStyle::Plain,
    }
}

/// The cells of the table row of an instance: cluster name, instance id,
/// node type, state and public address (`n/a` where unknown).
pub open spec fn row_text(inst: AwsInstance) -> Seq<Seq<char>> {
    seq![
        inst.regular_name@,
        inst.instance_id@,
        node_type_name(inst.node_type),
        match inst.state {
            Some(s) => state_name(s),
            None => "n/a"@,
        },
        match inst.public_ipv4_address {
            Some(a) => ipv4_text(a),
            None => "n/a"@,
        },
    ]
}

/// The cells of the table row of an instance.
pub fn row_texts(inst: &AwsInstance) -> (r: Vec<String>)
    ensures
        r.deep_view() == row_text(*inst),
{
    let mut r: Vec<String> = Vec::new();
    r.push(inst.regular_name.clone());
    r.push(inst.instance_id.clone());
    r.push(String::from_str(inst.node_type.as_str()));
    r.push(
        match &inst.state {
            Some(s) => String::from_str(s.as_str()),
            None => String::from_str("n/a"),
        },
    );
    r.push(
        match &inst.public_ipv4_address {
            Some(a) => a.to_text(),
            None => String::from_str("n/a"),
        },
    );
    assert(r.deep_view() =~= row_text(*inst));
    r
}

/// The region to list instances in: the one given, else the one of the
/// configuration file (where there is one), else `us-west-2`.
pub fn resolve_region(region: Option<String>, configured: Option<String>) -> (r: String)
    ensures
        r@ == match (region, configured) {
            (Some(g), _) => g@,
            (None, Some(c)) => c@,
            (None, None) => "us-west-2"@,
        },
{
    match (region, configured) {
        (Some(g), _) => g,
        (None, Some(c)) => c,
        (None, None) => String::from_str("us-west-2"),
    }
}

/// An element that `f` maps to a value keeps that value in `s.filter_map(f)`.
pub proof fn lemma_filter_map_keeps<A, B>(s: Seq<A>, f: spec_fn(A) -> Option<B>, j: int)
    requires
        0 <= j < s.len(),
        f(s[j]) is Some,
    ensures
        exists|i: int| 0 <= i < s.filter_map(f).len() && s.filter_map(f)[i] == f(s[j])->0,
    decreases s.len(),
{
    let rest = s.drop_last();
    if j == s.len() - 1 {
        assert(s.last() == s[j]);
        let i = rest.filter_map(f).len() as int;
        assert(s.filter_map(f) == rest.filter_map(f) + seq![f(s[j])->0]);
        assert(s.filter_map(f)[i] == f(s[j])->0);
    } else {
        assert(rest[j] == s[j]);
        lemma_filter_map_keeps(rest, f, j);
        let i = choose|i: int|
            0 <= i < rest.filter_map(f).len() && rest.filter_map(f)[i] == f(rest[j])->0;
        match f(s.last()) {
            Some(b) => {
                assert(s.filter_map(f) == rest.filter_map(f) + seq![b]);
                assert(s.filter_map(f)[i] == rest.filter_map(f)[i]);
            },
            None => {
                assert(s.filter_map(f) == rest.filter_map(f));
            },
        }
    }
}

/// A Ray node read from a record keeps the record's instance id, key pair,
/// public address and state.
pub proof fn lemma_instance_keeps_record_fields(rec: InstanceRecord)
    requires
        instance_of_record(rec) is Some,
    ensures
        rec.instance_id == Some(instance_of_record(rec)->0.instance_id),
        instance_of_record(rec)->0.key_pair_name == rec.key_name,
        instance_of_record(rec)->0.public_ipv4_address == rec.public_ipv4_address,
        instance_of_record(rec)->0.state == rec.state,
{
}

/// Every record of a running Ray node is listed when only running
/// instances are asked for: its node is among the instances read from the
/// records, at a position that the listing holds.
pub proof fn lemma_running_nodes_are_listed(
    records: Seq<InstanceRecord>,
    instances: Seq<AwsInstance>,
    ix: Seq<usize>,
    j: int,
)
    requires
        instances == records.filter_map(|rec: InstanceRecord| instance_of_record(rec)),
        is_listing(ix, instances, None, false, true),
        0 <= j < records.len(),
        instance_of_record(records[j]) is Some,
        records[j].state == Some(InstanceState::Running),
    ensures
        exists|k: int|
            0 <= k < ix.len() && instances[ix[k] as int] == instance_of_record(records[j])->0
                && instances[ix[k] as int].state == Some(InstanceState::Running),
{
    let f = |rec: InstanceRecord| instance_of_record(rec);
    lemma_filter_map_keeps(records, f, j);
    let i = choose|i: int|
        0 <= i < records.filter_map(f).len() && records.filter_map(f)[i] == f(records[j])->0;
    assert(instances[i] == instance_of_record(records[j])->0);
    lemma_instance_keeps_record_fields(records[j]);
    assert(is_listed(instances[i], None, false, true));
    let k = choose|k: int| 0 <= k < ix.len() && ix[k] == i;
    assert(instances[ix[k] as int] == instances[i]);
}

/// Only instances tagged with a cluster name are taken for Ray nodes, and
/// their cluster name is the value of that tag.
pub proof fn lemma_nodes_carry_cluster_tag(rec: InstanceRecord)
    requires
        instance_of_record(rec) is Some,
    ensures
        rec.tags matches Some(tags) && tag_value(tags@, "ray-cluster-name"@) == Some(
            instance_of_record(rec)->0.regular_name,
        ),
{
}

} // verus!
