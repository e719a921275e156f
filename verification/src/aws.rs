//! The decisions taken around the AWS calls: which EC2 instances are Ray
//! nodes, and whether a cluster name is still free.

use vstd::prelude::*;
use crate::launcher::instances::{
    lemma_filter_map_keeps, tag_value, InstanceRecord, InstanceState, Ipv4Address,
};
use crate::pattern::{regex_matches, Pattern};
use crate::text::{concat, str_eq};

verus! {

/// An instance of a Ray cluster.
pub struct AwsInstance {
    /// The cluster name (the `ray-cluster-name` tag).
    pub regular_name: String,
    /// The instance name Ray gave (the `Name` tag).
    pub ray_name: String,
    pub key_pair_name: Option<String>,
    pub public_ipv4_address: Option<Ipv4Address>,
    pub state: Option<InstanceState>,
}

/// The name Ray gives the head node of the cluster `name`.
pub open spec fn head_node_name(name: Seq<char>) -> Seq<char> {
    "ray-"@ + name + "-head"@
}

impl AwsInstance {
    /// Whether this instance is the head node of its own cluster.
    pub fn is_head(&self) -> (b: bool)
        ensures
            b == (self.ray_name@ == head_node_name(self.regular_name@)),
    {
        self.name_equals_ray_name(self.regular_name.as_str())
    }

    /// Whether this instance is the head node of the cluster `name`.
    pub fn name_equals_ray_name(&self, name: &str) -> (b: bool)
        ensures
            b == (self.ray_name@ == head_node_name(name@)),
    {
        let prefixed = concat("ray-", name);
        let full = concat(prefixed.as_str(), "-head");
        str_eq(full.as_str(), self.ray_name.as_str())
    }
}

/// The cluster name of a record: the value of its `ray-cluster-name` tag.
pub open spec fn cluster_tag(rec: InstanceRecord) -> Option<String> {
    match rec.tags {
        None => None,
        Some(tags) => tag_value(tags@, "ray-cluster-name"@),
    }
}

/// Whether a record describes a Ray node: it carries a `ray-cluster-name` tag.
pub open spec fn has_cluster_tag(rec: InstanceRecord) -> bool {
    cluster_tag(rec) is Some
}

/// The name Ray gave the instance of a record: the value of its `Name` tag,
/// or empty where it has none.
pub open spec fn ray_name_of(rec: InstanceRecord) -> Seq<char> {
    match rec.tags {
        Some(tags) => match tag_value(tags@, "Name"@) {
            Some(n) => n@,
            None => Seq::empty(),
        },
        None => Seq::empty(),
    }
}

/// `inst` is the Ray node that the record `rec` describes.
pub open spec fn is_instance_of_record(rec: InstanceRecord, inst: AwsInstance) -> bool {
    &&& cluster_tag(rec) == Some(inst.regular_name)
    &&& inst.ray_name@ == ray_name_of(rec)
    &&& inst.key_pair_name == rec.key_name
    &&& inst.public_ipv4_address == rec.public_ipv4_address
    &&& inst.state == rec.state
}

/// The Ray node that a record describes, if it carries a cluster name.
pub fn instance_from_record(rec: &InstanceRecord) -> (r: Option<AwsInstance>)
    ensures
        r is Some <==> has_cluster_tag(*rec),
        r matches Some(inst) ==> is_instance_of_record(*rec, inst),
{
    let tags = match &rec.tags {
        Some(tags) => tags,
        None => {
            return None;
        },
    };
    let mut ray_name: Option<String> = None;
    let mut regular_name: Option<String> = None;
    let n = tags.len();
    for i in 0..n
        invariant
            n == tags@.len(),
            ray_name == tag_value(tags@.take(i as int), "Name"@),
            regular_name == tag_value(tags@.take(i as int), "ray-cluster-name"@),
    {
        let ghost prefix = tags@.take(i + 1);
        assert(prefix.drop_last() =~= tags@.take(i as int));
        assert(prefix.last() == tags@[i as int]);
        proof {
            reveal_strlit("Name");
            reveal_strlit("ray-cluster-name");
            assert("Name"@.len() == 4);
            assert("ray-cluster-name"@.len() == 16);
        }
        let tag = &tags[i];
        match (&tag.key, &tag.value) {
            (Some(key), Some(value)) => {
                if str_eq(key.as_str(), "Name") {
                    ray_name = Some(value.clone());
                } else if str_eq(key.as_str(), "ray-cluster-name") {
                    regular_name = Some(value.clone());
                }
            },
            _ => {},
        }
    }
    assert(tags@.take(n as int) =~= tags@);
    let regular_name = match regular_name {
        Some(r) => r,
        None => {
            return None;
        },
    };
    let ray_name = match ray_name {
        Some(n) => n,
        None => String::new(),
    };
    Some(
        AwsInstance {
            regular_name,
            ray_name,
            key_pair_name: match &rec.key_name {
                Some(k) => Some(k.clone()),
                None => None,
            },
            public_ipv4_address: rec.public_ipv4_address,
            state: match &rec.state {
                Some(s) => Some(s.duplicate()),
                None => None,
            },
        },
    )
}

/// The records that carry a cluster name, in order.
pub open spec fn ray_records(records: Seq<InstanceRecord>) -> Seq<InstanceRecord> {
    records.filter(|rec: InstanceRecord| has_cluster_tag(rec))
}

/// `instances` are, in order, the Ray nodes that the records describe: one
/// for each record that carries a cluster name.
pub open spec fn is_listing_of(records: Seq<InstanceRecord>, instances: Seq<AwsInstance>) -> bool {
    let kept = ray_records(records);
    &&& instances.len() == kept.len()
    &&& forall|k: int| 0 <= k < kept.len() ==> is_instance_of_record(kept[k], #[trigger] instances[k])
}

/// The Ray nodes among the records, in order: every record that carries a
/// `ray-cluster-name` tag, and no other.
pub fn list_instances(records: &Vec<InstanceRecord>) -> (r: Vec<AwsInstance>)
    ensures
        is_listing_of(records@, r@),
{
    let ghost f = |rec: InstanceRecord| has_cluster_tag(rec);
    let mut r: Vec<AwsInstance> = Vec::new();
    let n = records.len();
    for i in 0..n
        invariant
            n == records@.len(),
            f == (|rec: InstanceRecord| has_cluster_tag(rec)),
            is_listing_of(records@.take(i as int), r@),
    {
        let ghost before = r@;
        let ghost prefix = records@.take(i + 1);
        proof {
            reveal(Seq::filter);
        }
        assert(prefix.drop_last() =~= records@.take(i as int));
        assert(prefix.last() == records@[i as int]);
        match instance_from_record(&records[i]) {
            Some(inst) => {
                r.push(inst);
                assert(f(prefix.last()));
                assert(prefix.filter(f) == prefix.drop_last().filter(f).push(prefix.last()));
                assert(prefix.filter(f) == records@.take(i as int).filter(f).push(records@[i as int]));
                assert forall|k: int| 0 <= k < prefix.filter(f).len() implies is_instance_of_record(
                    prefix.filter(f)[k],
                    #[trigger] r@[k],
                ) by {
                    if k < before.len() {
                        assert(r@[k] == before[k]);
                    }
                }
            },
            None => {
                assert(!f(prefix.last()));
                assert(prefix.filter(f) == prefix.drop_last().filter(f));
                assert(prefix.filter(f) == records@.take(i as int).filter(f));
            },
        }
    }
    assert(records@.take(n as int) =~= records@);
    r
}

/// Whether one of the instances is the head node of the cluster `name`.
pub open spec fn name_is_taken(instances: Seq<AwsInstance>, name: Seq<char>) -> bool {
    exists|i: int| 0 <= i < instances.len() && (#[trigger] instances[i]).ray_name@ == head_node_name(name)
}

/// The names Ray gave the instances, in order.
pub open spec fn ray_names(instances: Seq<AwsInstance>) -> Seq<Seq<char>> {
    instances.map_values(|inst: AwsInstance| inst.ray_name@)
}

/// A cluster name that is already in use in the region, with the names of
/// all instances of the region.
pub struct ClusterNameClash {
    pub name: String,
    pub ray_names: Vec<String>,
}

/// Checks that no instance is already the head node of a cluster named
/// `name`; a clash reports the names of all the instances.
pub fn assert_non_clashing_cluster_name(name: &str, instances: &Vec<AwsInstance>) -> (r: Result<
    (),
    ClusterNameClash,
>)
    ensures
        r is Err <==> name_is_taken(instances@, name@),
        r matches Err(e) ==> e.name@ == name@ && e.ray_names.deep_view() == ray_names(instances@),
{
    let mut taken = false;
    let mut names: Vec<String> = Vec::new();
    let n = instances.len();
    for i in 0..n
        invariant
            n == instances@.len(),
            taken <==> exists|j: int| 0 <= j < i && (#[trigger] instances@[j]).ray_name@ == head_node_name(name@),
            names.deep_view() =~= ray_names(instances@.take(i as int)),
    {
        if instances[i].name_equals_ray_name(name) {
            taken = true;
        }
        let ghost before = names.deep_view();
        names.push(instances[i].ray_name.clone());
        assert(names.deep_view() =~= before.push(instances@[i as int].ray_name@));
        assert(instances@.take(i + 1) =~= instances@.take(i as int).push(instances@[i as int]));
        assert(ray_names(instances@.take(i + 1)) =~= ray_names(instances@.take(i as int)).push(
            instances@[i as int].ray_name@,
        ));
    }
    assert(instances@.take(n as int) =~= instances@);
    if taken {
        Err(ClusterNameClash { name: name.to_owned(), ray_names: names })
    } else {
        Ok(())
    }
}

/// Signing in to AWS failed.
pub struct NotAuthenticated;

/// The outcome of the authentication check with AWS.
pub fn assert_authenticated(is_authenticated: bool) -> (r: Result<(), NotAuthenticated>)
    ensures
        r is Ok <==> is_authenticated,
{
    if is_authenticated {
        Ok(())
    } else {
        Err(NotAuthenticated)
    }
}

/// Whether an instance is listed: when `running` is set only running
/// instances are, when a pattern is given only those whose cluster name it
/// matches are, and when `head` is set only head nodes are.
pub open spec fn is_listed(
    inst: AwsInstance,
    running: bool,
    pattern: Option<Seq<char>>,
    head: bool,
) -> bool {
    &&& !(running && !(inst.state matches Some(InstanceState::Running)))
    &&& match pattern {
        Some(p) => regex_matches(p, inst.regular_name@),
        None => true,
    }
    &&& !(head && inst.ray_name@ != head_node_name(inst.regular_name@))
}

/// The positions, in increasing order, of the instances to list (see
/// [`is_listed`]).
pub fn listed_instances(
    instances: &Vec<AwsInstance>,
    running: bool,
    pattern: Option<&Pattern>,
    head: bool,
) -> (ix: Vec<usize>)
    ensures
        forall|k: int|
            0 <= k < ix@.len() ==> (#[trigger] ix@[k]) < instances@.len() && is_listed(
                instances@[ix@[k] as int],
                running,
                match pattern {
                    Some(p) => Some(p@),
                    None => None,
                },
                head,
            ),
        forall|k1: int, k2: int| 0 <= k1 < k2 < ix@.len() ==> (#[trigger] ix@[k1]) < (#[trigger] ix@[k2]),
        forall|i: int|
            0 <= i < instances@.len() && is_listed(
                #[trigger] instances@[i],
                running,
                match pattern {
                    Some(p) => Some(p@),
                    None => None,
                },
                head,
            ) ==> exists|k: int| 0 <= k < ix@.len() && ix@[k] == i,
{
    let ghost pt = match pattern {
        Some(p) => Some(p@),
        None => None::<Seq<char>>,
    };
    let mut ix: Vec<usize> = Vec::new();
    let n = instances.len();
    for i in 0..n
        invariant
            n == instances@.len(),
            pt == match pattern {
                Some(p) => Some(p@),
                None => None::<Seq<char>>,
            },
            forall|k: int|
                0 <= k < ix@.len() ==> (#[trigger] ix@[k]) < i && is_listed(
                    instances@[ix@[k] as int],
                    running,
                    pt,
                    head,
                ),
            forall|k1: int, k2: int|
                0 <= k1 < k2 < ix@.len() ==> (#[trigger] ix@[k1]) < (#[trigger] ix@[k2]),
            forall|j: int|
                0 <= j < i && is_listed(#[trigger] instances@[j], running, pt, head) ==> exists|
                    k: int,
                | 0 <= k < ix@.len() && ix@[k] == j,
    {
        let inst = &instances[i];
        let is_running = match &inst.state {
            Some(InstanceState::Running) => true,
            _ => false,
        };
        let running_condition = !(running && !is_running);
        let regex_condition = match pattern {
            Some(p) => p.is_match(inst.regular_name.as_str()),
            None => true,
        };
        let head_condition = !(head && !inst.is_head());
        let ghost old_ix = ix@;
        if running_condition && regex_condition && head_condition {
            ix.push(i);
            assert(ix@[ix@.len() - 1] == i);
        }
        assert forall|j: int|
            0 <= j < i + 1 && is_listed(#[trigger] instances@[j], running, pt, head) implies exists|
                k: int,
            | 0 <= k < ix@.len() && ix@[k] == j by {
            if j < i {
                let k = choose|k: int| 0 <= k < old_ix.len() && old_ix[k] == j;
                assert(ix@[k] == old_ix[k]);
            } else {
                assert(ix@[ix@.len() - 1] == i);
            }
        }
    }
    ix
}

/// The public addresses of the head nodes of the cluster `name`, in order.
pub open spec fn head_addresses(instances: Seq<AwsInstance>, name: Seq<char>) -> Seq<Ipv4Address> {
    instances.filter_map(
        |inst: AwsInstance|
            if inst.ray_name@ == head_node_name(name) {
                inst.public_ipv4_address
            } else {
                None
            },
    )
}

/// The public addresses of the head nodes of the cluster `name`.
pub fn head_node_addresses(name: &str, instances: &Vec<AwsInstance>) -> (r: Vec<Ipv4Address>)
    ensures
        r@ == head_addresses(instances@, name@),
{
    let ghost f = |inst: AwsInstance|
        if inst.ray_name@ == head_node_name(name@) {
            inst.public_ipv4_address
        } else {
            None
        };
    let mut r: Vec<Ipv4Address> = Vec::new();
    let n = instances.len();
    for i in 0..n
        invariant
            n == instances@.len(),
            f == (|inst: AwsInstance|
                if inst.ray_name@ == head_node_name(name@) {
                    inst.public_ipv4_address
                } else {
                    None
                }),
            r@ == instances@.take(i as int).filter_map(f),
    {
        proof {
            instances@.lemma_filter_map_take_succ(f, i as int);
        }
        if instances[i].name_equals_ray_name(name) {
            match instances[i].public_ipv4_address {
                Some(a) => {
                    r.push(a);
                },
                None => {},
            }
        }
    }
    assert(instances@.take(n as int) =~= instances@);
    r
}

/// Exactly the records tagged with a cluster name are taken for Ray nodes,
/// and each one's cluster name is the value of that tag.
pub proof fn lemma_nodes_carry_cluster_tag(records: Seq<InstanceRecord>, instances: Seq<AwsInstance>)
    requires
        is_listing_of(records, instances),
    ensures
        instances.len() == ray_records(records).len(),
        forall|k: int|
            0 <= k < instances.len() ==> cluster_tag(#[trigger] ray_records(records)[k]) == Some(
                instances[k].regular_name,
            ),
{
    let kept = ray_records(records);
    assert forall|k: int| 0 <= k < instances.len() implies cluster_tag(#[trigger] kept[k]) == Some(
        instances[k].regular_name,
    ) by {
        assert(is_instance_of_record(kept[k], instances[k]));
    }
}

/// Each listed node keeps the key pair, public address and state of the
/// record it was read from.
pub proof fn lemma_listed_nodes_keep_record_fields(
    records: Seq<InstanceRecord>,
    instances: Seq<AwsInstance>,
)
    requires
        is_listing_of(records, instances),
    ensures
        forall|k: int|
            0 <= k < instances.len() ==> {
                &&& (#[trigger] instances[k]).public_ipv4_address == ray_records(
                    records,
                )[k].public_ipv4_address
                &&& instances[k].state == ray_records(records)[k].state
                &&& instances[k].key_pair_name == ray_records(records)[k].key_name
            },
{
    assert forall|k: int| 0 <= k < instances.len() implies {
        &&& (#[trigger] instances[k]).public_ipv4_address == ray_records(
            records,
        )[k].public_ipv4_address
        &&& instances[k].state == ray_records(records)[k].state
        &&& instances[k].key_pair_name == ray_records(records)[k].key_name
    } by {
        assert(is_instance_of_record(ray_records(records)[k], instances[k]));
    }
}

/// The public address of an instance named as the head node of the cluster
/// `name` is among the head addresses of that cluster.
pub proof fn lemma_head_address_is_found(instances: Seq<AwsInstance>, name: Seq<char>, k: int)
    requires
        0 <= k < instances.len(),
        instances[k].ray_name@ == head_node_name(name),
        instances[k].public_ipv4_address is Some,
    ensures
        head_addresses(instances, name).contains(instances[k].public_ipv4_address->0),
{
    let f = |inst: AwsInstance|
        if inst.ray_name@ == head_node_name(name) {
            inst.public_ipv4_address
        } else {
            None
        };
    lemma_filter_map_keeps(instances, f, k);
    let i = choose|i: int|
        0 <= i < instances.filter_map(f).len() && instances.filter_map(f)[i] == f(instances[k])->0;
    assert(head_addresses(instances, name) == instances.filter_map(f));
    assert(head_addresses(instances, name)[i] == instances[k].public_ipv4_address->0);
}

/// A record tagged as the head node of the cluster `name` (its `Name` tag
/// is `ray-<name>-head`) with a public address gives that address among the
/// cluster's head addresses once the records are listed.
pub proof fn lemma_tagged_head_address_is_found(
    records: Seq<InstanceRecord>,
    instances: Seq<AwsInstance>,
    name: Seq<char>,
    j: int,
)
    requires
        is_listing_of(records, instances),
        0 <= j < ray_records(records).len(),
        ray_name_of(ray_records(records)[j]) == head_node_name(name),
        ray_records(records)[j].public_ipv4_address is Some,
    ensures
        head_addresses(instances, name).contains(ray_records(records)[j].public_ipv4_address->0),
{
    lemma_listed_nodes_keep_record_fields(records, instances);
    assert(is_instance_of_record(ray_records(records)[j], instances[j]));
    assert(instances[j].public_ipv4_address == ray_records(records)[j].public_ipv4_address);
    lemma_head_address_is_found(instances, name, j);
}

} // verus!
