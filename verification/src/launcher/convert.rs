//! From a launcher configuration to a Ray cluster configuration.

use vstd::prelude::*;
use vstd::string::*;
use crate::text::{concat, owned};
use crate::utils::{file_stem, path_file_stem};
use crate::versions::VersionRequirement;

verus! {

/// The `[setup]` table of a launcher configuration file.
pub struct DaftSetup {
    pub name: String,
    pub version: VersionRequirement,
    pub region: String,
    pub number_of_workers: usize,
    pub ssh_user: String,
    pub ssh_private_key: String,
    pub instance_type: String,
    pub image_id: String,
    pub iam_instance_profile_name: Option<String>,
    pub dependencies: Vec<String>,
}

/// A job that can be submitted to the cluster.
#[derive(Debug, Clone, PartialEq, Eq)]
pub struct DaftJob {
    pub command: String,
    pub working_dir: String,
}

/// A launcher configuration file.
pub struct DaftConfig {
    pub setup: DaftSetup,
    pub run: Vec<String>,
    /// The jobs, by name; no name occurs twice.
    pub jobs: Vec<(String, DaftJob)>,
}

/// The cluster configuration that the `ray` tool reads.
#[derive(Debug, Clone, PartialEq, Eq)]
pub struct RayConfig {
    pub cluster_name: String,
    pub max_workers: usize,
    pub provider: RayProvider,
    pub auth: RayAuth,
    /// The node types, by name: the head node type, then the worker node type.
    pub available_node_types: Vec<(String, RayNodeType)>,
    pub setup_commands: Vec<String>,
}

#[derive(Debug, Clone, PartialEq, Eq)]
pub struct RayProvider {
    pub type_: String,
    pub region: String,
    pub cache_stopped_nodes: Option<bool>,
}

#[derive(Debug, Clone, PartialEq, Eq)]
pub struct RayAuth {
    pub ssh_user: String,
    pub ssh_private_key: String,
}

#[derive(Debug, Clone, PartialEq, Eq)]
pub struct RayNodeType {
    pub max_workers: usize,
    pub node_config: RayNodeConfig,
    pub resources: Option<RayResources>,
}

#[derive(Debug, Clone, PartialEq, Eq)]
pub struct RayNodeConfig {
    pub key_name: String,
    pub instance_type: String,
    pub image_id: String,
    pub iam_instance_profile: Option<RayIamInstanceProfile>,
}

#[derive(Debug, Clone, PartialEq, Eq)]
pub struct RayIamInstanceProfile {
    pub name: String,
}

#[derive(Debug, Clone, Copy, PartialEq, Eq, Structural)]
pub struct RayResources {
    pub cpu: usize,
}

/// Which way `ray` is to turn the cluster.
#[derive(Debug, Clone, Copy, PartialEq, Eq, Structural)]
pub enum SpinDirection {
    Up,
    Down,
}

impl SpinDirection {
    /// The `ray` subcommand for this direction.
    pub fn as_str(&self) -> (s: &'static str)
        ensures
            *self is Up ==> s@ == "up"@,
            *self is Down ==> s@ == "down"@,
    {
        match self {
            SpinDirection::Up => "up",
            SpinDirection::Down => "down",
        }
    }
}

/// What happens to the nodes of a cluster that is spun down.
#[derive(Debug, Clone, Copy, PartialEq, Eq, Structural)]
pub enum TeardownBehaviour {
    /// The nodes are stopped and can be restarted.
    Stop,
    /// The nodes are terminated.
    Kill,
}

impl TeardownBehaviour {
    /// Whether Ray keeps the stopped nodes around.
    pub fn to_cache_stopped_nodes(self) -> (b: bool)
        ensures
            b == (self is Stop),
    {
        match self {
            TeardownBehaviour::Stop => true,
            TeardownBehaviour::Kill => false,
        }
    }
}

/// Default number of worker nodes.
pub fn default_number_of_workers() -> (n: usize)
    ensures
        n == 4,
{
    4
}

/// Default EC2 instance type of the nodes.
pub fn default_instance_type() -> (s: String)
    ensures
        s@ == "i3.2xlarge"@,
{
    String::from_str("i3.2xlarge")
}

/// Default machine image of the nodes.
pub fn default_image_id() -> (s: String)
    ensures
        s@ == "ami-04dd23e62ed049936"@,
{
    String::from_str("ami-04dd23e62ed049936")
}

/// The commands that prepare every node.
pub open spec fn default_setup_command_texts() -> Seq<Seq<char>> {
    seq![
        "curl -LsSf https://astral.sh/uv/install.sh | sh"@,
        "uv python install 3.12"@,
        "uv python pin 3.12"@,
        "uv venv"@,
        "echo 'source $HOME/.venv/bin/activate' >> ~/.bashrc"@,
        "source ~/.bashrc"@,
        "uv pip install boto3 pip ray[default] getdaft py-spy deltalake"@,
    ]
}

/// The commands that prepare every node.
pub fn default_setup_commands() -> (v: Vec<String>)
    ensures
        v.deep_view() == default_setup_command_texts(),
{
    let mut v: Vec<String> = Vec::new();
    v.push(String::from_str("curl -LsSf https://astral.sh/uv/install.sh | sh"));
    v.push(String::from_str("uv python install 3.12"));
    v.push(String::from_str("uv python pin 3.12"));
    v.push(String::from_str("uv venv"));
    v.push(String::from_str("echo 'source $HOME/.venv/bin/activate' >> ~/.bashrc"));
    v.push(String::from_str("source ~/.bashrc"));
    v.push(String::from_str("uv pip install boto3 pip ray[default] getdaft py-spy deltalake"));
    assert(v.deep_view() =~= default_setup_command_texts());
    v
}

/// A dependency in double quotes.
pub open spec fn quoted(dep: Seq<char>) -> Seq<char> {
    seq!['"'] + dep + seq!['"']
}

/// The dependencies, each in double quotes, separated by single spaces.
pub open spec fn join_quoted(deps: Seq<Seq<char>>) -> Seq<char>
    decreases deps.len(),
{
    if deps.len() == 0 {
        Seq::empty()
    } else if deps.len() == 1 {
        quoted(deps[0])
    } else {
        join_quoted(deps.drop_last()) + seq![' '] + quoted(deps.last())
    }
}

/// The setup commands of a cluster with the given extra dependencies: the
/// default commands, then one installing the dependencies if there are any.
pub open spec fn setup_command_texts(deps: Seq<Seq<char>>) -> Seq<Seq<char>> {
    if deps.len() == 0 {
        default_setup_command_texts()
    } else {
        default_setup_command_texts().push("uv pip install "@ + join_quoted(deps))
    }
}

/// The dependencies, each in double quotes, separated by single spaces.
pub fn quote_dependencies(deps: &Vec<String>) -> (r: String)
    ensures
        r@ == join_quoted(deps.deep_view()),
{
    let mut r = String::new();
    let n = deps.len();
    proof {
        reveal_strlit("\"");
        reveal_strlit(" ");
    }
    for i in 0..n
        invariant
            n == deps.len(),
            r@ == join_quoted(deps.deep_view().take(i as int)),
    {
        let ghost ds = deps.deep_view();
        proof {
            reveal_strlit("\"");
            reveal_strlit(" ");
        }
        assert(ds.take(i + 1).drop_last() =~= ds.take(i as int));
        assert(ds.take(i + 1).last() == deps[i as int]@);
        if i > 0 {
            r.append(" ");
        }
        r.append("\"");
        r.append(deps[i].as_str());
        r.append("\"");
        assert(r@ =~= join_quoted(ds.take(i + 1)));
    }
    assert(deps.deep_view().take(n as int) =~= deps.deep_view());
    r
}

/// The setup commands of a cluster with the given extra dependencies.
pub fn setup_commands(deps: &Vec<String>) -> (v: Vec<String>)
    ensures
        v.deep_view() == setup_command_texts(deps.deep_view()),
{
    let mut commands = default_setup_commands();
    if deps.len() > 0 {
        let quoted_deps = quote_dependencies(deps);
        let install = concat("uv pip install ", quoted_deps.as_str());
        commands.push(install);
        assert(commands.deep_view() =~= setup_command_texts(deps.deep_view()));
    }
    commands
}

/// The failure to derive a cluster configuration.
#[derive(Debug, Clone, PartialEq, Eq)]
pub enum ConvertError {
    /// The private key's path has no file name from which to take the name
    /// of the key pair.
    KeyNameMissing(String),
}

/// The configuration shared by the head and the worker nodes.
pub open spec fn is_node_config_of(
    node_config: RayNodeConfig,
    setup: DaftSetup,
    key_name: Seq<char>,
) -> bool {
    &&& node_config.key_name@ == key_name
    &&& node_config.instance_type@ == setup.instance_type@
    &&& node_config.image_id@ == setup.image_id@
    &&& match (node_config.iam_instance_profile, setup.iam_instance_profile_name) {
        (Some(profile), Some(name)) => profile.name@ == name@,
        (None, None) => true,
        _ => false,
    }
}

/// `ray` is the cluster configuration derived from `setup`, for a key pair
/// named `key_name` and the given teardown behaviour.
pub open spec fn is_ray_config_of(
    ray: RayConfig,
    setup: DaftSetup,
    teardown: Option<TeardownBehaviour>,
    key_name: Seq<char>,
) -> bool {
    &&& ray.cluster_name@ == setup.name@
    &&& ray.max_workers == setup.number_of_workers
    &&& ray.provider.type_@ == "aws"@
    &&& ray.provider.region@ == setup.region@
    &&& ray.provider.cache_stopped_nodes == match teardown {
        Some(t) => Some(t is Stop),
        None => None,
    }
    &&& ray.auth.ssh_user@ == setup.ssh_user@
    &&& ray.auth.ssh_private_key@ == setup.ssh_private_key@
    &&& ray.available_node_types.len() == 2
    &&& ray.available_node_types[0].0@ == "ray.head.default"@
    &&& ray.available_node_types[0].1.max_workers == 0
    &&& ray.available_node_types[0].1.resources == Some(RayResources { cpu: 0 })
    &&& is_node_config_of(ray.available_node_types[0].1.node_config, setup, key_name)
    &&& ray.available_node_types[1].0@ == "ray.worker.default"@
    &&& ray.available_node_types[1].1.max_workers == setup.number_of_workers
    &&& ray.available_node_types[1].1.resources is None
    &&& is_node_config_of(ray.available_node_types[1].1.node_config, setup, key_name)
    &&& ray.setup_commands.deep_view() == setup_command_texts(setup.dependencies.deep_view())
}

fn node_config(setup: &DaftSetup, key_name: &String) -> (c: RayNodeConfig)
    ensures
        is_node_config_of(c, *setup, key_name@),
{
    let iam_instance_profile = match &setup.iam_instance_profile_name {
        Some(name) => Some(RayIamInstanceProfile { name: name.clone() }),
        None => None,
    };
    RayNodeConfig {
        key_name: key_name.clone(),
        instance_type: setup.instance_type.clone(),
        image_id: setup.image_id.clone(),
        iam_instance_profile,
    }
}

/// Derives the cluster configuration that `ray` reads from a launcher
/// configuration. The key pair is named after the stem of the private key's
/// file; a teardown behaviour, if given, decides whether stopped nodes are
/// kept.
pub fn convert(
    daft_config: &DaftConfig,
    teardown_behaviour: Option<TeardownBehaviour>,
) -> (r: Result<RayConfig, ConvertError>)
    ensures
        r is Ok <==> path_file_stem(daft_config.setup.ssh_private_key@) is Some,
        r matches Ok(ray) ==> is_ray_config_of(
            ray,
            daft_config.setup,
            teardown_behaviour,
            path_file_stem(daft_config.setup.ssh_private_key@)->0,
        ),
        r matches Err(e) ==> (e matches ConvertError::KeyNameMissing(key) && key@
            == daft_config.setup.ssh_private_key@),
{
    let setup = &daft_config.setup;
    let key_name = match file_stem(setup.ssh_private_key.as_str()) {
        Some(stem) => stem,
        None => {
            return Err(ConvertError::KeyNameMissing(setup.ssh_private_key.clone()));
        },
    };
    let head_config = node_config(setup, &key_name);
    let worker_config = node_config(setup, &key_name);
    let cache_stopped_nodes = match teardown_behaviour {
        Some(t) => Some(t.to_cache_stopped_nodes()),
        None => None,
    };
    let mut available_node_types: Vec<(String, RayNodeType)> = Vec::new();
    available_node_types.push(
        (
            String::from_str("ray.head.default"),
            RayNodeType {
                max_workers: 0,
                node_config: head_config,
                resources: Some(RayResources { cpu: 0 }),
            },
        ),
    );
    available_node_types.push(
        (
            String::from_str("ray.worker.default"),
            RayNodeType {
                max_workers: setup.number_of_workers,
                node_config: worker_config,
                resources: None,
            },
        ),
    );
    Ok(
        RayConfig {
            cluster_name: setup.name.clone(),
            max_workers: setup.number_of_workers,
            provider: RayProvider {
                type_: String::from_str("aws"),
                region: setup.region.clone(),
                cache_stopped_nodes,
            },
            auth: RayAuth {
                ssh_user: setup.ssh_user.clone(),
                ssh_private_key: setup.ssh_private_key.clone(),
            },
            available_node_types,
            setup_commands: setup_commands(&setup.dependencies),
        },
    )
}

} // verus!
