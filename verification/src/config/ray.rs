//! The cluster in Ray's schema: a plain mapping of the checked configuration.

use vstd::prelude::*;
use crate::config::processed::{self, aws_of};
use crate::text::clone_strings;

verus! {

/// The cluster configuration that the `ray` tool reads.
pub struct RayConfig {
    pub cluster_name: String,
    pub max_workers: usize,
    pub provider: Provider,
    pub auth: Auth,
    /// The node types, by name: the head node type, then the worker node type.
    pub available_node_types: Vec<(String, NodeType)>,
    pub initialization_commands: Vec<String>,
    pub setup_commands: Vec<String>,
}

pub struct Provider {
    pub type_: String,
    pub region: String,
}

pub struct Auth {
    pub ssh_user: String,
    pub ssh_private_key: String,
}

pub struct NodeType {
    pub node_config: NodeConfig,
    pub min_workers: Option<usize>,
    pub max_workers: Option<usize>,
    pub resources: Resources,
}

pub enum NodeConfig {
    Aws(AwsNodeConfig),
}

pub struct AwsNodeConfig {
    pub instance_type: String,
    pub iam_instance_profile: Option<IamInstanceProfile>,
    pub image_id: String,
    pub key_name: String,
}

pub struct IamInstanceProfile {
    pub arn: String,
}

#[derive(Debug, Clone, Copy, PartialEq, Eq, Structural)]
pub struct Resources {
    pub cpu: usize,
    pub gpu: usize,
}

/// The node settings shared by all node types of an AWS cluster.
pub open spec fn is_node_config_of(n: NodeConfig, c: processed::AwsCluster) -> bool {
    match n {
        NodeConfig::Aws(a) => {
            &&& a.instance_type == c.instance_type
            &&& a.image_id == c.image_id
            &&& a.key_name == c.ssh_key_name
            &&& match (a.iam_instance_profile, c.iam_instance_profile_arn) {
                (Some(p), Some(arn)) => p.arn == arn,
                (None, None) => true,
                _ => false,
            }
        },
    }
}

/// `r` is the Ray form of the checked configuration `p`: a head node type
/// without worker bounds, a worker node type with as many workers as the
/// cluster asks for (both ways), one CPU and no GPU each.
pub open spec fn is_ray_config_of(r: RayConfig, p: processed::ProcessedConfig) -> bool {
    let c = aws_of(p.cluster.provider);
    let n = p.cluster.number_of_workers;
    &&& r.cluster_name == p.package.name
    &&& r.max_workers == n
    &&& r.provider.type_@ == "aws"@
    &&& r.provider.region == c.region
    &&& r.auth.ssh_user == c.ssh_user
    &&& r.auth.ssh_private_key == c.ssh_private_key
    &&& r.available_node_types@.len() == 2
    &&& r.available_node_types@[0].0@ == "ray.head.default"@
    &&& is_node_config_of(r.available_node_types@[0].1.node_config, c)
    &&& r.available_node_types@[0].1.min_workers is None
    &&& r.available_node_types@[0].1.max_workers is None
    &&& r.available_node_types@[0].1.resources == Resources { cpu: 1, gpu: 0 }
    &&& r.available_node_types@[1].0@ == "ray.worker.default"@
    &&& is_node_config_of(r.available_node_types@[1].1.node_config, c)
    &&& r.available_node_types@[1].1.min_workers == Some(n)
    &&& r.available_node_types@[1].1.max_workers == Some(n)
    &&& r.available_node_types@[1].1.resources == Resources { cpu: 1, gpu: 0 }
    &&& r.initialization_commands@ == p.cluster.pre_setup_commands@
    &&& r.setup_commands@ == p.cluster.post_setup_commands@
}

fn node_config(c: &processed::AwsCluster) -> (n: NodeConfig)
    ensures
        is_node_config_of(n, *c),
{
    NodeConfig::Aws(
        AwsNodeConfig {
            instance_type: c.instance_type.clone(),
            iam_instance_profile: match &c.iam_instance_profile_arn {
                Some(arn) => Some(IamInstanceProfile { arn: arn.clone() }),
                None => None,
            },
            image_id: c.image_id.clone(),
            key_name: c.ssh_key_name.clone(),
        },
    )
}

impl RayConfig {
    /// The Ray form of a checked configuration.
    pub fn from_processed(config: &processed::ProcessedConfig) -> (r: RayConfig)
        ensures
            is_ray_config_of(r, *config),
    {
        let n = config.cluster.number_of_workers;
        match &config.cluster.provider {
            processed::Provider::Aws(c) => {
                let mut available_node_types: Vec<(String, NodeType)> = Vec::new();
                available_node_types.push(
                    (
                        String::from_str("ray.head.default"),
                        NodeType {
                            node_config: node_config(c),
                            min_workers: None,
                            max_workers: None,
                            resources: Resources { cpu: 1, gpu: 0 },
                        },
                    ),
                );
                available_node_types.push(
                    (
                        String::from_str("ray.worker.default"),
                        NodeType {
                            node_config: node_config(c),
                            min_workers: Some(n),
                            max_workers: Some(n),
                            resources: Resources { cpu: 1, gpu: 0 },
                        },
                    ),
                );
                RayConfig {
                    cluster_name: config.package.name.clone(),
                    max_workers: n,
                    provider: Provider {
                        type_: String::from_str("aws"),
                        region: c.region.clone(),
                    },
                    auth: Auth {
                        ssh_user: c.ssh_user.clone(),
                        ssh_private_key: c.ssh_private_key.clone(),
                    },
                    available_node_types,
                    initialization_commands: clone_strings(&config.cluster.pre_setup_commands),
                    setup_commands: clone_strings(&config.cluster.post_setup_commands),
                }
            },
        }
    }
}

/// In the Ray form of any checked configuration, the worker node type asks
/// for exactly as many workers as the whole cluster may have, and the head
/// node type sets no bound.
pub proof fn lemma_worker_bounds_match_cluster(r: RayConfig, p: processed::ProcessedConfig)
    requires
        is_ray_config_of(r, p),
    ensures
        r.available_node_types@[1].1.min_workers == Some(r.max_workers),
        r.available_node_types@[1].1.max_workers == Some(r.max_workers),
        r.available_node_types@[0].1.max_workers is None,
{
}

} // verus!
