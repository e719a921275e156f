//! The commands of the launcher and their arguments.

use vstd::prelude::*;
use crate::config::processed::{aws_of, ProcessedConfig, Provider};
use crate::text::concat;

verus! {

/// A command of the launcher.
pub enum Cli {
    Init(Init),
    Up(Up),
    Down(Down),
    List(List),
    Submit(Submit),
    Connect(Connect),
    Sql(Sql),
    Export(Export),
}

/// Initialize a configuration file.
pub struct Init {
    /// Name of the configuration file (can be given as a path).
    pub name: String,
    /// Skip the questions and write the default configuration.
    pub default: bool,
}

/// Spin up a new cluster.
pub struct Up {
    pub config: Config,
}

/// Spin down a cluster.
pub struct Down {
    pub config: Config,
    /// Name of the cluster to spin down.
    pub name: Option<String>,
    /// The cloud provider which holds the cluster.
    pub provider: Option<String>,
    /// Region of the cluster.
    pub region: Option<String>,
}

/// List the Ray clusters of each cloud provider.
pub struct List {
    /// Only list running instances.
    pub running: bool,
    /// Only list head nodes.
    pub head: bool,
    /// Only list clusters whose name this regular expression matches.
    pub name: Option<String>,
}

/// Submit a job to a running cluster.
pub struct Submit {
    pub config: Config,
    /// The name of the job in the configuration file.
    pub name: String,
}

/// Forward a local port to the head node of the cluster over `ssh`.
pub struct Connect {
    pub config: Config,
    /// Do not open the Ray dashboard.
    pub no_dashboard: bool,
}

/// Run a SQL query on the cluster.
pub struct Sql {
    pub config: Config,
    /// The words of the query.
    pub args: Vec<String>,
}

/// Open the dashboard of the cluster in a browser.
pub struct Dashboard {
    pub config: Config,
}

/// Write the Ray configuration that the launcher derives.
pub struct Export {
    pub config: Config,
    /// The path to write the Ray configuration to.
    pub name: String,
}

/// The configuration file a command reads.
pub struct Config {
    /// Path to the configuration file.
    pub config: String,
}

/// The path of the configuration file used when none is given.
pub fn default_config_path() -> (s: String)
    ensures
        s@ == ".daft.toml"@,
{
    String::from_str(".daft.toml")
}

/// Which cluster `down` spins down.
pub enum DownTarget {
    /// The cluster named on the command line.
    Named { name: String, provider: String, region: String },
    /// The cluster of the configuration file.
    FromConfig,
}

/// `down` was given some, but not all, of the name, the provider and the
/// region of a cluster.
pub struct IncompleteDownTarget;

/// Which cluster `down` spins down: all three of name, provider and region
/// name one; none of them means the cluster of the configuration file.
pub fn down_target(down: &Down) -> (r: Result<DownTarget, IncompleteDownTarget>)
    ensures
        match (down.name, down.provider, down.region) {
            (Some(n), Some(p), Some(g)) => r matches Ok(DownTarget::Named { name, provider, region })
                && name == n && provider == p && region == g,
            (None, None, None) => r matches Ok(DownTarget::FromConfig),
            _ => r is Err,
        },
{
    match (&down.name, &down.provider, &down.region) {
        (Some(n), Some(p), Some(g)) => Ok(
            DownTarget::Named { name: n.clone(), provider: p.clone(), region: g.clone() },
        ),
        (None, None, None) => Ok(DownTarget::FromConfig),
        _ => Err(IncompleteDownTarget),
    }
}

/// The cloud of a configuration, as shown to the user.
pub open spec fn cloud_text(config: ProcessedConfig) -> Seq<char> {
    "aws (region = "@ + aws_of(config.cluster.provider).region@ + ")"@
}

/// The cloud of a configuration, as shown to the user.
pub fn cloud_name(config: &ProcessedConfig) -> (s: String)
    ensures
        s@ == cloud_text(*config),
{
    match &config.cluster.provider {
        Provider::Aws(aws_cluster) => {
            let head = concat("aws (region = ", aws_cluster.region.as_str());
            concat(head.as_str(), ")")
        },
    }
}

/// Whether spinning up warns that no IAM instance profile is given.
pub fn warns_of_missing_instance_profile(config: &ProcessedConfig) -> (b: bool)
    ensures
        b == (aws_of(config.cluster.provider).iam_instance_profile_arn is None),
{
    match &config.cluster.provider {
        Provider::Aws(aws_cluster) => aws_cluster.iam_instance_profile_arn.is_none(),
    }
}

} // verus!
