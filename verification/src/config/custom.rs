//! The earlier form of the configuration file, in which values that may be
//! left out are processed in place.

use vstd::prelude::*;
use crate::processable_option::ProcessableOption;
use crate::versions::{SemanticVersion, VersionRequirement};

verus! {

/// A configuration file in its earlier form.
pub struct CustomConfig {
    pub package: Package,
    pub cluster: Cluster,
    pub jobs: Vec<Job>,
}

/// The `[package]` table.
pub struct Package {
    pub daft_launcher_version: SemanticVersion,
    pub name: String,
    pub python_version: ProcessableOption<VersionRequirement>,
    pub ray_version: ProcessableOption<VersionRequirement>,
}

/// The `[cluster]` table.
pub struct Cluster {
    pub provider: Provider,
    pub number_of_workers: usize,
    pub dependencies: Vec<String>,
    pub pre_setup_commands: Vec<String>,
    pub post_setup_commands: Vec<String>,
}

/// The cloud provider of a cluster, with its settings.
pub enum Provider {
    Aws(AwsCluster),
}

/// The settings of a cluster on AWS.
pub struct AwsCluster {
    pub region: String,
    pub ssh_user: ProcessableOption<String>,
    pub ssh_private_key: ProcessableOption<String>,
    pub iam_instance_profile_arn: Option<String>,
    pub template: Option<AwsTemplateType>,
    pub custom: Option<AwsCustom>,
}

/// A ready-made choice of machine image and instance type.
#[derive(Debug, Clone, Copy, PartialEq, Eq, Structural)]
pub enum AwsTemplateType {
    Light,
    Normal,
    Gpus,
}

/// The machine image and instance type given in place of a template.
pub struct AwsCustom {
    pub image_id: Option<String>,
    pub instance_type: Option<String>,
}

/// A `[[job]]` table.
pub struct Job {
    pub name: String,
    pub working_dir: String,
    pub command: String,
}

/// The number of worker nodes when the file does not give one.
pub fn default_number_of_workers() -> (n: usize)
    ensures
        n == 2,
{
    2
}

/// The region when the file does not give one.
pub fn default_region() -> (r: String)
    ensures
        r@ == "us-west-2"@,
{
    String::from_str("us-west-2")
}

} // verus!
