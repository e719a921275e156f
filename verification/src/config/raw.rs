//! The configuration file as it is read: no invariant across fields is
//! enforced at this stage.

use vstd::prelude::*;
use crate::config::{Selectable, UnknownOption};
use crate::text::str_eq;
use crate::utils::{expand, is_expansion_of, is_home_relative, path_exists, path_is_dir, path_is_file, PathError};
use crate::versions::{semver_req_valid, SemanticVersion, VersionParseError, VersionRequirement};

verus! {

/// A configuration file.
pub struct RawConfig {
    pub package: Package,
    pub cluster: Cluster,
    pub jobs: Vec<Job>,
}

/// The `[package]` table.
pub struct Package {
    pub daft_launcher_version: VersionRequirement,
    pub name: String,
    pub python_version: Option<VersionRequirement>,
    pub ray_version: Option<VersionRequirement>,
}

/// A version together with the requirement that it be met exactly as
/// written (`^` followed by the version's text).
pub struct VersionBundle {
    pub version_req: VersionRequirement,
    pub raw: String,
}

impl VersionBundle {
    /// The bundle of a detected version; it exists exactly when the
    /// version's text also reads as a requirement.
    pub fn from_version(version: &SemanticVersion) -> (r: Result<VersionBundle, VersionParseError>)
        ensures
            r is Ok <==> semver_req_valid(version@),
            r matches Ok(b) ==> b.raw@ == version@ && b.version_req@ == version@,
    {
        let raw = version.as_str().to_owned();
        let version_req = VersionRequirement::parse(raw.as_str())?;
        Ok(VersionBundle { version_req, raw })
    }
}

/// The name of a cluster when none is given.
pub fn default_name() -> (r: String)
    ensures
        r@ == "my-cluster"@,
{
    String::from_str("my-cluster")
}

impl Package {
    /// The default `[package]` table for the given launcher version.
    pub fn default_with_version(daft_launcher_version: VersionRequirement) -> (p: Package)
        ensures
            p.daft_launcher_version == daft_launcher_version,
            p.name@ == "my-cluster"@,
            p.python_version is None,
            p.ray_version is None,
    {
        Package {
            daft_launcher_version,
            name: default_name(),
            python_version: None,
            ray_version: None,
        }
    }
}

/// The `[cluster]` table.
pub struct Cluster {
    pub provider: Provider,
    pub number_of_workers: Option<usize>,
    pub dependencies: Vec<String>,
    pub pre_setup_commands: Vec<String>,
    pub post_setup_commands: Vec<String>,
}

impl Default for Cluster {
    fn default() -> (c: Cluster)
        ensures
            c.provider is Aws && is_default_aws_cluster(c.provider->Aws_0),
            c.number_of_workers is None,
            c.dependencies@.len() == 0,
            c.pre_setup_commands@.len() == 0,
            c.post_setup_commands@.len() == 0,
    {
        Cluster {
            number_of_workers: None,
            provider: Provider::default(),
            dependencies: Vec::new(),
            pre_setup_commands: Vec::new(),
            post_setup_commands: Vec::new(),
        }
    }
}

/// The cloud provider of a cluster, with its settings.
pub enum Provider {
    Aws(AwsCluster),
}

impl Default for Provider {
    fn default() -> (p: Provider)
        ensures
            p is Aws && is_default_aws_cluster(p->Aws_0),
    {
        Provider::Aws(AwsCluster::default())
    }
}

impl Selectable for Provider {
    type Parsed = Provider;

    open spec fn option_texts() -> Seq<Seq<char>> {
        seq!["aws"@]
    }

    fn to_options() -> (r: Vec<&'static str>) {
        let mut r: Vec<&'static str> = Vec::new();
        r.push("aws");
        r
    }

    fn parse(s: &str) -> (r: Result<Provider, UnknownOption>)
        ensures
            r matches Ok(p) ==> p is Aws && is_default_aws_cluster(p->Aws_0),
    {
        if str_eq(s, "aws") {
            assert(Self::option_texts()[0] == s@);
            Ok(Provider::Aws(AwsCluster::default()))
        } else {
            proof {
                assert(!Self::option_texts().contains(s@)) by {
                    if Self::option_texts().contains(s@) {
                        assert(Self::option_texts()[0] == s@);
                    }
                }
            }
            Err(UnknownOption(s.to_owned()))
        }
    }
}

/// The settings of a cluster on AWS.
pub struct AwsCluster {
    pub region: Option<String>,
    pub ssh_user: Option<String>,
    pub ssh_private_key: String,
    pub iam_instance_profile_arn: Option<String>,
    pub template: Option<AwsTemplateType>,
    pub custom: Option<AwsCustomType>,
}

/// The placeholder written in place of the private key's path.
pub open spec fn key_placeholder() -> Seq<char> {
    "<fill in path to ssh-private-key here>"@
}

/// The settings written into a newly generated configuration file.
pub open spec fn is_default_aws_cluster(c: AwsCluster) -> bool {
    &&& c.region is None
    &&& c.ssh_user is None
    &&& c.ssh_private_key@ == key_placeholder()
    &&& c.iam_instance_profile_arn is None
    &&& c.template == Some(AwsTemplateType::Light)
    &&& c.custom is None
}

impl Default for AwsCluster {
    fn default() -> (c: AwsCluster)
        ensures
            is_default_aws_cluster(c),
    {
        AwsCluster {
            region: None,
            ssh_user: None,
            ssh_private_key: String::from_str("<fill in path to ssh-private-key here>"),
            iam_instance_profile_arn: None,
            template: Some(AwsTemplateType::default()),
            custom: None,
        }
    }
}

/// A ready-made choice of machine image and instance type.
#[derive(Debug, Clone, Copy, PartialEq, Eq, Structural)]
pub enum AwsTemplateType {
    Light,
    Normal,
    Gpus,
}

impl Default for AwsTemplateType {
    fn default() -> (t: AwsTemplateType)
        ensures
            t == AwsTemplateType::Light,
    {
        AwsTemplateType::Light
    }
}

impl Selectable for AwsTemplateType {
    /// A template, or `None` for custom settings.
    type Parsed = Option<AwsTemplateType>;

    open spec fn option_texts() -> Seq<Seq<char>> {
        seq!["light"@, "normal"@, "gpus"@, "(custom)"@]
    }

    fn to_options() -> (r: Vec<&'static str>) {
        let mut r: Vec<&'static str> = Vec::new();
        r.push("light");
        r.push("normal");
        r.push("gpus");
        r.push("(custom)");
        r
    }

    fn parse(s: &str) -> (r: Result<Option<AwsTemplateType>, UnknownOption>)
        ensures
            s@ == "light"@ ==> r == Ok::<_, UnknownOption>(Some(AwsTemplateType::Light)),
            s@ == "normal"@ ==> r == Ok::<_, UnknownOption>(Some(AwsTemplateType::Normal)),
            s@ == "gpus"@ ==> r == Ok::<_, UnknownOption>(Some(AwsTemplateType::Gpus)),
            s@ == "(custom)"@ ==> r == Ok::<Option<AwsTemplateType>, UnknownOption>(None),
    {
        let ghost opts = Self::option_texts();
        proof {
            reveal_strlit("light");
            reveal_strlit("normal");
            reveal_strlit("gpus");
            reveal_strlit("(custom)");
            assert("light"@.len() == 5 && "normal"@.len() == 6);
            assert("gpus"@.len() == 4 && "(custom)"@.len() == 8);
        }
        if str_eq(s, "light") {
            assert(opts[0] == s@);
            Ok(Some(AwsTemplateType::Light))
        } else if str_eq(s, "normal") {
            assert(opts[1] == s@);
            Ok(Some(AwsTemplateType::Normal))
        } else if str_eq(s, "gpus") {
            assert(opts[2] == s@);
            Ok(Some(AwsTemplateType::Gpus))
        } else if str_eq(s, "(custom)") {
            assert(opts[3] == s@);
            Ok(None)
        } else {
            proof {
                assert(!opts.contains(s@)) by {
                    if opts.contains(s@) {
                        let k = choose|k: int| 0 <= k < opts.len() && opts[k] == s@;
                        assert(k == 0 || k == 1 || k == 2 || k == 3);
                    }
                }
            }
            Err(UnknownOption(s.to_owned()))
        }
    }
}

/// The machine image and instance type given in place of a template.
pub struct AwsCustomType {
    pub image_id: String,
    pub instance_type: String,
}

/// A `[[job]]` table.
pub struct Job {
    pub name: String,
    pub working_dir: String,
    pub command: String,
}

/// The ways in which a path in the configuration file can be refused.
pub enum PathCheckError {
    /// The path could not be expanded.
    Expansion(PathError),
    /// Nothing exists at the (expanded) path.
    DoesNotExist(String),
    /// A directory was expected at the (expanded) path.
    NotADirectory(String),
    /// A file was expected at the (expanded) path.
    NotAFile(String),
}

/// What checking a path may give: the expansion of the path, or an error
/// that names that expansion (or the failure to expand).
pub open spec fn is_path_check_outcome(path: Seq<char>, r: Result<String, PathCheckError>) -> bool {
    match r {
        Ok(p) => is_expansion_of(path, p@),
        Err(PathCheckError::Expansion(_)) => is_home_relative(path),
        Err(PathCheckError::DoesNotExist(p)) => is_expansion_of(path, p@),
        Err(PathCheckError::NotADirectory(p)) => is_expansion_of(path, p@),
        Err(PathCheckError::NotAFile(p)) => is_expansion_of(path, p@),
    }
}

/// What checking a working directory gives, from its expansion and the file
/// system's answers about it: it must exist and be a directory.
pub open spec fn dir_check_result(expanded: String, exists: bool, is_dir: bool) -> Result<
    String,
    PathCheckError,
> {
    if !exists {
        Err(PathCheckError::DoesNotExist(expanded))
    } else if !is_dir {
        Err(PathCheckError::NotADirectory(expanded))
    } else {
        Ok(expanded)
    }
}

/// What checking a private key's path gives, from its expansion and the file
/// system's answers about it: it must exist and be a file.
pub open spec fn file_check_result(expanded: String, exists: bool, is_file: bool) -> Result<
    String,
    PathCheckError,
> {
    if !exists {
        Err(PathCheckError::DoesNotExist(expanded))
    } else if !is_file {
        Err(PathCheckError::NotAFile(expanded))
    } else {
        Ok(expanded)
    }
}

/// The outcome of checking a working directory, given its expansion and
/// the file system's answers about it: it must exist and be a directory.
pub fn dir_check_outcome(expanded: String, exists: bool, is_dir: bool) -> (r: Result<
    String,
    PathCheckError,
>)
    ensures
        r == dir_check_result(expanded, exists, is_dir),
{
    if !exists {
        Err(PathCheckError::DoesNotExist(expanded))
    } else if !is_dir {
        Err(PathCheckError::NotADirectory(expanded))
    } else {
        Ok(expanded)
    }
}

/// The outcome of checking a private key's path, given its expansion and
/// the file system's answers about it: it must exist and be a file.
pub fn file_check_outcome(expanded: String, exists: bool, is_file: bool) -> (r: Result<
    String,
    PathCheckError,
>)
    ensures
        r == file_check_result(expanded, exists, is_file),
{
    if !exists {
        Err(PathCheckError::DoesNotExist(expanded))
    } else if !is_file {
        Err(PathCheckError::NotAFile(expanded))
    } else {
        Ok(expanded)
    }
}

/// Checks a working directory of the file: after `~` expansion it must
/// exist and be a directory (see [`dir_check_outcome`]).
pub fn check_dir(path: &str) -> (r: Result<String, PathCheckError>)
    ensures
        is_path_check_outcome(path@, r),
        r matches Err(e) ==> !(e is NotAFile),
{
    let expanded = match expand(path) {
        Ok(p) => p,
        Err(e) => {
            return Err(PathCheckError::Expansion(e));
        },
    };
    let exists = path_exists(expanded.as_str());
    let is_dir = path_is_dir(expanded.as_str());
    dir_check_outcome(expanded, exists, is_dir)
}

/// Checks the private key's path of the file: after `~` expansion it must
/// exist and be a file (see [`file_check_outcome`]).
pub fn check_file(path: &str) -> (r: Result<String, PathCheckError>)
    ensures
        is_path_check_outcome(path@, r),
        r matches Err(e) ==> !(e is NotADirectory),
{
    let expanded = match expand(path) {
        Ok(p) => p,
        Err(e) => {
            return Err(PathCheckError::Expansion(e));
        },
    };
    let exists = path_exists(expanded.as_str());
    let is_file = path_is_file(expanded.as_str());
    file_check_outcome(expanded, exists, is_file)
}

/// Whether an interactive `init` asks for a custom machine image and
/// instance type: only when no template was chosen.
pub fn asks_for_custom_settings(template: &Option<AwsTemplateType>) -> (b: bool)
    ensures
        b == (*template is None),
{
    template.is_none()
}

impl RawConfig {
    /// The configuration written by a non-interactive `init`: the default
    /// package for the given launcher version, the default AWS cluster, and
    /// no jobs.
    pub fn default_with_version(daft_launcher_version: VersionRequirement) -> (c: RawConfig)
        ensures
            c.package.daft_launcher_version == daft_launcher_version,
            c.package.name@ == "my-cluster"@,
            c.package.python_version is None,
            c.package.ray_version is None,
            c.cluster.provider is Aws && is_default_aws_cluster(c.cluster.provider->Aws_0),
            c.cluster.number_of_workers is None,
            c.cluster.dependencies@.len() == 0,
            c.cluster.pre_setup_commands@.len() == 0,
            c.cluster.post_setup_commands@.len() == 0,
            c.jobs@.len() == 0,
    {
        RawConfig {
            package: Package::default_with_version(daft_launcher_version),
            cluster: Cluster::default(),
            jobs: Vec::new(),
        }
    }

    /// The configuration written by an interactive `init`: the cluster name
    /// and the provider chosen, where for AWS the template chosen (or custom
    /// settings) replace those of the default.
    pub fn from_answers(
        daft_launcher_version: VersionRequirement,
        name: String,
        provider: Provider,
        template: Option<AwsTemplateType>,
        custom: Option<AwsCustomType>,
    ) -> (c: RawConfig)
        ensures
            c.package.daft_launcher_version == daft_launcher_version,
            c.package.name == name,
            c.package.python_version is None,
            c.package.ray_version is None,
            c.cluster.provider matches Provider::Aws(a) && provider matches Provider::Aws(p) && a
                == (AwsCluster { template, custom, ..p }),
            c.cluster.number_of_workers is None,
            c.cluster.dependencies@.len() == 0,
            c.cluster.pre_setup_commands@.len() == 0,
            c.cluster.post_setup_commands@.len() == 0,
            c.jobs@.len() == 0,
    {
        let provider = match provider {
            Provider::Aws(aws_cluster) => Provider::Aws(AwsCluster { template, custom, ..aws_cluster }),
        };
        RawConfig {
            package: Package {
                daft_launcher_version,
                name,
                python_version: None,
                ray_version: None,
            },
            cluster: Cluster {
                provider,
                number_of_workers: None,
                dependencies: Vec::new(),
                pre_setup_commands: Vec::new(),
                post_setup_commands: Vec::new(),
            },
            jobs: Vec::new(),
        }
    }
}

} // verus!
