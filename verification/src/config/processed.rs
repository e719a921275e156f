//! The checked configuration: defaults are filled in and the invariants that
//! span several fields hold.

use vstd::prelude::*;
use crate::config::defaults::{
    base_setup_command_texts, base_setup_commands, default_region, default_ssh_user,
    light_image_id, light_instance_type, normal_image_id, normal_instance_type,
    DEFAULT_NUMBER_OF_WORKERS,
};
use crate::config::raw::{self, Job, VersionBundle};
use crate::text::{is_prefix, starts_with};
use crate::utils::{file_stem, path_file_stem};
use crate::versions::{
    semver_matches, semver_req_valid, semver_version_valid, SemanticVersion, VersionRequirement,
};

verus! {

/// A checked configuration.
pub struct ProcessedConfig {
    pub package: Package,
    pub cluster: Cluster,
    /// The jobs, by name; no name occurs twice.
    pub jobs: Vec<(String, Job)>,
}

/// The checked `[package]` table: the Python and Ray versions are known.
pub struct Package {
    pub daft_launcher_version: crate::versions::VersionRequirement,
    pub name: String,
    pub python_version: VersionBundle,
    pub ray_version: VersionBundle,
}

/// The checked `[cluster]` table.
pub struct Cluster {
    pub provider: Provider,
    pub number_of_workers: usize,
    pub dependencies: Vec<String>,
    pub pre_setup_commands: Vec<String>,
    pub post_setup_commands: Vec<String>,
}

/// The cloud provider of a cluster, with its settings.
pub enum Provider {
    Aws(AwsCluster),
}

/// The checked settings of a cluster on AWS.
pub struct AwsCluster {
    pub region: String,
    pub ssh_user: String,
    /// The name of the key pair: the stem of the private key's file name.
    pub ssh_key_name: String,
    pub ssh_private_key: String,
    pub iam_instance_profile_arn: Option<String>,
    pub image_id: String,
    pub instance_type: String,
}

/// The ways in which a configuration can fail its checks.
pub enum ProcessError<E> {
    /// Detecting the Python or Ray version failed.
    Detection(E),
    /// Both a template and custom settings are given.
    TemplateAndCustom,
    /// Neither a template nor custom settings are given.
    NoTemplateOrCustom,
    /// The GPU template is chosen, which is not supported yet.
    GpusUnsupported,
    /// The private key's path has no file name to take the key pair's name
    /// from.
    MissingKeyName(String),
    /// Two jobs share a name.
    DuplicateJobName(String),
}

/// The bundle that a requirement written in the file stands for.
pub open spec fn bundle_of_requirement(
    b: VersionBundle,
    req: crate::versions::VersionRequirement,
) -> bool {
    b.version_req == req && b.raw@ == req@
}

/// The version taken for `given`: the requirement written in the file, or
/// else one that `detect` may give.
pub open spec fn version_taken<F: FnOnce() -> Result<VersionBundle, E>, E>(
    given: Option<crate::versions::VersionRequirement>,
    detect: F,
    b: VersionBundle,
) -> bool {
    match given {
        Some(req) => bundle_of_requirement(b, req),
        None => call_ensures(detect, (), Ok::<VersionBundle, E>(b)),
    }
}

fn bundle_or_detect<F, E>(
    given: Option<crate::versions::VersionRequirement>,
    detect: F,
) -> (r: Result<VersionBundle, E>) where F: FnOnce() -> Result<VersionBundle, E>
    requires
        given is None ==> call_requires(detect, ()),
    ensures
        r matches Ok(b) ==> version_taken(given, detect, b),
        r matches Err(e) ==> given is None && call_ensures(detect, (), Err::<VersionBundle, E>(e)),
{
    match given {
        Some(req) => {
            let raw = req.as_str().to_owned();
            Ok(VersionBundle { version_req: req, raw })
        },
        None => detect(),
    }
}

impl Package {
    /// Checks the `[package]` table: a Python or Ray version that the file
    /// does not give is detected with `detect_python` or `detect_ray`, which
    /// are only called then (Python first).
    pub fn try_from_raw<FP, FR, E>(value: raw::Package, detect_python: FP, detect_ray: FR) -> (r:
        Result<Package, E>) where
        FP: FnOnce() -> Result<VersionBundle, E>,
        FR: FnOnce() -> Result<VersionBundle, E>,
        requires
            value.python_version is None ==> call_requires(detect_python, ()),
            value.ray_version is None ==> call_requires(detect_ray, ()),
        ensures
            r matches Ok(p) ==> {
                &&& p.daft_launcher_version == value.daft_launcher_version
                &&& p.name == value.name
                &&& version_taken(value.python_version, detect_python, p.python_version)
                &&& version_taken(value.ray_version, detect_ray, p.ray_version)
            },
            r matches Err(e) ==> (value.python_version is None && call_ensures(
                detect_python,
                (),
                Err::<VersionBundle, E>(e),
            )) || (value.ray_version is None && call_ensures(
                detect_ray,
                (),
                Err::<VersionBundle, E>(e),
            )),
    {
        let python_version = bundle_or_detect(value.python_version, detect_python)?;
        let ray_version = bundle_or_detect(value.ray_version, detect_ray)?;
        Ok(
            Package {
                daft_launcher_version: value.daft_launcher_version,
                name: value.name,
                python_version,
                ray_version,
            },
        )
    }
}

/// The stem of the private key's file name, which names the key pair.
pub fn to_key_stem(path: &str) -> (r: Option<String>)
    ensures
        match r {
            Some(s) => path_file_stem(path@) == Some(s@),
            None => path_file_stem(path@) is None,
        },
{
    file_stem(path)
}

/// The settings of a raw AWS cluster that the checks accept: exactly one of
/// a template and custom settings, the template not being the GPU one.
pub open spec fn is_supported_choice(c: raw::AwsCluster) -> bool {
    match (c.template, c.custom) {
        (Some(raw::AwsTemplateType::Light), None) => true,
        (Some(raw::AwsTemplateType::Normal), None) => true,
        (None, Some(_)) => true,
        _ => false,
    }
}

/// `p` holds the checked settings of the raw AWS cluster `c` for a key pair
/// named `key_name`.
pub open spec fn is_processed_aws_cluster(
    c: raw::AwsCluster,
    key_name: Seq<char>,
    p: AwsCluster,
) -> bool {
    &&& p.region@ == match c.region {
        Some(r) => r@,
        None => "us-west-2"@,
    }
    &&& p.ssh_user@ == match c.ssh_user {
        Some(u) => u@,
        None => "ec2-user"@,
    }
    &&& p.ssh_key_name@ == key_name
    &&& p.ssh_private_key == c.ssh_private_key
    &&& p.iam_instance_profile_arn == c.iam_instance_profile_arn
    &&& match (c.template, c.custom) {
        (Some(raw::AwsTemplateType::Light), None) => p.image_id@ == "ami-07c5ecd8498c59db5"@
            && p.instance_type@ == "t2.nano"@,
        (Some(raw::AwsTemplateType::Normal), None) => p.image_id@ == "ami-01c3c55948a949a52"@
            && p.instance_type@ == "m7g.medium"@,
        (None, Some(custom)) => p.image_id == custom.image_id && p.instance_type
            == custom.instance_type,
        _ => false,
    }
}

impl Provider {
    /// Checks the provider settings; gives them with the commands to run
    /// before and after the setup of each node.
    fn process<E>(raw_provider: raw::Provider, package: &Package) -> (r: Result<
        (Provider, Vec<String>, Vec<String>),
        ProcessError<E>,
    >)
        requires
            raw_provider matches raw::Provider::Aws(c) && path_file_stem(c.ssh_private_key@) is Some
                && !(c.template == Some(raw::AwsTemplateType::Gpus) && c.custom is None),
        ensures
            match raw_provider {
                raw::Provider::Aws(c) => match (c.template, c.custom) {
                    (Some(_), Some(_)) => r matches Err(ProcessError::TemplateAndCustom),
                    (None, None) => r matches Err(ProcessError::NoTemplateOrCustom),
                    _ => r matches Ok((Provider::Aws(p), pre, post)) && is_processed_aws_cluster(
                        c,
                        path_file_stem(c.ssh_private_key@)->0,
                        p,
                    ) && pre@.len() == 0 && post.deep_view() == base_setup_command_texts(
                        package.python_version.raw@,
                        package.ray_version.raw@,
                    ),
                },
            },
    {
        match raw_provider {
            raw::Provider::Aws(aws_cluster) => {
                let ssh_key_name = match to_key_stem(aws_cluster.ssh_private_key.as_str()) {
                    Some(k) => k,
                    None => vstd::pervasive::unreached(),
                };
                let image_and_type = match (&aws_cluster.template, &aws_cluster.custom) {
                    (Some(_), Some(_)) => {
                        return Err(ProcessError::TemplateAndCustom);
                    },
                    (None, None) => {
                        return Err(ProcessError::NoTemplateOrCustom);
                    },
                    (Some(raw::AwsTemplateType::Light), None) => (
                        light_image_id(),
                        light_instance_type(),
                    ),
                    (Some(raw::AwsTemplateType::Normal), None) => (
                        normal_image_id(),
                        normal_instance_type(),
                    ),
                    (Some(raw::AwsTemplateType::Gpus), None) => vstd::pervasive::unreached(),
                    (None, Some(custom)) => (custom.image_id.clone(), custom.instance_type.clone()),
                };
                let (image_id, instance_type) = image_and_type;
                let region = match aws_cluster.region {
                    Some(r) => r,
                    None => default_region(),
                };
                let ssh_user = match aws_cluster.ssh_user {
                    Some(u) => u,
                    None => default_ssh_user(),
                };
                Ok(
                    (
                        Provider::Aws(
                            AwsCluster {
                                region,
                                ssh_user,
                                ssh_key_name,
                                ssh_private_key: aws_cluster.ssh_private_key,
                                iam_instance_profile_arn: aws_cluster.iam_instance_profile_arn,
                                image_id,
                                instance_type,
                            },
                        ),
                        Vec::new(),
                        base_setup_commands(package),
                    ),
                )
            },
        }
    }
}

/// No two jobs share a name.
pub open spec fn job_names_distinct(jobs: Seq<Job>) -> bool {
    forall|i: int, j: int| 0 <= i < j < jobs.len() ==> (#[trigger] jobs[i]).name@ != (#[trigger] jobs[j]).name@
}

/// The table of jobs by name.
pub open spec fn job_map_of(jobs: Seq<Job>) -> Seq<(String, Job)> {
    jobs.map_values(|j: Job| (j.name, j))
}

/// Builds the table of jobs by name; two jobs of the same name are refused,
/// with the name of the first job whose name was already taken.
pub fn job_list_to_job_map<E>(jobs: Vec<Job>) -> (r: Result<Vec<(String, Job)>, ProcessError<E>>)
    ensures
        r is Ok <==> job_names_distinct(jobs@),
        r matches Ok(t) ==> t@ == job_map_of(jobs@),
        r matches Err(e) ==> e matches ProcessError::DuplicateJobName(n) && exists|j: int|
            0 <= j < jobs@.len() && (#[trigger] jobs@[j]).name@ == n@ && job_names_distinct(
                jobs@.take(j),
            ) && !job_names_distinct(jobs@.take(j + 1)),
{
    let ghost given = jobs@;
    let n = jobs.len();
    let mut remaining = jobs;
    let mut t: Vec<(String, Job)> = Vec::new();
    let mut i: usize = 0;
    while i < n
        invariant
            n == given.len(),
            given == jobs@,
            i <= n,
            remaining@ == given.subrange(i as int, n as int),
            job_names_distinct(given.take(i as int)),
            t@ == job_map_of(given.take(i as int)),
        decreases n - i,
    {
        let job = remaining.remove(0);
        assert(given[i as int] == job);
        let mut k: usize = 0;
        while k < t.len()
            invariant
                t@ == job_map_of(given.take(i as int)),
                k <= t@.len(),
                t@.len() == i,
                i < given.len(),
                given == jobs@,
                given[i as int] == job,
                job_names_distinct(given.take(i as int)),
                forall|m: int| 0 <= m < k ==> (#[trigger] given[m]).name@ != job.name@,
            decreases t@.len() - k,
        {
            assert(t@[k as int].0 == given.take(i as int)[k as int].name);
            if t[k].0 == job.name {
                proof {
                    assert(given.take(i as int)[k as int] == given[k as int]);
                    assert(!job_names_distinct(given.take(i + 1))) by {
                        assert(given.take(i + 1)[k as int] == given[k as int]);
                        assert(given.take(i + 1)[i as int] == given[i as int]);
                    }
                    assert(!job_names_distinct(given)) by {
                        assert(given[k as int].name@ == given[i as int].name@);
                    }
                    assert(given[i as int].name@ == job.name@);
                }
                return Err(ProcessError::DuplicateJobName(job.name));
            }
            assert(given.take(i as int)[k as int] == given[k as int]);
            k = k + 1;
        }
        let name = job.name.clone();
        t.push((name, job));
        proof {
            assert forall|a: int, b: int| 0 <= a < b < i + 1 implies (#[trigger] given.take(
                i + 1,
            )[a]).name@ != (#[trigger] given.take(i + 1)[b]).name@ by {
                if b < i {
                    assert(given.take(i + 1)[a] == given.take(i as int)[a]);
                    assert(given.take(i + 1)[b] == given.take(i as int)[b]);
                } else {
                    assert(given.take(i + 1)[a] == given[a]);
                }
            }
            assert(t@ =~= job_map_of(given.take(i + 1)));
        }
        i = i + 1;
        assert(remaining@ =~= given.subrange(i as int, n as int));
    }
    assert(given.take(n as int) =~= given);
    Ok(t)
}

/// The AWS settings of a raw provider.
pub open spec fn raw_aws(p: raw::Provider) -> raw::AwsCluster {
    match p {
        raw::Provider::Aws(c) => c,
    }
}

/// The AWS settings of a checked provider.
pub open spec fn aws_of(p: Provider) -> AwsCluster {
    match p {
        Provider::Aws(c) => c,
    }
}

/// `p` is the checked form of `raw`, with the given detections for the
/// versions the file leaves out.
pub open spec fn is_processed_config_of<FP, FR, E>(
    raw: raw::RawConfig,
    detect_python: FP,
    detect_ray: FR,
    p: ProcessedConfig,
) -> bool where
    FP: FnOnce() -> Result<VersionBundle, E>,
    FR: FnOnce() -> Result<VersionBundle, E>,
 {
    let c = raw_aws(raw.cluster.provider);
    &&& p.package.daft_launcher_version == raw.package.daft_launcher_version
    &&& p.package.name == raw.package.name
    &&& version_taken(raw.package.python_version, detect_python, p.package.python_version)
    &&& version_taken(raw.package.ray_version, detect_ray, p.package.ray_version)
    &&& is_processed_aws_cluster(c, path_file_stem(c.ssh_private_key@)->0, aws_of(p.cluster.provider))
    &&& p.cluster.number_of_workers == match raw.cluster.number_of_workers {
        Some(n) => n,
        None => 2,
    }
    &&& p.cluster.dependencies == raw.cluster.dependencies
    &&& p.cluster.pre_setup_commands@ == raw.cluster.pre_setup_commands@
    &&& p.cluster.post_setup_commands.deep_view() == base_setup_command_texts(
        p.package.python_version.raw@,
        p.package.ray_version.raw@,
    )
        + raw.cluster.post_setup_commands.deep_view()
    &&& p.jobs@ == job_map_of(raw.jobs@)
}

/// What the checks of a raw configuration demand of it, apart from the
/// version detections.
pub open spec fn passes_checks(raw: raw::RawConfig) -> bool {
    let c = raw_aws(raw.cluster.provider);
    &&& path_file_stem(c.ssh_private_key@) is Some
    &&& is_supported_choice(c)
    &&& job_names_distinct(raw.jobs@)
}

/// The first of the checks that a raw configuration fails, in the order in
/// which they are made, is the one that `e` reports.
pub open spec fn is_first_failed_check<E>(raw: raw::RawConfig, e: ProcessError<E>) -> bool {
    let c = raw_aws(raw.cluster.provider);
    if path_file_stem(c.ssh_private_key@) is None {
        e matches ProcessError::MissingKeyName(k) && k@ == c.ssh_private_key@
    } else if c.template == Some(raw::AwsTemplateType::Gpus) && c.custom is None {
        e is GpusUnsupported
    } else if c.template is Some && c.custom is Some {
        e is TemplateAndCustom
    } else if c.template is None && c.custom is None {
        e is NoTemplateOrCustom
    } else {
        e matches ProcessError::DuplicateJobName(n) && exists|j: int|
            0 <= j < raw.jobs@.len() && (#[trigger] raw.jobs@[j]).name@ == n@ && job_names_distinct(
                raw.jobs@.take(j),
            ) && !job_names_distinct(raw.jobs@.take(j + 1))
    }
}

/// What an error of the checks says of the raw configuration: the detection
/// that failed, or the first check that the configuration fails.
pub open spec fn is_process_error_of<FP, FR, E>(
    raw: raw::RawConfig,
    detect_python: FP,
    detect_ray: FR,
    e: ProcessError<E>,
) -> bool where
    FP: FnOnce() -> Result<VersionBundle, E>,
    FR: FnOnce() -> Result<VersionBundle, E>,
 {
    match e {
        ProcessError::Detection(d) => (raw.package.python_version is None && call_ensures(
            detect_python,
            (),
            Err::<VersionBundle, E>(d),
        )) || (raw.package.ray_version is None && call_ensures(
            detect_ray,
            (),
            Err::<VersionBundle, E>(d),
        )),
        _ => !passes_checks(raw) && is_first_failed_check(raw, e),
    }
}

impl ProcessedConfig {
    /// Checks a raw configuration. Versions the file leaves out are detected
    /// with `detect_python` and `detect_ray` (only then). A private key path
    /// without a file name, and the GPU template, are refused with an error.
    pub fn try_from_raw<FP, FR, E>(raw: raw::RawConfig, detect_python: FP, detect_ray: FR) -> (r:
        Result<ProcessedConfig, ProcessError<E>>) where
        FP: FnOnce() -> Result<VersionBundle, E>,
        FR: FnOnce() -> Result<VersionBundle, E>,
        requires
            raw.package.python_version is None ==> call_requires(detect_python, ()),
            raw.package.ray_version is None ==> call_requires(detect_ray, ()),
        ensures
            r matches Ok(p) ==> passes_checks(raw) && is_processed_config_of(
                raw,
                detect_python,
                detect_ray,
                p,
            ),
            passes_checks(raw) ==> r is Ok || r is Err && r->Err_0 is Detection,
            r matches Err(e) ==> is_process_error_of(raw, detect_python, detect_ray, e),
    {
        let package = match Package::try_from_raw(raw.package, detect_python, detect_ray) {
            Ok(p) => p,
            Err(e) => {
                return Err(ProcessError::Detection(e));
            },
        };
        let raw::Cluster {
            provider,
            number_of_workers,
            dependencies,
            pre_setup_commands: mut raw_pre,
            post_setup_commands: mut raw_post,
        } = raw.cluster;
        match &provider {
            raw::Provider::Aws(c) => {
                if to_key_stem(c.ssh_private_key.as_str()).is_none() {
                    return Err(ProcessError::MissingKeyName(c.ssh_private_key.clone()));
                }
                let gpus = match (&c.template, &c.custom) {
                    (Some(raw::AwsTemplateType::Gpus), None) => true,
                    _ => false,
                };
                if gpus {
                    return Err(ProcessError::GpusUnsupported);
                }
            },
        }
        let (provider, mut pre_setup_commands, mut post_setup_commands) = Provider::process(
            provider,
            &package,
        )?;
        let ghost base_post = post_setup_commands.deep_view();
        let ghost raw_post_view = raw_post.deep_view();
        pre_setup_commands.append(&mut raw_pre);
        post_setup_commands.append(&mut raw_post);
        assert(post_setup_commands.deep_view() =~= base_post + raw_post_view);
        let jobs = job_list_to_job_map(raw.jobs)?;
        let number_of_workers = match number_of_workers {
            Some(n) => n,
            None => DEFAULT_NUMBER_OF_WORKERS,
        };
        Ok(
            ProcessedConfig {
                package,
                cluster: Cluster {
                    provider,
                    number_of_workers,
                    dependencies,
                    pre_setup_commands,
                    post_setup_commands,
                },
                jobs,
            },
        )
    }
}

/// The ways in which a detected Python version can be refused.
pub enum PythonVersionError {
    /// The version is older than 3.9 (the minimum requirement `3.9` does not
    /// match it).
    Unsupported(String),
    /// The version's text does not read as a requirement.
    NotARequirement(String),
}

/// Checks a detected Python version against the minimum requirement `3.9`
/// and gives its bundle.
pub fn python_version_bundle(version: &SemanticVersion) -> (r: Result<
    VersionBundle,
    PythonVersionError,
>)
    ensures
        r is Ok <==> semver_req_valid("3.9"@) && semver_matches("3.9"@, version@)
            && semver_req_valid(version@),
        r matches Ok(b) ==> b.raw@ == version@ && b.version_req@ == version@,
        r matches Err(PythonVersionError::Unsupported(v)) ==> v@ == version@ && !(semver_req_valid(
            "3.9"@,
        ) && semver_matches("3.9"@, version@)),
{
    let supported = match VersionRequirement::parse("3.9") {
        Ok(minimum) => minimum.matches(version),
        Err(_) => false,
    };
    if !supported {
        return Err(PythonVersionError::Unsupported(version.as_str().to_owned()));
    }
    match VersionBundle::from_version(version) {
        Ok(b) => Ok(b),
        Err(e) => Err(PythonVersionError::NotARequirement(e.text)),
    }
}

/// The version that `<executable> --version` reports on its one line of
/// output: the text between `prefix` and the final line break.
pub open spec fn version_output_text(output: Seq<char>, prefix: Seq<char>) -> Option<Seq<char>> {
    if is_prefix(prefix, output) && output.len() > prefix.len() && output.last() == '\n' {
        Some(output.subrange(prefix.len() as int, output.len() - 1))
    } else {
        None
    }
}

/// The ways in which the output of `<executable> --version` can be refused.
pub enum VersionOutputError {
    /// The output does not begin with the expected prefix, or does not end
    /// with a line break after it.
    UnexpectedOutput(String),
    /// The text between the prefix and the line break is not a version.
    NotAVersion(String),
}

/// Reads the version that `<executable> --version` reports, where the line
/// begins with `prefix`.
pub fn version_from_output(output: &str, prefix: &str) -> (r: Result<
    SemanticVersion,
    VersionOutputError,
>)
    ensures
        match version_output_text(output@, prefix@) {
            None => r matches Err(VersionOutputError::UnexpectedOutput(o)) && o@ == output@,
            Some(t) => {
                &&& r is Ok <==> semver_version_valid(t)
                &&& r matches Ok(v) ==> v@ == t
                &&& r matches Err(e) ==> e matches VersionOutputError::NotAVersion(x) && x@ == t
            },
        },
{
    let n = output.unicode_len();
    let k = prefix.unicode_len();
    if !starts_with(output, prefix) || n <= k || output.get_char(n - 1) != '\n' {
        return Err(VersionOutputError::UnexpectedOutput(output.to_owned()));
    }
    let text = output.substring_char(k, n - 1);
    match SemanticVersion::parse(text) {
        Ok(v) => Ok(v),
        Err(e) => Err(VersionOutputError::NotAVersion(e.text)),
    }
}

/// The ways in which a finished run of `<executable> --version` can fail to
/// report a version.
pub enum VersionRunError {
    /// The command exited unsuccessfully; the executable's name.
    Failed(String),
    /// The command's output does not report a version.
    Output(VersionOutputError),
}

/// The version reported by a finished run of `<executable> --version`
/// (after [`crate::utils::assert_executable_exists`] has found it): the run
/// must have succeeded, and its output report the version after `prefix`.
pub fn version_from_run(executable: &str, success: bool, output: &str, prefix: &str) -> (r:
    Result<SemanticVersion, VersionRunError>)
    ensures
        !success ==> (r matches Err(VersionRunError::Failed(x)) && x@ == executable@),
        success ==> match version_output_text(output@, prefix@) {
            None => r matches Err(VersionRunError::Output(VersionOutputError::UnexpectedOutput(o)))
                && o@ == output@,
            Some(t) => {
                &&& r is Ok <==> semver_version_valid(t)
                &&& r matches Ok(v) ==> v@ == t
                &&& r matches Err(e) ==> e matches VersionRunError::Output(
                    VersionOutputError::NotAVersion(x),
                ) && x@ == t
            },
        },
{
    if !success {
        return Err(VersionRunError::Failed(executable.to_owned()));
    }
    match version_from_output(output, prefix) {
        Ok(v) => Ok(v),
        Err(e) => Err(VersionRunError::Output(e)),
    }
}

/// The ways in which detecting the Python or Ray version can fail, once the
/// tool has run.
pub enum DetectionError {
    /// The tool's output does not report a version.
    Output(VersionOutputError),
    /// The Python version is refused.
    Python(PythonVersionError),
    /// The Ray version's text does not read as a requirement.
    NotARequirement(String),
}

/// The line that `python --version` begins with.
pub open spec fn python_prefix() -> Seq<char> {
    "Python "@
}

/// The line that `ray --version` begins with.
pub open spec fn ray_prefix() -> Seq<char> {
    "ray, version "@
}

/// The Python version bundle from the output of `python --version`: the
/// version must be at least `3.9`.
pub fn python_version_from_output(output: &str) -> (r: Result<VersionBundle, DetectionError>)
    ensures
        r is Ok <==> (version_output_text(output@, python_prefix()) matches Some(t) && {
            &&& semver_version_valid(t)
            &&& semver_req_valid("3.9"@)
            &&& semver_matches("3.9"@, t)
            &&& semver_req_valid(t)
        }),
        r matches Ok(b) ==> version_output_text(output@, python_prefix()) == Some(b.raw@)
            && b.version_req@ == b.raw@,
        r matches Err(DetectionError::Output(e)) ==> !(version_output_text(
            output@,
            python_prefix(),
        ) matches Some(t) && semver_version_valid(t)),
{
    let version = match version_from_output(output, "Python ") {
        Ok(v) => v,
        Err(e) => {
            return Err(DetectionError::Output(e));
        },
    };
    match python_version_bundle(&version) {
        Ok(b) => Ok(b),
        Err(e) => Err(DetectionError::Python(e)),
    }
}

/// The Ray version bundle from the output of `ray --version`.
pub fn ray_version_from_output(output: &str) -> (r: Result<VersionBundle, DetectionError>)
    ensures
        r is Ok <==> (version_output_text(output@, ray_prefix()) matches Some(t)
            && semver_version_valid(t) && semver_req_valid(t)),
        r matches Ok(b) ==> version_output_text(output@, ray_prefix()) == Some(b.raw@)
            && b.version_req@ == b.raw@,
        r matches Err(DetectionError::Output(e)) ==> !(version_output_text(
            output@,
            ray_prefix(),
        ) matches Some(t) && semver_version_valid(t)),
        !(r matches Err(DetectionError::Python(_))),
{
    let version = match version_from_output(output, "ray, version ") {
        Ok(v) => v,
        Err(e) => {
            return Err(DetectionError::Output(e));
        },
    };
    match VersionBundle::from_version(&version) {
        Ok(b) => Ok(b),
        Err(e) => Err(DetectionError::NotARequirement(e.text)),
    }
}

} // verus!
