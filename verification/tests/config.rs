use daft_launcher::config::custom;
use daft_launcher::config::defaults::{
    base_setup_commands, default_region, default_ssh_user, light_image_id, light_instance_type,
    normal_image_id, normal_instance_type, DEFAULT_NUMBER_OF_WORKERS,
};
use daft_launcher::config::processed::{
    job_list_to_job_map, python_version_bundle, version_from_run, VersionRunError, python_version_from_output, ray_version_from_output,
    to_key_stem, version_from_output, DetectionError, ProcessError, ProcessedConfig,
    PythonVersionError, VersionOutputError,
};
use daft_launcher::config::raw::{
    asks_for_custom_settings, check_dir, check_file, default_name, dir_check_outcome,
    file_check_outcome, AwsCluster, AwsCustomType, AwsTemplateType, Cluster, Job,
    Package, PathCheckError, Provider, RawConfig, VersionBundle,
};
use daft_launcher::config::ray::{NodeConfig, RayConfig, Resources};
use daft_launcher::config::{read, ReadError, Selectable, UnknownOption};
use daft_launcher::versions::{SemanticVersion, VersionRequirement};

fn s(x: &str) -> String {
    x.to_string()
}

fn req(text: &str) -> VersionRequirement {
    VersionRequirement::parse(text).ok().unwrap()
}

fn bundle(text: &str) -> VersionBundle {
    VersionBundle::from_version(&SemanticVersion::parse(text).ok().unwrap()).ok().unwrap()
}

fn aws(key: &str, template: Option<AwsTemplateType>, custom: Option<AwsCustomType>) -> AwsCluster {
    AwsCluster {
        region: None,
        ssh_user: None,
        ssh_private_key: s(key),
        iam_instance_profile_arn: None,
        template,
        custom,
    }
}

fn job(name: &str, command: &str) -> Job {
    Job { name: s(name), working_dir: s("/"), command: s(command) }
}

fn raw_config(provider: AwsCluster, jobs: Vec<Job>) -> RawConfig {
    RawConfig {
        package: Package {
            daft_launcher_version: req(">=0.4"),
            name: s("demo"),
            python_version: Some(req("3.12")),
            ray_version: Some(req("2.34")),
        },
        cluster: Cluster {
            provider: Provider::Aws(provider),
            number_of_workers: None,
            dependencies: vec![s("pandas")],
            pre_setup_commands: vec![s("echo pre")],
            post_setup_commands: vec![s("echo post")],
        },
        jobs,
    }
}

fn never() -> Result<VersionBundle, String> {
    Err(s("not expected to be called"))
}

fn process(raw: RawConfig) -> Result<ProcessedConfig, ProcessError<String>> {
    ProcessedConfig::try_from_raw(raw, never, never)
}

#[test]
fn defaults_of_the_configuration_file() {
    assert_eq!(default_region(), "us-west-2");
    assert_eq!(default_ssh_user(), "ec2-user");
    assert_eq!(light_image_id(), "ami-07c5ecd8498c59db5");
    assert_eq!(light_instance_type(), "t2.nano");
    assert_eq!(normal_image_id(), "ami-01c3c55948a949a52");
    assert_eq!(normal_instance_type(), "m7g.medium");
    assert_eq!(DEFAULT_NUMBER_OF_WORKERS, 2);
    assert_eq!(default_name(), "my-cluster");
    assert_eq!(custom::default_number_of_workers(), 2);
    assert_eq!(custom::default_region(), "us-west-2");
    let package = daft_launcher::config::processed::Package {
        daft_launcher_version: req("*"),
        name: s("demo"),
        python_version: VersionBundle { version_req: req("3.9"), raw: s("3.9") },
        ray_version: VersionBundle { version_req: req("2.34"), raw: s("2.34") },
    };
    assert_eq!(
        base_setup_commands(&package),
        vec![
            s("curl -LsSf https://astral.sh/uv/install.sh | sh"),
            s("uv python install 3.9"),
            s("uv python pin 3.9"),
            s("uv venv"),
            s("echo \"alias pip='uv pip'\" >> $HOME/.bashrc"),
            s("echo \"source $HOME/.venv/bin/activate\" >> $HOME/.bashrc"),
            s("source $HOME/.bashrc"),
            s("uv pip install \"ray[default]==2.34\" \"getdaft\" \"deltalake\""),
        ]
    );
}

#[test]
fn default_raw_configuration() {
    let c = RawConfig::default_with_version(req("=0.4.0"));
    assert_eq!(c.package.daft_launcher_version.as_str(), "=0.4.0");
    assert_eq!(c.package.name, "my-cluster");
    assert!(c.package.python_version.is_none());
    assert!(c.package.ray_version.is_none());
    assert!(c.cluster.number_of_workers.is_none());
    assert!(c.jobs.is_empty());
    let Provider::Aws(a) = c.cluster.provider;
    assert_eq!(a.ssh_private_key, "<fill in path to ssh-private-key here>");
    assert_eq!(a.template, Some(AwsTemplateType::Light));
    assert!(a.custom.is_none());
    assert!(a.region.is_none());
}

#[test]
fn answers_replace_the_template() {
    let custom = AwsCustomType { image_id: s("ami-1"), instance_type: s("c5.large") };
    let c = RawConfig::from_answers(
        req("=0.4.0"),
        s("mine"),
        Provider::default(),
        None,
        Some(custom),
    );
    assert_eq!(c.package.name, "mine");
    let Provider::Aws(a) = c.cluster.provider;
    assert!(a.template.is_none());
    assert_eq!(a.custom.as_ref().unwrap().image_id, "ami-1");
    assert_eq!(a.ssh_private_key, "<fill in path to ssh-private-key here>");
}

#[test]
fn offered_options_parse() {
    assert_eq!(<AwsTemplateType as Selectable>::to_options(), vec!["light", "normal", "gpus", "(custom)"]);
    assert_eq!(<AwsTemplateType as Selectable>::parse("light"), Ok(Some(AwsTemplateType::Light)));
    assert_eq!(<AwsTemplateType as Selectable>::parse("normal"), Ok(Some(AwsTemplateType::Normal)));
    assert_eq!(<AwsTemplateType as Selectable>::parse("gpus"), Ok(Some(AwsTemplateType::Gpus)));
    assert_eq!(<AwsTemplateType as Selectable>::parse("(custom)"), Ok(None));
    assert_eq!(<AwsTemplateType as Selectable>::parse("Light"), Err(UnknownOption(s("Light"))));
    assert_eq!(<Provider as Selectable>::to_options(), vec!["aws"]);
    assert!(<Provider as Selectable>::parse("aws").is_ok());
    assert_eq!(<Provider as Selectable>::parse("gcp").err().unwrap(), UnknownOption(s("gcp")));
}

#[test]
fn paths_are_checked() {
    assert_eq!(check_dir("/").ok().unwrap(), "/");
    assert!(matches!(check_file("/"), Err(PathCheckError::NotAFile(p)) if p == "/"));
    assert!(matches!(check_dir("/no/such/dir"), Err(PathCheckError::DoesNotExist(p)) if p == "/no/such/dir"));
    assert!(matches!(check_file("/no/such/key.pem"), Err(PathCheckError::DoesNotExist(_))));
    assert_eq!(check_file("/etc/passwd").ok().unwrap(), "/etc/passwd");
    assert!(matches!(check_dir("/etc/passwd"), Err(PathCheckError::NotADirectory(p)) if p == "/etc/passwd"));
    let home = check_dir("~").ok().unwrap();
    assert!(!home.starts_with('~'));
}

#[test]
fn key_stems() {
    assert_eq!(to_key_stem("/home/u/.ssh/daft.pem"), Some(s("daft")));
    assert_eq!(to_key_stem("key"), Some(s("key")));
    assert_eq!(to_key_stem("/"), None);
}

#[test]
fn light_template_is_filled_in() {
    let p = process(raw_config(
        aws("/home/u/.ssh/daft.pem", Some(AwsTemplateType::Light), None),
        vec![job("a", "python a.py"), job("b", "python b.py")],
    ))
    .ok()
    .unwrap();
    assert_eq!(p.package.name, "demo");
    assert_eq!(p.package.python_version.raw, "3.12");
    assert_eq!(p.package.ray_version.version_req.as_str(), "2.34");
    assert_eq!(p.cluster.number_of_workers, 2);
    assert_eq!(p.cluster.dependencies, vec![s("pandas")]);
    assert_eq!(p.cluster.pre_setup_commands, vec![s("echo pre")]);
    let post = &p.cluster.post_setup_commands;
    assert_eq!(post.len(), 9);
    assert_eq!(post[..8].to_vec(), base_setup_commands(&p.package));
    assert_eq!(post[1], "uv python install 3.12");
    assert_eq!(post[7], "uv pip install \"ray[default]==2.34\" \"getdaft\" \"deltalake\"");
    assert_eq!(post[8], "echo post");
    let daft_launcher::config::processed::Provider::Aws(a) = &p.cluster.provider;
    assert_eq!(a.region, "us-west-2");
    assert_eq!(a.ssh_user, "ec2-user");
    assert_eq!(a.ssh_key_name, "daft");
    assert_eq!(a.ssh_private_key, "/home/u/.ssh/daft.pem");
    assert_eq!(a.image_id, "ami-07c5ecd8498c59db5");
    assert_eq!(a.instance_type, "t2.nano");
    assert_eq!(p.jobs.len(), 2);
    assert_eq!(p.jobs[0].0, "a");
    assert_eq!(p.jobs[1].1.command, "python b.py");
}

#[test]
fn normal_and_custom_choices() {
    let mut c = aws("k.pem", Some(AwsTemplateType::Normal), None);
    c.region = Some(s("eu-west-1"));
    c.ssh_user = Some(s("ubuntu"));
    let p = process(raw_config(c, vec![])).ok().unwrap();
    let daft_launcher::config::processed::Provider::Aws(a) = &p.cluster.provider;
    assert_eq!(a.image_id, "ami-01c3c55948a949a52");
    assert_eq!(a.instance_type, "m7g.medium");
    assert_eq!(a.region, "eu-west-1");
    assert_eq!(a.ssh_user, "ubuntu");
    let custom = AwsCustomType { image_id: s("ami-9"), instance_type: s("c5.xlarge") };
    let p = process(raw_config(aws("k.pem", None, Some(custom)), vec![])).ok().unwrap();
    let daft_launcher::config::processed::Provider::Aws(a) = &p.cluster.provider;
    assert_eq!(a.image_id, "ami-9");
    assert_eq!(a.instance_type, "c5.xlarge");
}

#[test]
fn refused_configurations() {
    let custom = || AwsCustomType { image_id: s("ami-9"), instance_type: s("c5.xlarge") };
    assert!(matches!(
        process(raw_config(aws("k.pem", Some(AwsTemplateType::Light), Some(custom())), vec![])),
        Err(ProcessError::TemplateAndCustom)
    ));
    assert!(matches!(process(raw_config(aws("k.pem", None, None), vec![])), Err(ProcessError::NoTemplateOrCustom)));
    assert!(matches!(
        process(raw_config(aws("k.pem", Some(AwsTemplateType::Gpus), None), vec![])),
        Err(ProcessError::GpusUnsupported)
    ));
    assert!(matches!(
        process(raw_config(aws("/", Some(AwsTemplateType::Light), None), vec![])),
        Err(ProcessError::MissingKeyName(k)) if k == "/"
    ));
    assert!(matches!(
        process(raw_config(
            aws("k.pem", Some(AwsTemplateType::Light), None),
            vec![job("a", "x"), job("b", "y"), job("a", "z")],
        )),
        Err(ProcessError::DuplicateJobName(n)) if n == "a"
    ));
}

#[test]
fn versions_left_out_are_detected() {
    let mut raw = raw_config(aws("k.pem", Some(AwsTemplateType::Light), None), vec![]);
    raw.package.python_version = None;
    raw.package.ray_version = None;
    let p = ProcessedConfig::try_from_raw(raw, || Ok::<_, String>(bundle("3.11.4")), || Ok(bundle("2.9.0")))
        .ok()
        .unwrap();
    assert_eq!(p.package.python_version.raw, "3.11.4");
    assert_eq!(p.package.ray_version.raw, "2.9.0");

    let mut raw = raw_config(aws("k.pem", Some(AwsTemplateType::Light), None), vec![]);
    raw.package.ray_version = None;
    let r = ProcessedConfig::try_from_raw(raw, never, || Err(s("ray is not installed")));
    assert!(matches!(r, Err(ProcessError::Detection(e)) if e == "ray is not installed"));
}

#[test]
fn job_tables_refuse_duplicates() {
    let t = job_list_to_job_map::<String>(vec![job("x", "1"), job("y", "2")]).ok().unwrap();
    assert_eq!(t.len(), 2);
    assert_eq!(t[1].0, "y");
    assert_eq!(t[1].1.command, "2");
    let e = job_list_to_job_map::<String>(vec![job("x", "1"), job("y", "2"), job("y", "3"), job("x", "4")]);
    assert!(matches!(e, Err(ProcessError::DuplicateJobName(n)) if n == "y"));
    assert!(job_list_to_job_map::<String>(vec![]).ok().unwrap().is_empty());
}

#[test]
fn ray_form_of_a_configuration() {
    let mut c = aws("/keys/daft.pem", Some(AwsTemplateType::Light), None);
    c.iam_instance_profile_arn = Some(s("arn:aws:iam::1:instance-profile/x"));
    let mut raw = raw_config(c, vec![]);
    raw.cluster.number_of_workers = Some(5);
    let p = process(raw).ok().unwrap();
    let r = RayConfig::from_processed(&p);
    assert_eq!(r.cluster_name, "demo");
    assert_eq!(r.max_workers, 5);
    assert_eq!(r.provider.type_, "aws");
    assert_eq!(r.provider.region, "us-west-2");
    assert_eq!(r.auth.ssh_user, "ec2-user");
    assert_eq!(r.auth.ssh_private_key, "/keys/daft.pem");
    assert_eq!(r.available_node_types.len(), 2);
    let (head_name, head) = &r.available_node_types[0];
    let (worker_name, worker) = &r.available_node_types[1];
    assert_eq!(head_name, "ray.head.default");
    assert_eq!(worker_name, "ray.worker.default");
    assert_eq!(head.min_workers, None);
    assert_eq!(head.max_workers, None);
    assert_eq!(worker.min_workers, Some(5));
    assert_eq!(worker.max_workers, Some(5));
    assert_eq!(head.resources, Resources { cpu: 1, gpu: 0 });
    assert_eq!(worker.resources, Resources { cpu: 1, gpu: 0 });
    let NodeConfig::Aws(n) = &worker.node_config;
    assert_eq!(n.key_name, "daft");
    assert_eq!(n.image_id, "ami-07c5ecd8498c59db5");
    assert_eq!(n.instance_type, "t2.nano");
    assert_eq!(n.iam_instance_profile.as_ref().unwrap().arn, "arn:aws:iam::1:instance-profile/x");
    assert_eq!(r.initialization_commands, vec![s("echo pre")]);
    assert_eq!(r.setup_commands, p.cluster.post_setup_commands);
}

#[test]
fn reading_checks_the_launcher_version() {
    let current = SemanticVersion::parse("0.4.0").ok().unwrap();
    let raw = raw_config(aws("k.pem", Some(AwsTemplateType::Light), None), vec![]);
    let (p, r) = read(raw, &current, never, never).ok().unwrap();
    assert_eq!(p.package.name, "demo");
    assert_eq!(r.cluster_name, "demo");

    let mut raw = raw_config(aws("k.pem", Some(AwsTemplateType::Light), None), vec![]);
    raw.package.daft_launcher_version = req("=1.0.0");
    match read(raw, &current, never, never) {
        Err(ReadError::VersionMismatch { required, current }) => {
            assert_eq!(required, "=1.0.0");
            assert_eq!(current, "0.4.0");
        }
        _ => panic!("expected a version mismatch"),
    }

    let raw = raw_config(aws("k.pem", None, None), vec![]);
    assert!(matches!(
        read(raw, &current, never, never),
        Err(ReadError::Process(ProcessError::NoTemplateOrCustom))
    ));
}

#[test]
fn python_versions_are_checked() {
    let b = python_version_bundle(&SemanticVersion::parse("3.12.1").ok().unwrap()).ok().unwrap();
    assert_eq!(b.raw, "3.12.1");
    assert_eq!(b.version_req.as_str(), "3.12.1");
    assert!(python_version_bundle(&SemanticVersion::parse("3.9.0").ok().unwrap()).is_ok());
    match python_version_bundle(&SemanticVersion::parse("3.8.10").ok().unwrap()) {
        Err(PythonVersionError::Unsupported(v)) => assert_eq!(v, "3.8.10"),
        _ => panic!("expected an unsupported version"),
    }
}

#[test]
fn version_texts() {
    assert!(VersionRequirement::parse(">=0.1, <2").is_ok());
    assert_eq!(VersionRequirement::parse("not a version").err().unwrap().text, "not a version");
    assert_eq!(SemanticVersion::parse("1.2.3").ok().unwrap().as_str(), "1.2.3");
    assert!(SemanticVersion::parse("1.2").is_err());
    let b = bundle("2.34.0");
    assert_eq!(b.raw, "2.34.0");
}

#[test]
fn versions_reported_by_tools() {
    assert_eq!(version_from_output("Python 3.12.1\n", "Python ").ok().unwrap().as_str(), "3.12.1");
    assert!(matches!(
        version_from_output("Python 3.12.1", "Python "),
        Err(VersionOutputError::UnexpectedOutput(o)) if o == "Python 3.12.1"
    ));
    assert!(matches!(version_from_output("Python \n", "Python "), Err(VersionOutputError::NotAVersion(t)) if t.is_empty()));
    assert!(matches!(version_from_output("Python\n", "Python "), Err(VersionOutputError::UnexpectedOutput(_))));
    assert!(matches!(
        version_from_output("Python 3.12\n", "Python "),
        Err(VersionOutputError::NotAVersion(t)) if t == "3.12"
    ));
    let b = python_version_from_output("Python 3.11.2\n").ok().unwrap();
    assert_eq!(b.raw, "3.11.2");
    assert_eq!(b.version_req.as_str(), "3.11.2");
    assert!(matches!(
        python_version_from_output("Python 3.8.18\n"),
        Err(DetectionError::Python(PythonVersionError::Unsupported(v))) if v == "3.8.18"
    ));
    assert!(matches!(python_version_from_output("ray, version 2.9.0\n"), Err(DetectionError::Output(_))));
    let b = ray_version_from_output("ray, version 2.34.0\n").ok().unwrap();
    assert_eq!(b.raw, "2.34.0");
    assert!(matches!(ray_version_from_output("2.34.0\n"), Err(DetectionError::Output(_))));
}

#[test]
fn path_check_outcomes() {
    assert_eq!(dir_check_outcome(s("/w"), true, true).ok().unwrap(), "/w");
    assert!(matches!(dir_check_outcome(s("/w"), false, true), Err(PathCheckError::DoesNotExist(p)) if p == "/w"));
    assert!(matches!(dir_check_outcome(s("/w"), true, false), Err(PathCheckError::NotADirectory(p)) if p == "/w"));
    assert_eq!(file_check_outcome(s("/k.pem"), true, true).ok().unwrap(), "/k.pem");
    assert!(matches!(file_check_outcome(s("/k.pem"), false, false), Err(PathCheckError::DoesNotExist(_))));
    assert!(matches!(file_check_outcome(s("/k.pem"), true, false), Err(PathCheckError::NotAFile(p)) if p == "/k.pem"));
}

#[test]
fn version_runs() {
    assert_eq!(version_from_run("python", true, "Python 3.12.1\n", "Python ").ok().unwrap().as_str(), "3.12.1");
    assert!(matches!(version_from_run("python", false, "Python 3.12.1\n", "Python "), Err(VersionRunError::Failed(x)) if x == "python"));
    assert!(matches!(
        version_from_run("ray", true, "nonsense", "ray, version "),
        Err(VersionRunError::Output(VersionOutputError::UnexpectedOutput(o))) if o == "nonsense"
    ));
}

#[test]
fn custom_settings_are_asked_without_a_template() {
    assert!(asks_for_custom_settings(&None));
    assert!(!asks_for_custom_settings(&Some(AwsTemplateType::Normal)));
}
