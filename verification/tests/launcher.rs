use daft_launcher::launcher::commands::{
    sql_command, split_command, spin_arguments, submit_arguments,
};
use daft_launcher::launcher::convert::{
    convert, default_image_id, default_instance_type, default_number_of_workers,
    default_setup_commands, quote_dependencies, setup_commands, ConvertError, DaftConfig, DaftJob,
    DaftSetup, RayResources, SpinDirection, TeardownBehaviour,
};
use daft_launcher::launcher::instances::{
    instances_from_records, listed_instances, resolve_region, row_texts, status_style,
    AwsInstance, InstanceRecord, InstanceState, Ipv4Address, NodeType, StatusStyle, Tag,
};
use daft_launcher::launcher::load::{
    check_version_requirement, find_job, job_table, parse_jobs, path_existence_outcome, LoadError,
    RawDaftConfig, RawDaftJob, RawDaftSetup,
};
use daft_launcher::launcher::ssh::{
    is_authentication_line, portforward_port, ssh_arguments, tunnel_arguments,
};
use daft_launcher::versions::{SemanticVersion, VersionRequirement};

fn s(x: &str) -> String {
    x.to_string()
}

fn setup(key: &str, deps: Vec<String>, iam: Option<String>) -> DaftSetup {
    DaftSetup {
        name: s("test"),
        version: VersionRequirement::parse("=1.2.3").ok().unwrap(),
        region: s("test"),
        number_of_workers: 4,
        ssh_user: s("test"),
        ssh_private_key: s(key),
        instance_type: s("test"),
        image_id: s("test"),
        iam_instance_profile_name: iam,
        dependencies: deps,
    }
}

fn config(setup: DaftSetup) -> DaftConfig {
    DaftConfig { setup, run: vec![], jobs: vec![] }
}

#[test]
fn test_conversion() {
    let cfg = config(setup("testkey.pem", vec![], Some(s("test"))));
    let ray = convert(&cfg, None).ok().unwrap();
    assert_eq!(ray.cluster_name, "test");
    assert_eq!(ray.max_workers, 4);
    assert_eq!(ray.provider.type_, "aws");
    assert_eq!(ray.provider.region, "test");
    assert_eq!(ray.provider.cache_stopped_nodes, None);
    assert_eq!(ray.auth.ssh_user, "test");
    assert_eq!(ray.auth.ssh_private_key, "testkey.pem");
    assert_eq!(ray.available_node_types.len(), 2);
    let (head_name, head) = &ray.available_node_types[0];
    assert_eq!(head_name, "ray.head.default");
    assert_eq!(head.max_workers, 0);
    assert_eq!(head.resources, Some(RayResources { cpu: 0 }));
    assert_eq!(head.node_config.key_name, "testkey");
    assert_eq!(head.node_config.iam_instance_profile.as_ref().unwrap().name, "test");
    let (worker_name, worker) = &ray.available_node_types[1];
    assert_eq!(worker_name, "ray.worker.default");
    assert_eq!(worker.max_workers, 4);
    assert_eq!(worker.resources, None);
    assert_eq!(worker.node_config, head.node_config);
    assert_eq!(ray.setup_commands, default_setup_commands());
}

#[test]
fn conversion_takes_key_name_from_file_stem() {
    let cfg = config(setup("/home/user/.ssh/daft-key.pem", vec![], None));
    let ray = convert(&cfg, Some(TeardownBehaviour::Stop)).ok().unwrap();
    assert_eq!(ray.available_node_types[0].1.node_config.key_name, "daft-key");
    assert_eq!(ray.available_node_types[0].1.node_config.iam_instance_profile, None);
    assert_eq!(ray.provider.cache_stopped_nodes, Some(true));
    let ray = convert(&cfg, Some(TeardownBehaviour::Kill)).ok().unwrap();
    assert_eq!(ray.provider.cache_stopped_nodes, Some(false));
}

#[test]
fn conversion_without_key_name_fails() {
    let cfg = config(setup("/", vec![], None));
    assert_eq!(convert(&cfg, None).err().unwrap(), ConvertError::KeyNameMissing(s("/")));
}

#[test]
fn dependencies_are_installed_quoted() {
    let deps = vec![s("requests==0.0.0"), s("numpy")];
    assert_eq!(quote_dependencies(&deps), r#""requests==0.0.0" "numpy""#);
    let commands = setup_commands(&deps);
    assert_eq!(commands.len(), 8);
    assert_eq!(commands[7], r#"uv pip install "requests==0.0.0" "numpy""#);
    assert_eq!(setup_commands(&vec![]), default_setup_commands());
    let cfg = config(setup("k.pem", vec![s("pandas")], None));
    let ray = convert(&cfg, None).ok().unwrap();
    assert_eq!(ray.setup_commands.last().unwrap(), r#"uv pip install "pandas""#);
}

#[test]
fn defaults() {
    assert_eq!(default_number_of_workers(), 4);
    assert_eq!(default_instance_type(), "i3.2xlarge");
    assert_eq!(default_image_id(), "ami-04dd23e62ed049936");
    assert_eq!(
        default_setup_commands(),
        vec![
            s("curl -LsSf https://astral.sh/uv/install.sh | sh"),
            s("uv python install 3.12"),
            s("uv python pin 3.12"),
            s("uv venv"),
            s("echo 'source $HOME/.venv/bin/activate' >> ~/.bashrc"),
            s("source ~/.bashrc"),
            s("uv pip install boto3 pip ray[default] getdaft py-spy deltalake"),
        ]
    );
    assert_eq!(SpinDirection::Up.as_str(), "up");
    assert_eq!(SpinDirection::Down.as_str(), "down");
    assert!(TeardownBehaviour::Stop.to_cache_stopped_nodes());
    assert!(!TeardownBehaviour::Kill.to_cache_stopped_nodes());
}

#[test]
fn version_requirement_is_checked_against_the_launcher() {
    let current = SemanticVersion::parse("0.4.0").ok().unwrap();
    assert_eq!(check_version_requirement(">=0.1", &current).ok().unwrap().as_str(), ">=0.1");
    match check_version_requirement("=1.2.3", &current) {
        Err(LoadError::VersionMismatch { required, current }) => {
            assert_eq!(required, "=1.2.3");
            assert_eq!(current, "0.4.0");
        }
        _ => panic!("expected a version mismatch"),
    }
    match check_version_requirement("not a version", &current) {
        Err(LoadError::InvalidVersionRequirement(t)) => assert_eq!(t, "not a version"),
        _ => panic!("expected an invalid requirement"),
    }
}

fn job(command: &str, dir: &str) -> DaftJob {
    DaftJob { command: s(command), working_dir: s(dir) }
}

#[test]
fn later_jobs_of_a_name_replace_earlier_ones() {
    let table = job_table(vec![
        (s("a"), job("one", "/")),
        (s("b"), job("two", "/")),
        (s("a"), job("three", "/")),
    ]);
    assert_eq!(table.len(), 2);
    assert_eq!(table[0].0, "a");
    assert_eq!(table[0].1.command, "three");
    assert_eq!(table[1].1.command, "two");
    assert_eq!(find_job(&table, "a").unwrap().command, "three");
    assert!(find_job(&table, "c").is_none());
}

fn raw_setup(version: &str, key: &str) -> RawDaftSetup {
    RawDaftSetup {
        name: s("cluster"),
        version: s(version),
        region: s("us-west-2"),
        number_of_workers: 2,
        ssh_user: s("ubuntu"),
        ssh_private_key: s(key),
        instance_type: s("t2.nano"),
        image_id: s("ami"),
        iam_instance_profile_name: None,
        dependencies: vec![],
    }
}

#[test]
fn configuration_is_checked_when_loaded() {
    let current = SemanticVersion::parse("0.4.0").ok().unwrap();
    let raw = RawDaftConfig {
        setup: raw_setup(">=0.4", "/"),
        run: vec![s("echo hi")],
        jobs: vec![
            RawDaftJob { name: s("j"), command: s("python a.py"), working_dir: s("/") },
            RawDaftJob { name: s("j"), command: s("python b.py"), working_dir: s("/") },
        ],
    };
    let cfg = DaftConfig::from_raw(raw, &current).ok().unwrap();
    assert_eq!(cfg.setup.ssh_private_key, "/");
    assert_eq!(cfg.setup.version.as_str(), ">=0.4");
    assert_eq!(cfg.run, vec![s("echo hi")]);
    assert_eq!(cfg.jobs.len(), 1);
    assert_eq!(cfg.jobs[0].1.command, "python b.py");

    let missing = RawDaftConfig {
        setup: raw_setup(">=0.4", "/definitely/not/a/path/key.pem"),
        run: vec![],
        jobs: vec![],
    };
    match DaftConfig::from_raw(missing, &current) {
        Err(LoadError::PathDoesNotExist(p)) => assert_eq!(p, "/definitely/not/a/path/key.pem"),
        _ => panic!("expected a missing path"),
    }
    let too_new = RawDaftConfig { setup: raw_setup(">=9", "/"), run: vec![], jobs: vec![] };
    assert!(matches!(
        DaftConfig::from_raw(too_new, &current),
        Err(LoadError::VersionMismatch { .. })
    ));
    let bad_dir = vec![RawDaftJob { name: s("j"), command: s("x"), working_dir: s("/no/such/dir") }];
    assert!(matches!(parse_jobs(bad_dir), Err(LoadError::PathDoesNotExist(_))));
}

fn tag(k: &str, v: &str) -> Tag {
    Tag { key: Some(s(k)), value: Some(s(v)) }
}

fn record(id: &str, tags: Vec<Tag>, state: Option<InstanceState>) -> InstanceRecord {
    InstanceRecord {
        instance_id: Some(s(id)),
        tags: Some(tags),
        key_name: Some(s("daft-key")),
        public_ipv4_address: Some(Ipv4Address { a: 35, b: 94, c: 91, d: 91 }),
        state,
    }
}

#[test]
fn only_tagged_instances_are_ray_nodes() {
    let records = vec![
        record(
            "i-1",
            vec![tag("Name", "ray-demo-head"), tag("ray-cluster-name", "demo"), tag("ray-node-type", "head")],
            Some(InstanceState::Running),
        ),
        record("i-2", vec![tag("Name", "web")], Some(InstanceState::Running)),
        record(
            "i-3",
            vec![
                tag("ray-node-type", "worker"),
                tag("Name", "ray-demo-worker"),
                tag("ray-cluster-name", "demo"),
                Tag { key: Some(s("Name")), value: None },
            ],
            Some(InstanceState::Stopped),
        ),
        record(
            "i-4",
            vec![tag("Name", "n"), tag("ray-cluster-name", "demo"), tag("ray-node-type", "boss")],
            None,
        ),
        InstanceRecord {
            instance_id: None,
            tags: Some(vec![tag("Name", "n"), tag("ray-cluster-name", "c"), tag("ray-node-type", "head")]),
            key_name: None,
            public_ipv4_address: None,
            state: None,
        },
        InstanceRecord { instance_id: Some(s("i-6")), tags: None, key_name: None, public_ipv4_address: None, state: None },
    ];
    let instances = instances_from_records(&records);
    assert_eq!(instances.len(), 2);
    assert_eq!(instances[0].instance_id, "i-1");
    assert_eq!(instances[0].node_type, NodeType::Head);
    assert_eq!(instances[0].regular_name, "demo");
    assert_eq!(instances[1].instance_id, "i-3");
    assert_eq!(instances[1].ray_name, "ray-demo-worker");
    assert_eq!(instances[1].node_type, NodeType::Worker);
    assert_eq!(instances[1].key_pair_name, Some(s("daft-key")));
}

fn instance(name: &str, node_type: NodeType, state: Option<InstanceState>) -> AwsInstance {
    AwsInstance {
        instance_id: s("i-0"),
        regular_name: s(name),
        ray_name: s("ray"),
        key_pair_name: None,
        public_ipv4_address: None,
        state,
        node_type,
    }
}

#[test]
fn listing_filters() {
    let instances = vec![
        instance("daft-demo", NodeType::Head, Some(InstanceState::Running)),
        instance("daft-demo", NodeType::Worker, Some(InstanceState::Pending)),
        instance("new-cluster", NodeType::Head, Some(InstanceState::ShuttingDown)),
        instance("other", NodeType::Worker, None),
    ];
    assert_eq!(listed_instances(&instances, None, false, false).ok().unwrap(), vec![0, 1, 2, 3]);
    assert_eq!(listed_instances(&instances, None, true, false).ok().unwrap(), vec![0, 2]);
    assert_eq!(listed_instances(&instances, None, false, true).ok().unwrap(), vec![0]);
    assert_eq!(listed_instances(&instances, Some("^daft"), false, false).ok().unwrap(), vec![0, 1]);
    assert_eq!(listed_instances(&instances, Some("cluster$"), true, false).ok().unwrap(), vec![2]);
    assert!(listed_instances(&instances, Some("foo("), false, false).is_err());
    assert!(listed_instances(&vec![], Some("foo("), false, false).is_err());
}

#[test]
fn table_rows() {
    let mut inst = instance("demo", NodeType::Worker, Some(InstanceState::ShuttingDown));
    inst.instance_id = s("i-042a96ce1413c1dd6");
    inst.public_ipv4_address = Some(Ipv4Address { a: 44, b: 234, c: 112, d: 173 });
    assert_eq!(
        row_texts(&inst),
        vec![s("demo"), s("i-042a96ce1413c1dd6"), s("worker"), s("shutting-down"), s("44.234.112.173")]
    );
    let bare = instance("x", NodeType::Head, None);
    assert_eq!(row_texts(&bare)[3], "n/a");
    assert_eq!(row_texts(&bare)[4], "n/a");
    assert_eq!(status_style(&None), StatusStyle::Dim);
    assert_eq!(status_style(&Some(InstanceState::Running)), StatusStyle::Green);
    assert_eq!(status_style(&Some(InstanceState::Pending)), StatusStyle::Yellow);
    assert_eq!(status_style(&Some(InstanceState::Stopping)), StatusStyle::DarkYellow);
    assert_eq!(status_style(&Some(InstanceState::Terminated)), StatusStyle::Red);
    assert_eq!(status_style(&Some(InstanceState::Unknown(s("weird")))), StatusStyle::Plain);
    assert_eq!(InstanceState::Unknown(s("weird")).as_str(), "weird");
    assert_eq!(Ipv4Address { a: 0, b: 10, c: 255, d: 7 }.to_text(), "0.10.255.7");
}

#[test]
fn node_type_names() {
    assert_eq!(NodeType::Head.as_str(), "head");
    assert_eq!(NodeType::Worker.as_str(), "worker");
    assert_eq!(NodeType::from_str("head").ok().unwrap(), NodeType::Head);
    assert_eq!(NodeType::from_str(NodeType::Worker.as_str()).ok().unwrap(), NodeType::Worker);
    assert_eq!(NodeType::from_str("Head").err().unwrap().0, "Head");
}

#[test]
fn region_choice() {
    assert_eq!(resolve_region(Some(s("eu-west-1")), Some(s("us-east-2"))), "eu-west-1");
    assert_eq!(resolve_region(None, Some(s("us-east-2"))), "us-east-2");
    assert_eq!(resolve_region(None, None), "us-west-2");
}

#[test]
fn commands_split_at_spaces() {
    assert_eq!(split_command("python main.py --x 1"), vec![s("python"), s("main.py"), s("--x"), s("1")]);
    assert_eq!(split_command("a  b"), vec![s("a"), s(""), s("b")]);
    assert_eq!(split_command(""), vec![s("")]);
    assert_eq!(split_command(" x "), vec![s(""), s("x"), s("")]);
    let cmd = "python  filter.py --limit 10 ";
    assert_eq!(split_command(cmd).join(" "), cmd);
}

#[test]
fn ray_command_lines() {
    assert_eq!(spin_arguments(SpinDirection::Up, "/tmp/ray.yaml"), vec![s("up"), s("/tmp/ray.yaml"), s("-y")]);
    assert_eq!(spin_arguments(SpinDirection::Down, "r.yaml"), vec![s("down"), s("r.yaml"), s("-y")]);
    assert_eq!(
        submit_arguments("/work", &vec![s("python"), s("main.py")]),
        vec![
            s("job"), s("submit"), s("--address"), s("http://localhost:8265"),
            s("--working-dir"), s("/work"), s("--"), s("python"), s("main.py"),
        ]
    );
    assert_eq!(sql_command("SELECT 1"), vec![s("python"), s("sql.py"), s("SELECT 1")]);
}

#[test]
fn ssh_command_lines() {
    let addr = Ipv4Address { a: 35, b: 94, c: 91, d: 91 };
    assert_eq!(
        ssh_arguments("/k.pem", "ubuntu", &addr, Some(portforward_port(None)), true),
        vec![
            s("-i"), s("/k.pem"), s("-o"), s("StrictHostKeyChecking=no"),
            s("-N"), s("-L"), s("8265:localhost:8265"), s("-v"), s("ubuntu@35.94.91.91"),
        ]
    );
    assert_eq!(
        ssh_arguments("/k.pem", "ec2-user", &addr, None, false),
        vec![s("-i"), s("/k.pem"), s("-o"), s("StrictHostKeyChecking=no"), s("ec2-user@35.94.91.91")]
    );
    assert_eq!(portforward_port(Some(9000)), 9000);
    assert_eq!(
        ssh_arguments("k", "u", &addr, Some(9000), false)[6],
        "9000:localhost:8265"
    );
    assert_eq!(
        tunnel_arguments("u", &addr, "/k.pem"),
        vec![s("-N"), s("-i"), s("/k.pem"), s("-L"), s("8265:localhost:8265"), s("u@35.94.91.91")]
    );
    assert!(is_authentication_line("Authenticated to 35.94.91.91 ([35.94.91.91]:22) using \"publickey\".", &addr));
    assert!(!is_authentication_line("debug1: Authenticated to 35.94.91.91", &addr));
    assert!(!is_authentication_line("Authenticated to 35.94.91.9", &Ipv4Address { a: 35, b: 94, c: 91, d: 91 }));
}

#[test]
fn path_existence_outcomes() {
    assert_eq!(path_existence_outcome(s("/k.pem"), true).ok().unwrap(), "/k.pem");
    assert!(matches!(path_existence_outcome(s("/k.pem"), false), Err(LoadError::PathDoesNotExist(p)) if p == "/k.pem"));
}
