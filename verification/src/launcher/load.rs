//! Turning the values read from a launcher configuration file into a checked
//! [`DaftConfig`].

use vstd::prelude::*;
use crate::launcher::convert::{DaftConfig, DaftJob, DaftSetup};
use crate::utils::{expand_by_components, is_component_expansion_of, is_home_relative, path_exists, PathError};
use crate::versions::{semver_matches, semver_req_valid, SemanticVersion, VersionRequirement};

verus! {

/// The `[setup]` table as it is read from the file, with defaults filled in.
pub struct RawDaftSetup {
    pub name: String,
    pub version: String,
    pub region: String,
    pub number_of_workers: usize,
    pub ssh_user: String,
    pub ssh_private_key: String,
    pub instance_type: String,
    pub image_id: String,
    pub iam_instance_profile_name: Option<String>,
    pub dependencies: Vec<String>,
}

/// A `[[job]]` table as it is read from the file.
pub struct RawDaftJob {
    pub name: String,
    pub command: String,
    pub working_dir: String,
}

/// A launcher configuration file as it is read.
pub struct RawDaftConfig {
    pub setup: RawDaftSetup,
    pub run: Vec<String>,
    pub jobs: Vec<RawDaftJob>,
}

/// The ways in which a configuration file can be refused.
pub enum LoadError {
    /// The version requirement could not be parsed.
    InvalidVersionRequirement(String),
    /// The version requirement is not met by the running launcher.
    VersionMismatch { required: String, current: String },
    /// A path could not be expanded.
    Path(PathError),
    /// A path does not exist.
    PathDoesNotExist(String),
}

/// Whether some entry of the table is named `name`.
pub open spec fn has_job(table: Seq<(String, DaftJob)>, name: Seq<char>) -> bool {
    exists|k: int| 0 <= k < table.len() && (#[trigger] table[k]).0@ == name
}

/// No two entries of the table share a name.
pub open spec fn names_unique(table: Seq<(String, DaftJob)>) -> bool {
    forall|i: int, j: int|
        0 <= i < j < table.len() ==> (#[trigger] table[i]).0@ != (#[trigger] table[j]).0@
}

/// The position of the entry named `name`.
pub open spec fn job_position(table: Seq<(String, DaftJob)>, name: Seq<char>) -> int {
    choose|k: int| 0 <= k < table.len() && (#[trigger] table[k]).0@ == name
}

/// The table after a job is inserted: an entry of the same name has its job
/// replaced (and keeps its name), otherwise the entry is appended.
pub open spec fn table_insert(table: Seq<(String, DaftJob)>, name: String, job: DaftJob) -> Seq<
    (String, DaftJob),
> {
    if has_job(table, name@) {
        let k = job_position(table, name@);
        table.update(k, (table[k].0, job))
    } else {
        table.push((name, job))
    }
}

/// The table built by inserting the named jobs in order: later jobs of a name
/// replace earlier ones.
pub open spec fn table_of(jobs: Seq<(String, DaftJob)>) -> Seq<(String, DaftJob)>
    decreases jobs.len(),
{
    if jobs.len() == 0 {
        Seq::empty()
    } else {
        table_insert(table_of(jobs.drop_last()), jobs.last().0, jobs.last().1)
    }
}

/// Inserting into a table without duplicate names keeps it so.
pub proof fn lemma_insert_keeps_names_unique(
    table: Seq<(String, DaftJob)>,
    name: String,
    job: DaftJob,
)
    requires
        names_unique(table),
    ensures
        names_unique(table_insert(table, name, job)),
{
    let t = table_insert(table, name, job);
    if has_job(table, name@) {
        let k = job_position(table, name@);
        assert forall|i: int, j: int| 0 <= i < j < t.len() implies (#[trigger] t[i]).0@
            != (#[trigger] t[j]).0@ by {
            assert(t[i].0@ == table[i].0@);
            assert(t[j].0@ == table[j].0@);
        }
    } else {
        assert forall|i: int, j: int| 0 <= i < j < t.len() implies (#[trigger] t[i]).0@
            != (#[trigger] t[j]).0@ by {
            if j == table.len() {
                assert(t[i] == table[i]);
            } else {
                assert(t[i] == table[i]);
                assert(t[j] == table[j]);
            }
        }
    }
}

/// A table built from named jobs never holds a name twice.
pub proof fn lemma_table_names_unique(jobs: Seq<(String, DaftJob)>)
    ensures
        names_unique(table_of(jobs)),
    decreases jobs.len(),
{
    if jobs.len() > 0 {
        lemma_table_names_unique(jobs.drop_last());
        lemma_insert_keeps_names_unique(table_of(jobs.drop_last()), jobs.last().0, jobs.last().1);
    }
}

/// In a table without duplicate names, the position of a name is the one
/// entry that carries it.
pub proof fn lemma_position_is_unique(table: Seq<(String, DaftJob)>, name: Seq<char>, k: int)
    requires
        names_unique(table),
        0 <= k < table.len(),
        table[k].0@ == name,
    ensures
        job_position(table, name) == k,
{
    let p = job_position(table, name);
    assert(has_job(table, name));
    assert(table[p].0@ == name);
    if p < k {
        assert(table[p].0@ != table[k].0@);
    } else if p > k {
        assert(table[k].0@ != table[p].0@);
    }
}

/// Every entry of a table built from named jobs is one of those jobs, under
/// its own name.
pub proof fn lemma_table_entries_come_from_jobs(jobs: Seq<(String, DaftJob)>, k: int)
    requires
        0 <= k < table_of(jobs).len(),
    ensures
        exists|i: int|
            0 <= i < jobs.len() && (#[trigger] jobs[i]).0@ == table_of(jobs)[k].0@ && jobs[i].1
                == table_of(jobs)[k].1,
    decreases jobs.len(),
{
    let rest = jobs.drop_last();
    let before = table_of(rest);
    let last = jobs.last();
    let t = table_of(jobs);
    let n = jobs.len() - 1;
    assert(jobs[n] == last);
    if has_job(before, last.0@) {
        let p = job_position(before, last.0@);
        assert(t == before.update(p, (before[p].0, last.1)));
        if k == p {
            assert(jobs[n].0@ == t[k].0@ && jobs[n].1 == t[k].1);
        } else {
            lemma_table_entries_come_from_jobs(rest, k);
            let i = choose|i: int|
                0 <= i < rest.len() && (#[trigger] rest[i]).0@ == before[k].0@ && rest[i].1
                    == before[k].1;
            assert(jobs[i] == rest[i]);
        }
    } else {
        assert(t == before.push((last.0, last.1)));
        if k == before.len() {
            assert(jobs[n].0@ == t[k].0@ && jobs[n].1 == t[k].1);
        } else {
            lemma_table_entries_come_from_jobs(rest, k);
            let i = choose|i: int|
                0 <= i < rest.len() && (#[trigger] rest[i]).0@ == before[k].0@ && rest[i].1
                    == before[k].1;
            assert(jobs[i] == rest[i]);
        }
    }
}

/// The table built from the jobs of a file holds every name of the file,
/// with the last job given under that name.
pub proof fn lemma_table_holds_last_job(jobs: Seq<(String, DaftJob)>, i: int)
    requires
        0 <= i < jobs.len(),
        forall|j: int| i < j < jobs.len() ==> (#[trigger] jobs[j]).0@ != jobs[i].0@,
    ensures
        has_job(table_of(jobs), jobs[i].0@),
        table_of(jobs)[job_position(table_of(jobs), jobs[i].0@)].1 == jobs[i].1,
    decreases jobs.len(),
{
    let name = jobs[i].0@;
    let rest = jobs.drop_last();
    let before = table_of(rest);
    let t = table_of(jobs);
    lemma_table_names_unique(rest);
    lemma_table_names_unique(jobs);
    let last = jobs.last();
    if i == jobs.len() - 1 {
        if has_job(before, last.0@) {
            let k = job_position(before, last.0@);
            assert(t == before.update(k, (before[k].0, last.1)));
            assert(t[k].0@ == name);
            lemma_position_is_unique(t, name, k);
        } else {
            assert(t == before.push((last.0, last.1)));
            let k = before.len() as int;
            assert(t[k] == (last.0, last.1));
            lemma_position_is_unique(t, name, k);
        }
    } else {
        assert forall|j: int| i < j < rest.len() implies (#[trigger] rest[j]).0@ != rest[i].0@ by {
            assert(rest[j] == jobs[j]);
        }
        lemma_table_holds_last_job(rest, i);
        assert(rest[i] == jobs[i]);
        let p = job_position(before, name);
        assert(before[p].0@ == name);
        assert(last.0@ != name);
        if has_job(before, last.0@) {
            let k = job_position(before, last.0@);
            assert(before[k].0@ == last.0@);
            assert(k != p);
            assert(t == before.update(k, (before[k].0, last.1)));
            assert(t[p] == before[p]);
            lemma_position_is_unique(t, name, p);
        } else {
            assert(t == before.push((last.0, last.1)));
            assert(t[p] == before[p]);
            lemma_position_is_unique(t, name, p);
        }
    }
}

/// Finds the position of the entry named `name`.
pub fn find_job_position(table: &Vec<(String, DaftJob)>, name: &String) -> (r: Option<usize>)
    requires
        names_unique(table@),
    ensures
        r is None <==> !has_job(table@, name@),
        r matches Some(k) ==> k < table@.len() && table@[k as int].0@ == name@ && k
            == job_position(table@, name@),
{
    let n = table.len();
    for i in 0..n
        invariant
            n == table@.len(),
            names_unique(table@),
            forall|j: int| 0 <= j < i ==> (#[trigger] table@[j]).0@ != name@,
    {
        if table[i].0 == *name {
            let ghost k = job_position(table@, name@);
            assert(has_job(table@, name@));
            assert(table@[k].0@ == name@);
            assert(k == i) by {
                if k < i {
                } else if k > i {
                    assert(table@[i as int].0@ != table@[k].0@);
                }
            }
            return Some(i);
        }
    }
    None
}

/// Builds the table of named jobs: a later job of a name replaces an earlier
/// one.
pub fn job_table(jobs: Vec<(String, DaftJob)>) -> (t: Vec<(String, DaftJob)>)
    ensures
        t@ == table_of(jobs@),
        names_unique(t@),
{
    let ghost given = jobs@;
    let mut jobs = jobs;
    let mut t: Vec<(String, DaftJob)> = Vec::new();
    let mut i: usize = 0;
    let n = jobs.len();
    while i < n
        invariant
            n == given.len(),
            i <= n,
            jobs@ == given.subrange(i as int, n as int),
            t@ == table_of(given.take(i as int)),
            names_unique(t@),
        decreases n - i,
    {
        let (name, job) = jobs.remove(0);
        assert(given[i as int] == (name, job));
        assert(given.take(i + 1).drop_last() =~= given.take(i as int));
        let ghost before = t@;
        match find_job_position(&t, &name) {
            Some(k) => {
                let key = t[k].0.clone();
                t.set(k, (key, job));
            },
            None => {
                t.push((name, job));
            },
        }
        assert(t@ =~= table_insert(before, name, job));
        proof {
            lemma_insert_keeps_names_unique(before, name, job);
        }
        i = i + 1;
        assert(jobs@ =~= given.subrange(i as int, n as int));
    }
    assert(given.take(n as int) =~= given);
    t
}

/// What an error of checking `path` says of it: it could not be expanded,
/// or nothing exists at its expansion.
pub open spec fn is_path_error_of(path: Seq<char>, e: LoadError) -> bool {
    match e {
        LoadError::Path(_) => is_home_relative(path),
        LoadError::PathDoesNotExist(p) => is_component_expansion_of(path, p@),
        _ => false,
    }
}

/// What checking an expanded path gives, from the file system's answer
/// whether it exists.
pub open spec fn path_existence_result(expanded: String, exists: bool) -> Result<String, LoadError> {
    if exists {
        Ok(expanded)
    } else {
        Err(LoadError::PathDoesNotExist(expanded))
    }
}

/// The outcome of checking an expanded path, given whether it exists.
pub fn path_existence_outcome(expanded: String, exists: bool) -> (r: Result<String, LoadError>)
    ensures
        r == path_existence_result(expanded, exists),
{
    if exists {
        Ok(expanded)
    } else {
        Err(LoadError::PathDoesNotExist(expanded))
    }
}

/// Expands a leading `~` of a path component by component and checks that
/// the path exists: the outcome is [`path_existence_outcome`] of the
/// expansion and the file system's answer.
pub fn expand_and_check_path(path: &str) -> (r: Result<String, LoadError>)
    ensures
        r matches Ok(p) ==> is_component_expansion_of(path@, p@),
        r matches Err(e) ==> is_path_error_of(path@, e),
        !(r matches Err(LoadError::Path(_))) ==> exists|expanded: String, found: bool|
            is_component_expansion_of(path@, expanded@) && r == path_existence_result(
                expanded,
                found,
            ),
{
    let expanded = match expand_by_components(path) {
        Ok(p) => p,
        Err(e) => {
            return Err(LoadError::Path(e));
        },
    };
    let exists = path_exists(expanded.as_str());
    path_existence_outcome(expanded, exists)
}

/// Parses the version requirement of a configuration file and checks that
/// the running launcher's version meets it.
pub fn check_version_requirement(text: &str, current: &SemanticVersion) -> (r: Result<
    VersionRequirement,
    LoadError,
>)
    ensures
        r is Ok <==> semver_req_valid(text@) && semver_matches(text@, current@),
        r matches Ok(v) ==> v@ == text@,
        r matches Err(e) ==> match e {
            LoadError::InvalidVersionRequirement(t) => !semver_req_valid(text@) && t@ == text@,
            LoadError::VersionMismatch { required, current: c } => semver_req_valid(text@)
                && !semver_matches(text@, current@) && required@ == text@ && c@ == current@,
            _ => false,
        },
{
    match VersionRequirement::parse(text) {
        Ok(req) => {
            if req.matches(current) {
                Ok(req)
            } else {
                Err(
                    LoadError::VersionMismatch {
                        required: req.as_str().to_owned(),
                        current: current.as_str().to_owned(),
                    },
                )
            }
        },
        Err(e) => Err(LoadError::InvalidVersionRequirement(e.text)),
    }
}

/// `pairs` are the jobs read from the file, in order, with their working
/// directories expanded.
pub open spec fn jobs_read_from(pairs: Seq<(String, DaftJob)>, raw: Seq<RawDaftJob>) -> bool {
    &&& pairs.len() == raw.len()
    &&& forall|i: int|
        0 <= i < raw.len() ==> {
            &&& (#[trigger] pairs[i]).0@ == raw[i].name@
            &&& pairs[i].1.command@ == raw[i].command@
            &&& is_component_expansion_of(raw[i].working_dir@, pairs[i].1.working_dir@)
        }
}

/// Reads the jobs of a configuration file into a table by name, expanding and
/// checking each working directory; a later job of a name replaces an earlier
/// one.
pub fn parse_jobs(jobs: Vec<RawDaftJob>) -> (r: Result<Vec<(String, DaftJob)>, LoadError>)
    ensures
        r matches Ok(t) ==> names_unique(t@) && exists|pairs: Seq<(String, DaftJob)>|
            jobs_read_from(pairs, jobs@) && t@ == #[trigger] table_of(pairs),
        r matches Err(e) ==> exists|j: int|
            0 <= j < jobs@.len() && is_path_error_of((#[trigger] jobs@[j]).working_dir@, e)
                && exists|pairs: Seq<(String, DaftJob)>| jobs_read_from(pairs, jobs@.take(j)),
{
    let ghost given = jobs@;
    let mut remaining = jobs;
    let mut pairs: Vec<(String, DaftJob)> = Vec::new();
    let n = remaining.len();
    let mut i: usize = 0;
    while i < n
        invariant
            n == given.len(),
            i <= n,
            given == jobs@,
            remaining@ == given.subrange(i as int, n as int),
            jobs_read_from(pairs@, given.take(i as int)),
        decreases n - i,
    {
        let job = remaining.remove(0);
        assert(given[i as int] == job);
        let working_dir = match expand_and_check_path(job.working_dir.as_str()) {
            Ok(w) => w,
            Err(e) => {
                assert(is_path_error_of(given[i as int].working_dir@, e));
                assert(jobs_read_from(pairs@, jobs@.take(i as int)));
                return Err(e);
            },
        };
        pairs.push((job.name, DaftJob { command: job.command, working_dir }));
        i = i + 1;
        assert(remaining@ =~= given.subrange(i as int, n as int));
        assert forall|j: int| 0 <= j < i implies {
            &&& (#[trigger] pairs@[j]).0@ == given.take(i as int)[j].name@
            &&& pairs@[j].1.command@ == given.take(i as int)[j].command@
            &&& is_component_expansion_of(given.take(i as int)[j].working_dir@, pairs@[j].1.working_dir@)
        } by {
            if j < i - 1 {
                assert(given.take(i - 1)[j] == given.take(i as int)[j]);
            }
        }
    }
    assert(given.take(n as int) =~= given);
    let t = job_table(pairs);
    Ok(t)
}

/// `s` is the checked form of the `[setup]` table `raw`.
pub open spec fn is_setup_of(raw: RawDaftSetup, current: SemanticVersion, s: DaftSetup) -> bool {
    &&& semver_req_valid(raw.version@) && semver_matches(raw.version@, current@)
    &&& s.version@ == raw.version@
    &&& s.name == raw.name
    &&& s.region == raw.region
    &&& s.number_of_workers == raw.number_of_workers
    &&& s.ssh_user == raw.ssh_user
    &&& is_component_expansion_of(raw.ssh_private_key@, s.ssh_private_key@)
    &&& s.instance_type == raw.instance_type
    &&& s.image_id == raw.image_id
    &&& s.iam_instance_profile_name == raw.iam_instance_profile_name
    &&& s.dependencies == raw.dependencies
}

/// What an error of checking the `[setup]` table says of it: its version
/// requirement is refused first, then its private key.
pub open spec fn is_setup_error_of(raw: RawDaftSetup, current: SemanticVersion, e: LoadError) -> bool {
    match e {
        LoadError::InvalidVersionRequirement(t) => !semver_req_valid(raw.version@) && t@
            == raw.version@,
        LoadError::VersionMismatch { required, current: c } => semver_req_valid(raw.version@)
            && !semver_matches(raw.version@, current@) && required@ == raw.version@ && c@
            == current@,
        _ => semver_req_valid(raw.version@) && semver_matches(raw.version@, current@)
            && is_path_error_of(raw.ssh_private_key@, e),
    }
}

impl DaftSetup {
    /// Checks the `[setup]` table read from a file: its version requirement
    /// must be met by `current`, and its private key must exist (after `~`
    /// expansion).
    pub fn from_raw(raw: RawDaftSetup, current: &SemanticVersion) -> (r: Result<
        DaftSetup,
        LoadError,
    >)
        ensures
            r matches Ok(s) ==> is_setup_of(raw, *current, s),
            r matches Err(e) ==> is_setup_error_of(raw, *current, e),
            !(semver_req_valid(raw.version@) && semver_matches(raw.version@, current@)) ==> r is Err,
    {
        let version = match check_version_requirement(raw.version.as_str(), current) {
            Ok(v) => v,
            Err(e) => {
                return Err(e);
            },
        };
        let ssh_private_key = match expand_and_check_path(raw.ssh_private_key.as_str()) {
            Ok(p) => p,
            Err(e) => {
                return Err(e);
            },
        };
        Ok(
            DaftSetup {
                name: raw.name,
                version,
                region: raw.region,
                number_of_workers: raw.number_of_workers,
                ssh_user: raw.ssh_user,
                ssh_private_key,
                instance_type: raw.instance_type,
                image_id: raw.image_id,
                iam_instance_profile_name: raw.iam_instance_profile_name,
                dependencies: raw.dependencies,
            },
        )
    }
}

impl DaftConfig {
    /// Checks a configuration read from a file (see [`DaftSetup::from_raw`]
    /// and [`parse_jobs`]).
    pub fn from_raw(raw: RawDaftConfig, current: &SemanticVersion) -> (r: Result<
        DaftConfig,
        LoadError,
    >)
        ensures
            r matches Ok(c) ==> {
                &&& is_setup_of(raw.setup, *current, c.setup)
                &&& c.run == raw.run
                &&& names_unique(c.jobs@)
                &&& exists|pairs: Seq<(String, DaftJob)>|
                    jobs_read_from(pairs, raw.jobs@) && c.jobs@ == #[trigger] table_of(pairs)
            },
            r matches Err(e) ==> is_setup_error_of(raw.setup, *current, e) || ((exists|
                s: DaftSetup,
            | is_setup_of(raw.setup, *current, s)) && exists|j: int|
                0 <= j < raw.jobs@.len() && is_path_error_of(
                    (#[trigger] raw.jobs@[j]).working_dir@,
                    e,
                ) && exists|pairs: Seq<(String, DaftJob)>| jobs_read_from(pairs, raw.jobs@.take(j))),
            !(semver_req_valid(raw.setup.version@) && semver_matches(
                raw.setup.version@,
                current@,
            )) ==> r is Err,
    {
        let setup = match DaftSetup::from_raw(raw.setup, current) {
            Ok(s) => s,
            Err(e) => {
                return Err(e);
            },
        };
        let jobs = match parse_jobs(raw.jobs) {
            Ok(t) => t,
            Err(e) => {
                return Err(e);
            },
        };
        Ok(DaftConfig { setup, run: raw.run, jobs })
    }
}

/// The job of the given name: the first entry of the table with that name.
pub fn find_job<'a>(table: &'a Vec<(String, DaftJob)>, name: &str) -> (r: Option<&'a DaftJob>)
    ensures
        r is None <==> !has_job(table@, name@),
        r matches Some(j) ==> exists|k: int|
            0 <= k < table@.len() && (#[trigger] table@[k]).0@ == name@ && table@[k].1 == *j,
{
    let n = table.len();
    for i in 0..n
        invariant
            n == table@.len(),
            forall|j: int| 0 <= j < i ==> (#[trigger] table@[j]).0@ != name@,
    {
        if crate::text::str_eq(table[i].0.as_str(), name) {
            assert(table@[i as int].0@ == name@);
            return Some(&table[i].1);
        }
    }
    None
}

} // verus!
