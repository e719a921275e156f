//! The command lines of the `ray` tool.

use vstd::prelude::*;

verus! {

/// A subcommand of `ray`.
#[derive(Debug, Clone, Copy, PartialEq, Eq, Structural)]
pub enum RaySubcommand {
    Up,
    Down,
    Submit,
}

/// The name of a subcommand on the command line.
pub open spec fn subcommand_name(s: RaySubcommand) -> Seq<char> {
    match s {
        RaySubcommand::Up => "up"@,
        RaySubcommand::Down => "down"@,
        RaySubcommand::Submit => "submit"@,
    }
}

impl RaySubcommand {
    /// The name of the subcommand on the command line.
    pub fn as_str(&self) -> (s: &'static str)
        ensures
            s@ == subcommand_name(*self),
    {
        match self {
            RaySubcommand::Up => "up",
            RaySubcommand::Down => "down",
            RaySubcommand::Submit => "submit",
        }
    }
}

impl AsRef<str> for RaySubcommand {
    fn as_ref(&self) -> (s: &str)
        ensures
            s@ == subcommand_name(*self),
    {
        self.as_str()
    }
}

/// The arguments of `ray`: the subcommand, the cluster configuration file,
/// the further arguments, and `-y` to skip confirmation.
pub fn ray_arguments(subcommand: RaySubcommand, path: &str, args: &Vec<String>) -> (r: Vec<String>)
    ensures
        r.deep_view() == seq![subcommand_name(subcommand), path@] + args.deep_view() + seq!["-y"@],
{
    let mut r: Vec<String> = Vec::new();
    r.push(String::from_str(subcommand.as_str()));
    r.push(path.to_owned());
    let ghost head = r.deep_view();
    assert(head =~= seq![subcommand_name(subcommand), path@]);
    let n = args.len();
    for i in 0..n
        invariant
            n == args@.len(),
            head == seq![subcommand_name(subcommand), path@],
            r.deep_view() =~= head + args.deep_view().take(i as int),
    {
        let ghost before = r.deep_view();
        r.push(args[i].clone());
        assert(r.deep_view() =~= before.push(args[i as int]@));
        assert(args.deep_view().take(i + 1) =~= args.deep_view().take(i as int).push(
            args[i as int]@,
        ));
    }
    assert(args.deep_view().take(n as int) =~= args.deep_view());
    let ghost before = r.deep_view();
    r.push(String::from_str("-y"));
    assert(r.deep_view() =~= before.push("-y"@));
    r
}

/// A `ray` command that exited unsuccessfully, with its exit code if any.
pub struct RayCommandFailed {
    pub code: Option<i32>,
}

/// The outcome of a finished `ray` command: its output when it succeeded.
pub fn ray_outcome(success: bool, code: Option<i32>, stdout: Vec<u8>) -> (r: Result<
    Vec<u8>,
    RayCommandFailed,
>)
    ensures
        success ==> r == Ok::<Vec<u8>, RayCommandFailed>(stdout),
        !success ==> (r matches Err(e) && e.code == code),
{
    if success {
        Ok(stdout)
    } else {
        Err(RayCommandFailed { code })
    }
}

} // verus!
