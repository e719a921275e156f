//! Default values of the configuration file.

use vstd::prelude::*;
use crate::config::processed::Package;
use crate::text::concat;

verus! {

/// The commands run on every node after setup, for the given Python and Ray
/// versions: install `uv`, install and pin Python, create a virtual
/// environment that every shell activates, and install Ray, Daft and Delta
/// Lake into it.
pub open spec fn base_setup_command_texts(python: Seq<char>, ray: Seq<char>) -> Seq<Seq<char>> {
    seq![
        "curl -LsSf https://astral.sh/uv/install.sh | sh"@,
        "uv python install "@ + python,
        "uv python pin "@ + python,
        "uv venv"@,
        "echo \"alias pip='uv pip'\" >> $HOME/.bashrc"@,
        "echo \"source $HOME/.venv/bin/activate\" >> $HOME/.bashrc"@,
        "source $HOME/.bashrc"@,
        "uv pip install \"ray[default]=="@ + ray + "\" \"getdaft\" \"deltalake\""@,
    ]
}

/// The commands run on every node after setup, with the package's Python and
/// Ray versions filled in.
pub fn base_setup_commands(package: &Package) -> (v: Vec<String>)
    ensures
        v.deep_view() == base_setup_command_texts(
            package.python_version.raw@,
            package.ray_version.raw@,
        ),
{
    let python = package.python_version.raw.as_str();
    let ray = package.ray_version.raw.as_str();
    let mut v: Vec<String> = Vec::new();
    v.push(String::from_str("curl -LsSf https://astral.sh/uv/install.sh | sh"));
    v.push(concat("uv python install ", python));
    v.push(concat("uv python pin ", python));
    v.push(String::from_str("uv venv"));
    v.push(String::from_str("echo \"alias pip='uv pip'\" >> $HOME/.bashrc"));
    v.push(String::from_str("echo \"source $HOME/.venv/bin/activate\" >> $HOME/.bashrc"));
    v.push(String::from_str("source $HOME/.bashrc"));
    let pinned = concat("uv pip install \"ray[default]==", ray);
    v.push(concat(pinned.as_str(), "\" \"getdaft\" \"deltalake\""));
    assert(v.deep_view() =~= base_setup_command_texts(python@, ray@));
    v
}

/// The region used when a configuration file does not name one.
pub fn default_region() -> (r: String)
    ensures
        r@ == "us-west-2"@,
{
    String::from_str("us-west-2")
}

/// The login used on the nodes when a configuration file does not name one.
pub fn default_ssh_user() -> (r: String)
    ensures
        r@ == "ec2-user"@,
{
    String::from_str("ec2-user")
}

/// The machine image of the light template.
pub fn light_image_id() -> (r: String)
    ensures
        r@ == "ami-07c5ecd8498c59db5"@,
{
    String::from_str("ami-07c5ecd8498c59db5")
}

/// The instance type of the light template.
pub fn light_instance_type() -> (r: String)
    ensures
        r@ == "t2.nano"@,
{
    String::from_str("t2.nano")
}

/// The machine image of the normal template.
pub fn normal_image_id() -> (r: String)
    ensures
        r@ == "ami-01c3c55948a949a52"@,
{
    String::from_str("ami-01c3c55948a949a52")
}

/// The instance type of the normal template.
pub fn normal_instance_type() -> (r: String)
    ensures
        r@ == "m7g.medium"@,
{
    String::from_str("m7g.medium")
}

/// The number of worker nodes when a configuration file does not give one.
pub const DEFAULT_NUMBER_OF_WORKERS: usize = 2;

} // verus!
