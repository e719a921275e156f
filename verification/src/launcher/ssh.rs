//! The `ssh` command lines that reach the head node of a cluster.

use vstd::prelude::*;
use vstd::string::*;
use crate::launcher::instances::{ipv4_text, Ipv4Address};
use crate::text::{concat, decimal, is_prefix, starts_with, to_decimal};

verus! {

/// The port of the Ray dashboard on the head node.
pub const DASHBOARD_PORT: u16 = 8265;

/// The local port to forward: the one given, else the dashboard's.
pub fn portforward_port(port: Option<u16>) -> (p: u16)
    ensures
        p == match port {
            Some(q) => q,
            None => 8265,
        },
{
    match port {
        Some(q) => q,
        None => DASHBOARD_PORT,
    }
}

/// The forwarding of a local port to the dashboard on the head node.
pub open spec fn forwarding_text(port: u16) -> Seq<char> {
    decimal(port as nat) + ":localhost:8265"@
}

/// The login of `user` at `addr`.
pub open spec fn login_text(user: Seq<char>, addr: Ipv4Address) -> Seq<char> {
    user + seq!['@'] + ipv4_text(addr)
}

/// The arguments of `ssh` that reach the head node at `addr` as `user` with
/// the given private key, optionally forwarding a local port (`-N -L`) and
/// optionally verbose (`-v`).
pub open spec fn ssh_argument_texts(
    private_key: Seq<char>,
    user: Seq<char>,
    addr: Ipv4Address,
    portforward: Option<u16>,
    verbose: bool,
) -> Seq<Seq<char>> {
    seq!["-i"@, private_key, "-o"@, "StrictHostKeyChecking=no"@] + match portforward {
        Some(p) => seq!["-N"@, "-L"@, forwarding_text(p)],
        None => Seq::empty(),
    } + if verbose {
        seq!["-v"@]
    } else {
        Seq::empty()
    } + seq![login_text(user, addr)]
}

/// The arguments of `ssh` that reach the head node (see
/// [`ssh_argument_texts`]).
pub fn ssh_arguments(
    private_key: &str,
    user: &str,
    addr: &Ipv4Address,
    portforward: Option<u16>,
    verbose: bool,
) -> (args: Vec<String>)
    ensures
        args.deep_view() == ssh_argument_texts(private_key@, user@, *addr, portforward, verbose),
{
    let mut args: Vec<String> = Vec::new();
    args.push(String::from_str("-i"));
    args.push(private_key.to_owned());
    args.push(String::from_str("-o"));
    args.push(String::from_str("StrictHostKeyChecking=no"));
    let ghost a0 = args.deep_view();
    assert(a0 =~= seq!["-i"@, private_key@, "-o"@, "StrictHostKeyChecking=no"@]);
    match portforward {
        Some(p) => {
            args.push(String::from_str("-N"));
            args.push(String::from_str("-L"));
            let port = to_decimal(p as u64);
            args.push(concat(port.as_str(), ":localhost:8265"));
        },
        None => {},
    }
    let ghost a1 = args.deep_view();
    assert(a1 =~= a0 + match portforward {
        Some(p) => seq!["-N"@, "-L"@, forwarding_text(p)],
        None => Seq::<Seq<char>>::empty(),
    });
    if verbose {
        args.push(String::from_str("-v"));
    }
    let ghost a2 = args.deep_view();
    assert(a2 =~= a1 + if verbose {
        seq!["-v"@]
    } else {
        Seq::<Seq<char>>::empty()
    });
    proof {
        reveal_strlit("@");
    }
    let login = concat(user, "@");
    let addr_text = addr.to_text();
    let joined = concat(login.as_str(), addr_text.as_str());
    assert(joined@ =~= login_text(user@, *addr));
    args.push(joined);
    assert(args.deep_view() =~= a2 + seq![login_text(user@, *addr)]);
    args
}

/// The line `ssh -v` prints once it is logged in to `addr`.
pub open spec fn authentication_text(addr: Ipv4Address) -> Seq<char> {
    "Authenticated to "@ + ipv4_text(addr)
}

/// Whether a line printed by `ssh -v` says that it is logged in to `addr`.
pub fn is_authentication_line(line: &str, addr: &Ipv4Address) -> (b: bool)
    ensures
        b == is_prefix(authentication_text(*addr), line@),
{
    let addr_text = addr.to_text();
    let expected = concat("Authenticated to ", addr_text.as_str());
    starts_with(line, expected.as_str())
}

/// The arguments of the `ssh` process that forwards the dashboard port of
/// the head node at `addr` without running a command.
pub fn tunnel_arguments(user: &str, addr: &Ipv4Address, private_key: &str) -> (args: Vec<String>)
    ensures
        args.deep_view() == seq![
            "-N"@,
            "-i"@,
            private_key@,
            "-L"@,
            "8265:localhost:8265"@,
            login_text(user@, *addr),
        ],
{
    let mut args: Vec<String> = Vec::new();
    args.push(String::from_str("-N"));
    args.push(String::from_str("-i"));
    args.push(private_key.to_owned());
    args.push(String::from_str("-L"));
    args.push(String::from_str("8265:localhost:8265"));
    proof {
        reveal_strlit("@");
    }
    let login = concat(user, "@");
    let addr_text = addr.to_text();
    let joined = concat(login.as_str(), addr_text.as_str());
    assert(joined@ =~= login_text(user@, *addr));
    args.push(joined);
    assert(args.deep_view() =~= seq![
        "-N"@,
        "-i"@,
        private_key@,
        "-L"@,
        "8265:localhost:8265"@,
        login_text(user@, *addr),
    ]);
    args
}

} // verus!
