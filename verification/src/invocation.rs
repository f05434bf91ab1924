//! Construction of the `ssh` command line for one probe.
//!
//! The invocation is
//! `ssh -o ConnectTimeout=<secs> [-o StrictHostKeyChecking=accept-new]
//! [-i <key>] -p <port> <user>@<host> hostname`:
//! connect timeout first, host-key policy second, identity file third, port
//! and destination last, with the minimal side-effect-free remote command
//! `hostname` as the final argument.

use vstd::prelude::*;
use vstd::string::StringExecFns;

use crate::request::TestConnectionRequest;
use crate::text::dec_spec;
use crate::text::dec_string;
use crate::text::is_digit_char;
use crate::text::lemma_dec_spec_digits;

verus! {

/// Destination port used when the request names none.
pub const DEFAULT_PORT: u16 = 22;

/// Connect timeout, in seconds, used when the request names none.
pub const DEFAULT_TIMEOUT_SECS: u64 = 10;

/// The port the invocation asks for: the requested one, or 22.
pub open spec fn resolved_port(req: TestConnectionRequest) -> u16 {
    match req.port {
        Some(p) => p,
        None => DEFAULT_PORT,
    }
}

/// The connect timeout the invocation asks for: the requested one, or 10 s.
pub open spec fn resolved_timeout(req: TestConnectionRequest) -> u64 {
    match req.timeout_secs {
        Some(t) => t,
        None => DEFAULT_TIMEOUT_SECS,
    }
}

/// Whether the invocation tells the client to auto-accept an unseen host key.
pub open spec fn auto_accept(req: TestConnectionRequest) -> bool {
    match req.accept_new_host_key {
        Some(b) => b,
        None => false,
    }
}

/// The value of the `-o` connect-timeout option.
pub open spec fn timeout_option_spec(req: TestConnectionRequest) -> Seq<char> {
    "ConnectTimeout="@ + dec_spec(resolved_timeout(req) as nat)
}

/// The `user@host` destination argument.
pub open spec fn destination_spec(req: TestConnectionRequest) -> Seq<char> {
    req.username@ + "@"@ + req.host@
}

/// The full argument list handed to the `ssh` client, in order.
pub open spec fn ssh_args_spec(req: TestConnectionRequest) -> Seq<Seq<char>> {
    let head = seq!["-o"@, timeout_option_spec(req)];
    let head = if auto_accept(req) {
        head + seq!["-o"@, "StrictHostKeyChecking=accept-new"@]
    } else {
        head
    };
    let head = match req.private_key_path {
        Some(k) => head + seq!["-i"@, k@],
        None => head,
    };
    head + seq![
        "-p"@,
        dec_spec(resolved_port(req) as nat),
        destination_spec(req),
        "hostname"@,
    ]
}

/// Name of the remote-login client binary, resolved via the search path.
pub fn ssh_program() -> (r: &'static str)
    ensures
        r@ == "ssh"@,
{
    "ssh"
}

/// Builds the argument list, exactly as `ssh_args_spec` says.
pub fn build_ssh_args(req: &TestConnectionRequest) -> (args: Vec<String>)
    ensures
        args.deep_view() == ssh_args_spec(*req),
{
    let timeout: u64 = match req.timeout_secs {
        Some(t) => t,
        None => DEFAULT_TIMEOUT_SECS,
    };
    let port: u16 = match req.port {
        Some(p) => p,
        None => DEFAULT_PORT,
    };
    let accept: bool = match req.accept_new_host_key {
        Some(b) => b,
        None => false,
    };
    let mut args: Vec<String> = Vec::new();
    args.push(String::from_str("-o"));
    args.push(String::from_str("ConnectTimeout=").concat(dec_string(timeout).as_str()));
    if accept {
        args.push(String::from_str("-o"));
        args.push(String::from_str("StrictHostKeyChecking=accept-new"));
    }
    match &req.private_key_path {
        Some(k) => {
            args.push(String::from_str("-i"));
            args.push(k.clone());
        },
        None => {},
    }
    args.push(String::from_str("-p"));
    args.push(dec_string(port as u64));
    args.push(req.username.clone().concat("@").concat(req.host.as_str()));
    args.push(String::from_str("hostname"));
    proof {
        assert(args.deep_view() =~~= ssh_args_spec(*req));
    }
    args
}

/// The shape of every invocation: options in their fixed order, with the
/// port, the destination and the literal remote command `hostname` last.
pub proof fn lemma_args_shape(req: TestConnectionRequest)
    ensures
        ({
            let args = ssh_args_spec(req);
            let b: int = if auto_accept(req) {
                2
            } else {
                0
            };
            &&& args.len() == 6 + b + (if req.private_key_path is Some {
                2int
            } else {
                0
            })
            &&& args[0] == "-o"@
            &&& args[1] == timeout_option_spec(req)
            &&& (auto_accept(req) ==> args[2] == "-o"@ && args[3]
                == "StrictHostKeyChecking=accept-new"@)
            &&& (req.private_key_path matches Some(k) ==> args[2 + b] == "-i"@ && args[3 + b]
                == k@)
            &&& args[args.len() - 4] == "-p"@
            &&& args[args.len() - 3] == dec_spec(resolved_port(req) as nat)
            &&& args[args.len() - 2] == destination_spec(req)
            &&& args[args.len() - 1] == "hostname"@
        }),
{
}

/// With `port` omitted, the invocation asks for port 22.
pub proof fn lemma_default_port(req: TestConnectionRequest)
    requires
        req.port is None,
    ensures
        ({
            let args = ssh_args_spec(req);
            args[args.len() - 4] == "-p"@ && args[args.len() - 3] == "22"@
        }),
{
    lemma_args_shape(req);
    reveal_strlit("22");
    assert(dec_spec(22) =~= "22"@) by {
        reveal_with_fuel(dec_spec, 3);
    }
}

/// With `timeout_secs` omitted, the invocation asks for a ten-second
/// connect timeout.
pub proof fn lemma_default_timeout(req: TestConnectionRequest)
    requires
        req.timeout_secs is None,
    ensures
        ({
            let args = ssh_args_spec(req);
            args[0] == "-o"@ && args[1] == "ConnectTimeout=10"@
        }),
{
    lemma_args_shape(req);
    reveal_strlit("ConnectTimeout=");
    reveal_strlit("ConnectTimeout=10");
    assert(dec_spec(10) =~= seq!['1', '0']) by {
        reveal_with_fuel(dec_spec, 3);
    }
    assert("ConnectTimeout="@ + dec_spec(10) =~= "ConnectTimeout=10"@);
}

/// `args` passes the option `-o <name>` somewhere.
pub open spec fn has_ssh_option(args: Seq<Seq<char>>, name: Seq<char>) -> bool {
    exists|i: int|
        0 <= i && i + 1 < args.len() && #[trigger] args[i] == "-o"@ && #[trigger] args[i + 1]
            == name
}

/// `args` passes an identity file `-i <path>` somewhere.
pub open spec fn has_identity_file(args: Seq<Seq<char>>, path: Seq<char>) -> bool {
    exists|i: int|
        0 <= i && i + 1 < args.len() && #[trigger] args[i] == "-i"@ && #[trigger] args[i + 1]
            == path
}

/// The destination always holds an `@`, so it differs from any two-character
/// argument made of other characters.
proof fn lemma_destination_differs(req: TestConnectionRequest, f: Seq<char>)
    requires
        f.len() == 2,
        f[0] != '@',
        f[1] != '@',
    ensures
        destination_spec(req) != f,
{
    reveal_strlit("@");
    let d = destination_spec(req);
    let u = req.username@.len() as int;
    assert(d[u] == '@');
    if d == f {
        assert(u + 1 + req.host@.len() == 2);
        assert(f[u] == '@');
    }
}

/// The decimal port rendering never equals a flag such as `-o` or `-i`.
proof fn lemma_port_differs(req: TestConnectionRequest, f: Seq<char>)
    requires
        f.len() >= 1,
        !is_digit_char(f[0]),
    ensures
        dec_spec(resolved_port(req) as nat) != f,
{
    lemma_dec_spec_digits(resolved_port(req) as nat);
    if dec_spec(resolved_port(req) as nat) == f {
        assert(is_digit_char(dec_spec(resolved_port(req) as nat)[0]));
    }
}

/// `accept_new_host_key = true` adds the host-key auto-accept option;
/// `false` or omitted never does.
pub proof fn lemma_host_key_option(req: TestConnectionRequest)
    ensures
        auto_accept(req) <==> has_ssh_option(
            ssh_args_spec(req),
            "StrictHostKeyChecking=accept-new"@,
        ),
{
    lemma_args_shape(req);
    let args = ssh_args_spec(req);
    let opt = "StrictHostKeyChecking=accept-new"@;
    reveal_strlit("StrictHostKeyChecking=accept-new");
    reveal_strlit("ConnectTimeout=");
    reveal_strlit("-o");
    reveal_strlit("-i");
    reveal_strlit("-p");
    reveal_strlit("hostname");
    if auto_accept(req) {
        assert(0 <= 2 && 2 + 1 < args.len() && args[2] == "-o"@ && args[3] == opt);
    } else {
        assert(opt.len() == 32);
        assert(opt[0] == 'S');
        assert("-o"@[0] == '-');
        assert("-o"@[1] == 'o');
        assert("-i"@[1] == 'i');
        assert("-p"@[1] == 'p');
        assert(args[1][0] == 'C');
        lemma_destination_differs(req, "-o"@);
        lemma_port_differs(req, "-o"@);
        if req.private_key_path is Some {
            assert(args.len() == 8);
            assert forall|i: int|
                !(0 <= i && i + 1 < args.len() && #[trigger] args[i] == "-o"@ && #[trigger] args[i
                    + 1] == opt) by {
                if 0 <= i && i + 1 < args.len() {
                    if i == 0 {
                        assert(args[1] != opt);
                    } else if i == 3 {
                        // the identity path itself may read like the flag,
                        // but what follows it is the fixed `-p`
                        assert(args[4] == "-p"@);
                        assert(args[4] != opt);
                    } else {
                        assert(args[i] != "-o"@);
                    }
                }
            }
        } else {
            assert(args.len() == 6);
            assert forall|i: int|
                !(0 <= i && i + 1 < args.len() && #[trigger] args[i] == "-o"@ && #[trigger] args[i
                    + 1] == opt) by {
                if 0 <= i && i + 1 < args.len() {
                    if i == 0 {
                        assert(args[1] != opt);
                    } else {
                        assert(args[i] != "-o"@);
                    }
                }
            }
        }
    }
}

/// A present `private_key_path` adds an identity-file option with that exact
/// path; an absent one never puts `-i` anywhere in the invocation.
pub proof fn lemma_identity_option(req: TestConnectionRequest)
    ensures
        req.private_key_path matches Some(k) ==> has_identity_file(ssh_args_spec(req), k@),
        req.private_key_path is None ==> forall|i: int|
            0 <= i < ssh_args_spec(req).len() ==> ssh_args_spec(req)[i] != "-i"@,
{
    lemma_args_shape(req);
    let args = ssh_args_spec(req);
    let opt = "StrictHostKeyChecking=accept-new"@;
    reveal_strlit("StrictHostKeyChecking=accept-new");
    reveal_strlit("ConnectTimeout=");
    reveal_strlit("-o");
    reveal_strlit("-i");
    reveal_strlit("-p");
    reveal_strlit("hostname");
    match req.private_key_path {
        Some(k) => {
            if auto_accept(req) {
                assert(0 <= 4 && 4 + 1 < args.len() && args[4] == "-i"@ && args[5] == k@);
            } else {
                assert(0 <= 2 && 2 + 1 < args.len() && args[2] == "-i"@ && args[3] == k@);
            }
        },
        None => {
            assert(opt.len() == 32);
            assert("-i"@.len() == 2);
            assert("-i"@[0] == '-');
            assert("-i"@[1] == 'i');
            assert("-o"@[1] == 'o');
            assert("-p"@[1] == 'p');
            assert("hostname"@.len() == 8);
            assert(args[1][0] == 'C');
            lemma_destination_differs(req, "-i"@);
            lemma_port_differs(req, "-i"@);
            if auto_accept(req) {
                assert(args.len() == 8);
                assert forall|i: int| 0 <= i < args.len() implies args[i] != "-i"@ by {
                    assert(args[3] == opt);
                }
            } else {
                assert(args.len() == 6);
                assert forall|i: int| 0 <= i < args.len() implies args[i] != "-i"@ by {
                    assert(args[1][0] == 'C');
                }
            }
        },
    }
}

} // verus!
