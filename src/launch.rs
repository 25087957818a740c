//! What to execute for a profile: the program, its screened arguments and
//! the password to hand to the helper through its environment.

use vstd::prelude::*;

use crate::args::{
    auth_args, lemma_options_args_shape, lemma_texts_push, option_args, options_args, override_args,
    port_args, profile_args, session_option_args, texts, tunnel_args, SshArgs,
};
use crate::error::CoreError;
use crate::profile::{destination_text, AuthMethod, Profile};
use crate::text::{ascii_text, decimal, decimal_string, occurs_at, owned};
use crate::validate::{
    arg_problem, arg_safe, lemma_no_problem_is_safe, names_local_command, validate_args,
};

verus! {

/// Where the password helper was looked for, and what was found.
#[derive(Debug, Clone, PartialEq, Eq)]
pub enum HelperLookup {
    /// The helper's path.
    Found(String),
    /// A helper path was configured, but no file is there.
    ExplicitMissing,
    /// No helper path was configured and none is on the search path.
    NotInPath,
}

/// A process to start.
#[derive(Debug, Clone)]
pub struct LaunchPlan {
    /// The program: the SSH client, or the password helper.
    pub program: String,
    /// Its arguments.
    pub args: Vec<String>,
    /// The password to set as `SSHPASS` on the child only.
    pub password_env: Option<String>,
}

/// The SSH arguments for a tunnel-only session of `p`.
pub open spec fn tunnel_mode_args(p: Profile) -> Seq<Seq<char>> {
    seq!["-N"@, "-T"@] + profile_args(p)
}

/// Every argument passes the screen.
pub open spec fn all_safe(a: Seq<Seq<char>>) -> bool {
    forall|i: int| 0 <= i < a.len() ==> arg_problem(#[trigger] a[i]) is None
}

/// `m` describes the first argument of `a` that the screen refuses.
pub open spec fn first_problem_is(a: Seq<Seq<char>>, m: Seq<char>) -> bool {
    exists|i: int|
        0 <= i < a.len() && arg_problem(a[i]) == Some(m) && forall|j: int|
            0 <= j < i ==> arg_problem(#[trigger] a[j]) is None
}

/// The error for password authentication without a password.
pub open spec fn no_password_text() -> Seq<char> {
    "Password auth requires a password. Provide it when starting the session or set SSHPASS in the parent process environment."@
}

/// The error for a configured helper path with no file behind it.
pub open spec fn helper_missing_text() -> Seq<char> {
    "Password auth requires a valid sshpass_path (file not found)."@
}

/// The error for a helper that is nowhere to be found.
pub open spec fn helper_not_found_text() -> Seq<char> {
    "Password auth requires 'sshpass' to be installed and available in PATH, or provide sshpass_path."@
}

/// The tunnel-mode arguments of `profile`, screened: the arguments when
/// every one passes, else a spawn error describing the first refused one.
pub fn screen_profile(profile: &Profile) -> (r: Result<Vec<String>, CoreError>)
    ensures
        !all_safe(tunnel_mode_args(*profile)) ==> (r matches Err(CoreError::SshSpawnFailed(m))
            && first_problem_is(tunnel_mode_args(*profile), m@)),
        all_safe(tunnel_mode_args(*profile)) ==> (r matches Ok(args) && texts(args@)
            == tunnel_mode_args(*profile)),
        r matches Ok(args) ==> forall|i: int|
            0 <= i < tunnel_mode_args(*profile).len() ==> arg_safe(#[trigger] tunnel_mode_args(*profile)[i]),
        (exists|j: int|
            0 <= j < tunnel_mode_args(*profile).len() && names_local_command(
                #[trigger] tunnel_mode_args(*profile)[j],
            )) ==> r is Err,
{
    let args = SshArgs::from_profile(profile).build_tunnel_mode();
    proof {
        assert(texts(args@) == tunnel_mode_args(*profile));
        assert forall|j: int|
            0 <= j < tunnel_mode_args(*profile).len() && names_local_command(
                #[trigger] tunnel_mode_args(*profile)[j],
            ) implies 0 <= j < args@.len() && names_local_command(args@[j]@) by {
            assert(texts(args@)[j] == args@[j]@);
        }
    }
    assert(forall|i: int| 0 <= i < args@.len() ==> #[trigger] texts(args@)[i] == args@[i]@);
    match validate_args(args.as_slice()) {
        Err(m) => {
            proof {
                let i = choose|i: int|
                    0 <= i < args@.len() && arg_problem(args@[i]@) == Some(m@) && forall|j: int|
                        0 <= j < i ==> arg_problem(#[trigger] args@[j]@) is None;
                assert(texts(args@)[i] == args@[i]@);
                assert forall|j: int| 0 <= j < i implies arg_problem(
                    #[trigger] tunnel_mode_args(*profile)[j],
                ) is None by {
                    assert(texts(args@)[j] == args@[j]@);
                }
            }
            return Err(CoreError::SshSpawnFailed(m));
        },
        Ok(()) => {},
    }
    assert(texts(args@) == tunnel_mode_args(*profile));
    assert(all_safe(tunnel_mode_args(*profile))) by {
        assert forall|i: int| 0 <= i < tunnel_mode_args(*profile).len() implies arg_problem(
            #[trigger] tunnel_mode_args(*profile)[i],
        ) is None by {
            assert(texts(args@)[i] == args@[i]@);
        }
    }
    assert forall|i: int| 0 <= i < tunnel_mode_args(*profile).len() implies arg_safe(
        #[trigger] tunnel_mode_args(*profile)[i],
    ) by {
        lemma_no_problem_is_safe(tunnel_mode_args(*profile)[i]);
    }
    Ok(args)
}

/// An extra option `LocalCommand` with an ASCII value puts an argument that
/// names `LocalCommand` into the tunnel-mode arguments, so the screen
/// refuses the profile.
pub proof fn lemma_local_command_option(p: Profile, i: int)
    requires
        0 <= i < p.extra_options@.len(),
        p.extra_options@[i].0@ == "LocalCommand"@,
        ascii_text(p.extra_options@[i].1@),
    ensures
        exists|j: int|
            0 <= j < tunnel_mode_args(p).len() && names_local_command(#[trigger] tunnel_mode_args(p)[j]),
{
    reveal_strlit("LocalCommand");
    reveal_strlit("=");
    let t = tunnel_args(p.tunnels@);
    let so = session_option_args(p);
    let au = auth_args(p.auth);
    let ov = override_args(p);
    let ex = options_args(p.extra_options@);
    let po = port_args(p.port);
    let de = seq![destination_text(p.user@, p.host@)];
    let a = tunnel_mode_args(p);
    assert(a == seq!["-N"@, "-T"@] + t + so + au + ov + ex + po + de);
    lemma_options_args_shape(p.extra_options@);
    let k = p.extra_options@[i].0@;
    let v = p.extra_options@[i].1@;
    let arg = k + "="@ + v;
    let j = 2 + t.len() + so.len() + au.len() + ov.len() + 2 * i + 1;
    assert(ex[2 * i + 1] == arg);
    assert(a[j] == ex[2 * i + 1]);
    assert(k =~= seq!['L', 'o', 'c', 'a', 'l', 'C', 'o', 'm', 'm', 'a', 'n', 'd']);
    assert(arg.subrange(0, 12) =~= "LocalCommand"@);
    assert(occurs_at(arg, "LocalCommand"@, 0));
    assert(ascii_text(arg)) by {
        assert forall|m: int| 0 <= m < arg.len() implies (#[trigger] arg[m] as u32) < 128 by {
            if m >= 13 {
                assert(arg[m] == v[m - 13]);
            }
        }
    }
    assert(names_local_command(a[j]));
}

/// Plans the process for a session of `profile` with the SSH client at
/// `ssh_path`. The arguments are screened first. Password authentication
/// needs a password (given, or `inherited` from the environment) and a
/// helper, which then runs the client with `-e`.
pub fn plan_launch(
    ssh_path: &str,
    profile: &Profile,
    password: Option<String>,
    inherited: bool,
    helper: HelperLookup,
) -> (r: Result<LaunchPlan, CoreError>)
    ensures
        !all_safe(tunnel_mode_args(*profile)) ==> (r matches Err(CoreError::SshSpawnFailed(m))
            && first_problem_is(tunnel_mode_args(*profile), m@)),
        all_safe(tunnel_mode_args(*profile)) && !(profile.auth is Password) ==> (r matches Ok(plan)
            && plan.program@ == ssh_path@ && texts(plan.args@) == tunnel_mode_args(*profile)
            && plan.password_env is None),
        all_safe(tunnel_mode_args(*profile)) && profile.auth is Password ==> {
            if password is None && !inherited {
                r matches Err(CoreError::SshSpawnFailed(m)) && m@ == no_password_text()
            } else {
                match helper {
                    HelperLookup::ExplicitMissing => r matches Err(CoreError::SshSpawnFailed(m))
                        && m@ == helper_missing_text(),
                    HelperLookup::NotInPath => r matches Err(CoreError::SshSpawnFailed(m))
                        && m@ == helper_not_found_text(),
                    HelperLookup::Found(h) => r matches Ok(plan) && plan.program@ == h@
                        && texts(plan.args@) == seq!["-e"@, ssh_path@] + tunnel_mode_args(*profile)
                        && plan.password_env == password,
                }
            }
        },
        r matches Ok(plan) ==> forall|i: int|
            0 <= i < tunnel_mode_args(*profile).len() ==> arg_safe(#[trigger] tunnel_mode_args(*profile)[i]),
{
    let args = match screen_profile(profile) {
        Ok(a) => a,
        Err(e) => {
            return Err(e);
        },
    };
    match &profile.auth {
        AuthMethod::Password => {},
        _ => {
            return Ok(LaunchPlan { program: owned(ssh_path), args, password_env: None });
        },
    }
    if password.is_none() && !inherited {
        return Err(
            CoreError::SshSpawnFailed(
                owned(
                    "Password auth requires a password. Provide it when starting the session or set SSHPASS in the parent process environment.",
                ),
            ),
        );
    }
    match helper {
        HelperLookup::ExplicitMissing => Err(
            CoreError::SshSpawnFailed(
                owned("Password auth requires a valid sshpass_path (file not found)."),
            ),
        ),
        HelperLookup::NotInPath => Err(
            CoreError::SshSpawnFailed(
                owned(
                    "Password auth requires 'sshpass' to be installed and available in PATH, or provide sshpass_path.",
                ),
            ),
        ),
        HelperLookup::Found(h) => {
            let mut full: Vec<String> = Vec::new();
            full.push(owned("-e"));
            full.push(owned(ssh_path));
            let mut i: usize = 0;
            assert(texts(full@) =~= seq!["-e"@, ssh_path@] + texts(args@.subrange(0, 0)));
            while i < args.len()
                invariant
                    i <= args@.len(),
                    texts(full@) == seq!["-e"@, ssh_path@] + texts(args@.subrange(0, i as int)),
                decreases args@.len() - i,
            {
                let a = args[i].clone();
                proof {
                    lemma_texts_push(full@, a);
                }
                full.push(a);
                i = i + 1;
                assert(texts(full@) =~= seq!["-e"@, ssh_path@] + texts(args@.subrange(0, i as int)));
            }
            assert(args@.subrange(0, i as int) =~= args@);
            Ok(LaunchPlan { program: h, args: full, password_env: password })
        },
    }
}

/// The arguments of a one-off connection check: a short keep-alive, a ten
/// second connect timeout, no prompts, and the command `exit`.
pub open spec fn connection_check_args(p: Profile) -> Seq<Seq<char>> {
    option_args("ServerAliveInterval"@, decimal(p.keepalive_interval as nat)) + option_args(
        "ServerAliveCountMax"@,
        "1"@,
    ) + option_args("ConnectTimeout"@, "10"@) + option_args("BatchMode"@, "yes"@) + seq![
        "-T"@,
        "-p"@,
        decimal(p.port as nat),
        destination_text(p.user@, p.host@),
        "exit"@,
    ]
}

/// The arguments of a one-off connection check for `profile`.
pub fn connection_check_args_for(profile: &Profile) -> (r: Vec<String>)
    ensures
        texts(r@) == connection_check_args(*profile),
{
    let ki = decimal_string(profile.keepalive_interval as u64);
    let dest = profile.destination();
    let b = SshArgs::new().option("ServerAliveInterval", ki.as_str()).option(
        "ServerAliveCountMax",
        "1",
    ).option("ConnectTimeout", "10").option("BatchMode", "yes").no_tty().port(profile.port).destination(
        dest.as_str(),
    ).destination("exit");
    let r = b.build();
    assert(texts(r@) =~= connection_check_args(*profile));
    r
}

/// The outcome of a one-off connection check: success, or the client's
/// exit code (`-1` when a signal ended it) with its error output.
pub fn connection_check_result(success: bool, code: Option<i32>, stderr: String) -> (r: Result<
    (),
    CoreError,
>)
    ensures
        success ==> r is Ok,
        !success ==> (r matches Err(CoreError::SshExitError { code: c, message: m }) && c == match code {
            Some(x) => x,
            None => -1i32,
        } && m == stderr),
{
    if success {
        Ok(())
    } else {
        let c = match code {
            Some(x) => x,
            None => -1,
        };
        Err(CoreError::SshExitError { code: c, message: stderr })
    }
}

} // verus!
