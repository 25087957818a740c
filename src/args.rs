//! The SSH argument builder. It produces an argument vector, never a shell
//! command line, and screens it for options that would run local commands.

use vstd::prelude::*;

use crate::config::{host_key_option_text, StrictHostKeyChecking};
use crate::profile::{destination_text, AuthMethod, Profile, TunnelSpec};
use crate::text::{append_str, decimal, decimal_string, owned};

verus! {

/// The text values of a sequence of strings.
pub open spec fn texts(v: Seq<String>) -> Seq<Seq<char>> {
    v.map_values(|s: String| s@)
}

/// `-o key=value`.
pub open spec fn option_args(k: Seq<char>, v: Seq<char>) -> Seq<Seq<char>> {
    seq!["-o"@, k + "="@ + v]
}

/// One `-R <canonical>` pair per tunnel, in order.
pub open spec fn tunnel_args(ts: Seq<TunnelSpec>) -> Seq<Seq<char>>
    decreases ts.len(),
{
    if ts.len() == 0 {
        seq![]
    } else {
        tunnel_args(ts.drop_last()) + seq!["-R"@, ts.last().canonical()]
    }
}

/// One `-o key=value` pair per entry, in order.
pub open spec fn options_args(os: Seq<(String, String)>) -> Seq<Seq<char>>
    decreases os.len(),
{
    if os.len() == 0 {
        seq![]
    } else {
        options_args(os.drop_last()) + option_args(os.last().0@, os.last().1@)
    }
}

/// Keep-alive and safety options; `BatchMode` is left out for password
/// authentication, where the helper must be able to answer the prompt.
pub open spec fn session_option_args(p: Profile) -> Seq<Seq<char>> {
    option_args("ServerAliveInterval"@, decimal(p.keepalive_interval as nat))
        + option_args("ServerAliveCountMax"@, decimal(p.keepalive_count as nat))
        + option_args("ExitOnForwardFailure"@, "yes"@)
        + if p.auth is Password { seq![] } else { option_args("BatchMode"@, "yes"@) }
}

/// Options that depend on the authentication method.
pub open spec fn auth_args(a: AuthMethod) -> Seq<Seq<char>> {
    match a {
        AuthMethod::Agent => option_args("IdentitiesOnly"@, "yes"@),
        AuthMethod::KeyFile { path } => seq!["-i"@, path@] + option_args("IdentitiesOnly"@, "yes"@),
        AuthMethod::Password => seq![],
    }
}

/// The identity file and known-hosts overrides. With key-file
/// authentication the key file is the identity, so no second `-i` is added.
pub open spec fn override_args(p: Profile) -> Seq<Seq<char>> {
    (match p.identity_file {
        Some(f) => if p.auth is KeyFile {
            seq![]
        } else {
            seq!["-i"@, f@]
        },
        None => seq![],
    }) + (match p.known_hosts_file {
        Some(f) => option_args("UserKnownHostsFile"@, f@),
        None => seq![],
    })
}

/// `-p <port>` unless the port is the default one.
pub open spec fn port_args(port: u16) -> Seq<Seq<char>> {
    if port != 22 { seq!["-p"@, decimal(port as nat)] } else { seq![] }
}

/// The whole argument vector for a profile.
pub open spec fn profile_args(p: Profile) -> Seq<Seq<char>> {
    tunnel_args(p.tunnels@) + session_option_args(p) + auth_args(p.auth) + override_args(p)
        + options_args(p.extra_options@) + port_args(p.port) + seq![
        destination_text(p.user@, p.host@),
    ]
}

/// Builds an SSH argument vector piece by piece.
#[derive(Debug, Clone)]
pub struct SshArgs {
    args: Vec<String>,
}

impl View for SshArgs {
    type V = Seq<Seq<char>>;

    closed spec fn view(&self) -> Seq<Seq<char>> {
        texts(self.args@)
    }
}

/// A string vector with one more item has one more text.
pub proof fn lemma_texts_push(v: Seq<String>, s: String)
    ensures
        texts(v.push(s)) == texts(v).push(s@),
{
    assert(texts(v.push(s)) =~= texts(v).push(s@));
}

impl SshArgs {
    /// An empty argument vector.
    pub fn new() -> (r: SshArgs)
        ensures
            r@ == Seq::<Seq<char>>::empty(),
    {
        let r = SshArgs { args: Vec::new() };
        assert(r@ =~= Seq::<Seq<char>>::empty());
        r
    }

    fn push_arg(&mut self, a: String)
        ensures
            final(self)@ == old(self)@.push(a@),
    {
        proof {
            lemma_texts_push(self.args@, a);
        }
        self.args.push(a);
    }

    /// Appends the pair `flag`, `value`.
    fn push_pair(&mut self, flag: &str, value: String)
        ensures
            final(self)@ == old(self)@ + seq![flag@, value@],
    {
        self.push_arg(owned(flag));
        self.push_arg(value);
        assert(self@ =~= old(self)@ + seq![flag@, value@]);
    }

    /// Adds `-o key=value`.
    pub fn option(self, key: &str, value: &str) -> (r: SshArgs)
        ensures
            r@ == self@ + option_args(key@, value@),
    {
        let mut b = self;
        let mut kv = owned(key);
        append_str(&mut kv, "=");
        append_str(&mut kv, value);
        b.push_pair("-o", kv);
        b
    }

    /// Adds one `-o key=value` per entry, in order.
    pub fn options(self, options: &Vec<(String, String)>) -> (r: SshArgs)
        ensures
            r@ == self@ + options_args(options@),
    {
        let mut b = self;
        let ghost start = b@;
        let mut i: usize = 0;
        assert(options@.subrange(0, 0) =~= Seq::<(String, String)>::empty());
        assert(b@ =~= start + options_args(options@.subrange(0, 0)));
        while i < options.len()
            invariant
                i <= options@.len(),
                b@ == start + options_args(options@.subrange(0, i as int)),
            decreases options@.len() - i,
        {
            let entry = &options[i];
            b = b.option(entry.0.as_str(), entry.1.as_str());
            assert(options@.subrange(0, i + 1).drop_last() =~= options@.subrange(0, i as int));
            i = i + 1;
            assert(b@ =~= start + options_args(options@.subrange(0, i as int)));
        }
        assert(options@.subrange(0, i as int) =~= options@);
        b
    }

    /// Adds `-o StrictHostKeyChecking=<mode>`.
    pub fn strict_host_key_checking(self, mode: StrictHostKeyChecking) -> (r: SshArgs)
        ensures
            r@ == self@ + option_args("StrictHostKeyChecking"@, host_key_option_text(mode)),
    {
        self.option("StrictHostKeyChecking", mode.to_ssh_option())
    }

    /// Adds `-R <canonical tunnel>`.
    pub fn reverse_tunnel(self, tunnel: &TunnelSpec) -> (r: SshArgs)
        ensures
            r@ == self@ + seq!["-R"@, tunnel.canonical()],
    {
        let mut b = self;
        b.push_pair("-R", tunnel.to_ssh_arg());
        b
    }

    /// Adds `-i <path>`.
    pub fn identity_file(self, path: &str) -> (r: SshArgs)
        ensures
            r@ == self@ + seq!["-i"@, path@],
    {
        let mut b = self;
        b.push_pair("-i", owned(path));
        b
    }

    /// Adds `-p <port>`.
    pub fn port(self, port: u16) -> (r: SshArgs)
        ensures
            r@ == self@ + seq!["-p"@, decimal(port as nat)],
    {
        let mut b = self;
        b.push_pair("-p", decimal_string(port as u64));
        b
    }

    /// Adds the destination `user@host`.
    pub fn destination(self, dest: &str) -> (r: SshArgs)
        ensures
            r@ == self@.push(dest@),
    {
        let mut b = self;
        b.push_arg(owned(dest));
        b
    }

    /// Adds `-v`, `-vv` or `-vvv`; level 0 adds nothing.
    pub fn verbose(self, level: u8) -> (r: SshArgs)
        ensures
            level == 0 ==> r@ == self@,
            level == 1 ==> r@ == self@.push("-v"@),
            level == 2 ==> r@ == self@.push("-vv"@),
            level >= 3 ==> r@ == self@.push("-vvv"@),
    {
        if level == 0 {
            return self;
        }
        let flag = if level == 1 {
            "-v"
        } else if level == 2 {
            "-vv"
        } else {
            "-vvv"
        };
        let mut b = self;
        b.push_arg(owned(flag));
        b
    }

    /// Adds `-T`: no terminal.
    pub fn no_tty(self) -> (r: SshArgs)
        ensures
            r@ == self@.push("-T"@),
    {
        let mut b = self;
        b.push_arg(owned("-T"));
        b
    }

    /// Adds `-N`: no remote command.
    pub fn no_command(self) -> (r: SshArgs)
        ensures
            r@ == self@.push("-N"@),
    {
        let mut b = self;
        b.push_arg(owned("-N"));
        b
    }

    /// Adds `-C`: compression.
    pub fn compression(self) -> (r: SshArgs)
        ensures
            r@ == self@.push("-C"@),
    {
        let mut b = self;
        b.push_arg(owned("-C"));
        b
    }

    /// The argument vector.
    pub fn build(self) -> (r: Vec<String>)
        ensures
            texts(r@) == self@,
    {
        self.args
    }

    /// The argument vector for a tunnel-only session: `-N -T` first.
    pub fn build_tunnel_mode(self) -> (r: Vec<String>)
        ensures
            texts(r@) == seq!["-N"@, "-T"@] + self@,
    {
        let mut b = SshArgs::new().no_command().no_tty();
        let mut i: usize = 0;
        while i < self.args.len()
            invariant
                i <= self.args@.len(),
                b@ == seq!["-N"@, "-T"@] + texts(self.args@.subrange(0, i as int)),
            decreases self.args@.len() - i,
        {
            b.push_arg(self.args[i].clone());
            i = i + 1;
            assert(b@ =~= seq!["-N"@, "-T"@] + texts(self.args@.subrange(0, i as int)));
        }
        assert(self.args@.subrange(0, i as int) =~= self.args@);
        b.args
    }

    /// Adds one `-R` pair per tunnel, in order.
    fn tunnels(self, tunnels: &Vec<TunnelSpec>) -> (r: SshArgs)
        ensures
            r@ == self@ + tunnel_args(tunnels@),
    {
        let mut b = self;
        let ghost start = b@;
        let mut i: usize = 0;
        assert(tunnels@.subrange(0, 0) =~= Seq::<TunnelSpec>::empty());
        assert(b@ =~= start + tunnel_args(tunnels@.subrange(0, 0)));
        while i < tunnels.len()
            invariant
                i <= tunnels@.len(),
                b@ == start + tunnel_args(tunnels@.subrange(0, i as int)),
            decreases tunnels@.len() - i,
        {
            b = b.reverse_tunnel(&tunnels[i]);
            assert(tunnels@.subrange(0, i + 1).drop_last() =~= tunnels@.subrange(0, i as int));
            i = i + 1;
            assert(b@ =~= start + tunnel_args(tunnels@.subrange(0, i as int)));
        }
        assert(tunnels@.subrange(0, i as int) =~= tunnels@);
        b
    }

    /// The arguments for a profile, in the order: tunnels, keep-alive and
    /// safety options, authentication, overrides, extra options, port,
    /// destination.
    #[verifier::rlimit(50)]
    pub fn from_profile(profile: &Profile) -> (r: SshArgs)
        ensures
            r@ == profile_args(*profile),
    {
        let b = SshArgs::new().tunnels(&profile.tunnels);
        let ki = decimal_string(profile.keepalive_interval as u64);
        let kc = decimal_string(profile.keepalive_count as u64);
        let mut b = b.option("ServerAliveInterval", ki.as_str()).option(
            "ServerAliveCountMax",
            kc.as_str(),
        ).option("ExitOnForwardFailure", "yes");
        match &profile.auth {
            AuthMethod::Password => {},
            _ => {
                b = b.option("BatchMode", "yes");
            },
        }
        match &profile.auth {
            AuthMethod::Agent => {
                b = b.option("IdentitiesOnly", "yes");
            },
            AuthMethod::KeyFile { path } => {
                b = b.identity_file(path.as_str()).option("IdentitiesOnly", "yes");
            },
            AuthMethod::Password => {},
        }
        match &profile.identity_file {
            Some(f) => {
                match &profile.auth {
                    AuthMethod::KeyFile { .. } => {},
                    _ => {
                        b = b.identity_file(f.as_str());
                    },
                }
            },
            None => {},
        }
        match &profile.known_hosts_file {
            Some(f) => {
                b = b.option("UserKnownHostsFile", f.as_str());
            },
            None => {},
        }
        b = b.options(&profile.extra_options);
        if profile.port != 22 {
            b = b.port(profile.port);
        }
        let dest = profile.destination();
        let b = b.destination(dest.as_str());
        assert(b@ =~= profile_args(*profile));
        b
    }
}

/// The builder emits one `-R <canonical>` pair per tunnel, in order.
pub proof fn lemma_tunnel_args_shape(ts: Seq<TunnelSpec>)
    ensures
        tunnel_args(ts).len() == 2 * ts.len(),
        forall|j: int|
            0 <= j < tunnel_args(ts).len() ==> #[trigger] tunnel_args(ts)[j] == if j % 2 == 0 {
                "-R"@
            } else {
                ts[j / 2].canonical()
            },
    decreases ts.len(),
{
    if ts.len() > 0 {
        let sub = tunnel_args(ts.drop_last());
        lemma_tunnel_args_shape(ts.drop_last());
        assert(tunnel_args(ts) == sub + seq!["-R"@, ts.last().canonical()]);
        assert forall|j: int| 0 <= j < tunnel_args(ts).len() implies #[trigger] tunnel_args(ts)[j]
            == if j % 2 == 0 {
            "-R"@
        } else {
            ts[j / 2].canonical()
        } by {
            if j < sub.len() {
                assert(tunnel_args(ts)[j] == sub[j]);
                assert(ts.drop_last()[j / 2] == ts[j / 2]);
            } else {
                assert(j - sub.len() == 0 || j - sub.len() == 1);
                assert(sub.len() % 2 == 0);
            }
        }
    }
}

/// The builder emits one `-o key=value` pair per extra option, in order.
pub proof fn lemma_options_args_shape(os: Seq<(String, String)>)
    ensures
        options_args(os).len() == 2 * os.len(),
        forall|j: int|
            0 <= j < options_args(os).len() ==> #[trigger] options_args(os)[j] == if j % 2 == 0 {
                "-o"@
            } else {
                os[j / 2].0@ + "="@ + os[j / 2].1@
            },
    decreases os.len(),
{
    if os.len() > 0 {
        let sub = options_args(os.drop_last());
        lemma_options_args_shape(os.drop_last());
        assert(options_args(os) == sub + option_args(os.last().0@, os.last().1@));
        assert forall|j: int| 0 <= j < options_args(os).len() implies #[trigger] options_args(os)[j]
            == if j % 2 == 0 {
            "-o"@
        } else {
            os[j / 2].0@ + "="@ + os[j / 2].1@
        } by {
            if j < sub.len() {
                assert(options_args(os)[j] == sub[j]);
                assert(os.drop_last()[j / 2] == os[j / 2]);
            } else {
                assert(j - sub.len() == 0 || j - sub.len() == 1);
                assert(sub.len() % 2 == 0);
            }
        }
    }
}

/// A decimal spelling is made of digits, at least one.
pub proof fn lemma_decimal_digits(n: nat)
    ensures
        decimal(n).len() > 0,
        forall|i: int| 0 <= i < decimal(n).len() ==> '0' <= #[trigger] decimal(n)[i] <= '9',
    decreases n,
{
    if n >= 10 {
        lemma_decimal_digits(n / 10);
    }
}

/// Text that has `c` at some position differs from text without `c`.
proof fn lemma_differs_at(s: Seq<char>, t: Seq<char>, i: int, c: char)
    requires
        0 <= i < s.len(),
        s[i] == c,
        forall|j: int| 0 <= j < t.len() ==> t[j] != c,
    ensures
        s != t,
{
    if s == t {
        assert(t[i] == c);
    }
}

/// An assignment `k=v` is not the flag `-i`.
proof fn lemma_assignment_not_flag(k: Seq<char>, v: Seq<char>)
    ensures
        k + "="@ + v != "-i"@,
{
    reveal_strlit("=");
    reveal_strlit("-i");
    lemma_differs_at(k + "="@ + v, "-i"@, k.len() as int, '=');
}

/// With key-file authentication the key file's path follows `-i` at
/// exactly one place.
pub proof fn lemma_key_file_once(p: Profile)
    requires
        p.auth is KeyFile,
    ensures
        ({
            let a = profile_args(p);
            let k = (tunnel_args(p.tunnels@).len() + session_option_args(p).len()) as int;
            &&& a[k] == "-i"@
            &&& a[k + 1] == p.auth->KeyFile_path@
            &&& forall|j: int|
                0 <= j < a.len() - 1 && #[trigger] a[j] == "-i"@ && a[j + 1] == p.auth->KeyFile_path@ ==> j == k
        }),
{
    reveal_strlit("-i");
    reveal_strlit("-R");
    reveal_strlit("-o");
    reveal_strlit("-p");
    reveal_strlit(":");
    reveal_strlit("@");
    let path = p.auth->KeyFile_path;
    let t = tunnel_args(p.tunnels@);
    let so = session_option_args(p);
    let au = auth_args(p.auth);
    let ov = override_args(p);
    let ex = options_args(p.extra_options@);
    let po = port_args(p.port);
    let de = seq![destination_text(p.user@, p.host@)];
    let a = profile_args(p);
    assert(a == t + so + au + ov + ex + po + de);
    lemma_tunnel_args_shape(p.tunnels@);
    lemma_options_args_shape(p.extra_options@);
    lemma_decimal_digits(p.port as nat);
    assert("-R"@ != "-i"@) by {
        assert("-R"@[1] != "-i"@[1]);
    }
    assert("-o"@ != "-i"@) by {
        assert("-o"@[1] != "-i"@[1]);
    }
    assert forall|j: int| 0 <= j < t.len() implies t[j] != "-i"@ by {
        if j % 2 != 0 {
            let tn = p.tunnels@[j / 2];
            lemma_differs_at(tn.canonical(), "-i"@, tn.remote_bind@.len() as int, ':');
        }
    }
    lemma_assignment_not_flag("ServerAliveInterval"@, decimal(p.keepalive_interval as nat));
    lemma_assignment_not_flag("ServerAliveCountMax"@, decimal(p.keepalive_count as nat));
    lemma_assignment_not_flag("ExitOnForwardFailure"@, "yes"@);
    lemma_assignment_not_flag("BatchMode"@, "yes"@);
    assert forall|j: int| 0 <= j < so.len() implies so[j] != "-i"@ by {
        if j % 2 == 0 {
            assert(so[j] == "-o"@);
        }
    }
    lemma_assignment_not_flag("IdentitiesOnly"@, "yes"@);
    assert forall|j: int| 0 <= j < ov.len() implies ov[j] != "-i"@ by {
        lemma_assignment_not_flag("UserKnownHostsFile"@, p.known_hosts_file->0@);
    }
    assert forall|j: int| 0 <= j < ex.len() implies ex[j] != "-i"@ by {
        if j % 2 != 0 {
            lemma_assignment_not_flag(p.extra_options@[j / 2].0@, p.extra_options@[j / 2].1@);
        }
    }
    assert("-p"@ != "-i"@) by {
        assert("-p"@[1] != "-i"@[1]);
    }
    assert forall|j: int| 0 <= j < po.len() implies po[j] != "-i"@ by {
        if j == 1 {
            lemma_differs_at("-i"@, decimal(p.port as nat), 0, '-');
        }
    }
    lemma_differs_at(destination_text(p.user@, p.host@), "-i"@, p.user@.len() as int, '@');
    let k = (t.len() + so.len()) as int;
    assert(au[0] == "-i"@);
    assert(au[1] == path@);
    assert forall|j: int| 0 <= j < a.len() - 1 && #[trigger] a[j] == "-i"@ && a[j + 1] == path@ implies j == k by {
        if j < t.len() {
            assert(a[j] == t[j]);
        } else if j < k {
            assert(a[j] == so[j - t.len()]);
        } else if j < k + au.len() {
            assert(a[j] == au[j - k]);
            if j == k + 1 {
                assert(a[j + 1] == au[2]);
                assert(au[2] == "-o"@);
                assert("-o"@ != "-i"@) by {
                    assert("-o"@[1] != "-i"@[1]);
                }
            }
        } else if j < k + au.len() + ov.len() {
            assert(a[j] == ov[j - k - au.len()]);
        } else if j < k + au.len() + ov.len() + ex.len() {
            assert(a[j] == ex[j - k - au.len() - ov.len()]);
        } else if j < k + au.len() + ov.len() + ex.len() + po.len() {
            assert(a[j] == po[j - k - au.len() - ov.len() - ex.len()]);
        } else {
            assert(a[j] == de[0]);
        }
    }
}

/// An assignment `k=v` spells `BatchMode=yes` only with the key `BatchMode`.
proof fn lemma_batch_mode_assignment(k: Seq<char>, v: Seq<char>)
    requires
        k != "BatchMode"@,
    ensures
        k + "="@ + v != "BatchMode=yes"@,
{
    reveal_strlit("=");
    reveal_strlit("BatchMode=yes");
    reveal_strlit("BatchMode");
    let a = k + "="@ + v;
    let t = "BatchMode=yes"@;
    assert(t =~= seq!['B', 'a', 't', 'c', 'h', 'M', 'o', 'd', 'e', '=', 'y', 'e', 's']);
    if a == t {
        assert(a[k.len() as int] == '=');
        assert(t[k.len() as int] == '=');
        assert(k.len() == 9);
        assert(k =~= t.subrange(0, 9));
        assert(t.subrange(0, 9) =~= "BatchMode"@);
    }
}

/// With password authentication, no argument is `BatchMode=yes`, unless an
/// extra option or the identity file names it.
pub proof fn lemma_password_without_batch_mode(p: Profile)
    requires
        p.auth is Password,
        forall|i: int| 0 <= i < p.extra_options@.len() ==> (#[trigger] p.extra_options@[i]).0@
            != "BatchMode"@,
        p.identity_file matches Some(f) ==> f@ != "BatchMode=yes"@,
    ensures
        forall|j: int| 0 <= j < profile_args(p).len() ==> profile_args(p)[j] != "BatchMode=yes"@,
{
    reveal_strlit("BatchMode=yes");
    reveal_strlit("-R");
    reveal_strlit("-o");
    reveal_strlit("-i");
    reveal_strlit("-p");
    reveal_strlit(":");
    reveal_strlit("@");
    reveal_strlit("ServerAliveInterval");
    reveal_strlit("ServerAliveCountMax");
    reveal_strlit("ExitOnForwardFailure");
    reveal_strlit("UserKnownHostsFile");
    let target = "BatchMode=yes"@;
    assert(target =~= seq!['B', 'a', 't', 'c', 'h', 'M', 'o', 'd', 'e', '=', 'y', 'e', 's']);
    assert("-R"@.len() == 2 && "-o"@.len() == 2 && "-i"@.len() == 2 && "-p"@.len() == 2);
    let t = tunnel_args(p.tunnels@);
    let so = session_option_args(p);
    let au = auth_args(p.auth);
    let ov = override_args(p);
    let ex = options_args(p.extra_options@);
    let po = port_args(p.port);
    let de = seq![destination_text(p.user@, p.host@)];
    let a = profile_args(p);
    assert(a == t + so + au + ov + ex + po + de);
    assert(au.len() == 0);
    lemma_tunnel_args_shape(p.tunnels@);
    lemma_options_args_shape(p.extra_options@);
    lemma_decimal_digits(p.port as nat);
    assert forall|j: int| 0 <= j < t.len() implies t[j] != target by {
        if j % 2 != 0 {
            let tn = p.tunnels@[j / 2];
            lemma_differs_at(tn.canonical(), target, tn.remote_bind@.len() as int, ':');
        }
    }
    lemma_differs_at("ServerAliveInterval"@ + "="@ + decimal(p.keepalive_interval as nat), target, 0, 'S');
    lemma_differs_at("ServerAliveCountMax"@ + "="@ + decimal(p.keepalive_count as nat), target, 0, 'S');
    lemma_differs_at("ExitOnForwardFailure"@ + "="@ + "yes"@, target, 0, 'E');
    assert forall|j: int| 0 <= j < so.len() implies so[j] != target by {
    }
    assert forall|j: int| 0 <= j < ov.len() implies ov[j] != target by {
        match p.known_hosts_file {
            Some(f) => {
                lemma_differs_at("UserKnownHostsFile"@ + "="@ + f@, target, 0, 'U');
            },
            None => {},
        }
    }
    assert forall|j: int| 0 <= j < ex.len() implies ex[j] != target by {
        if j % 2 != 0 {
            lemma_batch_mode_assignment(p.extra_options@[j / 2].0@, p.extra_options@[j / 2].1@);
        }
    }
    assert forall|j: int| 0 <= j < po.len() implies po[j] != target by {
        if j == 1 {
            lemma_differs_at(target, decimal(p.port as nat), 0, 'B');
        }
    }
    lemma_differs_at(destination_text(p.user@, p.host@), target, p.user@.len() as int, '@');
    assert forall|j: int| 0 <= j < a.len() implies a[j] != target by {
        if j < t.len() {
            assert(a[j] == t[j]);
        } else if j < t.len() + so.len() {
            assert(a[j] == so[j - t.len()]);
        } else if j < t.len() + so.len() + ov.len() {
            assert(a[j] == ov[j - t.len() - so.len()]);
        } else if j < t.len() + so.len() + ov.len() + ex.len() {
            assert(a[j] == ex[j - t.len() - so.len() - ov.len()]);
        } else if j < t.len() + so.len() + ov.len() + ex.len() + po.len() {
            assert(a[j] == po[j - t.len() - so.len() - ov.len() - ex.len()]);
        } else {
            assert(a[j] == de[0]);
        }
    }
}

} // verus!
