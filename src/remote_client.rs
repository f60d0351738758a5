//! The remote desktop client: the command lines that open a full session or
//! a single application on the remote machine.
use vstd::prelude::*;
use crate::command::{Command, CommandView};
use crate::config::{backend_host, backend_selected, Config};
use crate::dirs::platform_home_dir;
use crate::errors::{Error, Result};
use crate::text::views;

verus! {

/// A client that opens sessions on the remote machine.
pub trait RemoteClient {
    /// Checks that the client can be run and the remote machine reached.
    fn check_depends(&self) -> Result<()>;

    /// Runs one application remotely, with arguments.
    fn run_app(&self, exec: String, args: Vec<String>) -> Result<()>;

    /// Opens a full remote desktop session.
    fn run_full_session(&self) -> Result<()>;
}

/// Failure message of the client command.
pub open spec fn client_error() -> Seq<char> {
    "Freerdp execution failed, check logs above!"@
}

/// Arguments that log the client into the remote machine, then the
/// configured extra arguments.
pub open spec fn client_args(config: &Config) -> Seq<Seq<char>> {
    seq![
        "/d:"@ + config.auth.domain@,
        "/u:"@ + config.auth.username@,
        "/p:"@ + config.auth.password@,
        "/v:"@ + backend_host(config),
    ] + views(config.freerdp.extra_args@)
}

/// The client command of `config`.
pub open spec fn client_command_view(config: &Config) -> CommandView {
    CommandView {
        executable: config.freerdp.executable@,
        args: client_args(config),
        error_message: client_error(),
        loud: config.debug,
    }
}

/// `prefix` followed by `value`.
fn prefixed(prefix: &str, value: &str) -> (r: String)
    ensures
        r@ == prefix@ + value@,
{
    let mut r = String::from_str(prefix);
    r.append(value);
    r
}

/// Copies of a list of strings.
fn copy_all(v: &Vec<String>) -> (r: Vec<String>)
    ensures
        views(r@) == views(v@),
{
    let mut r: Vec<String> = Vec::new();
    let mut i: usize = 0;
    while i < v.len()
        invariant
            i <= v@.len(),
            views(r@) == views(v@.take(i as int)),
        decreases v@.len() - i,
    {
        let ghost before = r@;
        let s = v[i].clone();
        r.push(s);
        assert(views(r@) =~= views(before).push(v@[i as int]@));
        assert(views(v@.take(i + 1)) =~= views(v@.take(i as int)).push(v@[i as int]@));
        i = i + 1;
    }
    assert(v@.take(v@.len() as int) =~= v@);
    r
}

/// The client command: credentials, remote host and extra arguments; its
/// output is shown when the configuration asks for debugging.
pub fn client_command(config: &Config) -> (r: Command)
    requires
        backend_selected(config),
    ensures
        r@ == client_command_view(config),
{
    let host = config.get_host();
    let c = Command::new(config.freerdp.executable.as_str()).with_err("Freerdp execution failed, check logs above!");
    let c = c.args(
        vec![
            prefixed("/d:", config.auth.domain.as_str()),
            prefixed("/u:", config.auth.username.as_str()),
            prefixed("/p:", config.auth.password.as_str()),
            prefixed("/v:", host.as_str()),
        ],
    );
    let c = c.args(copy_all(&config.freerdp.extra_args));
    let r = c.loud(config.debug);
    assert(r@.args =~= client_args(config));
    r
}

/// The command that opens a full remote desktop session.
pub fn session_command(config: &Config) -> (r: Command)
    requires
        backend_selected(config),
    ensures
        r@ == (CommandView {
            args: client_args(config).push("+dynamic-resolution"@),
            ..client_command_view(config)
        }),
{
    client_command(config).arg(String::from_str("+dynamic-resolution"))
}

/// The remote program that `name` stands for: the executable of the first
/// linked application with that id, or `name` itself.
pub open spec fn app_program(config: &Config, name: Seq<char>) -> Seq<char> {
    if exists|i: int| 0 <= i < config.linked_apps@.len() && #[trigger] config.linked_apps@[i].id@ == name {
        let i = choose|i: int|
            0 <= i < config.linked_apps@.len() && #[trigger] config.linked_apps@[i].id@ == name && forall|j: int|
                0 <= j < i ==> #[trigger] config.linked_apps@[j].id@ != name;
        config.linked_apps@[i].win_exec@
    } else {
        name
    }
}

/// Resolves the program that `name` stands for.
pub fn app_path(config: &Config, name: String) -> (r: String)
    ensures
        r@ == app_program(config, name@),
{
    let ghost nv = name@;
    match config.find_linked_app(name.clone()) {
        Some(app) => {
            proof {
                let i = choose|i: int|
                    0 <= i < config.linked_apps@.len() && config.linked_apps@[i] == *app && app.id@ == nv && forall|j: int|
                        0 <= j < i ==> #[trigger] config.linked_apps@[j].id@ != nv;
                assert(config.linked_apps@[i].id@ == nv);
                let k = choose|k: int|
                    0 <= k < config.linked_apps@.len() && #[trigger] config.linked_apps@[k].id@ == nv && forall|j: int|
                        0 <= j < k ==> #[trigger] config.linked_apps@[j].id@ != nv;
                if k < i {
                    assert(config.linked_apps@[k].id@ != nv);
                } else if i < k {
                    assert(config.linked_apps@[i].id@ != nv);
                }
            }
            app.win_exec.clone()
        },
        None => name,
    }
}

/// Longest home directory handed to the regex engine.
pub const HOME_LEN_LIMIT: usize = 4096;

/// Relies on regex's `escape`, `Regex::new` and `Regex::is_match`: the
/// escaped home directory anchored with `^` matches exactly the texts that
/// start with it. Building such a pattern fails only past the engine's size
/// limit, which a home directory within the bound stays far below.
#[verifier::external_body]
fn starts_with_home(home: &str, arg: &str) -> (r: bool)
    requires
        home@.len() <= HOME_LEN_LIMIT,
    ensures
        r == home@.is_prefix_of(arg@),
{
    match regex::Regex::new(&format!("^{}", regex::escape(home))) {
        Ok(re) => re.is_match(arg),
        Err(_) => false,
    }
}

/// Relies on regex's `escape`, `Regex::new` and `Regex::replace` with
/// `NoExpand`: the first match of the anchored, escaped home directory, the
/// leading copy of `home`, is replaced by `replacement` taken literally.
#[verifier::external_body]
fn replace_home(home: &str, arg: &str, replacement: &str) -> (r: String)
    requires
        home@.len() <= HOME_LEN_LIMIT,
        home@.is_prefix_of(arg@),
    ensures
        r@ == replacement@ + arg@.skip(home@.len() as int),
{
    match regex::Regex::new(&format!("^{}", regex::escape(home))) {
        Ok(re) => re.replace(arg, regex::NoExpand(replacement)).into_owned(),
        Err(_) => arg.to_string(),
    }
}

/// Remote share under which the local home directory appears.
pub open spec fn home_share() -> Seq<char> {
    "\\\\tsclient\\\\media"@
}

/// `s` with every `/` turned into `\`.
pub open spec fn backslashed(s: Seq<char>) -> Seq<char> {
    s.map_values(|c: char| if c == '/' { '\\' } else { c })
}

/// An argument as the remote program sees it: a path under the local home
/// directory is moved onto the remote share, with Windows separators.
pub open spec fn remote_arg(arg: Seq<char>, home: Seq<char>) -> Seq<char> {
    if arg.contains('/') && home.is_prefix_of(arg) {
        backslashed(home_share() + arg.skip(home.len() as int))
    } else {
        arg
    }
}

/// Whether `s` holds a `/`.
fn has_slash(s: &str) -> (r: bool)
    ensures
        r == s@.contains('/'),
{
    let n = s.unicode_len();
    let mut i: usize = 0;
    while i < n
        invariant
            n == s@.len(),
            i <= n,
            forall|j: int| 0 <= j < i ==> s@[j] != '/',
        decreases n - i,
    {
        if s.get_char(i) == '/' {
            return true;
        }
        i = i + 1;
    }
    false
}

/// `s` with every `/` turned into `\`.
fn backslash_text(s: &str) -> (r: String)
    ensures
        r@ == backslashed(s@),
{
    let n = s.unicode_len();
    let mut r = String::new();
    let mut i: usize = 0;
    while i < n
        invariant
            n == s@.len(),
            i <= n,
            r@ == backslashed(s@.take(i as int)),
        decreases n - i,
    {
        proof {
            reveal_strlit("\\");
        }
        if s.get_char(i) == '/' {
            r.append("\\");
        } else {
            let one = s.substring_char(i, i + 1);
            assert(one@ =~= seq![s@[i as int]]);
            r.append(one);
        }
        assert(backslashed(s@.take(i + 1)) =~= backslashed(s@.take(i as int)).push(
            if s@[i as int] == '/' { '\\' } else { s@[i as int] },
        ));
        i = i + 1;
    }
    assert(s@.take(n as int) =~= s@);
    r
}

/// One argument as the remote program sees it.
pub fn map_arg(arg: &str, home: &str) -> (r: String)
    requires
        home@.len() <= HOME_LEN_LIMIT,
    ensures
        r@ == remote_arg(arg@, home@),
{
    if has_slash(arg) && starts_with_home(home, arg) {
        let moved = replace_home(home, arg, "\\\\tsclient\\\\media");
        backslash_text(moved.as_str())
    } else {
        String::from_str(arg)
    }
}

/// The command that runs the program `path` remotely with `args`, paths
/// under `home` being moved onto the remote share.
pub fn launch_command(config: &Config, path: &str, args: &Vec<String>, home: &str) -> (r: Command)
    requires
        backend_selected(config),
        home@.len() <= HOME_LEN_LIMIT,
    ensures
        r@ == (CommandView {
            args: client_args(config).push("/app:program:"@ + path@ + ",hidef:on"@) + views(args@).map_values(
                |a: Seq<char>| remote_arg(a, home@),
            ),
            ..client_command_view(config)
        }),
{
    let mut program = String::from_str("/app:program:");
    program.append(path);
    program.append(",hidef:on");
    let mut mapped: Vec<String> = Vec::new();
    let mut i: usize = 0;
    while i < args.len()
        invariant
            i <= args@.len(),
            home@.len() <= HOME_LEN_LIMIT,
            views(mapped@) == views(args@.take(i as int)).map_values(|a: Seq<char>| remote_arg(a, home@)),
        decreases args@.len() - i,
    {
        let ghost before = mapped@;
        let m = map_arg(args[i].as_str(), home);
        let ghost mv = m@;
        mapped.push(m);
        assert(views(mapped@) =~= views(before).push(mv));
        assert(views(args@.take(i + 1)) =~= views(args@.take(i as int)).push(args@[i as int]@));
        i = i + 1;
    }
    assert(args@.take(args@.len() as int) =~= args@);
    client_command(config).arg(program).args(mapped)
}

/// The command that runs the application or program `name` remotely for a
/// user whose home directory is `home`: fails when it is unknown or longer
/// than [`HOME_LEN_LIMIT`].
pub fn command_for_home(config: &Config, name: String, args: Vec<String>, home: Option<String>) -> (r: Result<Command>)
    requires
        backend_selected(config),
    ensures
        match home {
            None => r is Err && r->Err_0 is Message && r->Err_0->Message_0@ == "Couldn't find $HOME"@,
            Some(h) => if h@.len() > HOME_LEN_LIMIT {
                r is Err && r->Err_0 is Message && r->Err_0->Message_0@ == "$HOME is too long"@
            } else {
                r is Ok && r->Ok_0@ == launch_view(config, app_program(config, name@), views(args@), h@)
            },
        },
{
    match home {
        Some(h) => {
            if h.as_str().unicode_len() > HOME_LEN_LIMIT {
                return Err(Error::Message(String::from_str("$HOME is too long")));
            }
            let ghost nv = name@;
            let path = app_path(config, name);
            let c = launch_command(config, path.as_str(), &args, h.as_str());
            assert(c@ == launch_view(config, app_program(config, nv), views(args@), h@));
            Ok(c)
        },
        None => Err(Error::Message(String::from_str("Couldn't find $HOME"))),
    }
}

/// The command that runs the application or program `name` remotely for the
/// current user; see [`command_for_home`].
pub fn app_command(config: &Config, name: String, args: Vec<String>) -> (r: Result<Command>)
    requires
        backend_selected(config),
    ensures
        match r {
            Ok(c) => exists|home: Seq<char>|
                home.len() <= HOME_LEN_LIMIT && c@ == #[trigger] launch_view(config, app_program(config, name@), views(args@), home),
            Err(e) => e is Message && (e->Message_0@ == "Couldn't find $HOME"@ || e->Message_0@ == "$HOME is too long"@),
        },
{
    let home = platform_home_dir();
    command_for_home(config, name, args, home)
}

/// The command that runs `program` remotely with `args`, paths under `home`
/// being moved onto the remote share.
pub open spec fn launch_view(config: &Config, program: Seq<char>, args: Seq<Seq<char>>, home: Seq<char>) -> CommandView {
    CommandView {
        args: client_args(config).push("/app:program:"@ + program + ",hidef:on"@) + args.map_values(
            |a: Seq<char>| remote_arg(a, home),
        ),
        ..client_command_view(config)
    }
}

} // verus!
