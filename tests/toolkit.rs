use winapps::backend::{check_container_state, Docker};
use winapps::command::{join_text, Command};
use winapps::config::{App, AppKind, Backends, Config};
use winapps::dirs::{dir_under, join_path};
use winapps::errors::Error;
use winapps::remote_client::{app_command, app_path, client_command, command_for_home, launch_command, map_arg, session_command};
use winapps::text::{decimal, split_text};

fn strings(v: &[&str]) -> Vec<String> {
    v.iter().map(|s| s.to_string()).collect()
}

fn app(id: &str, name: &str, exec: &str) -> App {
    App { id: id.to_string(), name: name.to_string(), win_exec: exec.to_string(), kind: AppKind::Existing }
}


#[test]
fn split_keeps_empty_pieces() {
    assert_eq!(split_text("a  b", ' '), strings(&["a", "", "b"]));
    assert_eq!(split_text("", ';'), strings(&[""]));
    assert_eq!(split_text("x;", ';'), strings(&["x", ""]));
}

#[test]
fn join_puts_separator_between() {
    assert_eq!(join_text(&strings(&["a", "b", "c"]), " "), "a b c");
    assert_eq!(join_text(&Vec::new(), " "), "");
}

#[test]
fn new_command_defaults() {
    let c = Command::new("ls");
    assert_eq!(c.executable, "ls");
    assert!(c.args.is_empty());
    assert_eq!(c.error_message(), "Error running child command");
    assert!(!c.is_loud());
}

#[test]
fn builder_methods() {
    let c = Command::new("ls").arg("-l".to_string()).args(strings(&["a", "b"])).with_err("oops").loud(true);
    assert_eq!(c.args, strings(&["-l", "a", "b"]));
    assert_eq!(c.error_message(), "oops");
    assert!(c.is_loud());
    assert_eq!(c.to_string(), "ls -l a b");
    let c = c.clear_args();
    assert!(c.args.is_empty());
    assert_eq!(c.to_string(), "ls ");
}

#[test]
fn parse_splits_on_spaces() {
    let c = Command::parse("docker ps --all").ok().unwrap();
    assert_eq!(c.executable, "docker");
    assert_eq!(c.args, strings(&["ps", "--all"]));
    let single: Command = "whoami".parse().ok().unwrap();
    assert_eq!(single.executable, "whoami");
    assert!(single.args.is_empty());
}

#[test]
fn parse_refuses_empty_line() {
    assert!(matches!(Command::parse(""), Err(Error::EmptyCommand)));
}

#[test]
fn default_config() {
    let c = Config::new();
    assert_eq!(c.auth.username, "MyWindowsUser");
    assert_eq!(c.auth.password, "MyWindowsPassword");
    assert_eq!(c.auth.ssh_port, 2222);
    assert_eq!(c.auth.domain, "");
    assert!(c.container.enable && !c.container.enable_podman);
    assert_eq!(c.container.container_name, "WinApps");
    assert!(!c.libvirt.enable);
    assert_eq!(c.libvirt.vm_name, "RDPWindows");
    assert!(!c.manual.enable);
    assert_eq!(c.manual.host, "127.0.0.1");
    assert_eq!(
        c.freerdp.extra_args,
        strings(&["/cert:tofu", "/sound", "/microphone", "+auto-reconnect", "+home-drive"])
    );
    assert_eq!(c.freerdp.executable, "xfreerdp");
    assert!(c.linked_apps.is_empty());
    assert!(!c.debug);
}

#[test]
fn backend_choice_and_host() {
    let mut c = Config::new();
    assert_eq!(c.get_backend(), Backends::Container);
    assert_eq!(c.get_host(), "127.0.0.1");
    c.container.enable = false;
    c.manual.enable = true;
    c.manual.host = "10.0.0.5".to_string();
    assert_eq!(c.get_backend(), Backends::Manual);
    assert_eq!(c.get_host(), "10.0.0.5");
}

#[test]
fn remote_command_goes_through_ssh() {
    let c = Config::new();
    let r = Command::new("C:\\run.ps1").arg("x y".to_string()).into_remote(&c);
    assert_eq!(r.executable, "sshpass");
    assert_eq!(
        r.args,
        strings(&[
            "-p",
            "MyWindowsPassword",
            "ssh",
            "MyWindowsUser@127.0.0.1",
            "-oStrictHostKeyChecking=accept-new",
            "-p",
            "2222",
            "C:\\run.ps1 x y",
        ])
    );
}

#[test]
fn find_linked_app_takes_first_match() {
    let mut c = Config::new();
    c.linked_apps = vec![app("a", "A", "a.exe"), app("b", "B1", "b1.exe"), app("b", "B2", "b2.exe")];
    assert_eq!(c.find_linked_app("b".to_string()).unwrap().name, "B1");
    assert!(c.find_linked_app("c".to_string()).is_none());
    assert!(app("b", "x", "y") == app("b", "z", "w"));
}

#[test]
fn listing_is_parsed_line_by_line() {
    let listing = "word;Word; C:\\word.exe ;aWNvbg==\r\nbroken;line\n\nxl;Excel;C:\\xl.exe;Zm9v;extra\n";
    let apps = Config::get_available_apps(listing);
    let views: Vec<(String, String, String, String)> = apps
        .iter()
        .map(|a| match &a.kind {
            AppKind::FromBase64(b) => (a.id.clone(), a.name.clone(), a.win_exec.clone(), b.clone()),
            AppKind::Existing => panic!("listed apps carry their icon"),
        })
        .collect();
    assert_eq!(
        views,
        vec![
            ("word".to_string(), "Word".to_string(), "C:\\word.exe".to_string(), "aWNvbg==".to_string()),
            ("xl".to_string(), "Excel".to_string(), "C:\\xl.exe".to_string(), "Zm9v".to_string()),
        ]
    );
    assert!(Config::get_available_apps("").is_empty());
}

#[test]
fn listing_command_runs_remotely() {
    let c = Config::new();
    let cmd = c.available_apps_command();
    assert_eq!(cmd.executable, "sshpass");
    assert_eq!(cmd.args.last().unwrap(), "C:\\ExtractPrograms.ps1 ");
}

#[test]
fn icon_is_decoded_for_valid_ids() {
    let mut a = app("my-app_1", "My", "my.exe");
    a.kind = AppKind::FromBase64("aWNvbg==".to_string());
    assert_eq!(a.pending_icon().ok().unwrap(), Some(b"icon".to_vec()));
    a.mark_existing();
    assert_eq!(a.pending_icon().ok().unwrap(), None);
}

#[test]
fn icon_errors() {
    let bad_id = app("no/slash", "x", "y");
    match bad_id.pending_icon() {
        Err(Error::Message(m)) => assert_eq!(m, "Invalid app ID: no/slash"),
        _ => panic!("an id with a slash is refused"),
    }
    let mut bad_icon = app("ok", "x", "y");
    bad_icon.kind = AppKind::FromBase64("***".to_string());
    assert!(matches!(bad_icon.pending_icon(), Err(Error::Message(_))));
}

#[test]
fn desktop_entry_text() {
    let a = app("word", "Word", "w.exe");
    assert_eq!(
        a.desktop_file("/icons/word.png"),
        "[Desktop Entry]\nName=Word\nExec=winapps run word\nTerminal=false\nType=Application\nIcon=/icons/word.png\nStartupWMClass=word\nComment=Word (WinApps)"
    );
}

#[test]
fn docker_status_and_state() {
    let c = Config::new();
    let d = Docker::new(&c);
    let cmd = d.status_command().ok().unwrap();
    assert_eq!(cmd.executable, "docker");
    assert_eq!(cmd.args, strings(&["ps", "--all", "--filter", "name=WinApps", "--format", "{{.Status}}"]));
    assert_eq!(cmd.error_message(), "Could not get container status");
    assert!(Docker::check_state("OK since 2 hours").is_ok());
    assert!(matches!(Docker::check_state("Exited (0)"), Err(Error::VmNotRunning)));
    let mut empty = Config::new();
    empty.container.container_name = String::new();
    assert!(matches!(Docker::new(&empty).status_command(), Err(Error::Config(_))));
}

#[test]
fn container_backend_checks() {
    let mut c = Config::new();
    c.container.enable_podman = true;
    let cmd = Backends::Container.depends_command(&c, false).ok().unwrap().unwrap();
    assert_eq!(cmd.executable, "podman");
    assert_eq!(cmd.args, strings(&["ps", "--all", "--filter", "name=WinApps", "--format", "{{.State}}"]));
    assert!(Backends::Container.check_output(" running\n").is_ok());
    assert!(matches!(Backends::Container.check_output("exited"), Err(Error::VmNotRunning)));
}

#[test]
fn manual_backend_checks() {
    let mut c = Config::new();
    c.container.enable = false;
    assert!(matches!(Backends::Manual.depends_command(&c, true), Err(Error::Config(_))));
    c.manual.enable = true;
    assert!(matches!(Backends::Manual.depends_command(&c, false), Err(Error::Config(_))));
    assert!(matches!(Backends::Manual.depends_command(&c, true), Ok(None)));
    c.manual.host = String::new();
    assert!(matches!(Backends::Manual.depends_command(&c, true), Err(Error::Config(_))));
}

#[test]
fn directory_paths() {
    assert_eq!(join_path("/home/u/.local/share", "winapps"), "/home/u/.local/share/winapps");
    assert_eq!(join_path("/data/", "icons"), "/data/icons");
    assert_eq!(dir_under(Some("/d".to_string()), "applications", "none").ok().unwrap(), "/d/applications");
    match dir_under(None, "x", "Could not determine $XDG_DATA_HOME") {
        Err(Error::Message(m)) => assert_eq!(m, "Could not determine $XDG_DATA_HOME"),
        _ => panic!("a missing base directory is an error"),
    }
}

#[test]
fn client_command_line() {
    let mut c = Config::new();
    c.auth.domain = "DOM".to_string();
    c.debug = true;
    let cmd = client_command(&c);
    assert_eq!(cmd.executable, "xfreerdp");
    assert_eq!(
        cmd.args,
        strings(&[
            "/d:DOM",
            "/u:MyWindowsUser",
            "/p:MyWindowsPassword",
            "/v:127.0.0.1",
            "/cert:tofu",
            "/sound",
            "/microphone",
            "+auto-reconnect",
            "+home-drive",
        ])
    );
    assert!(cmd.is_loud());
    assert_eq!(cmd.error_message(), "Freerdp execution failed, check logs above!");
    assert_eq!(session_command(&c).args.last().unwrap(), "+dynamic-resolution");
}

#[test]
fn app_path_prefers_linked_app() {
    let mut c = Config::new();
    c.linked_apps = vec![app("word", "Word", "C:\\word.exe")];
    assert_eq!(app_path(&c, "word".to_string()), "C:\\word.exe");
    assert_eq!(app_path(&c, "notepad.exe".to_string()), "notepad.exe");
}

#[test]
fn config_check_wants_one_backend() {
    let c = Config::new();
    assert!(c.check(false).is_ok());
    let mut two = Config::new();
    two.manual.enable = true;
    assert!(matches!(two.check(true), Err(Error::Config(_))));
    let mut none = Config::new();
    none.container.enable = false;
    assert!(matches!(none.check(true), Err(Error::Config(_))));
    let mut manual = Config::new();
    manual.container.enable = false;
    manual.manual.enable = true;
    assert!(manual.check(true).is_ok());
    assert!(matches!(manual.check(false), Err(Error::Config(_))));
}

#[test]
fn finished_command_output() {
    let c = Command::new("ls").with_err("listing failed");
    assert_eq!(c.wait_with_output(true, "out", "err").ok().unwrap(), "out\nerr");
    match c.wait_with_output(false, "o", "e") {
        Err(Error::Command { message, output }) => {
            assert_eq!(message, "listing failed");
            assert_eq!(output, "o\ne");
        }
        _ => panic!("a failed exit is an error"),
    }
}

#[test]
fn home_paths_move_onto_the_share() {
    assert_eq!(map_arg("/home/u/docs/a.txt", "/home/u"), r"\\tsclient\\media\docs\a.txt");
    assert_eq!(map_arg("/etc/hosts", "/home/u"), "/etc/hosts");
    assert_eq!(map_arg("report.txt", ""), "report.txt");
    assert_eq!(map_arg("-flag", "/home/u"), "-flag");
}

#[test]
fn launch_command_line() {
    let c = Config::new();
    let cmd = launch_command(&c, "C:\\word.exe", &strings(&["/home/u/a.doc", "-x"]), "/home/u");
    let n = cmd.args.len();
    assert_eq!(cmd.executable, "xfreerdp");
    assert_eq!(cmd.args[n - 3], "/app:program:C:\\word.exe,hidef:on");
    assert_eq!(cmd.args[n - 2], r"\\tsclient\\media\a.doc");
    assert_eq!(cmd.args[n - 1], "-x");
}

#[test]
fn app_command_resolves_linked_app() {
    let mut c = Config::new();
    c.linked_apps = vec![app("word", "Word", "C:\\word.exe")];
    if let Ok(cmd) = app_command(&c, "word".to_string(), Vec::new()) {
        assert_eq!(cmd.args.last().unwrap(), "/app:program:C:\\word.exe,hidef:on");
    }
}

#[test]
fn state_verdicts_after_normalising() {
    assert!(Docker::check_lowered_state("ok since").is_ok());
    assert!(matches!(Docker::check_lowered_state("OK since"), Err(Error::VmNotRunning)));
    assert!(check_container_state("running").is_ok());
    assert!(matches!(check_container_state(" running"), Err(Error::VmNotRunning)));
}

#[test]
fn home_directory_errors() {
    let c = Config::new();
    match command_for_home(&c, "word".to_string(), Vec::new(), None) {
        Err(Error::Message(m)) => assert_eq!(m, "Couldn't find $HOME"),
        _ => panic!("an unknown home directory is an error"),
    }
    match command_for_home(&c, "word".to_string(), Vec::new(), Some("x".repeat(5000))) {
        Err(Error::Message(m)) => assert_eq!(m, "$HOME is too long"),
        _ => panic!("an overlong home directory is an error"),
    }
    let cmd = command_for_home(&c, "w".to_string(), strings(&["/h/a"]), Some("/h".to_string())).ok().unwrap();
    assert_eq!(cmd.args.last().unwrap(), r"\\tsclient\\media\a");
}

#[test]
fn manual_backend_messages() {
    let mut c = Config::new();
    c.container.enable = false;
    assert!(matches!(Backends::Manual.depends_command(&c, true), Err(Error::Config("Manual backend is not enabled"))));
    c.manual.enable = true;
    assert!(matches!(
        Backends::Manual.depends_command(&c, false),
        Err(Error::Config("manual.host is not a valid IP address"))
    ));
    c.manual.host = String::new();
    assert!(matches!(Backends::Manual.depends_command(&c, false), Err(Error::Config("Host shouldn't be empty"))));
}

#[test]
fn decimal_digits() {
    assert_eq!(decimal(0), "0");
    assert_eq!(decimal(2222), "2222");
    assert_eq!(decimal(u64::MAX), "18446744073709551615");
}
