//! The toolkit's configuration: credentials, backend choice and the
//! applications linked on the desktop.
use vstd::prelude::*;
use crate::errors::{Error, Result};

verus! {

/// The whole configuration.
pub struct Config {
    pub auth: AuthConfig,
    pub container: ContainerConfig,
    pub libvirt: LibvirtConfig,
    pub manual: ManualConfig,
    pub freerdp: FreerdpConfig,
    pub linked_apps: Vec<App>,
    pub debug: bool,
}

/// Credentials on the remote machine.
pub struct AuthConfig {
    pub username: String,
    pub password: String,
    pub ssh_port: u32,
    pub domain: String,
}

/// The container backend.
pub struct ContainerConfig {
    pub enable: bool,
    pub enable_podman: bool,
    pub container_name: String,
}

/// The libvirt backend.
pub struct LibvirtConfig {
    pub enable: bool,
    pub vm_name: String,
}

/// A manually managed remote machine.
pub struct ManualConfig {
    pub enable: bool,
    pub host: String,
}

/// How the remote desktop client is run.
pub struct FreerdpConfig {
    pub extra_args: Vec<String>,
    pub executable: String,
}

/// Where an application's icon stands.
pub enum AppKind {
    /// The icon is still held as base64 text.
    FromBase64(String),
    /// The icon has been written out.
    Existing,
}

/// A remote application that can be linked on the desktop.
pub struct App {
    pub id: String,
    pub name: String,
    pub win_exec: String,
    pub kind: AppKind,
}

/// Two applications are the same when their ids are.
impl PartialEq for App {
    fn eq(&self, other: &App) -> (r: bool) {
        self.id == other.id
    }
}

impl vstd::std_specs::cmp::PartialEqSpecImpl for App {
    open spec fn obeys_eq_spec() -> bool {
        true
    }

    open spec fn eq_spec(&self, other: &App) -> bool {
        self.id@ == other.id@
    }
}

impl AuthConfig {
    pub fn new() -> (r: AuthConfig)
        ensures
            r.username@ == "MyWindowsUser"@,
            r.password@ == "MyWindowsPassword"@,
            r.ssh_port == 2222,
            r.domain@ == ""@,
    {
        AuthConfig {
            username: String::from_str("MyWindowsUser"),
            password: String::from_str("MyWindowsPassword"),
            ssh_port: 2222,
            domain: String::from_str(""),
        }
    }
}

impl ContainerConfig {
    pub fn new() -> (r: ContainerConfig)
        ensures
            r.enable,
            !r.enable_podman,
            r.container_name@ == "WinApps"@,
    {
        ContainerConfig { enable: true, enable_podman: false, container_name: String::from_str("WinApps") }
    }
}

impl LibvirtConfig {
    pub fn new() -> (r: LibvirtConfig)
        ensures
            !r.enable,
            r.vm_name@ == "RDPWindows"@,
    {
        LibvirtConfig { enable: false, vm_name: String::from_str("RDPWindows") }
    }
}

impl ManualConfig {
    pub fn new() -> (r: ManualConfig)
        ensures
            !r.enable,
            r.host@ == "127.0.0.1"@,
    {
        ManualConfig { enable: false, host: String::from_str("127.0.0.1") }
    }
}

/// Arguments handed to the remote desktop client by default.
pub open spec fn default_extra_args() -> Seq<Seq<char>> {
    seq!["/cert:tofu"@, "/sound"@, "/microphone"@, "+auto-reconnect"@, "+home-drive"@]
}

impl FreerdpConfig {
    pub fn new() -> (r: FreerdpConfig)
        ensures
            r.extra_args@.map_values(|a: String| a@) == default_extra_args(),
            r.executable@ == "xfreerdp"@,
    {
        let mut extra_args: Vec<String> = Vec::new();
        extra_args.push(String::from_str("/cert:tofu"));
        extra_args.push(String::from_str("/sound"));
        extra_args.push(String::from_str("/microphone"));
        extra_args.push(String::from_str("+auto-reconnect"));
        extra_args.push(String::from_str("+home-drive"));
        assert(extra_args@.map_values(|a: String| a@) =~= default_extra_args());
        FreerdpConfig { extra_args, executable: String::from_str("xfreerdp") }
    }
}

/// The backend that a configuration selects.
#[derive(PartialEq, Eq, Structural, Clone, Copy, Debug)]
pub enum Backends {
    Container,
    Manual,
}

/// A configuration names a backend this crate can drive: libvirt is not
/// supported, and the container or the manual backend is enabled.
pub open spec fn backend_selected(c: &Config) -> bool {
    !c.libvirt.enable && (c.container.enable || c.manual.enable)
}

/// Exactly one of the three backends is enabled.
pub open spec fn one_backend(c: &Config) -> bool {
    (if c.libvirt.enable { 1int } else { 0 }) + (if c.container.enable { 1int } else { 0 }) + (if c.manual.enable {
        1int
    } else {
        0
    }) == 1
}

/// The backend chosen: the container one takes precedence over the manual one.
pub open spec fn chosen_backend(c: &Config) -> Backends {
    if c.container.enable {
        Backends::Container
    } else {
        Backends::Manual
    }
}

/// The address of the remote machine under the chosen backend.
pub open spec fn backend_host(c: &Config) -> Seq<char> {
    if c.container.enable {
        "127.0.0.1"@
    } else {
        c.manual.host@
    }
}

impl Backends {
    /// Address of the remote machine: the local host for a container, the
    /// configured host otherwise.
    pub fn get_host(&self, config: &Config) -> (r: String)
        ensures
            r@ == (match self {
                Backends::Container => "127.0.0.1"@,
                Backends::Manual => config.manual.host@,
            }),
    {
        match self {
            Backends::Container => String::from_str("127.0.0.1"),
            Backends::Manual => config.manual.host.clone(),
        }
    }
}

impl Config {
    /// The default configuration.
    pub fn new() -> (r: Config)
        ensures
            r.auth.username@ == "MyWindowsUser"@,
            r.auth.password@ == "MyWindowsPassword"@,
            r.auth.ssh_port == 2222,
            r.container.enable,
            !r.container.enable_podman,
            r.container.container_name@ == "WinApps"@,
            !r.libvirt.enable,
            !r.manual.enable,
            r.manual.host@ == "127.0.0.1"@,
            r.freerdp.extra_args@.map_values(|a: String| a@) == default_extra_args(),
            r.freerdp.executable@ == "xfreerdp"@,
            r.linked_apps@.len() == 0,
            !r.debug,
    {
        Config {
            auth: AuthConfig::new(),
            container: ContainerConfig::new(),
            libvirt: LibvirtConfig::new(),
            manual: ManualConfig::new(),
            freerdp: FreerdpConfig::new(),
            linked_apps: Vec::new(),
            debug: false,
        }
    }

    /// Checks a configuration read from disk: exactly one backend is
    /// enabled, and a manual host is an IP address (`host_is_address`).
    pub fn check(&self, host_is_address: bool) -> (r: Result<()>)
        ensures
            match r {
                Ok(()) => one_backend(self) && (self.manual.enable ==> host_is_address),
                Err(e) => !(one_backend(self) && (self.manual.enable ==> host_is_address)) && e is Config
                    && e->Config_0@ == (if !one_backend(self) {
                    "More than one backend enabled, please set only one of libvirt.enable, container.enable, and manual.enable"@
                } else {
                    "Please set manual.host to a valid IP address"@
                }),
            },
    {
        let mut enabled: u8 = 0;
        if self.libvirt.enable {
            enabled = enabled + 1;
        }
        if self.container.enable {
            enabled = enabled + 1;
        }
        if self.manual.enable {
            enabled = enabled + 1;
        }
        if enabled != 1 {
            return Err(
                Error::Config(
                    "More than one backend enabled, please set only one of libvirt.enable, container.enable, and manual.enable",
                ),
            );
        }
        if self.manual.enable && !host_is_address {
            return Err(Error::Config("Please set manual.host to a valid IP address"));
        }
        Ok(())
    }

    /// The backend this configuration selects.
    pub fn get_backend(&self) -> (r: Backends)
        requires
            backend_selected(self),
        ensures
            r == chosen_backend(self),
    {
        if self.container.enable {
            Backends::Container
        } else {
            Backends::Manual
        }
    }

    /// Address of the remote machine.
    pub fn get_host(&self) -> (r: String)
        requires
            backend_selected(self),
        ensures
            r@ == backend_host(self),
    {
        self.get_backend().get_host(self)
    }

    /// The first linked application with the given id.
    pub fn find_linked_app(&self, id: String) -> (r: Option<&App>)
        ensures
            match r {
                Some(app) => exists|i: int|
                    0 <= i < self.linked_apps@.len() && self.linked_apps@[i] == *app && app.id@ == id@
                        && forall|j: int| 0 <= j < i ==> #[trigger] self.linked_apps@[j].id@ != id@,
                None => forall|j: int|
                    0 <= j < self.linked_apps@.len() ==> #[trigger] self.linked_apps@[j].id@ != id@,
            },
    {
        let mut i: usize = 0;
        while i < self.linked_apps.len()
            invariant
                i <= self.linked_apps@.len(),
                forall|j: int| 0 <= j < i ==> #[trigger] self.linked_apps@[j].id@ != id@,
            decreases self.linked_apps@.len() - i,
        {
            if self.linked_apps[i].id == id {
                return Some(&self.linked_apps[i]);
            }
            i = i + 1;
        }
        None
    }
}

} // verus!
