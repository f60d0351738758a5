//! What each backend checks before the remote machine is used: the command
//! that asks for its state, and the verdict on that command's output.
use vstd::prelude::*;
use crate::apps::{trim_text, trimmed};
use crate::command::{Command, CommandView};
use crate::config::{Backends, Config};
use crate::errors::{Error, Result};
use crate::text::{split_on, split_text};

verus! {

/// `s` in lowercase, as Unicode defines it.
pub uninterp spec fn lowercased(s: Seq<char>) -> Seq<char>;

/// Relies on std's `str::to_lowercase`.
#[verifier::external_body]
fn lowercase_text(s: &str) -> (r: String)
    ensures
        r@ == lowercased(s@),
{
    s.to_lowercase()
}

/// State that a running container reports.
pub open spec fn running_state() -> Seq<char> {
    "running"@
}

/// The container backend driven through the docker command line.
pub struct Docker {
    pub container_name: String,
    pub enable: bool,
    pub enable_podman: bool,
}

impl Docker {
    /// A docker backend for the container of `config`.
    pub fn new(config: &Config) -> (r: Docker)
        ensures
            r.container_name@ == config.container.container_name@,
            r.enable == config.container.enable,
            r.enable_podman == config.container.enable_podman,
    {
        Docker {
            container_name: config.container.container_name.clone(),
            enable: config.container.enable,
            enable_podman: config.container.enable_podman,
        }
    }

    /// The command that asks docker for the container's status; refused
    /// when no container is named.
    pub fn status_command(&self) -> (r: Result<Command>)
        requires
            self.enable,
            !self.enable_podman,
        ensures
            match r {
                Ok(c) => self.container_name@.len() > 0 && c@ == (CommandView {
                    executable: "docker"@,
                    args: seq![
                        "ps"@,
                        "--all"@,
                        "--filter"@,
                        "name="@ + self.container_name@,
                        "--format"@,
                        "{{.Status}}"@,
                    ],
                    error_message: "Could not get container status"@,
                    loud: false,
                }),
                Err(e) => self.container_name@.len() == 0 && e is Config && e->Config_0@
                    == "Container name shouldn't be empty"@,
            },
    {
        if self.container_name.as_str().unicode_len() == 0 {
            return Err(Error::Config("Container name shouldn't be empty"));
        }
        let mut filter = String::from_str("name=");
        filter.append(self.container_name.as_str());
        let c = Command::new("docker").with_err("Could not get container status").args(
            vec![
                String::from_str("ps"),
                String::from_str("--all"),
                String::from_str("--filter"),
                filter,
                String::from_str("--format"),
                String::from_str("{{.Status}}"),
            ],
        );
        assert(c@.args =~= seq![
            "ps"@,
            "--all"@,
            "--filter"@,
            "name="@ + self.container_name@,
            "--format"@,
            "{{.Status}}"@,
        ]);
        Ok(c)
    }

    /// The verdict on docker's answer: the container is up when the first
    /// word of the lowercased answer is `ok`.
    pub fn check_state(output: &str) -> (r: Result<()>)
        ensures
            match r {
                Ok(()) => split_on(lowercased(output@), ' ')[0] == "ok"@,
                Err(e) => split_on(lowercased(output@), ' ')[0] != "ok"@ && e is VmNotRunning,
            },
    {
        let lower = lowercase_text(output);
        Docker::check_lowered_state(lower.as_str())
    }

    /// The verdict on docker's answer once lowercased: the container is up
    /// when its first word is `ok`.
    pub fn check_lowered_state(lowered: &str) -> (r: Result<()>)
        ensures
            match r {
                Ok(()) => split_on(lowered@, ' ')[0] == "ok"@,
                Err(e) => split_on(lowered@, ' ')[0] != "ok"@ && e is VmNotRunning,
            },
    {
        let words = split_text(lowered, ' ');
        proof {
            crate::text::lemma_split_nonempty(lowered@, ' ');
        }
        assert(words@[0]@ == split_on(lowered@, ' ')[0]);
        if words[0] == String::from_str("ok") {
            Ok(())
        } else {
            Err(Error::VmNotRunning)
        }
    }
}

/// The program that manages containers.
pub open spec fn container_program(c: &Config) -> Seq<char> {
    if c.container.enable_podman {
        "podman"@
    } else {
        "docker"@
    }
}

impl Backends {
    /// The command whose output tells whether the backend is ready, if it
    /// needs one; refused when the configuration cannot work.
    /// `host_is_address` tells whether the manual host parses as an IP
    /// address.
    pub fn depends_command(&self, config: &Config, host_is_address: bool) -> (r: Result<Option<Command>>)
        ensures
            match self {
                Backends::Container => match r {
                    Ok(Some(c)) => config.container.container_name@.len() > 0 && c@ == (CommandView {
                        executable: container_program(config),
                        args: seq![
                            "ps"@,
                            "--all"@,
                            "--filter"@,
                            "name="@ + config.container.container_name@,
                            "--format"@,
                            "{{.State}}"@,
                        ],
                        error_message: "Could not get container status"@,
                        loud: false,
                    }),
                    Ok(None) => false,
                    Err(e) => config.container.container_name@.len() == 0 && e is Config
                        && e->Config_0@ == "Container name shouldn't be empty"@,
                },
                Backends::Manual => match r {
                    Ok(Some(_)) => false,
                    Ok(None) => config.manual.enable && config.manual.host@.len() > 0 && host_is_address,
                    Err(e) => e is Config && e->Config_0@ == (if !config.manual.enable {
                        "Manual backend is not enabled"@
                    } else if config.manual.host@.len() == 0 {
                        "Host shouldn't be empty"@
                    } else {
                        "manual.host is not a valid IP address"@
                    }) && !(config.manual.enable && config.manual.host@.len() > 0 && host_is_address),
                },
            },
    {
        match self {
            Backends::Container => {
                if config.container.container_name.as_str().unicode_len() == 0 {
                    return Err(Error::Config("Container name shouldn't be empty"));
                }
                let program = if config.container.enable_podman {
                    "podman"
                } else {
                    "docker"
                };
                let mut filter = String::from_str("name=");
                filter.append(config.container.container_name.as_str());
                let c = Command::new(program).with_err("Could not get container status").args(
                    vec![
                        String::from_str("ps"),
                        String::from_str("--all"),
                        String::from_str("--filter"),
                        filter,
                        String::from_str("--format"),
                        String::from_str("{{.State}}"),
                    ],
                );
                assert(c@.args =~= seq![
                    "ps"@,
                    "--all"@,
                    "--filter"@,
                    "name="@ + config.container.container_name@,
                    "--format"@,
                    "{{.State}}"@,
                ]);
                Ok(Some(c))
            },
            Backends::Manual => {
                if !config.manual.enable {
                    return Err(Error::Config("Manual backend is not enabled"));
                }
                if config.manual.host.as_str().unicode_len() == 0 {
                    return Err(Error::Config("Host shouldn't be empty"));
                }
                if !host_is_address {
                    return Err(Error::Config("manual.host is not a valid IP address"));
                }
                Ok(None)
            },
        }
    }

    /// The verdict on the output of the backend's readiness command: a
    /// container must report that it is running.
    pub fn check_output(&self, output: &str) -> (r: Result<()>)
        ensures
            match self {
                Backends::Container => match r {
                    Ok(()) => trimmed(output@) == running_state(),
                    Err(e) => trimmed(output@) != running_state() && e is VmNotRunning,
                },
                Backends::Manual => r is Ok,
            },
    {
        match self {
            Backends::Container => {
                let state = trim_text(output);
                check_container_state(state.as_str())
            },
            Backends::Manual => Ok(()),
        }
    }
}

/// The verdict on the state a container reports, once trimmed: it must be
/// running.
pub fn check_container_state(state: &str) -> (r: Result<()>)
    ensures
        match r {
            Ok(()) => state@ == running_state(),
            Err(e) => state@ != running_state() && e is VmNotRunning,
        },
{
    if String::from_str(state) == String::from_str("running") {
        Ok(())
    } else {
        Err(Error::VmNotRunning)
    }
}

} // verus!
