//! Where the toolkit keeps its configuration, data, icons and desktop
//! entries.
use vstd::prelude::*;
use crate::errors::{Error, Result};

verus! {

/// Relies on dirs' `data_dir`: the user's data directory as the platform
/// defines it, if it can be determined; a path that is not UTF-8 gives none.
#[verifier::external_body]
fn platform_data_dir() -> (r: Option<String>) {
    match dirs::data_dir() {
        Some(p) => p.into_os_string().into_string().ok(),
        None => None,
    }
}

/// Relies on dirs' `config_dir`: the user's configuration directory as the
/// platform defines it, if it can be determined; a path that is not UTF-8
/// gives none.
#[verifier::external_body]
fn platform_config_dir() -> (r: Option<String>) {
    match dirs::config_dir() {
        Some(p) => p.into_os_string().into_string().ok(),
        None => None,
    }
}

/// Relies on dirs' `home_dir`: the user's home directory, if it can be
/// determined; a path that is not UTF-8 gives none.
#[verifier::external_body]
pub(crate) fn platform_home_dir() -> (r: Option<String>) {
    match dirs::home_dir() {
        Some(p) => p.into_os_string().into_string().ok(),
        None => None,
    }
}

/// `name` placed under the directory `base`.
pub open spec fn joined_path(base: Seq<char>, name: Seq<char>) -> Seq<char> {
    if base.len() == 0 || base.last() == '/' {
        base + name
    } else {
        base + "/"@ + name
    }
}

/// Places `name` under `base`.
pub fn join_path(base: &str, name: &str) -> (r: String)
    ensures
        r@ == joined_path(base@, name@),
{
    let n = base.unicode_len();
    let mut r = String::from_str(base);
    if n > 0 && base.get_char(n - 1) != '/' {
        r.append("/");
    }
    r.append(name);
    r
}

/// The directory `name` under `base`, or the message `missing` when the base
/// directory could not be determined.
pub fn dir_under(base: Option<String>, name: &str, missing: &str) -> (r: Result<String>)
    ensures
        match base {
            Some(b) => r is Ok && r->Ok_0@ == joined_path(b@, name@),
            None => r is Err && r->Err_0 is Message && r->Err_0->Message_0@ == missing@,
        },
{
    match base {
        Some(b) => Ok(join_path(b.as_str(), name)),
        None => Err(Error::Message(String::from_str(missing))),
    }
}

/// The toolkit's data directory (which the caller creates if need be).
pub fn data_dir() -> (r: Result<String>)
    ensures
        match r {
            Ok(p) => exists|b: Seq<char>| p@ == #[trigger] joined_path(b, "winapps"@),
            Err(e) => e is Message && e->Message_0@ == "Could not determine $XDG_DATA_HOME"@,
        },
{
    dir_under(platform_data_dir(), "winapps", "Could not determine $XDG_DATA_HOME")
}

/// The toolkit's configuration directory (which the caller creates if need be).
pub fn config_dir() -> (r: Result<String>)
    ensures
        match r {
            Ok(p) => exists|b: Seq<char>| p@ == #[trigger] joined_path(b, "winapps"@),
            Err(e) => e is Message && e->Message_0@ == "Could not determine $XDG_CONFIG_HOME"@,
        },
{
    dir_under(platform_config_dir(), "winapps", "Could not determine $XDG_CONFIG_HOME")
}

/// The user's icon directory (which the caller creates if need be).
pub fn icons_dir() -> (r: Result<String>)
    ensures
        match r {
            Ok(p) => exists|b: Seq<char>| p@ == #[trigger] joined_path(b, "icons"@),
            Err(e) => e is Message && e->Message_0@ == "Could not determine $XDG_DATA_HOME"@,
        },
{
    dir_under(platform_data_dir(), "icons", "Could not determine $XDG_DATA_HOME")
}

/// The user's desktop entry directory (which the caller creates if need be).
pub fn desktop_dir() -> (r: Result<String>)
    ensures
        match r {
            Ok(p) => exists|b: Seq<char>| p@ == #[trigger] joined_path(b, "applications"@),
            Err(e) => e is Message && e->Message_0@ == "Could not determine $XDG_DATA_HOME"@,
        },
{
    dir_under(platform_data_dir(), "applications", "Could not determine $XDG_DATA_HOME")
}

} // verus!
