//! Applications offered by the remote machine: reading the listing that the
//! remote script prints, checking them, and describing them to the desktop.
use vstd::prelude::*;
use crate::command::{default_error_message, remote_command, Command, CommandView};
use crate::config::{backend_selected, App, AppKind, Config};
use crate::errors::{Error, Result};
use crate::text::{split_on, split_text};

verus! {

#[verifier::external_type_specification]
#[verifier::external_body]
pub struct ExDecodeError(base64::DecodeError);

/// What standard base64 (with padding) decodes `text` to; `None` when
/// `text` is not valid base64.
pub uninterp spec fn base64_decoded(text: Seq<char>) -> Option<Seq<u8>>;

/// Whether `c` is alphabetic or numeric in Unicode's sense.
pub uninterp spec fn alphanumeric(c: char) -> bool;

/// `s` without leading and trailing Unicode white space.
pub uninterp spec fn trimmed(s: Seq<char>) -> Seq<char>;

/// Relies on base64's `Engine::decode` with the `STANDARD` engine: the bytes
/// that the text encodes, or an error when it is not valid base64.
#[verifier::external_body]
fn decode_base64(text: &str) -> (r: core::result::Result<Vec<u8>, base64::DecodeError>)
    ensures
        match r {
            Ok(bytes) => base64_decoded(text@) == Some(bytes@),
            Err(_) => base64_decoded(text@) is None,
        },
{
    base64::Engine::decode(&base64::engine::general_purpose::STANDARD, text)
}

/// Relies on std's `char::is_alphanumeric`.
#[verifier::external_body]
fn is_alphanumeric(c: char) -> (r: bool)
    ensures
        r == alphanumeric(c),
{
    c.is_alphanumeric()
}

/// Relies on std's `str::trim`.
#[verifier::external_body]
pub(crate) fn trim_text(s: &str) -> (r: String)
    ensures
        r@ == trimmed(s@),
{
    s.trim().to_string()
}

/// Mathematical model of an [`App`]; `icon` holds the base64 text of an
/// icon not yet written out.
pub struct AppView {
    pub id: Seq<char>,
    pub name: Seq<char>,
    pub win_exec: Seq<char>,
    pub icon: Option<Seq<char>>,
}

impl View for App {
    type V = AppView;

    open spec fn view(&self) -> AppView {
        AppView {
            id: self.id@,
            name: self.name@,
            win_exec: self.win_exec@,
            icon: match self.kind {
                AppKind::FromBase64(b) => Some(b@),
                AppKind::Existing => None,
            },
        }
    }
}

/// `line` without one trailing carriage return.
pub open spec fn strip_cr(line: Seq<char>) -> Seq<char> {
    if line.len() > 0 && line.last() == '\r' {
        line.drop_last()
    } else {
        line
    }
}

/// Lines of a text: pieces between line feeds, without a final empty piece,
/// each without a trailing carriage return.
pub open spec fn text_lines(s: Seq<char>) -> Seq<Seq<char>> {
    let parts = split_on(s, '\n');
    let parts = if parts.len() > 0 && parts.last().len() == 0 {
        parts.drop_last()
    } else {
        parts
    };
    parts.map_values(|l: Seq<char>| strip_cr(l))
}

/// The application a listing line describes: `id;name;path;icon`, each
/// field trimmed; further fields are ignored and shorter lines describe none.
pub open spec fn app_of_line(line: Seq<char>) -> Option<AppView> {
    let f = split_on(line, ';');
    if f.len() >= 4 {
        Some(
            AppView {
                id: trimmed(f[0]),
                name: trimmed(f[1]),
                win_exec: trimmed(f[2]),
                icon: Some(trimmed(f[3])),
            },
        )
    } else {
        None
    }
}

/// Applications described by `lines`, in order.
pub open spec fn listed_apps(lines: Seq<Seq<char>>) -> Seq<AppView>
    decreases lines.len(),
{
    if lines.len() == 0 {
        Seq::empty()
    } else {
        let rest = listed_apps(lines.drop_last());
        match app_of_line(lines.last()) {
            Some(a) => rest.push(a),
            None => rest,
        }
    }
}

/// A valid id holds only alphanumeric characters, `-` and `_`.
pub open spec fn valid_app_id(id: Seq<char>) -> bool {
    forall|i: int| 0 <= i < id.len() ==> #[trigger] alphanumeric(id[i]) || id[i] == '-' || id[i] == '_'
}

/// Text of the desktop entry that launches an application.
pub open spec fn desktop_entry(a: AppView, icon_path: Seq<char>) -> Seq<char> {
    "[Desktop Entry]\nName="@ + a.name + "\nExec=winapps run "@ + a.id + "\nTerminal=false\nType=Application\nIcon="@
        + icon_path + "\nStartupWMClass="@ + a.id + "\nComment="@ + a.name + " (WinApps)"@
}

/// Script on the remote machine that lists its installed applications.
pub open spec fn listing_script() -> Seq<char> {
    "C:\\ExtractPrograms.ps1"@
}

/// `line` without one trailing carriage return.
fn strip_cr_text(line: &str) -> (r: String)
    ensures
        r@ == strip_cr(line@),
{
    let n = line.unicode_len();
    if n > 0 && line.get_char(n - 1) == '\r' {
        let r = String::from_str(line.substring_char(0, n - 1));
        assert(r@ =~= line@.drop_last());
        r
    } else {
        String::from_str(line)
    }
}

/// The application described by one listing line, if any.
fn parse_app_line(line: &str) -> (r: Option<App>)
    ensures
        match r {
            Some(a) => app_of_line(line@) == Some(a@),
            None => app_of_line(line@) is None,
        },
{
    let fields = split_text(line, ';');
    if fields.len() < 4 {
        return None;
    }
    assert(fields@[0]@ == split_on(line@, ';')[0]);
    assert(fields@[1]@ == split_on(line@, ';')[1]);
    assert(fields@[2]@ == split_on(line@, ';')[2]);
    assert(fields@[3]@ == split_on(line@, ';')[3]);
    let id = trim_text(fields[0].as_str());
    let name = trim_text(fields[1].as_str());
    let win_exec = trim_text(fields[2].as_str());
    let icon = trim_text(fields[3].as_str());
    Some(App { id, name, win_exec, kind: AppKind::FromBase64(icon) })
}

impl Config {
    /// The command that runs the listing script on the remote machine.
    pub fn available_apps_command(&self) -> (r: Command)
        requires
            backend_selected(self),
        ensures
            r@ == remote_command(
                CommandView {
                    executable: listing_script(),
                    args: Seq::empty(),
                    error_message: default_error_message(),
                    loud: false,
                },
                self,
            ),
    {
        Command::new("C:\\ExtractPrograms.ps1").into_remote(self)
    }

    /// Applications described by the listing the remote script printed, in
    /// the order of its lines.
    pub fn get_available_apps(listing: &str) -> (r: Vec<App>)
        ensures
            r@.map_values(|a: App| a@) == listed_apps(text_lines(listing@)),
    {
        let parts = split_text(listing, '\n');
        let ghost lines = text_lines(listing@);
        let mut count = parts.len();
        if count > 0 && parts[count - 1].unicode_len() == 0 {
            count = count - 1;
        }
        assert(lines.len() == count);
        let mut apps: Vec<App> = Vec::new();
        let mut i: usize = 0;
        while i < count
            invariant
                i <= count <= parts@.len(),
                lines == text_lines(listing@),
                lines.len() == count,
                forall|j: int| 0 <= j < count ==> #[trigger] lines[j] == strip_cr(parts@[j]@),
                apps@.map_values(|a: App| a@) == listed_apps(lines.take(i as int)),
            decreases count - i,
        {
            let line = strip_cr_text(parts[i].as_str());
            let parsed = parse_app_line(line.as_str());
            assert(lines.take(i + 1).drop_last() =~= lines.take(i as int));
            assert(lines.take(i + 1).last() == lines[i as int]);
            let ghost before = apps@;
            match parsed {
                Some(a) => {
                    let ghost av = a@;
                    apps.push(a);
                    assert(apps@.map_values(|a: App| a@) =~= before.map_values(|a: App| a@).push(av));
                },
                None => {},
            }
            i = i + 1;
        }
        assert(lines.take(count as int) =~= lines);
        apps
    }
}

impl App {
    /// Whether the id is safe to use in file names.
    pub fn has_valid_id(&self) -> (r: bool)
        ensures
            r == valid_app_id(self.id@),
    {
        let n = self.id.as_str().unicode_len();
        let mut i: usize = 0;
        while i < n
            invariant
                n == self.id@.len(),
                i <= n,
                forall|j: int| 0 <= j < i ==> #[trigger] alphanumeric(self.id@[j]) || self.id@[j] == '-' || self.id@[j] == '_',
            decreases n - i,
        {
            let c = self.id.as_str().get_char(i);
            if !(is_alphanumeric(c) || c == '-' || c == '_') {
                return false;
            }
            i = i + 1;
        }
        true
    }

    /// The icon bytes still to be written out: `None` when the icon already
    /// exists. Fails on an invalid id, or on an icon that is not base64.
    pub fn pending_icon(&self) -> (r: Result<Option<Vec<u8>>>)
        ensures
            match r {
                Ok(None) => valid_app_id(self.id@) && self@.icon is None,
                Ok(Some(bytes)) => valid_app_id(self.id@) && self@.icon is Some && base64_decoded(
                    self@.icon->0,
                ) == Some(bytes@),
                Err(e) => {
                    ||| !valid_app_id(self.id@) && e is Message && e->Message_0@ == "Invalid app ID: "@ + self.id@
                    ||| valid_app_id(self.id@) && self@.icon is Some && base64_decoded(self@.icon->0) is None
                        && e is Message
                },
            },
    {
        if !self.has_valid_id() {
            let mut message = String::from_str("Invalid app ID: ");
            message.append(self.id.as_str());
            return Err(Error::Message(message));
        }
        match &self.kind {
            AppKind::FromBase64(text) => match decode_base64(text.as_str()) {
                Ok(bytes) => Ok(Some(bytes)),
                Err(_) => Err(Error::Message(String::from_str("App icon is not valid base64"))),
            },
            AppKind::Existing => Ok(None),
        }
    }

    /// Records that the icon has been written out.
    pub fn mark_existing(&mut self)
        ensures
            final(self)@ == (AppView { icon: None, ..old(self)@ }),
    {
        self.kind = AppKind::Existing;
    }

    /// The desktop entry that launches this application, with its icon at
    /// `icon_path`.
    pub fn desktop_file(&self, icon_path: &str) -> (r: String)
        ensures
            r@ == desktop_entry(self@, icon_path@),
    {
        let mut r = String::from_str("[Desktop Entry]\nName=");
        r.append(self.name.as_str());
        r.append("\nExec=winapps run ");
        r.append(self.id.as_str());
        r.append("\nTerminal=false\nType=Application\nIcon=");
        r.append(icon_path);
        r.append("\nStartupWMClass=");
        r.append(self.id.as_str());
        r.append("\nComment=");
        r.append(self.name.as_str());
        r.append(" (WinApps)");
        r
    }
}

} // verus!
