//! The agent's persisted configuration document and the operations on it.
use vstd::prelude::*;

verus! {

/// Why an operation of the registration subsystem failed.
#[derive(Clone, Debug)]
pub enum RegistrationError {
    /// The settings document is absent or unreadable, or lacks the API base.
    ConfigMissing,
    /// The request could not be sent or its answer not received.
    NetworkFailure(String),
    /// The server answered with a status outside 2xx (status, body).
    ServerRejected(u16, String),
    /// The server answered 2xx with a body that is not a registration (body).
    MalformedResponse(String),
    /// The identifiers could not be written to the settings document.
    PersistFailure(String),
}

/// What a settings document holds.
pub struct SettingsView {
    pub site_id: Seq<char>,
    pub device_id: Option<Seq<char>>,
    pub guid: Option<Seq<char>>,
    pub hostname: Option<Seq<char>>,
    pub api_base: Seq<char>,
}

/// The agent's configuration document.
#[derive(Clone, Debug)]
pub struct Settings {
    /// Customer site this device belongs to.
    pub site_id: String,
    /// Identifier assigned by the server; absent until the first registration succeeds.
    pub device_id: Option<String>,
    /// Machine identifier echoed by the server at registration.
    pub guid: Option<String>,
    /// Host name discovered when the settings were last completed.
    pub hostname: Option<String>,
    /// Base URL of the backend.
    pub api_base: String,
}

impl View for Settings {
    type V = SettingsView;

    open spec fn view(&self) -> SettingsView {
        SettingsView {
            site_id: self.site_id@,
            device_id: self.device_id.deep_view(),
            guid: self.guid.deep_view(),
            hostname: self.hostname.deep_view(),
            api_base: self.api_base@,
        }
    }
}

/// A device counts as registered when it holds a non-empty device id.
pub open spec fn registered(s: SettingsView) -> bool {
    s.device_id matches Some(d) && d.len() > 0
}

/// The settings once the locally discovered host name is filled in.
pub open spec fn completed(s: SettingsView, hostname: Option<Seq<char>>) -> SettingsView {
    match hostname {
        Some(h) => SettingsView { hostname: Some(h), ..s },
        None => s,
    }
}

/// The settings once the server's identifiers are merged in.
pub open spec fn with_registration(s: SettingsView, device_id: Seq<char>, guid: Seq<char>) -> SettingsView {
    SettingsView { device_id: Some(device_id), guid: Some(guid), ..s }
}

/// `base` without one trailing slash.
pub open spec fn trimmed_base(base: Seq<char>) -> Seq<char> {
    if base.len() > 0 && base.last() == '/' {
        base.drop_last()
    } else {
        base
    }
}

/// `path` with a leading slash.
pub open spec fn rooted_path(path: Seq<char>) -> Seq<char> {
    if path.len() > 0 && path[0] == '/' {
        path
    } else {
        seq!['/'] + path
    }
}

/// The URL of `path` on the backend at `base`.
pub open spec fn endpoint_url(base: Seq<char>, path: Seq<char>) -> Seq<char> {
    trimmed_base(base) + rooted_path(path)
}

impl Settings {
    /// Whether the device holds a non-empty device id.
    pub fn is_registered(&self) -> (r: bool)
        ensures
            r == registered(self@),
    {
        match &self.device_id {
            Some(d) => !d.as_str().is_empty(),
            None => false,
        }
    }

    /// These settings with the host name just discovered (kept as it was when
    /// nothing was discovered); nothing is persisted.
    pub fn complete(self, hostname: Option<String>) -> (r: Settings)
        ensures
            r@ == completed(self@, hostname.deep_view()),
    {
        let mut s = self;
        match hostname {
            Some(h) => {
                s.hostname = Some(h);
            },
            None => {},
        }
        s
    }

    /// Merges the identifiers the server assigned.
    pub fn update_from_registration(&mut self, device_id: String, guid: String)
        ensures
            final(self)@ == with_registration(old(self)@, device_id@, guid@),
    {
        self.device_id = Some(device_id);
        self.guid = Some(guid);
    }

    /// The URL of `path` on the backend; fails when no API base is configured.
    pub fn api_endpoint(&self, path: &str) -> (r: Result<String, RegistrationError>)
        ensures
            self.api_base@.len() == 0 ==> r matches Err(RegistrationError::ConfigMissing),
            self.api_base@.len() > 0 ==> (r matches Ok(u) && u@ == endpoint_url(
                self.api_base@,
                path@,
            )),
    {
        let base = self.api_base.as_str();
        let n = base.unicode_len();
        if n == 0 {
            return Err(RegistrationError::ConfigMissing);
        }
        let mut out = if base.get_char(n - 1) == '/' {
            String::from_str(base.substring_char(0, n - 1))
        } else {
            String::from_str(base)
        };
        assert(out@ =~= trimmed_base(self.api_base@));
        let m = path.unicode_len();
        if m == 0 || path.get_char(0) != '/' {
            proof {
                reveal_strlit("/");
            }
            out.append("/");
        }
        out.append(path);
        assert(out@ =~= endpoint_url(self.api_base@, path@));
        Ok(out)
    }
}

} // verus!
