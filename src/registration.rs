//! Registration of this machine with the backend: the request built from the
//! settings and the platform probes, the interpretation of the server's reply,
//! and the decisions of the start-up orchestrator.
use vstd::prelude::*;

use crate::logger::VERSION;
use crate::settings::{RegistrationError, Settings, SettingsView};
use crate::json::{json_string_at, json_text_at};

verus! {

/// Path of the registration endpoint on the backend.
pub const REGISTER_PATH: &'static str = "/v1.0/register";

/// What the platform probes found; each is absent when its source could not be read.
pub struct ProbeResults {
    pub machine_guid: Option<String>,
    pub serial: Option<String>,
    pub mac: Option<String>,
    pub hostname: Option<String>,
}

/// What a registration request holds.
pub struct RequestView {
    pub guid: Option<Seq<char>>,
    pub site_id: Seq<char>,
    pub hostname: Seq<char>,
    pub version: Seq<char>,
    pub platform: Seq<char>,
    pub serial: Option<Seq<char>>,
    pub mac: Option<Seq<char>>,
}

/// The body of a registration request.
#[derive(Clone, Debug)]
pub struct RegistrationRequest {
    pub guid: Option<String>,
    pub site_id: String,
    pub hostname: String,
    pub version: String,
    pub platform: String,
    pub serial: Option<String>,
    pub mac: Option<String>,
}

impl View for RegistrationRequest {
    type V = RequestView;

    open spec fn view(&self) -> RequestView {
        RequestView {
            guid: self.guid.deep_view(),
            site_id: self.site_id@,
            hostname: self.hostname@,
            version: self.version@,
            platform: self.platform@,
            serial: self.serial.deep_view(),
            mac: self.mac.deep_view(),
        }
    }
}

/// The identifiers the server assigned.
#[derive(Clone, Debug)]
pub struct RegistrationData {
    pub device_id: String,
    pub guid: String,
}

/// The server's answer to a registration.
#[derive(Clone, Debug)]
pub struct RegistrationResponse {
    pub data: RegistrationData,
}

impl RegistrationResponse {
    /// Both identifiers are non-empty.
    pub open spec fn wf(&self) -> bool {
        self.data.device_id@.len() > 0 && self.data.guid@.len() > 0
    }
}

/// The host name sent when none was discovered.
pub open spec fn unknown_host() -> Seq<char> {
    "unknown"@
}

/// The request built from completed settings `s`, probe results and the platform tag.
pub open spec fn request_for(
    s: SettingsView,
    guid: Option<Seq<char>>,
    serial: Option<Seq<char>>,
    mac: Option<Seq<char>>,
    platform: Seq<char>,
) -> RequestView {
    RequestView {
        guid: guid,
        site_id: s.site_id,
        hostname: match s.hostname {
            Some(h) => h,
            None => unknown_host(),
        },
        version: VERSION@,
        platform: platform,
        serial: serial,
        mac: mac,
    }
}

/// Builds the registration request; a missing host name is sent as `unknown`,
/// and missing identifiers are sent as absent.
pub fn build_registration_request(
    settings: &Settings,
    guid: Option<String>,
    serial: Option<String>,
    mac: Option<String>,
    platform: &str,
) -> (r: RegistrationRequest)
    ensures
        r@ == request_for(
            settings@,
            guid.deep_view(),
            serial.deep_view(),
            mac.deep_view(),
            platform@,
        ),
{
    let hostname = match &settings.hostname {
        Some(h) => h.clone(),
        None => String::from_str("unknown"),
    };
    RegistrationRequest {
        guid,
        site_id: settings.site_id.clone(),
        hostname,
        version: String::from_str(VERSION),
        platform: String::from_str(platform),
        serial,
        mac,
    }
}

/// Whether `status` is a success status.
pub open spec fn is_success(status: u16) -> bool {
    200 <= status < 300
}

/// A field found and non-empty.
pub open spec fn present(f: Option<Seq<char>>) -> bool {
    f matches Some(t) && t.len() > 0
}

/// Turns a reply whose two identifier fields were already looked up into the
/// registration's outcome.
pub fn registration_from_fields(
    status: u16,
    body: String,
    device_id: Option<String>,
    guid: Option<String>,
) -> (r: Result<RegistrationResponse, RegistrationError>)
    ensures
        !is_success(status) ==> (r matches Err(RegistrationError::ServerRejected(s, b)) && s
            == status && b@ == body@),
        is_success(status) && present(device_id.deep_view()) && present(guid.deep_view()) ==> (
        r matches Ok(resp) && resp.wf() && Some(resp.data.device_id@) == device_id.deep_view()
            && Some(resp.data.guid@) == guid.deep_view()),
        is_success(status) && !(present(device_id.deep_view()) && present(guid.deep_view())) ==> (
        r matches Err(RegistrationError::MalformedResponse(b)) && b@ == body@),
{
    if status < 200 || status >= 300 {
        return Err(RegistrationError::ServerRejected(status, body));
    }
    match (device_id, guid) {
        (Some(d), Some(g)) => {
            if d.as_str().is_empty() || g.as_str().is_empty() {
                Err(RegistrationError::MalformedResponse(body))
            } else {
                Ok(RegistrationResponse { data: RegistrationData { device_id: d, guid: g } })
            }
        },
        _ => Err(RegistrationError::MalformedResponse(body)),
    }
}

/// JSON pointer of the device id in a registration reply.
pub open spec fn device_id_pointer() -> Seq<char> {
    "/data/device_id"@
}

/// JSON pointer of the guid in a registration reply.
pub open spec fn guid_pointer() -> Seq<char> {
    "/data/guid"@
}

/// Interprets the server's reply to a registration: a 2xx status with a body
/// `{"data": {"device_id": .., "guid": ..}}` holding two non-empty strings.
pub fn interpret_registration_reply(status: u16, body: String) -> (r: Result<
    RegistrationResponse,
    RegistrationError,
>)
    ensures
        !is_success(status) ==> (r matches Err(RegistrationError::ServerRejected(s, b)) && s
            == status && b@ == body@),
        is_success(status) && present(json_text_at(body@, device_id_pointer())) && present(
            json_text_at(body@, guid_pointer()),
        ) ==> (r matches Ok(resp) && resp.wf() && Some(resp.data.device_id@) == json_text_at(
            body@,
            device_id_pointer(),
        ) && Some(resp.data.guid@) == json_text_at(body@, guid_pointer())),
        is_success(status) && !(present(json_text_at(body@, device_id_pointer())) && present(
            json_text_at(body@, guid_pointer()),
        )) ==> (r matches Err(RegistrationError::MalformedResponse(b)) && b@ == body@),
{
    if status < 200 || status >= 300 {
        return Err(RegistrationError::ServerRejected(status, body));
    }
    let device_id = json_string_at(body.as_str(), "/data/device_id");
    let guid = json_string_at(body.as_str(), "/data/guid");
    registration_from_fields(status, body, device_id, guid)
}

} // verus!
