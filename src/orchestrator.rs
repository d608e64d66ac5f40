//! Decisions of the start-up registration task: whether to register, what to
//! send where, and how the outcome is folded back into the settings and the log.
use vstd::prelude::*;

use crate::logger::LogLevel;
use crate::registration::{
    build_registration_request, request_for, RegistrationRequest, RegistrationResponse,
    ProbeResults, REGISTER_PATH,
};
use crate::settings::{
    completed, endpoint_url, registered, with_registration, RegistrationError, Settings,
    SettingsView,
};
use crate::text::{decimal, push_decimal};

verus! {

/// One record for the log.
#[derive(Clone, Debug)]
pub struct LogEntry {
    pub level: LogLevel,
    pub message: String,
}

/// The text that describes `e`.
pub open spec fn error_text(e: RegistrationError) -> Seq<char> {
    match e {
        RegistrationError::ConfigMissing => "Settings are missing or unreadable"@,
        RegistrationError::NetworkFailure(m) => "Network failure: "@ + m@,
        RegistrationError::ServerRejected(s, b) => "Registration failed ("@ + decimal(s as nat)
            + "): "@ + b@,
        RegistrationError::MalformedResponse(b) => "Malformed registration response: "@ + b@,
        RegistrationError::PersistFailure(m) => "Could not save settings: "@ + m@,
    }
}

/// The logged text of a failed registration.
pub open spec fn failure_text(e: RegistrationError) -> Seq<char> {
    error_text(e) + " - Will retry on next launch"@
}

/// The logged text of a successful registration.
pub open spec fn success_text(device_id: Seq<char>, guid: Seq<char>) -> Seq<char> {
    "Device registered successfully. Device ID: "@ + device_id + ", GUID: "@ + guid
}

/// The logged text when the device is registered already.
pub open spec fn skip_text() -> Seq<char> {
    "Device already registered"@
}

impl RegistrationError {
    /// The text that describes this error.
    pub fn message(&self) -> (r: String)
        ensures
            r@ == error_text(*self),
    {
        match self {
            RegistrationError::ConfigMissing => String::from_str(
                "Settings are missing or unreadable",
            ),
            RegistrationError::NetworkFailure(m) => {
                let mut out = String::from_str("Network failure: ");
                out.append(m.as_str());
                out
            },
            RegistrationError::ServerRejected(s, b) => {
                let mut out = String::from_str("Registration failed (");
                push_decimal(&mut out, *s as u64, 1);
                out.append("): ");
                out.append(b.as_str());
                out
            },
            RegistrationError::MalformedResponse(b) => {
                let mut out = String::from_str("Malformed registration response: ");
                out.append(b.as_str());
                out
            },
            RegistrationError::PersistFailure(m) => {
                let mut out = String::from_str("Could not save settings: ");
                out.append(m.as_str());
                out
            },
        }
    }
}

/// What the start-up task does next.
pub enum RegistrationPlan {
    /// The device is registered already: only log.
    Skip(LogEntry),
    /// Send `request` to `url`; `settings` is the completed working copy.
    Send { url: String, request: RegistrationRequest, settings: Settings },
    /// Registration cannot be attempted: only log.
    Abort(LogEntry),
}

/// Decides, from the stored settings and the probe results, whether and how to register.
pub fn plan_registration(settings: Settings, probes: ProbeResults, platform: &str) -> (r:
    RegistrationPlan)
    ensures
        registered(settings@) ==> (r matches RegistrationPlan::Skip(e) && e.level
            == LogLevel::Info && e.message@ == skip_text()),
        !registered(settings@) && settings.api_base@.len() == 0 ==> (
        r matches RegistrationPlan::Abort(e) && e.level == LogLevel::Error && e.message@
            == failure_text(RegistrationError::ConfigMissing)),
        !registered(settings@) && settings.api_base@.len() > 0 ==> (
        r matches RegistrationPlan::Send { url, request, settings: s } && s@ == completed(
            settings@,
            probes.hostname.deep_view(),
        ) && url@ == endpoint_url(settings.api_base@, REGISTER_PATH@) && request@ == request_for(
            s@,
            probes.machine_guid.deep_view(),
            probes.serial.deep_view(),
            probes.mac.deep_view(),
            platform@,
        )),
{
    if settings.is_registered() {
        return RegistrationPlan::Skip(
            LogEntry { level: LogLevel::Info, message: String::from_str("Device already registered") },
        );
    }
    let s = settings.complete(probes.hostname);
    match s.api_endpoint(REGISTER_PATH) {
        Ok(url) => {
            let request = build_registration_request(
                &s,
                probes.machine_guid,
                probes.serial,
                probes.mac,
                platform,
            );
            RegistrationPlan::Send { url, request, settings: s }
        },
        Err(e) => {
            let mut message = e.message();
            message.append(" - Will retry on next launch");
            RegistrationPlan::Abort(LogEntry { level: LogLevel::Error, message })
        },
    }
}

/// Folds the outcome of the exchange into `settings` and says what to log.
pub fn finish_registration(
    settings: &mut Settings,
    reply: Result<RegistrationResponse, RegistrationError>,
) -> (e: LogEntry)
    requires
        reply is Ok ==> reply->Ok_0.wf(),
    ensures
        reply is Ok ==> final(settings)@ == with_registration(
            old(settings)@,
            reply->Ok_0.data.device_id@,
            reply->Ok_0.data.guid@,
        ) && e.level == LogLevel::Info && e.message@ == success_text(
            reply->Ok_0.data.device_id@,
            reply->Ok_0.data.guid@,
        ),
        reply is Err ==> final(settings)@ == old(settings)@ && e.level == LogLevel::Error
            && e.message@ == failure_text(reply->Err_0),
{
    match reply {
        Ok(resp) => {
            let mut message = String::from_str("Device registered successfully. Device ID: ");
            message.append(resp.data.device_id.as_str());
            message.append(", GUID: ");
            message.append(resp.data.guid.as_str());
            settings.update_from_registration(resp.data.device_id, resp.data.guid);
            LogEntry { level: LogLevel::Info, message }
        },
        Err(err) => {
            let mut message = err.message();
            message.append(" - Will retry on next launch");
            LogEntry { level: LogLevel::Error, message }
        },
    }
}

/// After a successful registration the device is registered, under the device id
/// the server returned.
pub proof fn lemma_success_registers(s: SettingsView, device_id: Seq<char>, guid: Seq<char>)
    requires
        device_id.len() > 0,
    ensures
        registered(with_registration(s, device_id, guid)),
        with_registration(s, device_id, guid).device_id == Some(device_id),
        with_registration(s, device_id, guid).guid == Some(guid),
{
}

/// A freshly installed document (no device id) is unregistered; once registered,
/// completing the settings or merging another server answer keeps it registered,
/// so the start-up task never registers it again.
pub proof fn lemma_registration_happens_once(
    s: SettingsView,
    hostname: Option<Seq<char>>,
    device_id: Seq<char>,
    guid: Seq<char>,
)
    requires
        device_id.len() > 0,
    ensures
        s.device_id is None ==> !registered(s),
        registered(s) ==> registered(completed(s, hostname)),
        registered(s) ==> registered(with_registration(s, device_id, guid)),
{
}

} // verus!
