//! The periodic test ticket: its content, the interpretation of the server's
//! reply, and the wait before the next one.
use rand::Rng;
use vstd::prelude::*;

use crate::clock::{format_timestamp, timestamp_text, utc_now, ClockReading};
use crate::json::{json_string_at, json_text_at};
use crate::logger::VERSION;
use crate::registration::is_success;
use crate::settings::{Settings, SettingsView};
use crate::text::{decimal, push_decimal};

verus! {

/// Path of the ticket endpoint on the backend.
pub const TICKET_PATH: &'static str = "/v1.0/ticket/create";

/// Shortest wait between two test tickets, in seconds.
pub const MIN_TICKET_WAIT_SECS: u64 = 300;

/// Longest wait between two test tickets, in seconds.
pub const MAX_TICKET_WAIT_SECS: u64 = 600;

/// The form fields of a test ticket.
#[derive(Clone, Debug)]
pub struct TestTicketRequest {
    pub summary: String,
    pub description: String,
    pub name: String,
    pub email: String,
    pub phone: String,
    pub impact: String,
    pub urgency: String,
    pub rmm_id: Option<String>,
}

/// The server's answer to a ticket: the ticket id.
#[derive(Clone, Debug)]
pub struct TicketResponse {
    pub data: String,
}

/// Why a test ticket was not created.
#[derive(Clone, Debug)]
pub enum TicketError {
    /// The device holds no device id yet.
    NotRegistered,
    /// The settings document is absent or lacks the API base.
    ConfigMissing,
    /// The request could not be sent or its answer not received.
    NetworkFailure(String),
    /// The server answered with a status outside 2xx (status, body).
    ServerRejected(u16, String),
    /// The server answered 2xx with a body that holds no ticket id (body).
    MalformedResponse(String),
}

/// The text that describes `e`.
pub open spec fn ticket_error_text(e: TicketError) -> Seq<char> {
    match e {
        TicketError::NotRegistered => "Device not registered, skipping test ticket"@,
        TicketError::ConfigMissing => "Settings are missing or unreadable"@,
        TicketError::NetworkFailure(m) => "Network failure: "@ + m@,
        TicketError::ServerRejected(s, b) => "Test ticket creation failed ("@ + decimal(s as nat)
            + "): "@ + b@,
        TicketError::MalformedResponse(b) => "Malformed ticket response: "@ + b@,
    }
}

impl TicketError {
    /// The text that describes this error.
    pub fn message(&self) -> (r: String)
        ensures
            r@ == ticket_error_text(*self),
    {
        match self {
            TicketError::NotRegistered => String::from_str(
                "Device not registered, skipping test ticket",
            ),
            TicketError::ConfigMissing => String::from_str("Settings are missing or unreadable"),
            TicketError::NetworkFailure(m) => {
                let mut out = String::from_str("Network failure: ");
                out.append(m.as_str());
                out
            },
            TicketError::ServerRejected(s, b) => {
                let mut out = String::from_str("Test ticket creation failed (");
                push_decimal(&mut out, *s as u64, 1);
                out.append("): ");
                out.append(b.as_str());
                out
            },
            TicketError::MalformedResponse(b) => {
                let mut out = String::from_str("Malformed ticket response: ");
                out.append(b.as_str());
                out
            },
        }
    }
}

/// The host name named in a ticket.
pub open spec fn ticket_host(s: SettingsView) -> Seq<char> {
    match s.hostname {
        Some(h) => h,
        None => "unknown"@,
    }
}

/// The summary line of a test ticket.
pub open spec fn ticket_summary(s: SettingsView) -> Seq<char> {
    "[TEST] Automated Test Ticket from "@ + ticket_host(s)
}

/// The description of a test ticket sent at `ts` by a device with id `device_id`.
pub open spec fn ticket_description(
    s: SettingsView,
    device_id: Seq<char>,
    ts: Seq<char>,
    rmm_id: Option<Seq<char>>,
) -> Seq<char> {
    "This is an automated test ticket to verify the ticketing system.\n\nGenerated at: "@ + ts
        + "\nDevice ID: "@ + device_id + "\nSite ID: "@ + s.site_id + "\nHostname: "@
        + ticket_host(s) + "\nVersion: "@ + VERSION@ + "\nRMM Device ID: "@ + match rmm_id {
        Some(id) => id,
        None => "N/A"@,
    } + "\n\nThis ticket can be safely closed."@
}

/// Builds the test ticket of a registered device; fails when it holds no device id.
pub fn build_test_ticket(settings: &Settings, timestamp: &str, rmm_id: Option<String>) -> (r:
    Result<TestTicketRequest, TicketError>)
    ensures
        settings.device_id is None ==> r matches Err(TicketError::NotRegistered),
        settings@.device_id matches Some(d) ==> (r matches Ok(t) && t.summary@ == ticket_summary(
            settings@,
        ) && t.description@ == ticket_description(settings@, d, timestamp@, rmm_id.deep_view())
            && t.name@ == "Test User"@ && t.email@ == "test@example.com"@ && t.phone@
            == "555-0100"@ && t.impact@ == "Low"@ && t.urgency@ == "Low"@
            && t.rmm_id.deep_view() == rmm_id.deep_view()),
{
    let device_id = match &settings.device_id {
        Some(d) => d,
        None => {
            return Err(TicketError::NotRegistered);
        },
    };
    let hostname = match &settings.hostname {
        Some(h) => h.clone(),
        None => String::from_str("unknown"),
    };
    let mut summary = String::from_str("[TEST] Automated Test Ticket from ");
    summary.append(hostname.as_str());
    let mut description = String::from_str(
        "This is an automated test ticket to verify the ticketing system.\n\nGenerated at: ",
    );
    description.append(timestamp);
    description.append("\nDevice ID: ");
    description.append(device_id.as_str());
    description.append("\nSite ID: ");
    description.append(settings.site_id.as_str());
    description.append("\nHostname: ");
    description.append(hostname.as_str());
    description.append("\nVersion: ");
    description.append(VERSION);
    description.append("\nRMM Device ID: ");
    match &rmm_id {
        Some(id) => description.append(id.as_str()),
        None => description.append("N/A"),
    }
    description.append("\n\nThis ticket can be safely closed.");
    Ok(
        TestTicketRequest {
            summary,
            description,
            name: String::from_str("Test User"),
            email: String::from_str("test@example.com"),
            phone: String::from_str("555-0100"),
            impact: String::from_str("Low"),
            urgency: String::from_str("Low"),
            rmm_id,
        },
    )
}

/// The current UTC time as `YYYY-MM-DD HH:MM:SS UTC`.
pub fn ticket_timestamp() -> (r: String)
    ensures
        exists|t: ClockReading| t.wf() && r@ == timestamp_text(t) + " UTC"@,
{
    let t = utc_now();
    let mut out = format_timestamp(&t);
    out.append(" UTC");
    out
}

/// Turns a reply whose ticket id was already looked up into the ticket's outcome.
pub fn ticket_from_field(status: u16, body: String, data: Option<String>) -> (r: Result<
    TicketResponse,
    TicketError,
>)
    ensures
        !is_success(status) ==> (r matches Err(TicketError::ServerRejected(s, b)) && s == status
            && b@ == body@),
        is_success(status) && data is Some ==> (r matches Ok(t) && Some(t.data@)
            == data.deep_view()),
        is_success(status) && data is None ==> (r matches Err(TicketError::MalformedResponse(b))
            && b@ == body@),
{
    if status < 200 || status >= 300 {
        return Err(TicketError::ServerRejected(status, body));
    }
    match data {
        Some(id) => Ok(TicketResponse { data: id }),
        None => Err(TicketError::MalformedResponse(body)),
    }
}

/// JSON pointer of the ticket id in a ticket reply.
pub open spec fn ticket_id_pointer() -> Seq<char> {
    "/data"@
}

/// Interprets the server's reply to a ticket: a 2xx status with a body
/// `{"data": ..}` holding the ticket id as a string.
pub fn interpret_ticket_reply(status: u16, body: String) -> (r: Result<
    TicketResponse,
    TicketError,
>)
    ensures
        !is_success(status) ==> (r matches Err(TicketError::ServerRejected(s, b)) && s == status
            && b@ == body@),
        is_success(status) && json_text_at(body@, ticket_id_pointer()) is Some ==> (
        r matches Ok(t) && Some(t.data@) == json_text_at(body@, ticket_id_pointer())),
        is_success(status) && json_text_at(body@, ticket_id_pointer()) is None ==> (
        r matches Err(TicketError::MalformedResponse(b)) && b@ == body@),
{
    if status < 200 || status >= 300 {
        return Err(TicketError::ServerRejected(status, body));
    }
    let data = json_string_at(body.as_str(), "/data");
    ticket_from_field(status, body, data)
}

/// Relies on rand::thread_rng and Rng::gen_range over an inclusive range: a value
/// inside the range.
#[verifier::external_body]
fn random_in_range(low: u64, high: u64) -> (r: u64)
    requires
        low <= high,
    ensures
        low <= r <= high,
{
    rand::thread_rng().gen_range(low..=high)
}

/// The wait before the next test ticket while the sender runs, or `None` once it
/// is stopped.
pub fn next_ticket_wait(running: bool) -> (r: Option<u64>)
    ensures
        !running ==> r is None,
        running ==> (r matches Some(secs) && MIN_TICKET_WAIT_SECS <= secs
            <= MAX_TICKET_WAIT_SECS),
{
    if running {
        Some(random_in_range(MIN_TICKET_WAIT_SECS, MAX_TICKET_WAIT_SECS))
    } else {
        None
    }
}

} // verus!
