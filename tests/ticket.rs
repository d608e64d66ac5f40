use support_agent::encoding::encode_file_contents;
use support_agent::settings::Settings;
use support_agent::ticket::{
    build_test_ticket, interpret_ticket_reply, next_ticket_wait, ticket_from_field,
    ticket_timestamp, TicketError,
};

fn registered_settings() -> Settings {
    Settings {
        site_id: "S1".to_string(),
        device_id: Some("D1".to_string()),
        guid: Some("G1".to_string()),
        hostname: Some("pc1".to_string()),
        api_base: "https://x/".to_string(),
    }
}

#[test]
fn ticket_needs_registration() {
    let mut s = registered_settings();
    s.device_id = None;
    assert!(matches!(build_test_ticket(&s, "t", None), Err(TicketError::NotRegistered)));
    assert_eq!(TicketError::NotRegistered.message(), "Device not registered, skipping test ticket");
}

#[test]
fn ticket_content() {
    let t = build_test_ticket(&registered_settings(), "2024-01-02 03:04:05 UTC", Some("R9".to_string()))
        .ok()
        .unwrap();
    assert_eq!(t.summary, "[TEST] Automated Test Ticket from pc1");
    assert_eq!(
        t.description,
        "This is an automated test ticket to verify the ticketing system.\n\n\
         Generated at: 2024-01-02 03:04:05 UTC\n\
         Device ID: D1\n\
         Site ID: S1\n\
         Hostname: pc1\n\
         Version: 0.1.0\n\
         RMM Device ID: R9\n\n\
         This ticket can be safely closed."
    );
    assert_eq!(t.name, "Test User");
    assert_eq!(t.email, "test@example.com");
    assert_eq!(t.phone, "555-0100");
    assert_eq!(t.impact, "Low");
    assert_eq!(t.urgency, "Low");
    assert_eq!(t.rmm_id.as_deref(), Some("R9"));
}

#[test]
fn ticket_without_rmm_or_hostname() {
    let mut s = registered_settings();
    s.hostname = None;
    let t = build_test_ticket(&s, "ts", None).ok().unwrap();
    assert_eq!(t.summary, "[TEST] Automated Test Ticket from unknown");
    assert!(t.description.contains("RMM Device ID: N/A\n"));
    assert!(t.description.contains("Hostname: unknown\n"));
}

#[test]
fn ticket_replies() {
    let ok = interpret_ticket_reply(200, r#"{"data":"T-42"}"#.to_string()).ok().unwrap();
    assert_eq!(ok.data, "T-42");
    assert!(matches!(
        interpret_ticket_reply(200, r#"{"data":42}"#.to_string()),
        Err(TicketError::MalformedResponse(_))
    ));
    match interpret_ticket_reply(503, "down".to_string()) {
        Err(e) => assert_eq!(e.message(), "Test ticket creation failed (503): down"),
        Ok(_) => panic!("expected a rejection"),
    }
    assert_eq!(ticket_from_field(200, "b".into(), Some("X".into())).ok().unwrap().data, "X");
}

#[test]
fn ticket_wait_bounds() {
    assert!(next_ticket_wait(false).is_none());
    for _ in 0..100 {
        let w = next_ticket_wait(true).unwrap();
        assert!((300..=600).contains(&w));
    }
}

#[test]
fn ticket_timestamp_shape() {
    let ts = ticket_timestamp();
    assert_eq!(ts.len(), 23);
    assert!(ts.ends_with(" UTC"));
}

#[test]
fn base64_of_file_contents() {
    assert_eq!(encode_file_contents(b"hello").unwrap(), "aGVsbG8=");
    assert_eq!(encode_file_contents(b"").unwrap(), "");
    assert_eq!(encode_file_contents(&[0xff, 0x00, 0x10]).unwrap(), "/wAQ");
}
