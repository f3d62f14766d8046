use sip2_gateway::conf::{Config, SipAccount};
use sip2_gateway::init::{Client, Context};
use sip2_gateway::monitor::{MonitorAction, MonitorEvent};
use sip2_gateway::server::Server;

fn test_server(max_clients: usize) -> Server {
    let config = Config::new(max_clients, "127.0.0.1", 6001, true, true);
    let ctx = Context { client: Client::new("private.localhost".to_string()), host_settings: None };
    Server::new(config, ctx)
}

#[test]
fn admission_stops_at_the_client_limit() {
    let server = test_server(5);
    // One slot is always reserved for the monitor worker.
    assert!(server.should_admit(0, 0));
    assert!(server.should_admit(3, 0));
    assert!(!server.should_admit(4, 0));
    assert!(!server.should_admit(2, 2));
    assert!(!server.should_admit(5, 0));
}

#[test]
fn a_session_ending_frees_exactly_one_slot() {
    let server = test_server(5);
    assert!(!server.should_admit(4, 0));
    // One worker finished: the next connection is admitted again.
    assert!(server.should_admit(3, 0));
}

#[test]
fn session_ids_count_up_from_one() {
    let mut server = test_server(5);
    assert_eq!(server.next_sesid(), 1);
    assert_eq!(server.next_sesid(), 2);
    assert_eq!(server.next_sesid(), 3);
}

#[test]
fn add_account_event_installs_the_account() {
    let mut server = test_server(5);
    let account = SipAccount::new("kiosk", "secret", "staff-k", "example");
    server.apply_monitor_event(MonitorEvent::new(MonitorAction::AddAccount(account)));
    let found = server.sip_config().get_account("kiosk").unwrap();
    assert_eq!(found.sip_password().as_str(), "secret");
    assert!(!server.is_shutdown());
}

#[test]
fn add_account_event_replaces_an_existing_account() {
    let mut server = test_server(5);
    server.apply_monitor_event(MonitorEvent::new(MonitorAction::AddAccount(SipAccount::new(
        "kiosk", "old", "staff-k", "example",
    ))));
    server.apply_monitor_event(MonitorEvent::new(MonitorAction::AddAccount(SipAccount::new(
        "kiosk", "new", "staff-k", "example",
    ))));
    let found = server.sip_config().get_account("kiosk").unwrap();
    assert_eq!(found.sip_password().as_str(), "new");
    assert_eq!(server.sip_config().accounts.len(), 1);
}

#[test]
fn disable_account_event_removes_the_account() {
    let mut server = test_server(5);
    server.apply_monitor_event(MonitorEvent::new(MonitorAction::AddAccount(SipAccount::new(
        "kiosk", "secret", "staff-k", "example",
    ))));
    server.apply_monitor_event(MonitorEvent::new(MonitorAction::DisableAccount(
        "kiosk".to_string(),
    )));
    assert!(server.sip_config().get_account("kiosk").is_none());
}

#[test]
fn shutdown_event_sets_the_signal() {
    let mut server = test_server(5);
    assert!(!server.is_shutdown());
    server.apply_monitor_event(MonitorEvent::new(MonitorAction::Shutdown));
    assert!(server.is_shutdown());
}

#[test]
fn drained_events_apply_in_order() {
    let mut server = test_server(5);
    let events = vec![
        MonitorEvent::new(MonitorAction::AddAccount(SipAccount::new(
            "kiosk", "first", "staff-k", "example",
        ))),
        MonitorEvent::new(MonitorAction::AddAccount(SipAccount::new(
            "kiosk", "second", "staff-k", "example",
        ))),
    ];
    server.process_monitor_events(events, false);
    let found = server.sip_config().get_account("kiosk").unwrap();
    assert_eq!(found.sip_password().as_str(), "second");
    assert!(!server.is_shutdown());
}

#[test]
fn monitor_disconnection_is_fatal() {
    let mut server = test_server(5);
    server.process_monitor_events(Vec::new(), true);
    assert!(server.is_shutdown());
}

#[test]
fn monitor_event_exposes_its_action() {
    let event = MonitorEvent::new(MonitorAction::Shutdown);
    assert!(matches!(event.action(), MonitorAction::Shutdown));
}

#[test]
fn config_getters_report_their_fields() {
    let config = Config::new(9, "0.0.0.0", 6002, false, false);
    assert_eq!(config.max_clients(), 9);
    assert_eq!(config.sip_address().as_str(), "0.0.0.0");
    assert_eq!(config.sip_port(), 6002);
    assert!(!config.sc_status_before_login());
    assert!(!config.ascii());
}

#[test]
fn account_getters_report_their_fields() {
    let mut account = SipAccount::new("kiosk", "secret", "staff-k", "example");
    assert_eq!(account.sip_username().as_str(), "kiosk");
    assert_eq!(account.sip_password().as_str(), "secret");
    assert_eq!(account.ils_username().as_str(), "staff-k");
    assert!(account.workstation().is_none());
    account.workstation = Some("BR1".to_string());
    assert_eq!(account.workstation().unwrap().as_str(), "BR1");
    assert_eq!(account.settings().institution().as_str(), "example");
}
