use connectivity::config::{default_ap_config, StationConfig};
use connectivity::scan::{AuthMethod, ScanEntry, ScanList};
use connectivity::supervisor::{
    Action, Event, Phase, RadioState, Report, Supervisor, BACKOFF_MS, IDLE_MS, SETTLE_MS,
};

fn supervisor() -> Supervisor {
    Supervisor::new(
        default_ap_config(),
        StationConfig { ssid: "upstream".to_owned(), passphrase: "secret".to_owned() },
    )
}

fn list_of(ssids: &[&str]) -> ScanList {
    let mut list = ScanList::new();
    for s in ssids {
        list.push(ScanEntry {
            ssid: (*s).to_owned(),
            auth_method: AuthMethod::Wpa2Personal,
            signal_strength: -50,
        });
    }
    list
}

#[test]
fn cycle_up_to_scan_and_back_when_nothing_matches() {
    let mut sup = supervisor();
    let out = sup.step(Event::RadioStateIs(RadioState::Idle));
    assert_eq!(out.action, Action::QueryStarted);
    let out = sup.step(Event::StartedIs(false));
    assert_eq!(out.action, Action::ApplyApConfigAndStart);
    let out = sup.step(Event::StartDone(true));
    assert_eq!(out.action, Action::QueryConnected);
    assert_eq!(out.report, Some(Report::RadioStarted));
    let out = sup.step(Event::ConnectedIs(false));
    assert_eq!(out.action, Action::Delay(BACKOFF_MS));
    let out = sup.step(Event::TimerElapsed);
    assert_eq!(out.action, Action::Scan);
    let out = sup.step(Event::ScanDone(Some(list_of(&["other", "another"]))));
    assert_eq!(out.action, Action::QueryRadioState);
    assert_eq!(out.report, Some(Report::NetworkNotFound));
    assert_eq!(sup.phase, Phase::Inspect);
}

#[test]
fn matching_scan_leads_to_connect() {
    let mut sup = supervisor();
    sup.step(Event::RadioStateIs(RadioState::Idle));
    sup.step(Event::StartedIs(true));
    sup.step(Event::ConnectedIs(false));
    sup.step(Event::TimerElapsed);
    let out = sup.step(Event::ScanDone(Some(list_of(&["other", "upstream"]))));
    assert_eq!(out.action, Action::ApplyStaConfigAndConnect);
    assert_eq!(out.report, Some(Report::NetworkFound));
    let out = sup.step(Event::ConnectDone(true));
    assert_eq!(out.action, Action::Delay(SETTLE_MS));
    assert_eq!(out.report, Some(Report::Connected));
    let out = sup.step(Event::TimerElapsed);
    assert_eq!(out.action, Action::QueryRadioState);
    assert_eq!(sup.phase, Phase::Inspect);
}

#[test]
fn connect_failure_backs_off_and_retries() {
    let mut sup = supervisor();
    sup.step(Event::RadioStateIs(RadioState::Idle));
    sup.step(Event::StartedIs(true));
    sup.step(Event::ConnectedIs(false));
    sup.step(Event::TimerElapsed);
    sup.step(Event::ScanDone(Some(list_of(&["upstream"]))));
    let out = sup.step(Event::ConnectDone(false));
    assert_eq!(out.action, Action::Delay(BACKOFF_MS));
    assert_eq!(out.report, Some(Report::ConnectFailed));
    let out = sup.step(Event::TimerElapsed);
    assert_eq!(out.action, Action::QueryRadioState);
    assert_eq!(sup.phase, Phase::Inspect);
}

#[test]
fn scan_failure_is_not_fatal() {
    let mut sup = supervisor();
    sup.step(Event::RadioStateIs(RadioState::StaDisconnected));
    sup.step(Event::StartedIs(true));
    sup.step(Event::ConnectedIs(false));
    sup.step(Event::TimerElapsed);
    let out = sup.step(Event::ScanDone(None));
    assert_eq!(out.action, Action::QueryRadioState);
    assert_eq!(out.report, Some(Report::ScanFailed));
    assert_eq!(sup.phase, Phase::Inspect);
}

#[test]
fn start_failure_is_reported_and_loop_continues() {
    let mut sup = supervisor();
    sup.step(Event::RadioStateIs(RadioState::Idle));
    sup.step(Event::StartedIs(false));
    let out = sup.step(Event::StartDone(false));
    assert_eq!(out.action, Action::QueryRadioState);
    assert_eq!(out.report, Some(Report::RadioStartFailed));
    assert_eq!(sup.phase, Phase::Inspect);
}

#[test]
fn connected_station_waits_for_disconnect() {
    let mut sup = supervisor();
    let out = sup.step(Event::RadioStateIs(RadioState::StaConnected));
    assert_eq!(out.action, Action::WaitStaDisconnect);
    let out = sup.step(Event::StaDisconnected);
    assert_eq!(out.action, Action::Delay(BACKOFF_MS));
    let out = sup.step(Event::TimerElapsed);
    assert_eq!(out.action, Action::QueryStarted);
}

#[test]
fn started_ap_waits_for_stop() {
    let mut sup = supervisor();
    let out = sup.step(Event::RadioStateIs(RadioState::ApStarted));
    assert_eq!(out.action, Action::WaitApStop);
    let out = sup.step(Event::ApStopped);
    assert_eq!(out.action, Action::Delay(BACKOFF_MS));
}

#[test]
fn both_roles_up_idles_between_cycles() {
    let mut sup = supervisor();
    sup.step(Event::RadioStateIs(RadioState::Idle));
    sup.step(Event::StartedIs(true));
    let out = sup.step(Event::ConnectedIs(true));
    assert_eq!(out.action, Action::Delay(IDLE_MS));
    let out = sup.step(Event::TimerElapsed);
    assert_eq!(out.action, Action::QueryRadioState);
}

#[test]
fn ap_stop_during_connect_changes_nothing() {
    let mut sup = supervisor();
    sup.step(Event::RadioStateIs(RadioState::Idle));
    sup.step(Event::StartedIs(true));
    sup.step(Event::ConnectedIs(false));
    sup.step(Event::TimerElapsed);
    sup.step(Event::ScanDone(Some(list_of(&["upstream"]))));
    assert_eq!(sup.phase, Phase::Connecting);
    let out = sup.step(Event::ApStopped);
    assert_eq!(out.action, Action::Idle);
    assert_eq!(out.report, None);
    assert_eq!(sup.phase, Phase::Connecting);
    let out = sup.step(Event::ConnectDone(true));
    assert_eq!(out.action, Action::Delay(SETTLE_MS));
}

#[test]
fn configs_are_exposed_to_the_driver() {
    let sup = supervisor();
    assert_eq!(sup.ap_config().ssid, "esp-wifi");
    assert_eq!(sup.ap_config().passphrase, "12345678");
    assert_eq!(sup.station_config().ssid, "upstream");
    assert_eq!(sup.station_config().passphrase, "secret");
}
