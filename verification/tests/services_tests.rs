use connectivity::form::parse_login;
use connectivity::services::{
    dhcp_after_cycle, mqtt_step, readiness_step, MqttAction, MqttPhase, ReadinessAction,
    ReadinessPhase, AP_CONFIG_POLL_MS, DHCP_BUFFER_BYTES, DHCP_LEASE_CAPACITY, DHCP_RETRY_MS,
    LINK_POLL_MS, MQTT_CLIENT_ID, MQTT_HOST, MQTT_PAYLOAD, MQTT_PERIOD_MS, MQTT_PORT, MQTT_TOPIC,
};

#[test]
fn readiness_waits_for_the_link_first() {
    let (phase, action) =
        readiness_step(ReadinessPhase::WaitingLink, false, false, LINK_POLL_MS, AP_CONFIG_POLL_MS);
    assert_eq!(phase, ReadinessPhase::WaitingLink);
    assert_eq!(action, ReadinessAction::Poll(LINK_POLL_MS));
}

#[test]
fn readiness_then_waits_for_the_address() {
    let (phase, action) =
        readiness_step(ReadinessPhase::WaitingLink, true, false, LINK_POLL_MS, AP_CONFIG_POLL_MS);
    assert_eq!(phase, ReadinessPhase::WaitingConfig);
    assert_eq!(action, ReadinessAction::Poll(AP_CONFIG_POLL_MS));
    let (phase, action) =
        readiness_step(ReadinessPhase::WaitingConfig, true, false, LINK_POLL_MS, AP_CONFIG_POLL_MS);
    assert_eq!(phase, ReadinessPhase::WaitingConfig);
    assert_eq!(action, ReadinessAction::Poll(AP_CONFIG_POLL_MS));
}

#[test]
fn readiness_starts_the_service_when_both_hold() {
    let (phase, action) =
        readiness_step(ReadinessPhase::WaitingConfig, true, true, LINK_POLL_MS, AP_CONFIG_POLL_MS);
    assert_eq!(phase, ReadinessPhase::Ready);
    assert_eq!(action, ReadinessAction::StartService);
}

#[test]
fn dhcp_always_retries_after_the_fixed_delay() {
    assert_eq!(dhcp_after_cycle(true), DHCP_RETRY_MS);
    assert_eq!(dhcp_after_cycle(false), DHCP_RETRY_MS);
    assert_eq!(DHCP_RETRY_MS, 500);
    assert_eq!(DHCP_BUFFER_BYTES, 600);
    assert_eq!(DHCP_LEASE_CAPACITY, 64);
}

#[test]
fn mqtt_cadence_publishes_once_per_period() {
    let (p1, a1) = mqtt_step(MqttPhase::Subscribing);
    assert_eq!(a1, MqttAction::Wait(500));
    let (p2, a2) = mqtt_step(p1);
    assert_eq!(a2, MqttAction::Publish);
    let (p3, a3) = mqtt_step(p2);
    assert_eq!(a3, MqttAction::Wait(MQTT_PERIOD_MS));
    let (p4, a4) = mqtt_step(p3);
    assert_eq!(p4, MqttPhase::Publishing);
    assert_eq!(a4, MqttAction::Publish);
}

#[test]
fn mqtt_fixed_session_values() {
    assert_eq!(MQTT_HOST, "broker.emqx.io");
    assert_eq!(MQTT_PORT, 1883);
    assert_eq!(MQTT_CLIENT_ID, "edge-mqtt-demo");
    assert_eq!(MQTT_TOPIC, "edge-mqtt-demo");
    assert_eq!(MQTT_PAYLOAD, "Hello from edge-mqtt-demo!");
}

#[test]
fn parse_login_reads_both_keys() {
    let (u, p) = parse_login("username=u&password=p");
    assert_eq!(u, "u");
    assert_eq!(p, "p");
}

#[test]
fn parse_login_round_trip_shape() {
    let pairs = vec![("username", "u"), ("password", "p")];
    let encoded: Vec<String> =
        pairs.iter().map(|(k, v)| format!("{}={}", k, v)).collect();
    let joined = encoded.join("&");
    let (u, p) = parse_login(&joined);
    assert_eq!(format!("username={}&password={}", u, p), joined);
}

#[test]
fn parse_login_ignores_unknown_keys() {
    let (u, p) = parse_login("a=1&username=x&b=2");
    assert_eq!(u, "x");
    assert_eq!(p, "");
}
