//! Readiness and retry policies of the services that depend on a role
//! interface: the link-up and address polling both roles perform before
//! starting their dependent service, the DHCP server's retry policy,
//! and the optional telemetry publisher's cadence.

use vstd::prelude::*;

verus! {

/// Poll interval while waiting for a link to come up.
pub const LINK_POLL_MS: u64 = 500;

/// Poll interval while the access point waits for its address
/// configuration.
pub const AP_CONFIG_POLL_MS: u64 = 100;

/// Poll interval while the station waits for its DHCP lease.
pub const STA_CONFIG_POLL_MS: u64 = 500;

/// Delay before the DHCP server runs another protocol cycle after one
/// ends, in error or not.
pub const DHCP_RETRY_MS: u64 = 500;

/// Request/response buffer size of the DHCP server.
pub const DHCP_BUFFER_BYTES: usize = 600;

/// Capacity of the DHCP server's lease table.
pub const DHCP_LEASE_CAPACITY: usize = 64;

/// Where a role interface stands on the way to its dependent service.
#[derive(Clone, Copy, PartialEq, Eq, Structural, Debug)]
pub enum ReadinessPhase {
    /// The link is not yet passing frames.
    WaitingLink,
    /// The link is up; the address configuration is not yet in place.
    WaitingConfig,
    /// Link and address are up; the dependent service may start.
    Ready,
}

/// What the readiness poll asks for next.
#[derive(Clone, Copy, PartialEq, Eq, Structural, Debug)]
pub enum ReadinessAction {
    /// Wait the given milliseconds, then poll again.
    Poll(u64),
    /// Start the dependent service.
    StartService,
}

/// One poll of a role interface's readiness: move forward only on the
/// observed conditions, in order — link first, then address — and ask
/// for the fixed re-poll delay otherwise. `Ready` stays `Ready`.
pub fn readiness_step(
    phase: ReadinessPhase,
    link_up: bool,
    config_up: bool,
    link_poll_ms: u64,
    config_poll_ms: u64,
) -> (r: (ReadinessPhase, ReadinessAction))
    ensures
        r == (match phase {
            ReadinessPhase::WaitingLink => if !link_up {
                (ReadinessPhase::WaitingLink, ReadinessAction::Poll(link_poll_ms))
            } else if !config_up {
                (ReadinessPhase::WaitingConfig, ReadinessAction::Poll(config_poll_ms))
            } else {
                (ReadinessPhase::Ready, ReadinessAction::StartService)
            },
            ReadinessPhase::WaitingConfig => if !config_up {
                (ReadinessPhase::WaitingConfig, ReadinessAction::Poll(config_poll_ms))
            } else {
                (ReadinessPhase::Ready, ReadinessAction::StartService)
            },
            ReadinessPhase::Ready => (ReadinessPhase::Ready, ReadinessAction::StartService),
        }),
{
    match phase {
        ReadinessPhase::WaitingLink => {
            if !link_up {
                (ReadinessPhase::WaitingLink, ReadinessAction::Poll(link_poll_ms))
            } else if !config_up {
                (ReadinessPhase::WaitingConfig, ReadinessAction::Poll(config_poll_ms))
            } else {
                (ReadinessPhase::Ready, ReadinessAction::StartService)
            }
        },
        ReadinessPhase::WaitingConfig => {
            if !config_up {
                (ReadinessPhase::WaitingConfig, ReadinessAction::Poll(config_poll_ms))
            } else {
                (ReadinessPhase::Ready, ReadinessAction::StartService)
            }
        },
        ReadinessPhase::Ready => (ReadinessPhase::Ready, ReadinessAction::StartService),
    }
}

/// The DHCP server never gives up: whatever ended the protocol cycle,
/// the next one follows after the fixed delay.
pub fn dhcp_after_cycle(_cycle_failed: bool) -> (delay_ms: u64)
    ensures
        delay_ms == DHCP_RETRY_MS,
{
    DHCP_RETRY_MS
}

/// Broker host of the optional telemetry publisher.
pub const MQTT_HOST: &'static str = "broker.emqx.io";

/// Broker port of the optional telemetry publisher.
pub const MQTT_PORT: u16 = 1883;

/// Client identifier of the optional telemetry publisher.
pub const MQTT_CLIENT_ID: &'static str = "edge-mqtt-demo";

/// Topic the optional telemetry publisher publishes and subscribes to.
pub const MQTT_TOPIC: &'static str = "edge-mqtt-demo";

/// Payload the optional telemetry publisher sends.
pub const MQTT_PAYLOAD: &'static str = "Hello from edge-mqtt-demo!";

/// Keep-alive of the broker session, in seconds.
pub const MQTT_KEEPALIVE_SECS: u64 = 10;

/// Delay before the first publication, to let it be received.
pub const MQTT_FIRST_WAIT_MS: u64 = 500;

/// Fixed interval between publications.
pub const MQTT_PERIOD_MS: u64 = 2000;

/// Where the telemetry publisher stands.
#[derive(Clone, Copy, PartialEq, Eq, Structural, Debug)]
pub enum MqttPhase {
    /// The one-time topic subscription is in flight.
    Subscribing,
    /// Waiting the initial delay before the first publication.
    InitialWait,
    /// A publication is in flight.
    Publishing,
    /// Waiting the fixed period before the next publication.
    BetweenPublications,
}

/// What the telemetry publisher does next.
#[derive(Clone, Copy, PartialEq, Eq, Structural, Debug)]
pub enum MqttAction {
    Wait(u64),
    Publish,
}

/// The telemetry publisher's cadence: subscribe once, wait the initial
/// delay, then publish the fixed payload forever, one publication per
/// period.
pub fn mqtt_step(phase: MqttPhase) -> (r: (MqttPhase, MqttAction))
    ensures
        r == (match phase {
            MqttPhase::Subscribing => (MqttPhase::InitialWait, MqttAction::Wait(MQTT_FIRST_WAIT_MS)),
            MqttPhase::InitialWait => (MqttPhase::Publishing, MqttAction::Publish),
            MqttPhase::Publishing => (
                MqttPhase::BetweenPublications,
                MqttAction::Wait(MQTT_PERIOD_MS),
            ),
            MqttPhase::BetweenPublications => (MqttPhase::Publishing, MqttAction::Publish),
        }),
{
    match phase {
        MqttPhase::Subscribing => (MqttPhase::InitialWait, MqttAction::Wait(MQTT_FIRST_WAIT_MS)),
        MqttPhase::InitialWait => (MqttPhase::Publishing, MqttAction::Publish),
        MqttPhase::Publishing => (MqttPhase::BetweenPublications, MqttAction::Wait(MQTT_PERIOD_MS)),
        MqttPhase::BetweenPublications => (MqttPhase::Publishing, MqttAction::Publish),
    }
}

} // verus!
