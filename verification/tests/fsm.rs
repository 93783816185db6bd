use std::cell::Cell;
use swindle::fsm::{LedStatus, MachineAction, MachineStates, SwindleEvents, SwindleState};
use swindle::SwindleStateTrait;

#[derive(Default)]
struct Recorder {
    provisioned: bool,
    asked: Cell<u32>,
    dhcp: Cell<u32>,
    ble: Cell<u32>,
    sockets: Cell<u32>,
    stop_sockets: Cell<u32>,
    swindle: Cell<u32>,
    reset: Cell<u32>,
}

impl SwindleStateTrait for Recorder {
    fn start_dhcp(&self) {
        self.dhcp.set(self.dhcp.get() + 1);
    }
    fn start_ble_provisioning(&self) {
        self.ble.set(self.ble.get() + 1);
    }
    fn start_sockets(&self) {
        self.sockets.set(self.sockets.get() + 1);
    }
    fn stop_sockets(&self) {
        self.stop_sockets.set(self.stop_sockets.get() + 1);
    }
    fn start_swindle(&self) {
        self.swindle.set(self.swindle.get() + 1);
    }
    fn stop_swindle(&self) {}
    fn has_provisioning(&self) -> bool {
        self.asked.set(self.asked.get() + 1);
        self.provisioned
    }
    fn reset_provisioning(&self) {
        self.reset.set(self.reset.get() + 1);
    }
}

fn recorder(provisioned: bool) -> &'static Recorder {
    Box::leak(Box::new(Recorder { provisioned, ..Default::default() }))
}

const ALL_EVENTS: [SwindleEvents; 8] = [
    SwindleEvents::Start,
    SwindleEvents::Configured,
    SwindleEvents::Configuring,
    SwindleEvents::IpReady,
    SwindleEvents::Attach,
    SwindleEvents::Detach,
    SwindleEvents::NetworkLoss,
    SwindleEvents::ResetConfiguration,
];

#[test]
fn event_codes_round_trip() {
    for (i, e) in ALL_EVENTS.iter().enumerate() {
        let code = e.to_u32();
        assert_eq!(code, i as u32 + 1);
        assert_eq!(SwindleEvents::from_u32(code), Some(*e));
    }
    assert_eq!(SwindleEvents::from_u32(0), None);
    assert_eq!(SwindleEvents::from_u32(9), None);
    assert_eq!(SwindleEvents::from_u32(0x8000_0000), None);
}

#[test]
fn new_machine_is_idle_with_empty_outbox() {
    let mut m = SwindleState::new(recorder(true));
    assert_eq!(m.current_state(), MachineStates::Idle);
    assert_eq!(m.take_outbox(), None);
    assert_eq!(MachineStates::default(), MachineStates::Idle);
}

#[test]
fn start_when_provisioned_starts_dhcp() {
    let r = recorder(true);
    let mut m = SwindleState::new(r);
    let a = m.handle_event(&SwindleEvents::Start);
    assert_eq!(a, MachineAction::StartDhcp);
    assert_eq!(a.led_status(), Some(LedStatus::Dhcping));
    assert_eq!(m.current_state(), MachineStates::DhcpIng);
    assert_eq!(r.asked.get(), 1);
    assert_eq!(m.take_outbox(), None);
}

#[test]
fn start_when_not_provisioned_starts_ble() {
    let r = recorder(false);
    let mut m = SwindleState::new(r);
    let a = m.handle_event(&SwindleEvents::Start);
    assert_eq!(a, MachineAction::StartBleProvisioning);
    assert_eq!(a.led_status(), Some(LedStatus::Provisioning));
    assert_eq!(m.current_state(), MachineStates::Configuring);
    assert_eq!(m.handle_event(&SwindleEvents::Configured), MachineAction::StartDhcp);
    assert_eq!(m.current_state(), MachineStates::DhcpIng);
    // the executer is asked only for `Start` in `Idle`
    assert_eq!(r.asked.get(), 1);
}

#[test]
fn full_session() {
    let r = recorder(true);
    let mut m = SwindleState::new(r);
    assert_eq!(m.handle_event(&SwindleEvents::Start), MachineAction::StartDhcp);
    assert_eq!(m.handle_event(&SwindleEvents::IpReady), MachineAction::StartSockets);
    assert_eq!(m.current_state(), MachineStates::Waiting);
    assert_eq!(m.handle_event(&SwindleEvents::Attach), MachineAction::StartSwindle);
    assert_eq!(m.current_state(), MachineStates::Attached);
    assert_eq!(m.handle_event(&SwindleEvents::Detach), MachineAction::StopSockets);
    assert_eq!(m.current_state(), MachineStates::Waiting);
    m.handle_event(&SwindleEvents::Attach);
    assert_eq!(m.handle_event(&SwindleEvents::NetworkLoss), MachineAction::StopSockets);
    assert_eq!(m.current_state(), MachineStates::DhcpIng);
    assert_eq!(MachineAction::StopSockets.led_status(), None);
    assert_eq!(MachineAction::StartSockets.led_status(), None);
    // the library itself never calls the executer's actions
    assert_eq!(r.dhcp.get() + r.ble.get() + r.sockets.get() + r.stop_sockets.get(), 0);
    assert_eq!(r.swindle.get() + r.reset.get(), 0);
    assert_eq!(m.take_outbox(), None);
}

#[test]
fn network_loss_while_dhcp_posts_start() {
    let r = recorder(true);
    let mut m = SwindleState::new(r);
    m.handle_event(&SwindleEvents::Start);
    assert!(m.can_handle(&SwindleEvents::NetworkLoss));
    assert_eq!(m.handle_event(&SwindleEvents::NetworkLoss), MachineAction::EmitStart);
    assert_eq!(m.current_state(), MachineStates::Idle);
    let posted = m.take_outbox();
    assert_eq!(posted, Some(SwindleEvents::Start));
    assert_eq!(m.take_outbox(), None);
    assert_eq!(m.handle_event(&posted.unwrap()), MachineAction::StartDhcp);
    assert_eq!(m.current_state(), MachineStates::DhcpIng);
    assert_eq!(r.asked.get(), 2);
}

#[test]
fn full_outbox_refuses_a_second_post() {
    let mut m = SwindleState::new(recorder(true));
    m.handle_event(&SwindleEvents::Start);
    m.handle_event(&SwindleEvents::NetworkLoss);
    m.handle_event(&SwindleEvents::Start);
    assert_eq!(m.current_state(), MachineStates::DhcpIng);
    assert!(!m.can_handle(&SwindleEvents::NetworkLoss));
    assert!(m.can_handle(&SwindleEvents::IpReady));
}

#[test]
fn reset_configuration_is_final() {
    let r = recorder(true);
    let mut m = SwindleState::new(r);
    assert_eq!(m.handle_event(&SwindleEvents::ResetConfiguration), MachineAction::ResetProvisioning);
    assert_eq!(m.current_state(), MachineStates::Reset);
    for e in ALL_EVENTS.iter() {
        assert_eq!(m.handle_event(e), MachineAction::NoAction);
        assert_eq!(m.current_state(), MachineStates::Reset);
    }
    assert_eq!(r.asked.get(), 0);
    assert_eq!(m.take_outbox(), None);
}

#[test]
fn ignored_events_change_nothing() {
    let r = recorder(true);
    let mut m = SwindleState::new(r);
    m.handle_event(&SwindleEvents::Start);
    m.handle_event(&SwindleEvents::IpReady);
    assert_eq!(m.handle_event(&SwindleEvents::Start), MachineAction::NoAction);
    assert_eq!(m.handle_event(&SwindleEvents::Detach), MachineAction::NoAction);
    assert_eq!(m.handle_event(&SwindleEvents::Configured), MachineAction::NoAction);
    assert_eq!(m.current_state(), MachineStates::Waiting);
    assert_eq!(r.asked.get(), 1);
}

#[test]
fn transition_table() {
    assert_eq!(MachineStates::Idle.decide(&SwindleEvents::Start, true), (Some(MachineStates::DhcpIng), MachineAction::StartDhcp));
    assert_eq!(MachineStates::Idle.decide(&SwindleEvents::Start, false), (Some(MachineStates::Configuring), MachineAction::StartBleProvisioning));
    assert_eq!(MachineStates::Idle.decide(&SwindleEvents::ResetConfiguration, false), (Some(MachineStates::Reset), MachineAction::ResetProvisioning));
    assert_eq!(MachineStates::Configuring.decide(&SwindleEvents::Configured, false), (Some(MachineStates::DhcpIng), MachineAction::StartDhcp));
    assert_eq!(MachineStates::DhcpIng.decide(&SwindleEvents::IpReady, false), (Some(MachineStates::Waiting), MachineAction::StartSockets));
    assert_eq!(MachineStates::DhcpIng.decide(&SwindleEvents::NetworkLoss, false), (Some(MachineStates::Idle), MachineAction::EmitStart));
    assert_eq!(MachineStates::Waiting.decide(&SwindleEvents::Attach, false), (Some(MachineStates::Attached), MachineAction::StartSwindle));
    assert_eq!(MachineStates::Attached.decide(&SwindleEvents::Detach, false), (Some(MachineStates::Waiting), MachineAction::StopSockets));
    assert_eq!(MachineStates::Attached.decide(&SwindleEvents::NetworkLoss, true), (Some(MachineStates::DhcpIng), MachineAction::StopSockets));
    assert_eq!(MachineStates::Waiting.decide(&SwindleEvents::NetworkLoss, true), (Some(MachineStates::DhcpIng), MachineAction::StopSockets));
    assert_eq!(MachineStates::Waiting.decide(&SwindleEvents::ResetConfiguration, true), (None, MachineAction::NoAction));
    assert_eq!(MachineStates::DhcpIng.decide(&SwindleEvents::Start, true), (None, MachineAction::NoAction));
}

#[test]
fn transit_and_force_state() {
    let mut m = SwindleState::new(recorder(true));
    m.transit(MachineStates::Attached);
    assert_eq!(m.current_state(), MachineStates::Attached);
    m.force_state(MachineStates::Waiting);
    assert_eq!(m.current_state(), MachineStates::Waiting);
    assert_eq!(m.take_outbox(), None);
}

#[test]
fn button_held_at_boot_resets_configuration() {
    assert_eq!(SwindleEvents::initial_event(true, true), SwindleEvents::ResetConfiguration);
    assert_eq!(SwindleEvents::initial_event(true, false), SwindleEvents::Start);
    assert_eq!(SwindleEvents::initial_event(false, false), SwindleEvents::Start);
}
