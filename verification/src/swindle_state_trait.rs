use vstd::prelude::*;

verus! {

/// What the connection state machine asks of the rest of the firmware.
/// The implementation drives the radio, the provisioning manager and the
/// GDB sockets; the state machine only decides when each is called.
pub trait SwindleStateTrait {
    fn start_dhcp(&self);

    fn start_ble_provisioning(&self);

    fn start_sockets(&self);

    fn stop_sockets(&self);

    fn start_swindle(&self);

    fn stop_swindle(&self);

    fn has_provisioning(&self) -> bool;

    fn reset_provisioning(&self);
}

} // verus!
