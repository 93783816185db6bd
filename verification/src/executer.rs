use vstd::prelude::*;
use crate::fsm::SwindleEvents;

verus! {

/// Commands the state machine's executer hands to its Wi-Fi worker.
#[derive(Clone, Copy, Debug, PartialEq, Eq, Structural)]
pub enum WifiCommand {
    StartDhcp,
    Stop,
    Provision,
    StartServer,
    KillGdb,
}

/// Commands the Wi-Fi worker hands to the GDB server thread.
#[derive(Clone, Copy, Debug, PartialEq, Eq, Structural)]
pub enum GdbControl {
    StartServer,
    StopGdb,
}

/// The end of an address negotiation: whether the station must be
/// disconnected, and the event reported to the state machine. An address
/// was obtained only when the connection and the interface both came up.
pub fn dhcp_outcome(connected: bool, got_address: bool) -> (r: (bool, SwindleEvents))
    ensures
        r == (if connected && got_address {
            (false, SwindleEvents::IpReady)
        } else {
            (true, SwindleEvents::NetworkLoss)
        }),
{
    if connected {
        if got_address {
            (false, SwindleEvents::IpReady)
        } else {
            (true, SwindleEvents::NetworkLoss)
        }
    } else {
        (true, SwindleEvents::NetworkLoss)
    }
}

} // verus!
