//! Decision logic of the Swindle wireless SWD probe: the connection state
//! machine and the event encoding it shares with the event queue, the
//! buffered transmit path of the GDB connection, the status LED colour
//! scaling, and the decisions of the Wi-Fi, provisioning and queue tasks.

pub mod executer;
pub mod fsm;
pub mod fsm_led;
pub mod handle_connection;
pub mod provisioning;
pub mod qevent;
mod swindle_state_trait;

pub use swindle_state_trait::SwindleStateTrait;
