use vstd::prelude::*;
use crate::fsm::{event_code, SwindleEvents};

verus! {

/// Notification bit that tells the receiving task a message waits in the
/// queue; every other notification value is a message in itself.
pub const BIQUEUE_QUEUE_FLAG: u32 = 0x8000_0000u32;

/// The next thing `BiQueue::receive` does.
#[derive(Clone, Copy, Debug, PartialEq, Eq, Structural)]
pub enum ReceiveStep {
    /// Clear the notification bits `clear` and return `value` (0: nothing came).
    Return { clear: u32, value: u32 },
    /// Wait (with a time-out) for notification bits.
    WaitBits,
    /// Poll the queue again: the bits announced a queued message.
    PollQueue,
}

/// After polling the queue, which returned `msg` (0 when it was empty):
/// a message is returned and its announcement cleared, otherwise the
/// receiver waits for notification bits.
pub fn after_poll(msg: u32) -> (s: ReceiveStep)
    ensures
        s == (if msg != 0 {
            ReceiveStep::Return { clear: BIQUEUE_QUEUE_FLAG, value: msg }
        } else {
            ReceiveStep::WaitBits
        }),
{
    if msg != 0 {
        ReceiveStep::Return { clear: BIQUEUE_QUEUE_FLAG, value: msg }
    } else {
        ReceiveStep::WaitBits
    }
}

/// The step `after_wait` takes for `bits`.
pub open spec fn after_wait_spec(bits: u32) -> ReceiveStep {
    if bits & BIQUEUE_QUEUE_FLAG != 0 {
        ReceiveStep::PollQueue
    } else {
        ReceiveStep::Return { clear: bits, value: bits }
    }
}

/// After waiting for notification bits, which came back as `bits` (0 on a
/// time-out): the queue flag sends the receiver back to the queue, any
/// other value is cleared and returned as the message.
pub fn after_wait(bits: u32) -> (s: ReceiveStep)
    ensures
        s == after_wait_spec(bits),
{
    if bits & BIQUEUE_QUEUE_FLAG != 0 {
        ReceiveStep::PollQueue
    } else {
        ReceiveStep::Return { clear: bits, value: bits }
    }
}

/// No event code carries the queue flag, so an event sent as a direct
/// notification is returned as itself and never taken for the flag.
pub proof fn lemma_event_codes_avoid_flag(e: SwindleEvents)
    ensures
        event_code(e) & BIQUEUE_QUEUE_FLAG == 0,
        after_wait_spec(event_code(e)) == (ReceiveStep::Return {
            clear: event_code(e),
            value: event_code(e),
        }),
{
    let c = event_code(e);
    assert(c <= 8 ==> c & 0x8000_0000u32 == 0) by (bit_vector);
}

} // verus!
