use vstd::prelude::*;
use crate::swindle_state_trait::SwindleStateTrait;

verus! {

/// States of the connection state machine.
#[derive(Clone, Copy, Debug, PartialEq, Eq, Structural)]
pub enum MachineStates {
    Idle,
    DhcpIng,
    Configuring,
    Waiting,
    Attached,
    Reset,
}

impl Default for MachineStates {
    fn default() -> (s: MachineStates)
        ensures
            s == MachineStates::Idle,
    {
        MachineStates::Idle
    }
}

/// Events fed to the state machine. On the event queue each one travels as
/// its code: `Start` is 1 and the following variants count up from there.
#[derive(Clone, Copy, Debug, PartialEq, Eq, Structural)]
pub enum SwindleEvents {
    Start,
    Configured,
    Configuring,
    IpReady,
    Attach,
    Detach,
    NetworkLoss,
    ResetConfiguration,
}

/// The first event fed to the machine at boot: `ResetConfiguration` when
/// the user button was held down both when first read and again after the
/// debounce delay, `Start` otherwise.
pub open spec fn spec_initial_event(held: bool, still_held: bool) -> SwindleEvents {
    if held && still_held {
        SwindleEvents::ResetConfiguration
    } else {
        SwindleEvents::Start
    }
}

/// The code of an event on the event queue.
pub open spec fn event_code(e: SwindleEvents) -> u32 {
    match e {
        SwindleEvents::Start => 1,
        SwindleEvents::Configured => 2,
        SwindleEvents::Configuring => 3,
        SwindleEvents::IpReady => 4,
        SwindleEvents::Attach => 5,
        SwindleEvents::Detach => 6,
        SwindleEvents::NetworkLoss => 7,
        SwindleEvents::ResetConfiguration => 8,
    }
}

/// The event whose code is `n`, if there is one.
pub open spec fn event_of_code(n: u32) -> Option<SwindleEvents> {
    if n == 1 {
        Some(SwindleEvents::Start)
    } else if n == 2 {
        Some(SwindleEvents::Configured)
    } else if n == 3 {
        Some(SwindleEvents::Configuring)
    } else if n == 4 {
        Some(SwindleEvents::IpReady)
    } else if n == 5 {
        Some(SwindleEvents::Attach)
    } else if n == 6 {
        Some(SwindleEvents::Detach)
    } else if n == 7 {
        Some(SwindleEvents::NetworkLoss)
    } else if n == 8 {
        Some(SwindleEvents::ResetConfiguration)
    } else {
        None
    }
}

impl SwindleEvents {
    /// The first event fed to the machine at boot, from the two readings of
    /// the user button (`still_held` is only read when `held`).
    pub fn initial_event(held: bool, still_held: bool) -> (e: SwindleEvents)
        ensures
            e == spec_initial_event(held, still_held),
    {
        if held && still_held {
            SwindleEvents::ResetConfiguration
        } else {
            SwindleEvents::Start
        }
    }

    /// The event's code on the event queue.
    pub fn to_u32(&self) -> (n: u32)
        ensures
            n == event_code(*self),
    {
        match self {
            SwindleEvents::Start => 1,
            SwindleEvents::Configured => 2,
            SwindleEvents::Configuring => 3,
            SwindleEvents::IpReady => 4,
            SwindleEvents::Attach => 5,
            SwindleEvents::Detach => 6,
            SwindleEvents::NetworkLoss => 7,
            SwindleEvents::ResetConfiguration => 8,
        }
    }

    /// Decodes an event read from the event queue; `None` for any number
    /// that is no event's code (0, the queue's time-out value, among them).
    pub fn from_u32(n: u32) -> (e: Option<SwindleEvents>)
        ensures
            e == event_of_code(n),
    {
        match n {
            1 => Some(SwindleEvents::Start),
            2 => Some(SwindleEvents::Configured),
            3 => Some(SwindleEvents::Configuring),
            4 => Some(SwindleEvents::IpReady),
            5 => Some(SwindleEvents::Attach),
            6 => Some(SwindleEvents::Detach),
            7 => Some(SwindleEvents::NetworkLoss),
            8 => Some(SwindleEvents::ResetConfiguration),
            _ => None,
        }
    }
}

/// Decoding a code gives back the event that was encoded.
pub proof fn lemma_event_code_round_trip(e: SwindleEvents)
    ensures
        event_of_code(event_code(e)) == Some(e),
{
}

/// A number decodes to an event only if it is that event's code; in
/// particular 0, which the queue returns on a time-out, decodes to nothing.
pub proof fn lemma_event_of_code_inverse(n: u32)
    ensures
        event_of_code(n) matches Some(e) ==> event_code(e) == n,
        event_of_code(n) is None <==> (n == 0 || n > 8),
{
}

/// What the context is asked to do on a transition.
#[derive(Clone, Copy, Debug, PartialEq, Eq, Structural)]
pub enum MachineAction {
    /// The event is ignored in this state.
    NoAction,
    ResetProvisioning,
    StartDhcp,
    StartBleProvisioning,
    StartSockets,
    /// The machine posts `Start` to itself through its outbox.
    EmitStart,
    StartSwindle,
    StopSockets,
}

/// The transition table: the next state, if the event causes a
/// transition, and the action taken. `provisioned` is the answer of
/// the executer to `has_provisioning`; only `Start` in `Idle` reads it.
pub open spec fn transition(s: MachineStates, e: SwindleEvents, provisioned: bool) -> (
    Option<MachineStates>,
    MachineAction,
) {
    match (s, e) {
        (MachineStates::Idle, SwindleEvents::ResetConfiguration) => (
            Some(MachineStates::Reset),
            MachineAction::ResetProvisioning,
        ),
        (MachineStates::Idle, SwindleEvents::Start) => if provisioned {
            (Some(MachineStates::DhcpIng), MachineAction::StartDhcp)
        } else {
            (Some(MachineStates::Configuring), MachineAction::StartBleProvisioning)
        },
        (MachineStates::Configuring, SwindleEvents::Configured) => (
            Some(MachineStates::DhcpIng),
            MachineAction::StartDhcp,
        ),
        (MachineStates::DhcpIng, SwindleEvents::IpReady) => (
            Some(MachineStates::Waiting),
            MachineAction::StartSockets,
        ),
        (MachineStates::DhcpIng, SwindleEvents::NetworkLoss) => (
            Some(MachineStates::Idle),
            MachineAction::EmitStart,
        ),
        (MachineStates::Waiting, SwindleEvents::Attach) => (
            Some(MachineStates::Attached),
            MachineAction::StartSwindle,
        ),
        (MachineStates::Attached, SwindleEvents::Detach) => (
            Some(MachineStates::Waiting),
            MachineAction::StopSockets,
        ),
        (MachineStates::Attached, SwindleEvents::NetworkLoss) => (
            Some(MachineStates::DhcpIng),
            MachineAction::StopSockets,
        ),
        (MachineStates::Waiting, SwindleEvents::NetworkLoss) => (
            Some(MachineStates::DhcpIng),
            MachineAction::StopSockets,
        ),
        _ => (None, MachineAction::NoAction),
    }
}

/// The state the machine is in after handling `e` in `s`.
pub open spec fn next_state(s: MachineStates, e: SwindleEvents, provisioned: bool) -> MachineStates {
    match transition(s, e, provisioned).0 {
        Some(n) => n,
        None => s,
    }
}

/// Whether handling `e` in `s` posts a message to the outbox.
pub open spec fn emits(s: MachineStates, e: SwindleEvents) -> bool {
    transition(s, e, false).1 == MachineAction::EmitStart
}

/// Whether the transition for `e` in `s` asks the executer about provisioning.
pub open spec fn asks_provisioning(s: MachineStates, e: SwindleEvents) -> bool {
    s == MachineStates::Idle && e == SwindleEvents::Start
}

impl MachineStates {
    /// Looks up the transition table for `event` in this state.
    pub fn decide(&self, event: &SwindleEvents, provisioned: bool) -> (r: (
        Option<MachineStates>,
        MachineAction,
    ))
        ensures
            r == transition(*self, *event, provisioned),
    {
        match (self, event) {
            (MachineStates::Idle, SwindleEvents::ResetConfiguration) => (
                Some(MachineStates::Reset),
                MachineAction::ResetProvisioning,
            ),
            (MachineStates::Idle, SwindleEvents::Start) => {
                if provisioned {
                    (Some(MachineStates::DhcpIng), MachineAction::StartDhcp)
                } else {
                    (Some(MachineStates::Configuring), MachineAction::StartBleProvisioning)
                }
            },
            (MachineStates::Configuring, SwindleEvents::Configured) => (
                Some(MachineStates::DhcpIng),
                MachineAction::StartDhcp,
            ),
            (MachineStates::DhcpIng, SwindleEvents::IpReady) => (
                Some(MachineStates::Waiting),
                MachineAction::StartSockets,
            ),
            (MachineStates::DhcpIng, SwindleEvents::NetworkLoss) => (
                Some(MachineStates::Idle),
                MachineAction::EmitStart,
            ),
            (MachineStates::Waiting, SwindleEvents::Attach) => (
                Some(MachineStates::Attached),
                MachineAction::StartSwindle,
            ),
            (MachineStates::Attached, SwindleEvents::Detach) => (
                Some(MachineStates::Waiting),
                MachineAction::StopSockets,
            ),
            (MachineStates::Attached, SwindleEvents::NetworkLoss) => (
                Some(MachineStates::DhcpIng),
                MachineAction::StopSockets,
            ),
            (MachineStates::Waiting, SwindleEvents::NetworkLoss) => (
                Some(MachineStates::DhcpIng),
                MachineAction::StopSockets,
            ),
            _ => (None, MachineAction::NoAction),
        }
    }

    /// Handles `event` in this state: asks the executer whether the device
    /// is provisioned where the table needs it, posts to the outbox where
    /// the table says so, and returns the next state (if the event causes a
    /// transition) with the action the caller is to carry out.
    pub fn handle_event<E: SwindleStateTrait + ?Sized + 'static>(
        &self,
        event: &SwindleEvents,
        context: &mut MachineContext<E>,
    ) -> (r: (Option<MachineStates>, MachineAction))
        requires
            emits(*self, *event) ==> old(context).posted() is None,
        ensures
            exists|p: bool| #[trigger] transition(*self, *event, p) == r,
            !asks_provisioning(*self, *event) ==> r == transition(*self, *event, false),
            final(context).posted() == (if emits(*self, *event) {
                Some(SwindleEvents::Start)
            } else {
                old(context).posted()
            }),
            final(context).executer() == old(context).executer(),
    {
        let provisioned = match (self, event) {
            (MachineStates::Idle, SwindleEvents::Start) => context.has_provisioning(),
            _ => false,
        };
        let (next, action) = self.decide(event, provisioned);
        match action {
            MachineAction::EmitStart => context.emit(SwindleEvents::Start),
            _ => {},
        }
        proof {
            assert(transition(*self, *event, provisioned) == (next, action));
        }
        (next, action)
    }

    /// Called on entering this state; nothing is done on entry.
    pub fn enter<E: SwindleStateTrait + ?Sized + 'static>(&self, _context: &mut MachineContext<E>)
        ensures
            *final(_context) == *old(_context),
    {
    }

    /// Called on leaving this state; nothing is done on exit.
    pub fn exit<E: SwindleStateTrait + ?Sized + 'static>(&self, _context: &mut MachineContext<E>)
        ensures
            *final(_context) == *old(_context),
    {
    }
}

/// What the status LED shows for an action of the machine, where the
/// machine sets it itself: connecting when it starts DHCP, waiting for
/// provisioning when it starts BLE provisioning.
#[derive(Clone, Copy, Debug, PartialEq, Eq, Structural)]
pub enum LedStatus {
    Dhcping,
    Provisioning,
}

impl MachineAction {
    /// The LED status the machine shows when carrying out this action, if any.
    pub fn led_status(&self) -> (l: Option<LedStatus>)
        ensures
            l == (match *self {
                MachineAction::StartDhcp => Some(LedStatus::Dhcping),
                MachineAction::StartBleProvisioning => Some(LedStatus::Provisioning),
                _ => None,
            }),
    {
        match self {
            MachineAction::StartDhcp => Some(LedStatus::Dhcping),
            MachineAction::StartBleProvisioning => Some(LedStatus::Provisioning),
            _ => None,
        }
    }
}

/// Data shared between the states: the executer that is asked whether the
/// device is provisioned, and a one-message outbox through which the
/// machine posts events to itself.
pub struct MachineContext<E: SwindleStateTrait + ?Sized + 'static> {
    executer: &'static E,
    outbox: Option<SwindleEvents>,
}

impl<E: SwindleStateTrait + ?Sized + 'static> MachineContext<E> {
    /// The message waiting in the outbox.
    pub closed spec fn posted(&self) -> Option<SwindleEvents> {
        self.outbox
    }

    /// The executer the context was made with.
    pub closed spec fn executer(&self) -> &'static E {
        self.executer
    }

    /// Posts `event` to the outbox, which must be empty.
    fn emit(&mut self, event: SwindleEvents)
        requires
            old(self).outbox is None,
        ensures
            final(self).outbox == Some(event),
            final(self).executer == old(self).executer,
    {
        self.outbox = Some(event);
    }

    /// Asks the executer whether the device is provisioned; the answer
    /// comes from the executer's own state, of which nothing is known here.
    fn has_provisioning(&self) -> bool {
        self.executer.has_provisioning()
    }
}

/// The connection state machine: its current state and its context.
/// `E` is the type of the executer; it may be `dyn SwindleStateTrait`.
pub struct SwindleState<E: SwindleStateTrait + ?Sized + 'static> {
    current_state: MachineStates,
    context: MachineContext<E>,
}

impl<E: SwindleStateTrait + ?Sized + 'static> SwindleState<E> {
    pub closed spec fn state(&self) -> MachineStates {
        self.current_state
    }

    pub closed spec fn outbox(&self) -> Option<SwindleEvents> {
        self.context.posted()
    }

    /// The executer the machine was made with.
    pub closed spec fn executer(&self) -> &'static E {
        self.context.executer()
    }

    /// A machine in `Idle` with an empty outbox, asking `executer` about provisioning.
    pub fn new(executer: &'static E) -> (s: SwindleState<E>)
        ensures
            s.state() == MachineStates::Idle,
            s.outbox() is None,
            s.executer() == executer,
    {
        SwindleState {
            current_state: MachineStates::Idle,
            context: MachineContext { executer, outbox: None },
        }
    }

    /// The current state.
    pub fn current_state(&self) -> (s: MachineStates)
        ensures
            s == self.state(),
    {
        self.current_state
    }

    /// Whether `handle_event` may take `event` now: it may unless the event
    /// makes the machine post to an outbox that is still full.
    pub fn can_handle(&self, event: &SwindleEvents) -> (b: bool)
        ensures
            b == (emits(self.state(), *event) ==> self.outbox() is None),
    {
        match (self.current_state, event) {
            (MachineStates::DhcpIng, SwindleEvents::NetworkLoss) => self.context.outbox.is_none(),
            _ => true,
        }
    }

    /// Takes the message the machine posted to itself, leaving the outbox empty.
    pub fn take_outbox(&mut self) -> (m: Option<SwindleEvents>)
        ensures
            m == old(self).outbox(),
            final(self).outbox() is None,
            final(self).state() == old(self).state(),
            final(self).executer() == old(self).executer(),
    {
        self.context.outbox.take()
    }

    /// Handles `event`: on a transition the current state is left and the
    /// next one entered; an ignored event changes nothing. Returns the
    /// action the caller is to carry out.
    pub fn handle_event(&mut self, event: &SwindleEvents) -> (a: MachineAction)
        requires
            emits(old(self).state(), *event) ==> old(self).outbox() is None,
        ensures
            exists|p: bool|
                #![trigger transition(old(self).state(), *event, p)]
                next_state(old(self).state(), *event, p) == final(self).state()
                    && transition(old(self).state(), *event, p).1 == a,
            !asks_provisioning(old(self).state(), *event) ==> final(self).state() == next_state(
                old(self).state(),
                *event,
                false,
            ) && a == transition(old(self).state(), *event, false).1,
            final(self).outbox() == (if emits(old(self).state(), *event) {
                Some(SwindleEvents::Start)
            } else {
                old(self).outbox()
            }),
            final(self).executer() == old(self).executer(),
    {
        let ghost s0 = self.current_state;
        let (r, action) = self.current_state.handle_event(event, &mut self.context);
        let ghost p = choose|p: bool| #[trigger] transition(s0, *event, p) == (r, action);
        proof {
            assert(transition(s0, *event, p) == (r, action));
        }
        match r {
            Some(next) => self.transit(next),
            None => {},
        }
        proof {
            assert(next_state(s0, *event, p) == self.current_state);
        }
        action
    }

    /// Leaves the current state and enters `new_state`.
    pub fn transit(&mut self, new_state: MachineStates)
        ensures
            final(self).state() == new_state,
            final(self).outbox() == old(self).outbox(),
            final(self).executer() == old(self).executer(),
    {
        self.current_state.exit(&mut self.context);
        self.current_state = new_state;
        self.current_state.enter(&mut self.context);
    }

    /// Sets the current state without leaving or entering any state.
    pub fn force_state(&mut self, new_state: MachineStates)
        ensures
            final(self).state() == new_state,
            final(self).outbox() == old(self).outbox(),
            final(self).executer() == old(self).executer(),
    {
        self.current_state = new_state;
    }
}

} // verus!

verus! {

/// Only `Start` in `Idle` depends on whether the device is provisioned;
/// every other transition is the same whatever the executer answers.
pub proof fn lemma_provisioning_read_only_on_start(s: MachineStates, e: SwindleEvents)
    ensures
        !asks_provisioning(s, e) ==> transition(s, e, true) == transition(s, e, false),
{
}

/// `Start` in `Idle` connects when the device is provisioned and starts
/// BLE provisioning otherwise.
pub proof fn lemma_start_from_idle(p: bool)
    ensures
        transition(MachineStates::Idle, SwindleEvents::Start, p) == (if p {
            (Some(MachineStates::DhcpIng), MachineAction::StartDhcp)
        } else {
            (Some(MachineStates::Configuring), MachineAction::StartBleProvisioning)
        }),
{
}

/// An event that causes no transition causes no action either.
pub proof fn lemma_ignored_event_does_nothing(s: MachineStates, e: SwindleEvents, p: bool)
    ensures
        transition(s, e, p).0 is None ==> transition(s, e, p).1 == MachineAction::NoAction,
        transition(s, e, p).0 is None ==> next_state(s, e, p) == s,
{
}

/// Once the provisioning was reset, no event moves the machine again, nor
/// posts to the outbox; and `Reset` is entered only from `Idle`, on
/// `ResetConfiguration`.
pub proof fn lemma_reset_is_final(s: MachineStates, e: SwindleEvents, p: bool)
    ensures
        transition(MachineStates::Reset, e, p) == (None::<MachineStates>, MachineAction::NoAction),
        next_state(MachineStates::Reset, e, p) == MachineStates::Reset,
        !emits(MachineStates::Reset, e),
        transition(s, e, p).0 == Some(MachineStates::Reset) <==> (s == MachineStates::Idle && e
            == SwindleEvents::ResetConfiguration),
{
}

/// The machine posts to its outbox only when the network is lost while
/// waiting for an address, and what it posts is `Start`. So a machine
/// whose outbox is drained after every event never finds it full.
pub proof fn lemma_outbox_discipline(s: MachineStates, e: SwindleEvents, p: bool)
    ensures
        emits(s, e) <==> (s == MachineStates::DhcpIng && e == SwindleEvents::NetworkLoss),
        (transition(s, e, p).1 == MachineAction::EmitStart) == emits(s, e),
{
}

/// A lost network always leads back to address negotiation: from `Waiting`
/// or `Attached` directly, and from `DhcpIng` through `Idle` and the
/// `Start` the machine posts to itself, when the device is provisioned.
pub proof fn lemma_network_loss_recovers(s: MachineStates, p: bool)
    requires
        s == MachineStates::DhcpIng || s == MachineStates::Waiting || s == MachineStates::Attached,
    ensures
        s != MachineStates::DhcpIng ==> next_state(s, SwindleEvents::NetworkLoss, p)
            == MachineStates::DhcpIng,
        s == MachineStates::DhcpIng ==> next_state(s, SwindleEvents::NetworkLoss, p)
            == MachineStates::Idle && emits(s, SwindleEvents::NetworkLoss) && next_state(
            next_state(s, SwindleEvents::NetworkLoss, p),
            SwindleEvents::Start,
            true,
        ) == MachineStates::DhcpIng,
{
}

/// A debugger session is entered only from `Waiting`, on `Attach`.
pub proof fn lemma_attached_only_from_waiting(s: MachineStates, e: SwindleEvents, p: bool)
    ensures
        next_state(s, e, p) == MachineStates::Attached ==> s == MachineStates::Attached || (s
            == MachineStates::Waiting && e == SwindleEvents::Attach),
{
}

/// The GDB sockets are opened only once an address was obtained.
pub proof fn lemma_sockets_open_on_ip(s: MachineStates, e: SwindleEvents, p: bool)
    ensures
        transition(s, e, p).1 == MachineAction::StartSockets <==> (s == MachineStates::DhcpIng && e
            == SwindleEvents::IpReady),
{
}

} // verus!

verus! {

/// The events that move the machine are exactly those of the connection
/// protocol; every other event, such as `Detach` outside a debugger
/// session, leaves the machine where it is and does nothing.
pub proof fn lemma_handled_events(s: MachineStates, e: SwindleEvents, p: bool)
    ensures
        transition(s, e, p).0 is Some <==> {
            ||| s == MachineStates::Idle && (e == SwindleEvents::ResetConfiguration || e
                == SwindleEvents::Start)
            ||| s == MachineStates::Configuring && e == SwindleEvents::Configured
            ||| s == MachineStates::DhcpIng && (e == SwindleEvents::IpReady || e
                == SwindleEvents::NetworkLoss)
            ||| s == MachineStates::Waiting && (e == SwindleEvents::Attach || e
                == SwindleEvents::NetworkLoss)
            ||| s == MachineStates::Attached && (e == SwindleEvents::Detach || e
                == SwindleEvents::NetworkLoss)
        },
        e == SwindleEvents::Detach && s != MachineStates::Attached ==> transition(s, e, p) == (
            None::<MachineStates>,
            MachineAction::NoAction,
        ),
{
}

/// Where each state is entered from: an address is being negotiated after
/// a provisioned start, after provisioning, or after the network was lost
/// in a connected state; the debugger is waited for once an address came
/// or a session ended; and so on for every state.
pub proof fn lemma_entered_from(s: MachineStates, e: SwindleEvents, p: bool)
    ensures
        transition(s, e, p).0 == Some(MachineStates::Waiting) <==> (s == MachineStates::DhcpIng
            && e == SwindleEvents::IpReady) || (s == MachineStates::Attached && e
            == SwindleEvents::Detach),
        transition(s, e, p).0 == Some(MachineStates::DhcpIng) <==> (s == MachineStates::Idle && e
            == SwindleEvents::Start && p) || (s == MachineStates::Configuring && e
            == SwindleEvents::Configured) || ((s == MachineStates::Waiting || s
            == MachineStates::Attached) && e == SwindleEvents::NetworkLoss),
        transition(s, e, p).0 == Some(MachineStates::Configuring) <==> (s == MachineStates::Idle
            && e == SwindleEvents::Start && !p),
        transition(s, e, p).0 == Some(MachineStates::Idle) <==> (s == MachineStates::DhcpIng && e
            == SwindleEvents::NetworkLoss),
        transition(s, e, p).0 == Some(MachineStates::Attached) <==> (s == MachineStates::Waiting
            && e == SwindleEvents::Attach),
        transition(s, e, p).0 == Some(MachineStates::Reset) <==> (s == MachineStates::Idle && e
            == SwindleEvents::ResetConfiguration),
{
}

/// The action of a transition follows from where it goes: DHCP is started
/// on the way into `DhcpIng` from `Idle` or `Configuring`, BLE provisioning
/// on the way into `Configuring`, the sockets on the way from `DhcpIng` into
/// `Waiting`; leaving `Waiting` or `Attached` other than into a session
/// stops the sockets; and an ignored event has no action.
pub proof fn lemma_action_follows_target(s: MachineStates, e: SwindleEvents, p: bool)
    ensures
        ({
            let (t, a) = transition(s, e, p);
            &&& a == MachineAction::NoAction <==> t is None
            &&& a == MachineAction::StartDhcp <==> (t == Some(MachineStates::DhcpIng) && (s
                == MachineStates::Idle || s == MachineStates::Configuring))
            &&& a == MachineAction::StartBleProvisioning <==> t == Some(MachineStates::Configuring)
            &&& a == MachineAction::ResetProvisioning <==> t == Some(MachineStates::Reset)
            &&& a == MachineAction::StartSockets <==> (t == Some(MachineStates::Waiting) && s
                == MachineStates::DhcpIng)
            &&& a == MachineAction::EmitStart <==> t == Some(MachineStates::Idle)
            &&& a == MachineAction::StartSwindle <==> t == Some(MachineStates::Attached)
            &&& a == MachineAction::StopSockets <==> ((s == MachineStates::Waiting || s
                == MachineStates::Attached) && t is Some && t != Some(MachineStates::Attached))
        }),
{
}

} // verus!
