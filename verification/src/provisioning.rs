use vstd::prelude::*;

verus! {

/// Codes of the provisioning manager's callback events
/// (`wifi_prov_cb_event_t` in ESP-IDF), in their declaration order.
pub const WIFI_PROV_INIT: u32 = 0;
pub const WIFI_PROV_START: u32 = 1;
pub const WIFI_PROV_CRED_RECV: u32 = 2;
pub const WIFI_PROV_CRED_FAIL: u32 = 3;
pub const WIFI_PROV_CRED_SUCCESS: u32 = 4;
pub const WIFI_PROV_END: u32 = 5;

/// The provisioning events the firmware reacts to.
#[derive(Clone, Copy, Debug, PartialEq, Eq, Structural)]
pub enum ProvEvent {
    Init,
    Start,
    CredRecv,
    CredFail,
    ProvSuccess,
    ProvEnd,
}

/// What the provisioning callback does on an event.
#[derive(Clone, Copy, Debug, PartialEq, Eq, Structural)]
pub enum ProvReaction {
    /// Nothing beyond reporting it.
    Ignore,
    /// Show the credentials that were stored.
    ShowConfig,
    /// Restart the device.
    Restart,
}

/// The event with code `raw`, if the firmware knows it.
pub open spec fn prov_event_of(raw: u32) -> Option<ProvEvent> {
    if raw == WIFI_PROV_INIT {
        Some(ProvEvent::Init)
    } else if raw == WIFI_PROV_START {
        Some(ProvEvent::Start)
    } else if raw == WIFI_PROV_CRED_RECV {
        Some(ProvEvent::CredRecv)
    } else if raw == WIFI_PROV_CRED_FAIL {
        Some(ProvEvent::CredFail)
    } else if raw == WIFI_PROV_CRED_SUCCESS {
        Some(ProvEvent::ProvSuccess)
    } else if raw == WIFI_PROV_END {
        Some(ProvEvent::ProvEnd)
    } else {
        None
    }
}

impl ProvEvent {
    /// Decodes the event code the provisioning manager passes to its callback.
    pub fn from_raw(raw: u32) -> (e: Option<ProvEvent>)
        ensures
            e == prov_event_of(raw),
    {
        if raw == WIFI_PROV_INIT {
            Some(ProvEvent::Init)
        } else if raw == WIFI_PROV_START {
            Some(ProvEvent::Start)
        } else if raw == WIFI_PROV_CRED_RECV {
            Some(ProvEvent::CredRecv)
        } else if raw == WIFI_PROV_CRED_FAIL {
            Some(ProvEvent::CredFail)
        } else if raw == WIFI_PROV_CRED_SUCCESS {
            Some(ProvEvent::ProvSuccess)
        } else if raw == WIFI_PROV_END {
            Some(ProvEvent::ProvEnd)
        } else {
            None
        }
    }

    /// The callback's reaction: show the stored credentials on success,
    /// restart when the credentials failed or provisioning ended.
    pub fn reaction(&self) -> (r: ProvReaction)
        ensures
            r == (match *self {
                ProvEvent::ProvSuccess => ProvReaction::ShowConfig,
                ProvEvent::CredFail | ProvEvent::ProvEnd => ProvReaction::Restart,
                _ => ProvReaction::Ignore,
            }),
    {
        match self {
            ProvEvent::Init | ProvEvent::Start | ProvEvent::CredRecv => ProvReaction::Ignore,
            ProvEvent::ProvSuccess => ProvReaction::ShowConfig,
            ProvEvent::CredFail | ProvEvent::ProvEnd => ProvReaction::Restart,
        }
    }
}

/// Length of the SSID stored in a fixed-size, NUL-padded field: the bytes
/// up to the first 0, or the whole field when it holds none.
pub fn ssid_len(ssid: &[u8]) -> (n: usize)
    ensures
        n <= ssid@.len(),
        forall|i: int| 0 <= i < n ==> ssid@[i] != 0,
        n < ssid@.len() ==> ssid@[n as int] == 0,
{
    let mut i: usize = 0;
    while i < ssid.len()
        invariant
            i <= ssid@.len(),
            forall|k: int| 0 <= k < i ==> ssid@[k] != 0,
        decreases ssid@.len() - i,
    {
        if ssid[i] == 0 {
            return i;
        }
        i = i + 1;
    }
    i
}

/// The code the provisioning manager uses for each event.
pub open spec fn prov_code(e: ProvEvent) -> u32 {
    match e {
        ProvEvent::Init => WIFI_PROV_INIT,
        ProvEvent::Start => WIFI_PROV_START,
        ProvEvent::CredRecv => WIFI_PROV_CRED_RECV,
        ProvEvent::CredFail => WIFI_PROV_CRED_FAIL,
        ProvEvent::ProvSuccess => WIFI_PROV_CRED_SUCCESS,
        ProvEvent::ProvEnd => WIFI_PROV_END,
    }
}

/// Decoding undoes the manager's coding: each event's code decodes to that
/// very event, and a code decodes to an event only if it is that event's code.
pub proof fn lemma_prov_decoding_inverts_codes(e: ProvEvent, raw: u32)
    ensures
        prov_event_of(prov_code(e)) == Some(e),
        prov_event_of(raw) matches Some(d) ==> prov_code(d) == raw,
{
}

/// Only a success shows the stored credentials: every other event the
/// manager reports (its start among them) shows nothing.
pub proof fn lemma_show_config_only_on_success(raw: u32)
    ensures
        (prov_event_of(raw) matches Some(e) && e == ProvEvent::ProvSuccess) <==> raw
            == WIFI_PROV_CRED_SUCCESS,
{
}

/// Provisioning ends in a restart exactly when it ended or the
/// credentials failed; unknown codes cause no reaction at all.
pub proof fn lemma_restart_only_at_end(raw: u32)
    ensures
        (prov_event_of(raw) matches Some(e) && (e == ProvEvent::CredFail || e == ProvEvent::ProvEnd))
            <==> (raw == WIFI_PROV_CRED_FAIL || raw == WIFI_PROV_END),
        prov_event_of(raw) is None <==> raw > WIFI_PROV_END,
{
}

} // verus!
