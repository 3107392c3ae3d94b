//! The event model: a closed mapping between user-facing tagged events and
//! the vendor `(base, id)` pairs of the vendor event loop, in both
//! directions.
//!
//! The vendor identifies an event's namespace by an opaque base pointer;
//! the embedding application resolves that pointer, by identity against the
//! two known vendor globals, into a [`RawEventBase`] before handing the
//! pair to this module. Encoding a defined event is total and infallible;
//! decoding fails typed on an unknown base or an unknown id. The wildcard
//! id is valid only as a registration filter and never appears as a decode
//! result.

use vstd::prelude::*;

use crate::error::Error;

verus! {

/// Vendor id of the "station got IP" event within the IP namespace.
pub const IP_EVENT_STA_GOT_IP: i32 = 0;
/// Vendor id of the "station started" event within the WiFi namespace.
pub const WIFI_EVENT_STA_START: i32 = 2;
/// Vendor id of the "station disconnected" event within the WiFi namespace.
pub const WIFI_EVENT_STA_DISCONNECTED: i32 = 5;
/// Vendor wildcard id matching every event of a namespace; valid only as a
/// registration filter.
pub const ESP_EVENT_ANY_ID: i32 = -1;

/// How the embedding application reports the identity of an incoming
/// vendor base pointer: one of the two known vendor globals, or neither.
#[derive(Clone, Copy, Debug, PartialEq, Eq, Structural)]
pub enum RawEventBase {
    Ip,
    Wifi,
    Unknown,
}

/// Which vendor event namespace an event belongs to.
#[derive(Clone, Copy, Debug, PartialEq, Eq, Structural)]
pub enum EventBase {
    Ip,
    Wifi,
}

impl EventBase {
    /// The raw identity the vendor presents for this namespace.
    pub open spec fn spec_raw(self) -> RawEventBase {
        match self {
            EventBase::Ip => RawEventBase::Ip,
            EventBase::Wifi => RawEventBase::Wifi,
        }
    }

    /// Executable form of [`EventBase::spec_raw`].
    pub fn raw(self) -> (r: RawEventBase)
        ensures
            r == self.spec_raw(),
    {
        match self {
            EventBase::Ip => RawEventBase::Ip,
            EventBase::Wifi => RawEventBase::Wifi,
        }
    }

    /// Which namespace a raw base identity names.
    pub open spec fn spec_try_from(value: RawEventBase) -> Result<EventBase, Error> {
        match value {
            RawEventBase::Ip => Ok(EventBase::Ip),
            RawEventBase::Wifi => Ok(EventBase::Wifi),
            RawEventBase::Unknown => Err(Error::UnknownEventBase),
        }
    }

    /// Resolves a raw base identity to a namespace, failing typed when it
    /// is neither known vendor global.
    pub fn try_from(value: RawEventBase) -> (r: Result<EventBase, Error>)
        ensures
            r == EventBase::spec_try_from(value),
    {
        match value {
            RawEventBase::Ip => Ok(EventBase::Ip),
            RawEventBase::Wifi => Ok(EventBase::Wifi),
            RawEventBase::Unknown => Err(Error::UnknownEventBase),
        }
    }
}

/// The events of the IP namespace this layer knows.
#[derive(Clone, Copy, Debug, PartialEq, Eq, Structural)]
pub enum IpEvent {
    StaGotIp,
}

impl IpEvent {
    /// The vendor id of this event.
    pub open spec fn spec_id(self) -> i32 {
        match self {
            IpEvent::StaGotIp => IP_EVENT_STA_GOT_IP,
        }
    }

    /// Executable form of [`IpEvent::spec_id`].
    pub fn id(self) -> (r: i32)
        ensures
            r == self.spec_id(),
    {
        match self {
            IpEvent::StaGotIp => IP_EVENT_STA_GOT_IP,
        }
    }

    /// Which IP event a vendor id names, if any.
    pub open spec fn spec_try_from(value: i32) -> Result<IpEvent, Error> {
        if value == IP_EVENT_STA_GOT_IP {
            Ok(IpEvent::StaGotIp)
        } else {
            Err(Error::UnknownEventBase)
        }
    }

    /// Resolves a vendor id within the IP namespace, failing typed on an
    /// unrecognized id.
    pub fn try_from(value: i32) -> (r: Result<IpEvent, Error>)
        ensures
            r == IpEvent::spec_try_from(value),
    {
        if value == IP_EVENT_STA_GOT_IP {
            Ok(IpEvent::StaGotIp)
        } else {
            Err(Error::UnknownEventBase)
        }
    }
}

/// The events of the WiFi namespace this layer knows. `Any` is the
/// wildcard registration filter, never a decoded identity.
#[derive(Clone, Copy, Debug, PartialEq, Eq, Structural)]
pub enum WifiEvent {
    StaStart,
    StaDisconnected,
    Any,
}

impl WifiEvent {
    /// The vendor id of this event.
    pub open spec fn spec_id(self) -> i32 {
        match self {
            WifiEvent::StaStart => WIFI_EVENT_STA_START,
            WifiEvent::StaDisconnected => WIFI_EVENT_STA_DISCONNECTED,
            WifiEvent::Any => ESP_EVENT_ANY_ID,
        }
    }

    /// Executable form of [`WifiEvent::spec_id`].
    pub fn id(self) -> (r: i32)
        ensures
            r == self.spec_id(),
    {
        match self {
            WifiEvent::StaStart => WIFI_EVENT_STA_START,
            WifiEvent::StaDisconnected => WIFI_EVENT_STA_DISCONNECTED,
            WifiEvent::Any => ESP_EVENT_ANY_ID,
        }
    }

    /// Which WiFi event a vendor id names, if any. The wildcard id is not
    /// a decodable identity.
    pub open spec fn spec_try_from(value: i32) -> Result<WifiEvent, Error> {
        if value == WIFI_EVENT_STA_START {
            Ok(WifiEvent::StaStart)
        } else if value == WIFI_EVENT_STA_DISCONNECTED {
            Ok(WifiEvent::StaDisconnected)
        } else {
            Err(Error::UnknownEventBase)
        }
    }

    /// Resolves a vendor id within the WiFi namespace, failing typed on an
    /// unrecognized id (the wildcard included).
    pub fn try_from(value: i32) -> (r: Result<WifiEvent, Error>)
        ensures
            r == WifiEvent::spec_try_from(value),
    {
        if value == WIFI_EVENT_STA_START {
            Ok(WifiEvent::StaStart)
        } else if value == WIFI_EVENT_STA_DISCONNECTED {
            Ok(WifiEvent::StaDisconnected)
        } else {
            Err(Error::UnknownEventBase)
        }
    }
}

/// A user-facing event: a tagged value over the two vendor namespaces.
#[derive(Clone, Copy, Debug, PartialEq, Eq, Structural)]
pub enum Event {
    Ip(IpEvent),
    Wifi(WifiEvent),
}

impl Event {
    /// The `(base, id)` pair the vendor event loop expects for this event.
    pub open spec fn spec_encode(self) -> (EventBase, i32) {
        match self {
            Event::Ip(event_id) => (EventBase::Ip, event_id.spec_id()),
            Event::Wifi(event_id) => (EventBase::Wifi, event_id.spec_id()),
        }
    }

    /// Encodes this event as the `(base, id)` pair the vendor event loop
    /// expects; total and infallible over the defined variants.
    pub fn encode(&self) -> (r: (EventBase, i32))
        ensures
            r == self.spec_encode(),
    {
        match self {
            Event::Ip(event_id) => (EventBase::Ip, event_id.id()),
            Event::Wifi(event_id) => (EventBase::Wifi, event_id.id()),
        }
    }

    /// Which event an incoming `(base, id)` pair names: the base resolves
    /// first, then the id within that base's namespace.
    pub open spec fn spec_decode(base: RawEventBase, id: i32) -> Result<Event, Error> {
        match EventBase::spec_try_from(base) {
            Ok(EventBase::Ip) => match IpEvent::spec_try_from(id) {
                Ok(e) => Ok(Event::Ip(e)),
                Err(e) => Err(e),
            },
            Ok(EventBase::Wifi) => match WifiEvent::spec_try_from(id) {
                Ok(e) => Ok(Event::Wifi(e)),
                Err(e) => Err(e),
            },
            Err(_) => Err(Error::UnknownEventBase),
        }
    }

    /// Decodes an incoming `(base, id)` pair, failing typed on an unknown
    /// base or an id unrecognized within the base's namespace.
    pub fn decode(base: RawEventBase, id: i32) -> (r: Result<Event, Error>)
        ensures
            r == Event::spec_decode(base, id),
    {
        match EventBase::try_from(base) {
            Ok(EventBase::Ip) => match IpEvent::try_from(id) {
                Ok(e) => Ok(Event::Ip(e)),
                Err(e) => Err(e),
            },
            Ok(EventBase::Wifi) => match WifiEvent::try_from(id) {
                Ok(e) => Ok(Event::Wifi(e)),
                Err(e) => Err(e),
            },
            Err(_) => Err(Error::UnknownEventBase),
        }
    }
}

/// Round-trip law: decoding the pair produced by encoding a defined event
/// recovers exactly that event, for every event but the wildcard
/// registration filter, whose pair decodes to a typed failure instead.
pub proof fn lemma_event_round_trip(e: Event)
    ensures
        e != Event::Wifi(WifiEvent::Any) ==> Event::spec_decode(
            e.spec_encode().0.spec_raw(),
            e.spec_encode().1,
        ) == Ok::<Event, Error>(e),
        e == Event::Wifi(WifiEvent::Any) ==> Event::spec_decode(
            e.spec_encode().0.spec_raw(),
            e.spec_encode().1,
        ) == Err::<Event, Error>(Error::UnknownEventBase),
{
}

/// The wildcard registration filter never appears as a decode result, for
/// any `(base, id)` pair whatsoever.
pub proof fn lemma_wildcard_never_decoded(base: RawEventBase, id: i32)
    ensures
        Event::spec_decode(base, id) != Ok::<Event, Error>(Event::Wifi(WifiEvent::Any)),
{
}

/// Every pair whose base is neither known vendor global decodes to the
/// "unknown event base" failure, whatever its id.
pub proof fn lemma_unknown_base_rejected(id: i32)
    ensures
        Event::spec_decode(RawEventBase::Unknown, id) == Err::<Event, Error>(
            Error::UnknownEventBase,
        ),
{
}

} // verus!
