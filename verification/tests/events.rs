use esp_idf::error::Error;
use esp_idf::event::{Event, EventBase, IpEvent, RawEventBase, WifiEvent};

#[test]
fn encode_produces_the_vendor_pairs() {
    assert_eq!(
        Event::Ip(IpEvent::StaGotIp).encode(),
        (EventBase::Ip, 0)
    );
    assert_eq!(
        Event::Wifi(WifiEvent::StaStart).encode(),
        (EventBase::Wifi, 2)
    );
    assert_eq!(
        Event::Wifi(WifiEvent::StaDisconnected).encode(),
        (EventBase::Wifi, 5)
    );
    assert_eq!(
        Event::Wifi(WifiEvent::Any).encode(),
        (EventBase::Wifi, -1)
    );
}

#[test]
fn decode_round_trips_every_defined_event() {
    let defined = [
        Event::Ip(IpEvent::StaGotIp),
        Event::Wifi(WifiEvent::StaStart),
        Event::Wifi(WifiEvent::StaDisconnected),
    ];
    for e in defined {
        let (base, id) = e.encode();
        assert_eq!(Event::decode(base.raw(), id), Ok(e));
    }
}

#[test]
fn wildcard_never_decodes() {
    let (base, id) = Event::Wifi(WifiEvent::Any).encode();
    assert_eq!(Event::decode(base.raw(), id), Err(Error::UnknownEventBase));
    assert_eq!(
        Event::decode(RawEventBase::Ip, -1),
        Err(Error::UnknownEventBase)
    );
}

#[test]
fn unknown_base_is_rejected_for_any_id() {
    for id in [-1, 0, 2, 5, 100] {
        assert_eq!(
            Event::decode(RawEventBase::Unknown, id),
            Err(Error::UnknownEventBase)
        );
    }
}

#[test]
fn unknown_id_within_a_known_base_is_rejected() {
    assert_eq!(
        Event::decode(RawEventBase::Ip, 7),
        Err(Error::UnknownEventBase)
    );
    assert_eq!(
        Event::decode(RawEventBase::Wifi, 0),
        Err(Error::UnknownEventBase)
    );
}

#[test]
fn base_resolution_matches_the_vendor_globals() {
    assert_eq!(EventBase::try_from(RawEventBase::Ip), Ok(EventBase::Ip));
    assert_eq!(EventBase::try_from(RawEventBase::Wifi), Ok(EventBase::Wifi));
    assert_eq!(
        EventBase::try_from(RawEventBase::Unknown),
        Err(Error::UnknownEventBase)
    );
}

#[test]
fn event_ids_match_the_vendor_constants() {
    assert_eq!(IpEvent::StaGotIp.id(), 0);
    assert_eq!(WifiEvent::StaStart.id(), 2);
    assert_eq!(WifiEvent::StaDisconnected.id(), 5);
    assert_eq!(WifiEvent::Any.id(), -1);
}
