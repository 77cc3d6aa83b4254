use loftbot::event::{Body, BodyKind, Channel, Event, HelloMsg, Identify, PayloadRoute};

#[test]
fn dispatch_names_need_bodies() {
    assert_eq!(Event::from_payload(0, Some("READY".to_string())), PayloadRoute::Decode(BodyKind::Ready));
    assert_eq!(
        Event::from_payload(0, Some("MESSAGE_CREATE".to_string())),
        PayloadRoute::Decode(BodyKind::Message)
    );
    assert_eq!(
        Event::from_payload(0, Some("GUILD_CREATE".to_string())),
        PayloadRoute::Decode(BodyKind::GuildCreate)
    );
    assert_eq!(
        Event::from_payload(0, Some("CHANNEL_CREATE".to_string())),
        PayloadRoute::Decode(BodyKind::ChannelCreate)
    );
}

#[test]
fn unknown_dispatch_name() {
    assert_eq!(
        Event::from_payload(0, Some("TYPING_START".to_string())),
        PayloadRoute::Done(Event::UnknownEvent("TYPING_START".to_string()))
    );
    assert_eq!(Event::from_payload(0, None), PayloadRoute::Done(Event::Unknown(0)));
}

#[test]
fn opcodes() {
    assert_eq!(Event::from_payload(1, None), PayloadRoute::Done(Event::Heartbeat));
    assert_eq!(Event::from_payload(10, None), PayloadRoute::Decode(BodyKind::Hello));
    assert_eq!(Event::from_payload(11, Some("READY".to_string())), PayloadRoute::Done(Event::Ack));
    assert_eq!(Event::from_payload(7, None), PayloadRoute::Done(Event::Unknown(7)));
    assert_eq!(Event::from_payload(-3, None), PayloadRoute::Done(Event::Unknown(-3)));
}

#[test]
fn bodies_become_events() {
    assert_eq!(
        Event::from_body(Body::Hello(HelloMsg { heartbeat_interval: 41250 })),
        Event::Hello(HelloMsg { heartbeat_interval: 41250 })
    );
    let c = Channel { name: "general".to_string(), id: "42".to_string(), ty: 0 };
    assert_eq!(Event::from_body(Body::ChannelCreate(c.clone())), Event::EventChannelCreate(c));
}

#[test]
fn identify_properties() {
    let i = Identify::new("tok".to_string());
    assert_eq!(i.token, "tok");
    assert_eq!(i.os, "macos");
    assert_eq!(i.browser, "loft");
    assert_eq!(i.device, "loft");
    assert!(!i.compress);
}
