use intiface_engine::advertise::Advertisement;
use intiface_engine::{ButtplugRepeater, EngineOptionsBuilder, IntifaceError};

#[test]
fn advertisement_names_and_ports() {
    let mut b = EngineOptionsBuilder::default();
    b.websocket_port(12500).mdns_suffix("desk");
    let a = Advertisement::with_random(&b.finish(), "Ab12Cd");
    assert_eq!(a.instance_name, "intiface_engine_desk_Ab12Cd");
    assert_eq!(a.host_name, "intiface_engine_desk_Ab12Cd.local.");
    assert_eq!(a.port, 12500);
    let a = Advertisement::with_random(&EngineOptionsBuilder::default().finish(), "xyz");
    assert_eq!(a.instance_name, "intiface_engine__xyz");
    assert_eq!(a.port, 12345);
    assert_eq!(Advertisement::service_type(), "_intiface_engine._tcp.local.");
}

#[test]
fn advertisement_has_a_random_alphanumeric_part() {
    let mut b = EngineOptionsBuilder::default();
    b.mdns_suffix("s");
    let a = Advertisement::new(&b.finish());
    let random = a.instance_name.strip_prefix("intiface_engine_s_").unwrap();
    assert_eq!(random.chars().count(), 6);
    assert!(random.chars().all(|c| c.is_ascii_alphanumeric()));
    assert_eq!(a.host_name, format!("{}.local.", a.instance_name));
}

#[test]
fn error_keeps_its_reason() {
    let e = IntifaceError::new("Websocket bind error");
    assert_eq!(e.reason(), "Websocket bind error");
}

#[test]
fn repeater_keeps_its_addresses() {
    let r = ButtplugRepeater::new(12345, "ws://192.168.1.2:12345");
    assert_eq!(r.local_port(), 12345);
    assert_eq!(r.remote_address(), "ws://192.168.1.2:12345");
}
