use ctl_gateway::codec::SrvMessage;
use ctl_gateway::ctl::{ConsoleLine, ErrCode, Handshake, NetErr, NetOk, NetProgress, SvcLoad, SvcStart};
use ctl_gateway::net::err;
use ctl_gateway::types::{
    ApplicationEnvironment, PackageIdent, ServiceBind, ServiceGroup, Topology, UpdateStrategy,
};

#[test]
fn net_err_fields() {
    let mut e = NetErr::new();
    assert!(!e.has_code());
    assert_eq!(e.get_code(), ErrCode::Internal);
    assert_eq!(e.get_msg(), "");
    e.set_code(ErrCode::NotFound);
    e.set_msg("this".to_string());
    assert!(e.has_code() && e.has_msg());
    assert_eq!(e.get_code(), ErrCode::NotFound);
    assert_eq!(e.get_msg(), "this");
    e.mut_msg().push_str("!");
    assert_eq!(e.get_msg(), "this!");
    assert_eq!(e.take_msg(), "this!");
    assert!(!e.has_msg());
    e.clear_code();
    assert!(!e.has_code());
    assert_eq!(e, NetErr::new());
    assert_eq!(e.description(), "Internal error");
}

#[test]
fn err_builds_error_reply() {
    let e = err(ErrCode::Unauthorized, "denied".to_string());
    assert_eq!(e.get_code(), ErrCode::Unauthorized);
    assert_eq!(e.get_msg(), "denied");
    assert_eq!(e.description(), "Client failed authorization with server");
    assert_eq!(err(ErrCode::Io, String::new()).description(), "IO error");
}

#[test]
fn enum_wire_values() {
    assert_eq!(ErrCode::Conflict.value(), 3);
    assert_eq!(ErrCode::Unauthorized.value(), 4);
    assert_eq!(ErrCode::from_i32(2), Some(ErrCode::NotFound));
    assert_eq!(ErrCode::from_i32(5), None);
    assert_eq!(UpdateStrategy::from_i32(2), Some(UpdateStrategy::Rolling));
    assert_eq!(UpdateStrategy::NoUpdates.value(), 0);
    assert_eq!(Topology::from_i32(1), Some(Topology::Leader));
    assert_eq!(Topology::from_i32(-1), None);
}

#[test]
fn progress_defaults_and_values() {
    let mut p = NetProgress::new();
    assert_eq!(p.get_total(), 0);
    assert_eq!(p.get_delta(), 0);
    p.set_total(100);
    p.set_delta(10);
    assert_eq!(p.get_total(), 100);
    assert_eq!(p.get_delta(), 10);
    p.clear_total();
    assert!(!p.has_total());
    assert!(p.has_delta());
}

#[test]
fn nested_message_fields() {
    let mut start = SvcStart::new();
    assert!(start.get_ident().is_none());
    start.mut_ident().set_origin("core".to_string());
    start.mut_ident().set_name("redis".to_string());
    assert_eq!(start.get_ident().unwrap().get_origin(), "core");
    let ident = start.take_ident();
    assert_eq!(ident.get_name(), "redis");
    assert!(!start.has_ident());
    assert_eq!(start.take_ident(), PackageIdent::new());

    let mut group = ServiceGroup::new();
    group.set_service("redis".to_string());
    group.set_group("default".to_string());
    let mut env = ApplicationEnvironment::new();
    env.set_application("app".to_string());
    env.set_environment("prod".to_string());
    group.set_application_environment(env.clone());
    assert_eq!(group.get_application_environment(), Some(&env));
    let mut bind = ServiceBind::new();
    bind.set_name("db".to_string());
    bind.set_service_group(group.clone());
    assert_eq!(bind.get_service_group(), Some(&group));

    let mut load = SvcLoad::new();
    load.set_binds(vec![bind.clone()]);
    load.mut_binds().push(bind.clone());
    assert_eq!(load.get_binds().len(), 2);
    assert_eq!(load.take_binds().len(), 2);
    assert!(load.get_binds().is_empty());
    assert_eq!(load.get_topology(), Topology::Standalone);
    assert_eq!(load.get_update_strategy(), UpdateStrategy::NoUpdates);
    assert!(!load.get_force());
    load.set_force(true);
    assert!(load.get_force());
    load.mut_composite_binds().insert("x".to_string(), ctl_gateway::ctl::ServiceBindList::new());
    assert_eq!(load.get_composite_binds().len(), 1);
    load.clear_composite_binds();
    assert!(load.get_composite_binds().is_empty());
}

#[test]
fn typed_message_ids() {
    assert_eq!(SrvMessage::<Handshake>::new().message_id(), "Handshake");
    assert_eq!(SrvMessage::<NetOk>::new().message_id(), "NetOk");
    assert_eq!(SrvMessage::<ConsoleLine>::new().message_id(), "ConsoleLine");
    let mut m = SrvMessage::<Handshake>::new();
    assert!(m.transaction.is_none());
    m.inner.set_auth_key("letmein".to_string());
    assert_eq!(m.inner.get_auth_key(), "letmein");
}
