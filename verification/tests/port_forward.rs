use yuha::port_forward::{start, PortForward, PortForwardManager};

#[test]
fn forwards_are_kept_by_port() {
    let mut manager = PortForwardManager::new();
    assert!(manager.check_start(8080).is_ok());
    manager.start_forward(8080, "localhost".to_string(), 80, Ok(())).unwrap();
    assert_eq!(
        manager.check_start(8080),
        Err("Port 8080 is already being forwarded".to_string())
    );
    assert_eq!(
        manager.start_forward(8080, "other".to_string(), 81, Ok(())),
        Err("Port 8080 is already being forwarded".to_string())
    );
    manager.start_forward(9090, "db".to_string(), 5432, Ok(())).unwrap();
    assert_eq!(
        manager.list_forwards(),
        vec![(8080, "localhost".to_string(), 80), (9090, "db".to_string(), 5432)]
    );
    assert_eq!(manager.get_forward(9090).unwrap().remote_port, 5432);
}

#[test]
fn failed_binds_are_not_kept() {
    let mut manager = PortForwardManager::new();
    assert_eq!(
        manager.start_forward(7000, "h".to_string(), 1, Err("address in use".to_string())),
        Err("address in use".to_string())
    );
    assert!(manager.get_forward(7000).is_none());
}

#[test]
fn stopping_unknown_ports_fails() {
    let mut manager = PortForwardManager::new();
    assert_eq!(manager.stop_forward(22), Err("No port forwarding found for port 22".to_string()));
    manager.start_forward(22, "h".to_string(), 22, Ok(())).unwrap();
    assert!(manager.stop_forward(22).is_ok());
    assert!(manager.list_forwards().is_empty());
}

#[test]
fn connection_identifiers_count_up() {
    let mut forward = PortForward::new(8080, "localhost".to_string(), 80);
    assert_eq!(forward.next_connection_id(), 1);
    assert_eq!(forward.next_connection_id(), 2);
    assert!(start().is_ok());
}
