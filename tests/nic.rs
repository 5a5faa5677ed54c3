use easytier::nic::{IfcfgOp, NicError, VirtualNic};
use easytier::packet::Platform;

#[test]
fn tun_test() {
    let nic = VirtualNic::new();
    let config = nic.device_config(Platform::Linux).unwrap();
    assert_eq!(config.queues, 1);
    assert!(config.up);
    assert!(!config.has_packet_info);
    assert!(!config.driver_packet_info);
    assert_eq!(config.name, None);

    let mut nic = nic;
    assert_eq!(nic.bind_interface("tun7".to_owned(), true), Ok(()));
    assert_eq!(nic.ifname(), "tun7");

    let ops = vec![
        nic.link_up(),
        nic.remove_ip(None),
        nic.add_ip([10, 144, 111, 1], 24).unwrap(),
    ];
    assert_eq!(
        ops,
        vec![
            IfcfgOp::SetLinkStatus { ifname: "tun7".to_owned(), up: true },
            IfcfgOp::RemoveIp { ifname: "tun7".to_owned(), ip: None },
            IfcfgOp::AddIpv4Ip { ifname: "tun7".to_owned(), ip: [10, 144, 111, 1], cidr: 24 },
        ]
    );
}

#[test]
fn darwin_device_uses_packet_info() {
    let nic = VirtualNic::new().set_dev_name("utun9").unwrap();
    let config = nic.device_config(Platform::Darwin).unwrap();
    assert!(config.has_packet_info);
    assert_eq!(config.name, Some("utun9".to_owned()));
    let f = VirtualNic::framer(&config, Platform::Darwin);
    assert!(f.has_packet_info);
    assert_eq!(f.platform, Platform::Darwin);
}

#[test]
fn several_queues_are_refused() {
    let nic = VirtualNic::new().set_queue_num(2).unwrap();
    assert!(matches!(nic.device_config(Platform::Linux), Err(NicError::ConfigUnsupported)));
    let nic = nic.set_queue_num(1).unwrap();
    assert!(nic.device_config(Platform::Linux).is_ok());
}

#[test]
fn interface_that_never_shows_binds_nothing() {
    let mut nic = VirtualNic::new();
    assert_eq!(nic.bind_interface("tun0".to_owned(), false), Err(NicError::InterfaceNotReady));
    assert_eq!(nic.bind_interface("tun1".to_owned(), true), Ok(()));
    assert_eq!(nic.bind_interface("tun2".to_owned(), false), Err(NicError::InterfaceNotReady));
    assert_eq!(nic.ifname(), "tun1");
}

#[test]
fn prefixes_are_handed_on() {
    let mut nic = VirtualNic::new();
    nic.bind_interface("et0".to_owned(), true).unwrap();
    assert_eq!(nic.add_ip([10, 0, 0, 1], 256), Err(NicError::InterfaceConfig));
    assert_eq!(nic.add_ip([10, 0, 0, 1], -1), Err(NicError::InterfaceConfig));
    assert_eq!(
        nic.add_ip([10, 0, 0, 1], 255),
        Ok(IfcfgOp::AddIpv4Ip { ifname: "et0".to_owned(), ip: [10, 0, 0, 1], cidr: 255 })
    );
    assert_eq!(
        nic.add_ip([10, 0, 0, 1], 32),
        Ok(IfcfgOp::AddIpv4Ip { ifname: "et0".to_owned(), ip: [10, 0, 0, 1], cidr: 32 })
    );
    assert_eq!(
        nic.add_route([10, 1, 0, 0], 16),
        IfcfgOp::AddIpv4Route { ifname: "et0".to_owned(), ip: [10, 1, 0, 0], cidr: 16 }
    );
    assert_eq!(
        nic.add_route([10, 1, 0, 0], 40),
        IfcfgOp::AddIpv4Route { ifname: "et0".to_owned(), ip: [10, 1, 0, 0], cidr: 40 }
    );
    assert_eq!(
        nic.remove_ip(Some([10, 0, 0, 1])),
        IfcfgOp::RemoveIp { ifname: "et0".to_owned(), ip: Some([10, 0, 0, 1]) }
    );
}
