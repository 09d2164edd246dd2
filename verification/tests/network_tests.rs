use actions_runner::network::{ip_to_mac, mac_to_ip, Ipv4Address, MacToIpError};

#[test]
fn test_mac_to_ip() {
    let mac = "06:00:ac:10:c9:01";
    let ip = mac_to_ip(mac).unwrap();
    assert_eq!(ip, Ipv4Address::new(172, 16, 201, 1));
}

#[test]
fn test_ip_to_mac() {
    assert_eq!(ip_to_mac(&Ipv4Address::new(172, 16, 0, 1)), "06:00:ac:10:00:01");
    assert_eq!(ip_to_mac(&Ipv4Address::new(172, 16, 10, 2)), "06:00:ac:10:0a:02");
}

#[test]
fn mac_round_trip_samples() {
    let samples = [
        Ipv4Address::new(0, 0, 0, 0),
        Ipv4Address::new(172, 16, 7, 2),
        Ipv4Address::new(255, 255, 255, 255),
        Ipv4Address::new(10, 0, 200, 1),
    ];
    for ip in samples {
        let mac = ip_to_mac(&ip);
        assert_eq!(mac_to_ip(&mac).unwrap(), ip);
    }
}

#[test]
fn mac_without_magic_prefix_still_decodes() {
    let ip = mac_to_ip("ac:10:c9:01").unwrap();
    assert_eq!(ip, Ipv4Address::new(172, 16, 201, 1));
}

#[test]
fn mac_with_upper_case_octets_decodes() {
    let ip = mac_to_ip("06:00:AC:10:C9:01").unwrap();
    assert_eq!(ip, Ipv4Address::new(172, 16, 201, 1));
}

#[test]
fn invalid_octet_is_rejected() {
    match mac_to_ip("06:00:zz:10:c9:01") {
        Err(MacToIpError::NoIpInMac(mac)) => assert_eq!(mac, "06:00:zz:10:c9:01"),
        _ => panic!("expected NoIpInMac"),
    }
}

#[test]
fn short_mac_is_rejected() {
    assert!(matches!(mac_to_ip("06:00:ac:10"), Err(MacToIpError::NoIpInMac(_))));
    assert!(matches!(mac_to_ip(""), Err(MacToIpError::NoIpInMac(_))));
}

#[test]
fn oversized_octet_is_rejected() {
    assert!(matches!(mac_to_ip("06:00:1ff:10:c9:01"), Err(MacToIpError::NoIpInMac(_))));
}

#[test]
fn dotted_rendering() {
    assert_eq!(Ipv4Address::new(172, 16, 201, 1).dotted(), "172.16.201.1");
    assert_eq!(Ipv4Address::new(0, 0, 0, 0).dotted(), "0.0.0.0");
}
