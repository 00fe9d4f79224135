use cast_server::network::{network_interfaces, primary_mac, InterfaceReading};

fn reading(name: &str, loopback: bool, ipv4: Option<&str>, mac: Option<&str>) -> InterfaceReading {
    InterfaceReading {
        name: name.to_string(),
        is_loopback: loopback,
        ipv4: ipv4.map(|s| s.to_string()),
        mac: mac.map(|s| s.to_string()),
    }
}

#[test]
fn loopback_and_macless_interfaces_are_skipped() {
    let readings = vec![
        reading("lo", true, Some("127.0.0.1"), Some("00:00:00:00:00:00")),
        reading("tun0", false, Some("10.8.0.2"), None),
        reading("veth", false, None, Some("")),
        reading("eth0", false, None, Some("aa:bb:cc:dd:ee:01")),
        reading("wlan0", false, Some("192.168.1.20"), Some("aa:bb:cc:dd:ee:02")),
    ];
    let found = network_interfaces(&readings);
    let names: Vec<&str> = found.iter().map(|i| i.name.as_str()).collect();
    assert_eq!(names, vec!["eth0", "wlan0"]);
    assert_eq!(found[1].ipv4, Some("192.168.1.20".to_string()));
    assert_eq!(found[0].mac, "aa:bb:cc:dd:ee:01");
}

#[test]
fn primary_mac_prefers_an_interface_with_ipv4() {
    let readings = vec![
        reading("eth0", false, None, Some("aa:bb:cc:dd:ee:01")),
        reading("wlan0", false, Some("192.168.1.20"), Some("aa:bb:cc:dd:ee:02")),
    ];
    assert_eq!(primary_mac(&network_interfaces(&readings)), Some("aa:bb:cc:dd:ee:02".to_string()));
}

#[test]
fn primary_mac_falls_back_to_the_first() {
    let readings = vec![
        reading("eth0", false, None, Some("aa:bb:cc:dd:ee:01")),
        reading("eth1", false, None, Some("aa:bb:cc:dd:ee:03")),
    ];
    assert_eq!(primary_mac(&network_interfaces(&readings)), Some("aa:bb:cc:dd:ee:01".to_string()));
    assert_eq!(primary_mac(&network_interfaces(&vec![])), None);
}

#[test]
fn advertise_commands_per_platform() {
    let (prog, args) = cast_server::network::advertise_command(true, "Living Room", 3456);
    assert_eq!(prog, "dns-sd");
    assert_eq!(args, vec!["-R", "Living Room", "_cast-media._tcp", "local", "3456"]);
    let (prog, args) = cast_server::network::advertise_command(false, "Cast Server", 80);
    assert_eq!(prog, "avahi-publish-service");
    assert_eq!(args, vec!["Cast Server", "_cast-media._tcp.", "80"]);
}
