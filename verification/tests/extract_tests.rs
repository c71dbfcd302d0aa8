use vlan_scanner::extract::candidate_of_capture;
use vlan_scanner::extract::extract_ip_from_text;
use vlan_scanner::extract::is_link_local_text;
use vlan_scanner::extract::network_of_address;
use vlan_scanner::extract::Capture;
use vlan_scanner::network::Ipv4Network;

fn net(a: u8, b: u8, c: u8, d: u8, prefix: u8) -> Ipv4Network {
    Ipv4Network { octets: [a, b, c, d], prefix }
}

#[test]
fn extract_finds_the_inet_entry() {
    assert_eq!(extract_ip_from_text("inet 192.168.1.5/24"), Some(net(192, 168, 1, 5, 24)));
    assert_eq!(
        extract_ip_from_text("    inet 192.168.1.5/24 brd 192.168.1.255 scope global eth1.200\n"),
        Some(net(192, 168, 1, 5, 24))
    );
}

#[test]
fn extract_result_reads_as_the_text_found() {
    let found = extract_ip_from_text("inet 192.168.1.5/24").unwrap();
    assert_eq!(found.to_text(), "192.168.1.5/24");
}

#[test]
fn extract_drops_link_local() {
    assert_eq!(extract_ip_from_text("inet 169.254.1.2/16"), None);
    assert_eq!(extract_ip_from_text("    inet 169.254.9.9/16 scope link eth1.201\n"), None);
}

#[test]
fn extract_drops_every_address_that_begins_with_169() {
    assert_eq!(extract_ip_from_text("inet 169.1.2.3/8"), None);
    assert_eq!(extract_ip_from_text("inet 16.9.2.3/8"), Some(net(16, 9, 2, 3, 8)));
    assert_eq!(extract_ip_from_text("inet 1.169.2.3/8"), Some(net(1, 169, 2, 3, 8)));
}

#[test]
fn extract_without_inet_finds_nothing() {
    assert_eq!(extract_ip_from_text(""), None);
    assert_eq!(extract_ip_from_text("4: eth1.202@eth1: <BROADCAST,MULTICAST,UP> mtu 1500\n"), None);
    assert_eq!(extract_ip_from_text("192.168.1.5/24"), None);
    assert_eq!(extract_ip_from_text("inet6 fe80::1/64 scope link"), None);
    assert_eq!(extract_ip_from_text("inet 192.168.1.5"), None);
    assert_eq!(extract_ip_from_text("inet  192.168.1.5/24"), None);
    assert_eq!(extract_ip_from_text("INET 192.168.1.5/24"), None);
}

#[test]
fn extract_considers_only_the_first_entry() {
    let text = "    inet 10.0.0.5/24 scope global eth1\n    inet 192.168.1.5/24 scope global eth1\n";
    assert_eq!(extract_ip_from_text(text), Some(net(10, 0, 0, 5, 24)));
}

#[test]
fn extract_does_not_go_on_after_a_link_local_first_entry() {
    let text = "    inet 169.254.1.2/16 scope link eth1\n    inet 192.168.1.5/24 scope global eth1\n";
    assert_eq!(extract_ip_from_text(text), None);
}

#[test]
fn extract_does_not_go_on_after_a_malformed_first_entry() {
    let text = "    inet 999.1.1.1/24\n    inet 192.168.1.5/24\n";
    assert_eq!(extract_ip_from_text(text), None);
}

#[test]
fn extract_drops_what_is_no_network() {
    assert_eq!(extract_ip_from_text("inet 256.1.1.1/24"), None);
    assert_eq!(extract_ip_from_text("inet 10.0.0.5/33"), None);
    assert_eq!(extract_ip_from_text("inet 10.0.0.5/999"), None);
    assert_eq!(extract_ip_from_text("inet 010.0.0.5/24"), None);
    assert_eq!(extract_ip_from_text("inet ١٠.٠.٠.٥/٢٤"), None);
}

#[test]
fn extract_takes_the_longest_run_of_digits() {
    assert_eq!(extract_ip_from_text("inet 10.0.0.5/8.1"), Some(net(10, 0, 0, 5, 8)));
    assert_eq!(extract_ip_from_text("inet 10.0.0.5/8/1"), Some(net(10, 0, 0, 5, 8)));
    assert_eq!(extract_ip_from_text("inet 10.0.0.5.6/8"), None);
}

#[test]
fn extract_from_a_full_description() {
    let text = "5: eth1.200@eth1: <BROADCAST,MULTICAST,UP,LOWER_UP> mtu 1500 qdisc noqueue state UP group default qlen 1000\n    link/ether 52:54:00:12:34:56 brd ff:ff:ff:ff:ff:ff\n    inet 10.0.0.5/24 brd 10.0.0.255 scope global dynamic eth1.200\n       valid_lft 86390sec preferred_lft 86390sec\n    inet6 fe80::5054:ff:fe12:3456/64 scope link\n       valid_lft forever preferred_lft forever\n";
    assert_eq!(extract_ip_from_text(text), Some(net(10, 0, 0, 5, 24)));
}

#[test]
fn candidate_of_capture_by_variant() {
    assert_eq!(candidate_of_capture(Capture::NoMatch), None);
    assert_eq!(candidate_of_capture(Capture::Unset), Some(String::new()));
    assert_eq!(
        candidate_of_capture(Capture::Text(String::from("10.0.0.5/24"))),
        Some(String::from("10.0.0.5/24"))
    );
}

#[test]
fn link_local_text_begins_with_169_and_a_dot() {
    assert!(is_link_local_text("169.254.1.2/16"));
    assert!(is_link_local_text("169."));
    assert!(!is_link_local_text("169"));
    assert!(!is_link_local_text("1690.1.1.1/8"));
    assert!(!is_link_local_text("192.168.1.5/24"));
    assert!(!is_link_local_text(""));
}

#[test]
fn network_of_address_reads_cidr_notation() {
    assert_eq!(network_of_address("192.168.1.5/24"), Some(net(192, 168, 1, 5, 24)));
    assert_eq!(network_of_address("10.0.0.5/0"), Some(net(10, 0, 0, 5, 0)));
    assert_eq!(network_of_address("10.0.0.5/32"), Some(net(10, 0, 0, 5, 32)));
}

#[test]
fn network_of_address_drops_link_local() {
    assert_eq!(network_of_address("169.254.1.2/16"), None);
}

#[test]
fn network_of_address_drops_what_does_not_read() {
    assert_eq!(network_of_address(""), None);
    assert_eq!(network_of_address("10.0.0/24"), None);
    assert_eq!(network_of_address("10.0.0.5/33"), None);
    assert_eq!(network_of_address("10.0.0.256/24"), None);
    assert_eq!(network_of_address("not an address"), None);
}

#[test]
fn network_of_address_drops_ipv6() {
    assert_eq!(network_of_address("::1/128"), None);
    assert_eq!(network_of_address("fe80::1/64"), None);
}
