use vlan_scanner::command::addr_show_command;
use vlan_scanner::command::command_result;
use vlan_scanner::command::link_add_command;
use vlan_scanner::command::link_up_command;
use vlan_scanner::command::vlan_interface;

#[test]
fn vlan_interface_joins_with_a_dot() {
    assert_eq!(vlan_interface("eth1", 200), "eth1.200");
    assert_eq!(vlan_interface("eth0", 1), "eth0.1");
    assert_eq!(vlan_interface("enp3s0", 4094), "enp3s0.4094");
    assert_eq!(vlan_interface("", 0), ".0");
}

#[test]
fn link_add_command_text() {
    assert_eq!(
        link_add_command("eth1", 200),
        "ip link add link eth1 name eth1.200 type vlan id 200"
    );
    assert_eq!(
        link_add_command("enp3s0", 4094),
        "ip link add link enp3s0 name enp3s0.4094 type vlan id 4094"
    );
}

#[test]
fn link_up_command_text() {
    assert_eq!(link_up_command("eth1", 200), "ip link set up eth1.200");
}

#[test]
fn addr_show_command_text() {
    assert_eq!(addr_show_command("eth1", 200), "ip addr show eth1.200");
}

#[test]
fn command_texts_for_the_largest_id() {
    assert_eq!(
        link_add_command("eth1", u32::MAX),
        "ip link add link eth1 name eth1.4294967295 type vlan id 4294967295"
    );
    assert_eq!(link_up_command("eth1", u32::MAX), "ip link set up eth1.4294967295");
    assert_eq!(addr_show_command("eth1", u32::MAX), "ip addr show eth1.4294967295");
}

#[test]
fn command_result_of_success_is_standard_output() {
    assert_eq!(command_result(true, b"out\n", b"err\n"), Ok(String::from("out\n")));
    assert_eq!(command_result(true, b"", b"err\n"), Ok(String::new()));
}

#[test]
fn command_result_of_failure_is_standard_error() {
    assert_eq!(
        command_result(false, b"out\n", b"RTNETLINK answers: File exists\n"),
        Err(String::from("RTNETLINK answers: File exists\n"))
    );
    assert_eq!(command_result(false, b"out\n", b""), Err(String::new()));
}

#[test]
fn command_result_keeps_valid_utf8() {
    assert_eq!(
        command_result(true, "größe 10.0.0.5/24 ✓".as_bytes(), b""),
        Ok(String::from("größe 10.0.0.5/24 ✓"))
    );
}

#[test]
fn command_result_replaces_invalid_bytes() {
    assert_eq!(
        command_result(true, b"inet \xff10.0.0.5/24", b""),
        Ok(String::from("inet \u{fffd}10.0.0.5/24"))
    );
    assert_eq!(command_result(false, b"", b"\xc3"), Err(String::from("\u{fffd}")));
}
