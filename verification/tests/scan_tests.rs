use vlan_scanner::probe::Action;
use vlan_scanner::probe::Event;
use vlan_scanner::probe::VlanInfo;
use vlan_scanner::scan::Scan;
use vlan_scanner::settings::Settings;

fn settings(interface: &str, wait: u16, start: u32, end: u32) -> Settings {
    let mut s = Settings::new();
    s.interface = String::from(interface);
    s.dhcp_wait_time = wait;
    s.vlan_check_range_start = start;
    s.vlan_check_range_end = end;
    s
}

/// Performs what the scan asks for, with `answer` in place of the host, and
/// returns the actions in order with the report.
fn drive(s: &Settings, answer: &dyn Fn(&str) -> Result<String, String>) -> (Vec<Action>, Vec<VlanInfo>) {
    let mut scan = Scan::start(s);
    let mut actions = Vec::new();
    loop {
        let action = scan.action();
        actions.push(action.clone());
        match action {
            Action::Run(command) => scan.advance(Event::Completed(answer(&command))),
            Action::Sleep(_) => scan.advance(Event::Slept),
            Action::Finish => break,
        }
    }
    assert!(scan.is_finished());
    (actions, scan.into_report())
}

fn nothing_found(_command: &str) -> Result<String, String> {
    Ok(String::new())
}

fn json_of(report: &[VlanInfo]) -> serde_json::Value {
    let mut items = Vec::new();
    for info in report {
        let mut object = serde_json::Map::new();
        object.insert(String::from("vlan_id"), serde_json::Value::from(info.vlan_id));
        object.insert(
            String::from("ip_address"),
            match &info.ip_address {
                Some(text) => serde_json::Value::String(text.clone()),
                None => serde_json::Value::Null,
            },
        );
        items.push(serde_json::Value::Object(object));
    }
    serde_json::Value::Array(items)
}

#[test]
fn scan_of_three_vlans_reports_the_one_with_an_address() {
    let s = settings("eth1", 1, 200, 202);
    let answer = |command: &str| -> Result<String, String> {
        match command {
            "ip addr show eth1.200" => Ok(String::from("    inet 10.0.0.5/24 scope global eth1.200\n")),
            "ip addr show eth1.201" => Ok(String::from("    inet 169.254.9.9/16 scope link eth1.201\n")),
            "ip addr show eth1.202" => Ok(String::from("6: eth1.202@eth1: <BROADCAST> mtu 1500\n")),
            _ => Ok(String::new()),
        }
    };
    let (_, report) = drive(&s, &answer);
    assert_eq!(
        report,
        vec![VlanInfo { vlan_id: 200, ip_address: Some(String::from("10.0.0.5/24")) }]
    );
    let expected: serde_json::Value =
        serde_json::from_str("[{\"vlan_id\":200,\"ip_address\":\"10.0.0.5/24\"}]").unwrap();
    assert_eq!(json_of(&report), expected);
}

#[test]
fn scan_asks_for_every_step_of_every_vlan_in_order() {
    let s = settings("eth1", 1, 200, 202);
    let (actions, _) = drive(&s, &nothing_found);
    let mut expected = Vec::new();
    for id in [200, 201, 202] {
        expected.push(Action::Run(format!("ip link add link eth1 name eth1.{} type vlan id {}", id, id)));
        expected.push(Action::Run(format!("ip link set up eth1.{}", id)));
        expected.push(Action::Sleep(1));
        expected.push(Action::Run(format!("ip addr show eth1.{}", id)));
    }
    expected.push(Action::Finish);
    assert_eq!(actions, expected);
}

#[test]
fn scan_probes_each_vlan_once_in_ascending_order() {
    let s = settings("eth0", 0, 5, 9);
    let (actions, _) = drive(&s, &nothing_found);
    let mut created = Vec::new();
    for action in &actions {
        if let Action::Run(command) = action {
            if let Some(rest) = command.strip_prefix("ip link add link eth0 name eth0.") {
                created.push(String::from(rest));
            }
        }
    }
    assert_eq!(
        created,
        vec![
            "5 type vlan id 5",
            "6 type vlan id 6",
            "7 type vlan id 7",
            "8 type vlan id 8",
            "9 type vlan id 9"
        ]
    );
    assert_eq!(actions.len(), 4 * 5 + 1);
}

#[test]
fn scan_goes_on_when_commands_fail() {
    let s = settings("eth1", 2, 10, 11);
    let answer = |command: &str| -> Result<String, String> {
        if command.starts_with("ip addr show") {
            Ok(String::from("    inet 10.1.2.3/16\n"))
        } else {
            Err(String::from("RTNETLINK answers: Operation not permitted\n"))
        }
    };
    let (actions, report) = drive(&s, &answer);
    assert_eq!(actions.len(), 9);
    assert_eq!(actions[2], Action::Sleep(2));
    assert_eq!(actions[3], Action::Run(String::from("ip addr show eth1.10")));
    assert_eq!(actions[6], Action::Sleep(2));
    assert_eq!(actions[7], Action::Run(String::from("ip addr show eth1.11")));
    assert_eq!(
        report,
        vec![
            VlanInfo { vlan_id: 10, ip_address: Some(String::from("10.1.2.3/16")) },
            VlanInfo { vlan_id: 11, ip_address: Some(String::from("10.1.2.3/16")) }
        ]
    );
}

#[test]
fn scan_report_holds_the_present_outcomes_in_ascending_order() {
    let s = settings("eth1", 1, 1, 8);
    let answer = |command: &str| -> Result<String, String> {
        match command {
            "ip addr show eth1.2" => Ok(String::from("inet 10.0.2.1/24")),
            "ip addr show eth1.3" => Err(String::from("inet 10.0.3.1/24")),
            "ip addr show eth1.5" => Ok(String::from("inet 10.0.5.1/24")),
            "ip addr show eth1.6" => Ok(String::from("inet 169.254.6.1/16")),
            "ip addr show eth1.8" => Ok(String::from("inet 10.0.8.1/24")),
            _ => Ok(String::new()),
        }
    };
    let (_, report) = drive(&s, &answer);
    assert_eq!(
        report,
        vec![
            VlanInfo { vlan_id: 2, ip_address: Some(String::from("10.0.2.1/24")) },
            VlanInfo { vlan_id: 5, ip_address: Some(String::from("10.0.5.1/24")) },
            VlanInfo { vlan_id: 8, ip_address: Some(String::from("10.0.8.1/24")) }
        ]
    );
}

#[test]
fn scan_without_any_address_reports_nothing() {
    let s = settings("eth1", 1, 1, 4);
    let (actions, report) = drive(&s, &nothing_found);
    assert_eq!(actions.len(), 17);
    assert_eq!(report, Vec::new());
}

#[test]
fn scan_of_a_single_vlan() {
    let s = settings("eth1", 1, 4094, 4094);
    let answer = |_: &str| -> Result<String, String> { Ok(String::from("inet 10.0.0.5/24")) };
    let (actions, report) = drive(&s, &answer);
    assert_eq!(actions.len(), 5);
    assert_eq!(
        report,
        vec![VlanInfo { vlan_id: 4094, ip_address: Some(String::from("10.0.0.5/24")) }]
    );
}

#[test]
fn scan_of_an_empty_range_is_finished_at_once() {
    let s = settings("eth1", 1, 10, 9);
    let scan = Scan::start(&s);
    assert!(scan.is_finished());
    assert_eq!(scan.action(), Action::Finish);
    let (actions, report) = drive(&s, &nothing_found);
    assert_eq!(actions, vec![Action::Finish]);
    assert_eq!(report, Vec::new());
}

#[test]
fn scan_ends_at_the_largest_id() {
    let s = settings("eth1", 1, u32::MAX - 1, u32::MAX);
    let (actions, _) = drive(&s, &nothing_found);
    assert_eq!(actions.len(), 9);
    assert_eq!(actions[4], Action::Run(String::from("ip link add link eth1 name eth1.4294967295 type vlan id 4294967295")));
    assert_eq!(actions[8], Action::Finish);
}

#[test]
fn scan_with_default_settings_covers_the_whole_range() {
    let s = Settings::new();
    let (actions, report) = drive(&s, &nothing_found);
    assert_eq!(actions.len(), 4 * 4094 + 1);
    assert_eq!(actions[0], Action::Run(String::from("ip link add link eth1 name eth1.1 type vlan id 1")));
    assert_eq!(actions[4 * 4093 + 3], Action::Run(String::from("ip addr show eth1.4094")));
    assert_eq!(report, Vec::new());
}

#[test]
fn scan_ignores_an_event_it_did_not_ask_for() {
    let s = settings("eth1", 1, 1, 2);
    let mut scan = Scan::start(&s);
    scan.advance(Event::Slept);
    assert_eq!(scan.action(), Action::Run(String::from("ip link add link eth1 name eth1.1 type vlan id 1")));
    scan.advance(Event::Completed(Ok(String::new())));
    scan.advance(Event::Slept);
    assert_eq!(scan.action(), Action::Run(String::from("ip link set up eth1.1")));
}

#[test]
fn scan_that_is_finished_stays_as_it_is() {
    let s = settings("eth1", 1, 1, 1);
    let mut scan = Scan::start(&s);
    scan.advance(Event::Completed(Ok(String::new())));
    scan.advance(Event::Completed(Ok(String::new())));
    scan.advance(Event::Slept);
    scan.advance(Event::Completed(Ok(String::from("inet 10.0.0.5/24"))));
    assert!(scan.is_finished());
    scan.advance(Event::Completed(Ok(String::from("inet 10.0.0.6/24"))));
    scan.advance(Event::Slept);
    assert!(scan.is_finished());
    assert_eq!(scan.action(), Action::Finish);
    assert_eq!(
        scan.into_report(),
        vec![VlanInfo { vlan_id: 1, ip_address: Some(String::from("10.0.0.5/24")) }]
    );
}
