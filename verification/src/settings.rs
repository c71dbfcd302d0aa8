//! The settings of a scan: the interface, the delay per VLAN and the range of
//! VLAN IDs.

use crate::parameters::Parameter;
use crate::parameters::ParameterView;
use vstd::prelude::*;
use vstd::string::StringExecFns;

verus! {

/// The smallest VLAN ID that a tag can carry.
pub const VLAN_ID_MIN: u32 = 1;

/// The largest VLAN ID that a tag can carry.
pub const VLAN_ID_MAX: u32 = 4094;

/// The settings of a scan. They are built once and not changed afterwards.
#[derive(Clone, Debug, PartialEq, Eq)]
pub struct Settings {
    /// The base interface.
    pub interface: String,
    /// Seconds to wait on each VLAN for an address.
    pub dhcp_wait_time: u16,
    /// Whether the number of hosts of a found network is wanted. A scan does
    /// not read it.
    pub calculate_possible_hosts: bool,
    /// Whether the subnet mask of a found network is wanted. A scan does not
    /// read it.
    pub calculate_subnet_mask: bool,
    /// The first VLAN ID to probe.
    pub vlan_check_range_start: u32,
    /// The last VLAN ID to probe.
    pub vlan_check_range_end: u32,
}

/// Settings over characters.
pub struct SettingsView {
    pub interface: Seq<char>,
    pub dhcp_wait_time: u16,
    pub calculate_possible_hosts: bool,
    pub calculate_subnet_mask: bool,
    pub vlan_check_range_start: u32,
    pub vlan_check_range_end: u32,
}

impl View for Settings {
    type V = SettingsView;

    open spec fn view(&self) -> SettingsView {
        SettingsView {
            interface: self.interface@,
            dhcp_wait_time: self.dhcp_wait_time,
            calculate_possible_hosts: self.calculate_possible_hosts,
            calculate_subnet_mask: self.calculate_subnet_mask,
            vlan_check_range_start: self.vlan_check_range_start,
            vlan_check_range_end: self.vlan_check_range_end,
        }
    }
}

impl SettingsView {
    /// The settings before any option is applied: three seconds on each VLAN
    /// of the whole legal range, on `eth1`.
    pub open spec fn new() -> SettingsView {
        SettingsView {
            interface: "eth1"@,
            dhcp_wait_time: 3,
            calculate_possible_hosts: false,
            calculate_subnet_mask: true,
            vlan_check_range_start: VLAN_ID_MIN,
            vlan_check_range_end: VLAN_ID_MAX,
        }
    }

    /// The default settings with the interface, the delay and both ends of the
    /// range taken from the options.
    pub open spec fn configured(options: ParameterView) -> SettingsView {
        SettingsView {
            interface: options.interface,
            dhcp_wait_time: options.wait,
            vlan_check_range_start: options.range_min,
            vlan_check_range_end: options.range_max,
            ..SettingsView::new()
        }
    }

    /// The delay is positive and both ends of the range are VLAN IDs that a
    /// tag can carry.
    pub open spec fn valid(self) -> bool {
        &&& self.dhcp_wait_time >= 1
        &&& VLAN_ID_MIN <= self.vlan_check_range_start <= VLAN_ID_MAX
        &&& VLAN_ID_MIN <= self.vlan_check_range_end <= VLAN_ID_MAX
    }

    /// The seconds that a scan spends waiting: the delay once for each VLAN
    /// ID of the range.
    pub open spec fn total_wait(self) -> nat {
        self.vlan_count() * (self.dhcp_wait_time as nat)
    }

    /// How many VLAN IDs the range holds.
    pub open spec fn vlan_count(self) -> nat {
        if self.vlan_check_range_start <= self.vlan_check_range_end {
            (self.vlan_check_range_end - self.vlan_check_range_start + 1) as nat
        } else {
            0
        }
    }
}

impl Settings {
    /// The default settings.
    pub fn new() -> (r: Settings)
        ensures
            r@ == SettingsView::new(),
            r@.valid(),
    {
        Settings {
            interface: String::from_str("eth1"),
            dhcp_wait_time: 3,
            calculate_possible_hosts: false,
            calculate_subnet_mask: true,
            vlan_check_range_start: VLAN_ID_MIN,
            vlan_check_range_end: VLAN_ID_MAX,
        }
    }

    /// The settings that the options of a run ask for.
    pub fn from_parameter(options: Parameter) -> (r: Settings)
        ensures
            r@ == SettingsView::configured(options@),
            options@.valid() ==> r@.valid(),
    {
        let mut settings = Settings::new();
        settings.vlan_check_range_start = options.range_min;
        settings.vlan_check_range_end = options.range_max;
        settings.interface = options.interface;
        settings.dhcp_wait_time = options.wait;
        settings
    }

    /// Tells whether the settings are valid.
    pub fn is_valid(&self) -> (r: bool)
        ensures
            r == self@.valid(),
    {
        self.dhcp_wait_time >= 1 && VLAN_ID_MIN <= self.vlan_check_range_start
            && self.vlan_check_range_start <= VLAN_ID_MAX && VLAN_ID_MIN
            <= self.vlan_check_range_end && self.vlan_check_range_end <= VLAN_ID_MAX
    }

    /// The seconds that a scan with these settings spends waiting.
    pub fn total_wait_seconds(&self) -> (r: u64)
        ensures
            r == self@.total_wait(),
    {
        let count: u64 = self.vlan_count();
        let wait: u64 = self.dhcp_wait_time as u64;
        assert(count * wait <= 0x1_0000_0000 * 0xffff) by (nonlinear_arith)
            requires
                count <= 0x1_0000_0000,
                wait <= 0xffff,
        ;
        count * wait
    }

    /// How many VLANs a scan with these settings probes.
    pub fn vlan_count(&self) -> (r: u64)
        ensures
            r == self@.vlan_count(),
    {
        if self.vlan_check_range_start <= self.vlan_check_range_end {
            (self.vlan_check_range_end - self.vlan_check_range_start) as u64 + 1
        } else {
            0
        }
    }
}

} // verus!
