//! Probing a range of VLAN IDs on a network interface for DHCP-assigned
//! addresses: the command texts, the address extraction, the per-VLAN probe
//! sequence and the scan over the range, as values and transitions that a
//! driver executes.
//!
//! Four calls are taken on trust, each behind one private function whose
//! contract is stated and not proved: the search for the `inet` entry is the
//! `regex` crate's (`extract`), the reading of an address as a network is the
//! `ipnetwork` crate's (`network`), the decoding of a command's output is
//! std's `String::from_utf8_lossy` (`command`), and the local time in the
//! report's name is the `chrono` crate's (`report`). Everything else is
//! verified.

pub mod decimal;
pub mod text;
pub mod network;
pub mod extract;
pub mod command;
pub mod probe;
pub mod parameters;
pub mod settings;
pub mod scan;
pub mod report;
