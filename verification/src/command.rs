//! The commands that a probe sends to the host shell, and how a finished
//! command is read.

use crate::decimal::append_decimal;
use crate::decimal::decimal;
use vstd::prelude::*;
use vstd::string::StringExecFns;
use vstd::utf8::decode_utf8;
use vstd::utf8::valid_utf8;

verus! {

/// The name of the sub-interface of `interface` for one VLAN: the base name, a
/// dot, and the ID in decimal.
pub open spec fn vlan_interface_name(interface: Seq<char>, vlan_id: nat) -> Seq<char> {
    interface + seq!['.'] + decimal(vlan_id)
}

/// The command that creates the VLAN-tagged link on top of `interface`.
pub open spec fn create_command(interface: Seq<char>, vlan_id: nat) -> Seq<char> {
    "ip link add link "@ + interface + " name "@ + vlan_interface_name(interface, vlan_id)
        + " type vlan id "@ + decimal(vlan_id)
}

/// The command that brings the sub-interface up.
pub open spec fn activate_command(interface: Seq<char>, vlan_id: nat) -> Seq<char> {
    "ip link set up "@ + vlan_interface_name(interface, vlan_id)
}

/// The command that describes the addresses of the sub-interface.
pub open spec fn query_command(interface: Seq<char>, vlan_id: nat) -> Seq<char> {
    "ip addr show "@ + vlan_interface_name(interface, vlan_id)
}

/// Builds the name of the sub-interface for one VLAN.
pub fn vlan_interface(interface: &str, vlan_id: u32) -> (r: String)
    ensures
        r@ == vlan_interface_name(interface@, vlan_id as nat),
{
    proof {
        reveal_strlit(".");
    }
    let mut out = String::from_str(interface);
    out.append(".");
    append_decimal(&mut out, vlan_id as u64);
    out
}

/// Builds the creation command for one VLAN.
pub fn link_add_command(interface: &str, vlan_id: u32) -> (r: String)
    ensures
        r@ == create_command(interface@, vlan_id as nat),
{
    let name = vlan_interface(interface, vlan_id);
    let mut out = String::from_str("ip link add link ");
    out.append(interface);
    out.append(" name ");
    out.append(name.as_str());
    out.append(" type vlan id ");
    append_decimal(&mut out, vlan_id as u64);
    out
}

/// Builds the activation command for one VLAN.
pub fn link_up_command(interface: &str, vlan_id: u32) -> (r: String)
    ensures
        r@ == activate_command(interface@, vlan_id as nat),
{
    let name = vlan_interface(interface, vlan_id);
    let mut out = String::from_str("ip link set up ");
    out.append(name.as_str());
    out
}

/// Builds the address query for one VLAN.
pub fn addr_show_command(interface: &str, vlan_id: u32) -> (r: String)
    ensures
        r@ == query_command(interface@, vlan_id as nat),
{
    let name = vlan_interface(interface, vlan_id);
    let mut out = String::from_str("ip addr show ");
    out.append(name.as_str());
    out
}

/// The text that `String::from_utf8_lossy` makes of a run of bytes.
pub uninterp spec fn utf8_lossy(bytes: Seq<u8>) -> Seq<char>;

/// Decodes bytes with `String::from_utf8_lossy`, which replaces what is not
/// UTF-8 by U+FFFD. The contract names the text, and states that bytes which
/// are UTF-8 throughout come back as the characters they encode.
#[verifier::external_body]
pub(crate) fn decode_lossy(bytes: &[u8]) -> (r: String)
    ensures
        r@ == utf8_lossy(bytes@),
        valid_utf8(bytes@) ==> r@ == decode_utf8(bytes@),
{
    String::from_utf8_lossy(bytes).into_owned()
}

/// What a finished command counts as: its decoded standard output when it
/// exited with status zero, otherwise its decoded standard error.
pub open spec fn command_outcome(success: bool, stdout: Seq<u8>, stderr: Seq<u8>) -> Result<
    Seq<char>,
    Seq<char>,
> {
    if success {
        Ok(utf8_lossy(stdout))
    } else {
        Err(utf8_lossy(stderr))
    }
}

/// Which of the two streams of a finished command counts.
pub open spec fn stream_that_counts(success: bool, stdout: Seq<u8>, stderr: Seq<u8>) -> Seq<u8> {
    if success {
        stdout
    } else {
        stderr
    }
}

/// Classifies a finished command by its exit status.
pub fn command_result(success: bool, stdout: &[u8], stderr: &[u8]) -> (r: Result<String, String>)
    ensures
        success ==> r is Ok,
        !success ==> r is Err,
        r matches Ok(text) ==> command_outcome(success, stdout@, stderr@) == Ok::<
            Seq<char>,
            Seq<char>,
        >(text@),
        r matches Err(text) ==> command_outcome(success, stdout@, stderr@) == Err::<
            Seq<char>,
            Seq<char>,
        >(text@),
        valid_utf8(stream_that_counts(success, stdout@, stderr@)) ==> match r {
            Ok(text) => text@ == decode_utf8(stdout@),
            Err(text) => text@ == decode_utf8(stderr@),
        },
{
    if success {
        Ok(decode_lossy(stdout))
    } else {
        Err(decode_lossy(stderr))
    }
}

} // verus!
