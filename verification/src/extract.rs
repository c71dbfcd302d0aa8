//! Finding the assigned address in the description of an interface.
//!
//! The description is the output of the address query. Its first `inet` entry
//! is looked up with a regular expression; the address found there is dropped
//! when it is link-local or does not read as a network.

use crate::network::parsed_network;
use crate::network::read_network;
use crate::network::Ipv4Network;
use crate::text::has_prefix;
use vstd::prelude::*;
use vstd::string::StringExecFns;

verus! {

/// `regex::Error`, with which a pattern is rejected. It is handed on and never
/// looked into.
#[verifier::external_type_specification]
#[verifier::external_body]
pub struct ExRegexError(regex::Error);

/// What the first match of a pattern in a text holds for one capture group.
#[derive(Clone, Debug, PartialEq, Eq)]
pub enum Capture {
    /// The pattern matches nowhere in the text.
    NoMatch,
    /// The pattern matches, but the group took no part in the match or the
    /// pattern has no such group.
    Unset,
    /// The part of the text that the group matched.
    Text(String),
}

/// A capture over characters.
pub enum CaptureView {
    NoMatch,
    Unset,
    Text(Seq<char>),
}

impl View for Capture {
    type V = CaptureView;

    open spec fn view(&self) -> CaptureView {
        match self {
            Capture::NoMatch => CaptureView::NoMatch,
            Capture::Unset => CaptureView::Unset,
            Capture::Text(t) => CaptureView::Text(t@),
        }
    }
}

/// The pattern of an `inet` entry: the word, a blank, and in the first group
/// four dotted runs of digits, a slash and a run of digits.
pub open spec fn inet_pattern() -> Seq<char> {
    "inet (\\d+\\.\\d+\\.\\d+\\.\\d+/\\d+)"@
}

/// The characters that an address must not begin with.
pub open spec fn link_local_prefix() -> Seq<char> {
    "169."@
}

/// What the `regex` crate finds: nothing where `regex::Regex::new` rejects the
/// pattern, otherwise what `Regex::captures` on the text and `Captures::get`
/// on its first match hold for the group.
pub uninterp spec fn regex_capture(pattern: Seq<char>, text: Seq<char>, group: nat) -> Option<
    CaptureView,
>;

/// Compiles `pattern` with `regex::Regex::new`, searches `text` for its first
/// match with `Regex::captures`, and copies out what `Captures::get` holds for
/// `group`. The contract only names the outcome.
#[verifier::external_body]
pub(crate) fn capture_group(pattern: &str, text: &str, group: usize) -> (r: Result<
    Capture,
    regex::Error,
>)
    ensures
        match r {
            Ok(capture) => regex_capture(pattern@, text@, group as nat) == Some(capture@),
            Err(_) => regex_capture(pattern@, text@, group as nat) is None,
        },
{
    let re = regex::Regex::new(pattern)?;
    match re.captures(text) {
        None => Ok(Capture::NoMatch),
        Some(caps) => match caps.get(group) {
            None => Ok(Capture::Unset),
            Some(m) => Ok(Capture::Text(m.as_str().to_string())),
        },
    }
}

/// The address text that a capture stands for: none without a match, the
/// empty text for a match whose group is unset.
pub open spec fn candidate(capture: CaptureView) -> Option<Seq<char>> {
    match capture {
        CaptureView::NoMatch => None,
        CaptureView::Unset => Some(Seq::empty()),
        CaptureView::Text(t) => Some(t),
    }
}

/// Whether an address text begins with the link-local prefix.
pub open spec fn is_link_local(address: Seq<char>) -> bool {
    link_local_prefix().is_prefix_of(address)
}

/// The network that an address text is accepted as: none for a link-local
/// text, none for a text that does not read as an IPv4 network.
pub open spec fn accepted_network(address: Seq<char>) -> Option<Ipv4Network> {
    if is_link_local(address) {
        None
    } else {
        match parsed_network(address) {
            Some(Some(net)) => Some(net),
            _ => None,
        }
    }
}

/// The network that the description of an interface yields: the accepted
/// network of its first `inet` entry.
pub open spec fn extracted_network(description: Seq<char>) -> Option<Ipv4Network> {
    match regex_capture(inet_pattern(), description, 1) {
        Some(capture) => match candidate(capture) {
            Some(address) => accepted_network(address),
            None => None,
        },
        None => None,
    }
}

/// Turns a capture into the address text it stands for.
pub fn candidate_of_capture(capture: Capture) -> (r: Option<String>)
    ensures
        r.is_some() == candidate(capture@).is_some(),
        r matches Some(address) ==> candidate(capture@) == Some(address@),
{
    match capture {
        Capture::NoMatch => None,
        Capture::Unset => Some(String::new()),
        Capture::Text(t) => Some(t),
    }
}

/// Tells whether an address text begins with `169.`.
pub fn is_link_local_text(address: &str) -> (r: bool)
    ensures
        r == is_link_local(address@),
{
    has_prefix(address, "169.")
}

/// Reads an address text as a network, unless it is link-local.
pub fn network_of_address(address: &str) -> (r: Option<Ipv4Network>)
    ensures
        r == accepted_network(address@),
        r matches Some(net) ==> net.well_formed() && !is_link_local(address@),
{
    if is_link_local_text(address) {
        return None;
    }
    match read_network(address) {
        Ok(Some(net)) => Some(net),
        Ok(None) => None,
        Err(_) => None,
    }
}

/// Extracts the assigned network from the description of an interface.
pub fn extract_ip_from_text(description: &str) -> (r: Option<Ipv4Network>)
    ensures
        r == extracted_network(description@),
        r matches Some(net) ==> net.well_formed(),
{
    match capture_group("inet (\\d+\\.\\d+\\.\\d+\\.\\d+/\\d+)", description, 1) {
        Ok(capture) => match candidate_of_capture(capture) {
            Some(address) => network_of_address(address.as_str()),
            None => None,
        },
        Err(_) => None,
    }
}

/// Only the first `inet` entry of a description counts: whatever else two
/// descriptions hold, if the first match of the pattern captures the same in
/// both, both yield the same network.
pub proof fn lemma_first_entry_decides(first: Seq<char>, second: Seq<char>)
    ensures
        regex_capture(inet_pattern(), first, 1) == regex_capture(inet_pattern(), second, 1)
            ==> extracted_network(first) == extracted_network(second),
{
}

/// A network is extracted only from an entry whose address does not begin
/// with the link-local prefix and reads as a network.
pub proof fn lemma_extracted_is_accepted(description: Seq<char>)
    ensures
        extracted_network(description) matches Some(net) ==> exists|address: Seq<char>|
            {
                &&& regex_capture(inet_pattern(), description, 1) matches Some(capture)
                &&& candidate(capture) == Some(address)
                &&& !is_link_local(address)
                &&& #[trigger] parsed_network(address) == Some(Some(net))
            },
{
}

} // verus!
