//! The probe of one VLAN: create the sub-interface, bring it up, wait for an
//! address to be assigned, query the interface, and read the address.
//!
//! A probe performs nothing itself. It tells its driver what to do next and is
//! told what came of it.

use crate::command::activate_command;
use crate::command::addr_show_command;
use crate::command::create_command;
use crate::command::link_add_command;
use crate::command::link_up_command;
use crate::command::query_command;
use crate::extract::extract_ip_from_text;
use crate::extract::extracted_network;
use crate::network::Ipv4Network;
use vstd::prelude::*;
use vstd::string::StringExecFns;

verus! {

/// The result of probing one VLAN: its ID and the address found on it.
#[derive(Clone, Debug, PartialEq, Eq)]
pub struct VlanInfo {
    pub vlan_id: u32,
    pub ip_address: Option<String>,
}

/// A probe result over characters.
pub struct VlanInfoView {
    pub vlan_id: u32,
    pub ip_address: Option<Seq<char>>,
}

impl View for VlanInfo {
    type V = VlanInfoView;

    open spec fn view(&self) -> VlanInfoView {
        VlanInfoView {
            vlan_id: self.vlan_id,
            ip_address: match self.ip_address {
                Some(text) => Some(text@),
                None => None,
            },
        }
    }
}

impl VlanInfoView {
    /// The address is present and is the CIDR notation of a network with a
    /// prefix of at most 32 bits.
    pub open spec fn holds_network(self) -> bool {
        exists|net: Ipv4Network| net.well_formed() && self.ip_address == Some(net.text())
    }
}

/// What the driver is asked to do.
#[derive(Clone, Debug, PartialEq, Eq)]
pub enum Action {
    /// Run this command through the host shell and report how it ended.
    Run(String),
    /// Block for this many seconds.
    Sleep(u64),
    /// Nothing is left to do.
    Finish,
}

/// An action over characters.
pub enum ActionView {
    Run(Seq<char>),
    Sleep(u64),
    Finish,
}

impl View for Action {
    type V = ActionView;

    open spec fn view(&self) -> ActionView {
        match self {
            Action::Run(command) => ActionView::Run(command@),
            Action::Sleep(seconds) => ActionView::Sleep(*seconds),
            Action::Finish => ActionView::Finish,
        }
    }
}

/// What the driver reports back.
#[derive(Debug, PartialEq, Eq)]
pub enum Event {
    /// A command ended: with status zero and this standard output, or with
    /// another status and this standard error.
    Completed(Result<String, String>),
    /// The delay has passed.
    Slept,
}

/// An event over characters.
pub enum EventView {
    Completed(Result<Seq<char>, Seq<char>>),
    Slept,
}

impl View for Event {
    type V = EventView;

    open spec fn view(&self) -> EventView {
        match self {
            Event::Completed(Ok(text)) => EventView::Completed(Ok(text@)),
            Event::Completed(Err(text)) => EventView::Completed(Err(text@)),
            Event::Slept => EventView::Slept,
        }
    }
}

/// The result of a command over characters.
pub open spec fn result_view(result: Result<String, String>) -> Result<Seq<char>, Seq<char>> {
    match result {
        Ok(text) => Ok(text@),
        Err(text) => Err(text@),
    }
}

/// The network that the address query yields: none when the query failed,
/// otherwise what its output holds.
pub open spec fn queried_network(queried: Result<Seq<char>, Seq<char>>) -> Option<Ipv4Network> {
    match queried {
        Ok(description) => extracted_network(description),
        Err(_) => None,
    }
}

/// The probe result for a VLAN on which this network was found, and none where
/// no network was found.
pub open spec fn outcome_of_network(vlan_id: u32, network: Option<Ipv4Network>) -> Option<
    VlanInfoView,
> {
    match network {
        Some(net) => Some(VlanInfoView { vlan_id, ip_address: Some(net.text()) }),
        None => None,
    }
}

/// The probe result that the address query of a VLAN leads to.
pub open spec fn probe_outcome(vlan_id: u32, queried: Result<Seq<char>, Seq<char>>) -> Option<
    VlanInfoView,
> {
    outcome_of_network(vlan_id, queried_network(queried))
}

/// Reads the assigned network out of the result of the address query.
pub fn extract_ip_from_interface(queried: &Result<String, String>) -> (r: Option<Ipv4Network>)
    ensures
        r == queried_network(result_view(*queried)),
        r matches Some(net) ==> net.well_formed(),
{
    match queried {
        Ok(description) => extract_ip_from_text(description.as_str()),
        Err(_) => None,
    }
}

/// Records a found network under the VLAN's ID, with the network in CIDR
/// notation. Without a network there is nothing to record.
pub fn vlan_info(vlan_id: u32, network: Option<Ipv4Network>) -> (r: Option<VlanInfo>)
    ensures
        r.is_some() == network.is_some(),
        r matches Some(info) ==> Some(info@) == outcome_of_network(vlan_id, network),
{
    match network {
        Some(net) => Some(VlanInfo { vlan_id, ip_address: Some(net.to_text()) }),
        None => None,
    }
}

/// Decides what the probe of a VLAN found, from the result of its address
/// query.
pub fn check_vlan(vlan_id: u32, queried: &Result<String, String>) -> (r: Option<VlanInfo>)
    ensures
        r.is_some() == probe_outcome(vlan_id, result_view(*queried)).is_some(),
        r matches Some(info) ==> Some(info@) == probe_outcome(vlan_id, result_view(*queried)),
        r matches Some(info) ==> info.vlan_id == vlan_id && info@.holds_network(),
        queried is Err ==> r is None,
{
    let network = extract_ip_from_interface(queried);
    let r = vlan_info(vlan_id, network);
    proof {
        if let Some(net) = network {
            assert(r matches Some(info) && net.well_formed() && info@.ip_address == Some(
                net.text(),
            ));
        }
    }
    r
}

/// Where a probe stands: what it waits to hear of.
#[derive(Clone, Copy, Debug, PartialEq, Eq)]
pub enum ProbePhase {
    /// The creation command is to be run.
    Create,
    /// The activation command is to be run.
    Activate,
    /// The delay is to pass.
    Wait,
    /// The address query is to be run.
    Query,
    /// The probe is over.
    Done,
}

/// The probe of one VLAN on one interface.
#[derive(Clone, Debug, PartialEq, Eq)]
pub struct Probe {
    /// The base interface.
    pub interface: String,
    /// The VLAN that is probed.
    pub vlan_id: u32,
    /// The delay between activation and query, in seconds.
    pub wait_time: u16,
    /// Where the probe stands.
    pub phase: ProbePhase,
    /// What the probe found; nothing before it is over.
    pub outcome: Option<VlanInfo>,
}

/// A probe over characters.
pub struct ProbeView {
    pub interface: Seq<char>,
    pub vlan_id: u32,
    pub wait_time: u16,
    pub phase: ProbePhase,
    pub outcome: Option<VlanInfoView>,
}

impl View for Probe {
    type V = ProbeView;

    open spec fn view(&self) -> ProbeView {
        ProbeView {
            interface: self.interface@,
            vlan_id: self.vlan_id,
            wait_time: self.wait_time,
            phase: self.phase,
            outcome: match self.outcome {
                Some(info) => Some(info@),
                None => None,
            },
        }
    }
}

impl ProbeView {
    /// An outcome, where the probe has one, is for the probe's VLAN and holds
    /// a network.
    pub open spec fn well_formed(self) -> bool {
        self.outcome matches Some(info) ==> info.vlan_id == self.vlan_id && info.holds_network()
    }

    /// A probe that has done nothing yet.
    pub open spec fn start(interface: Seq<char>, vlan_id: u32, wait_time: u16) -> ProbeView {
        ProbeView { interface, vlan_id, wait_time, phase: ProbePhase::Create, outcome: None }
    }

    /// What the probe asks of its driver.
    pub open spec fn action(self) -> ActionView {
        match self.phase {
            ProbePhase::Create => ActionView::Run(
                create_command(self.interface, self.vlan_id as nat),
            ),
            ProbePhase::Activate => ActionView::Run(
                activate_command(self.interface, self.vlan_id as nat),
            ),
            ProbePhase::Wait => ActionView::Sleep(self.wait_time as u64),
            ProbePhase::Query => ActionView::Run(query_command(self.interface, self.vlan_id as nat)),
            ProbePhase::Done => ActionView::Finish,
        }
    }

    /// Whether an event is the report of what the probe asked for.
    pub open spec fn answered_by(self, event: EventView) -> bool {
        match self.phase {
            ProbePhase::Create | ProbePhase::Activate | ProbePhase::Query => event is Completed,
            ProbePhase::Wait => event is Slept,
            ProbePhase::Done => false,
        }
    }

    /// The probe after an event. The end of the creation and of the activation
    /// command moves it on whether the command succeeded or failed; the end of
    /// the query decides the outcome. An event that does not answer what the
    /// probe asked for leaves it as it is.
    pub open spec fn step(self, event: EventView) -> ProbeView {
        if !self.answered_by(event) {
            self
        } else {
            match self.phase {
                ProbePhase::Create => ProbeView { phase: ProbePhase::Activate, ..self },
                ProbePhase::Activate => ProbeView { phase: ProbePhase::Wait, ..self },
                ProbePhase::Wait => ProbeView { phase: ProbePhase::Query, ..self },
                ProbePhase::Query => ProbeView {
                    phase: ProbePhase::Done,
                    outcome: probe_outcome(self.vlan_id, event->Completed_0),
                    ..self
                },
                ProbePhase::Done => self,
            }
        }
    }
}

impl Probe {
    /// Starts the probe of `vlan_id` on `interface`.
    pub fn new(interface: &str, vlan_id: u32, wait_time: u16) -> (p: Probe)
        ensures
            p@ == ProbeView::start(interface@, vlan_id, wait_time),
            p@.well_formed(),
    {
        Probe {
            interface: String::from_str(interface),
            vlan_id,
            wait_time,
            phase: ProbePhase::Create,
            outcome: None,
        }
    }

    /// What the driver is to do next.
    pub fn action(&self) -> (a: Action)
        ensures
            a@ == self@.action(),
    {
        match self.phase {
            ProbePhase::Create => Action::Run(
                link_add_command(self.interface.as_str(), self.vlan_id),
            ),
            ProbePhase::Activate => Action::Run(
                link_up_command(self.interface.as_str(), self.vlan_id),
            ),
            ProbePhase::Wait => Action::Sleep(self.wait_time as u64),
            ProbePhase::Query => Action::Run(
                addr_show_command(self.interface.as_str(), self.vlan_id),
            ),
            ProbePhase::Done => Action::Finish,
        }
    }

    /// Takes the driver's report of the last action.
    pub fn advance(&mut self, event: Event)
        ensures
            final(self)@ == old(self)@.step(event@),
            old(self)@.well_formed() ==> final(self)@.well_formed(),
    {
        match self.phase {
            ProbePhase::Create => {
                if let Event::Completed(_) = event {
                    self.phase = ProbePhase::Activate;
                }
            },
            ProbePhase::Activate => {
                if let Event::Completed(_) = event {
                    self.phase = ProbePhase::Wait;
                }
            },
            ProbePhase::Wait => {
                if let Event::Slept = event {
                    self.phase = ProbePhase::Query;
                }
            },
            ProbePhase::Query => {
                if let Event::Completed(queried) = event {
                    self.outcome = check_vlan(self.vlan_id, &queried);
                    self.phase = ProbePhase::Done;
                }
            },
            ProbePhase::Done => {},
        }
    }
}

/// A probe goes on to the delay and to the address query whatever the
/// creation and the activation command report, a failure included: after the
/// report of the first it asks for the activation, after the report of the
/// second for the delay, after the delay for the query, and the report of the
/// query alone decides its outcome.
pub proof fn lemma_probe_goes_on_after_failure(
    probe: ProbeView,
    created: Result<Seq<char>, Seq<char>>,
    activated: Result<Seq<char>, Seq<char>>,
    queried: Result<Seq<char>, Seq<char>>,
)
    requires
        probe.phase == ProbePhase::Create,
    ensures
        ({
            let activating = probe.step(EventView::Completed(created));
            let waiting = activating.step(EventView::Completed(activated));
            let querying = waiting.step(EventView::Slept);
            let done = querying.step(EventView::Completed(queried));
            &&& probe.action() == ActionView::Run(
                create_command(probe.interface, probe.vlan_id as nat),
            )
            &&& activating.action() == ActionView::Run(
                activate_command(probe.interface, probe.vlan_id as nat),
            )
            &&& waiting.action() == ActionView::Sleep(probe.wait_time as u64)
            &&& querying.action() == ActionView::Run(
                query_command(probe.interface, probe.vlan_id as nat),
            )
            &&& done.action() == ActionView::Finish
            &&& done.outcome == probe_outcome(probe.vlan_id, queried)
        }),
{
}

} // verus!
