//! The scan of a range of VLAN IDs: one probe after the other, in ascending
//! order, with every address that a probe finds added to the report.

use crate::command::activate_command;
use crate::command::create_command;
use crate::command::query_command;
use crate::probe::probe_outcome;
use crate::probe::Action;
use crate::probe::ActionView;
use crate::probe::Event;
use crate::probe::EventView;
use crate::probe::Probe;
use crate::probe::ProbePhase;
use crate::probe::ProbeView;
use crate::probe::VlanInfo;
use crate::probe::VlanInfoView;
use crate::settings::Settings;
use crate::settings::SettingsView;
use vstd::prelude::*;

verus! {

/// A report over characters.
pub open spec fn report_view(report: Seq<VlanInfo>) -> Seq<VlanInfoView> {
    report.map_values(|info: VlanInfo| info@)
}

/// A scan in progress.
#[derive(Debug, PartialEq, Eq)]
pub struct Scan {
    /// The probe of the VLAN that the scan has reached.
    pub probe: Probe,
    /// The last VLAN ID to probe.
    pub range_end: u32,
    /// Whether the whole range has been probed.
    pub finished: bool,
    /// What the probes have found so far.
    pub report: Vec<VlanInfo>,
}

/// A scan over characters.
pub struct ScanView {
    pub probe: ProbeView,
    pub range_end: u32,
    pub finished: bool,
    pub report: Seq<VlanInfoView>,
}

impl View for Scan {
    type V = ScanView;

    open spec fn view(&self) -> ScanView {
        ScanView {
            probe: self.probe@,
            range_end: self.range_end,
            finished: self.finished,
            report: report_view(self.report@),
        }
    }
}

impl ScanView {
    /// Every entry of the report holds a network, and so does what the probe
    /// has found.
    pub open spec fn well_formed(self) -> bool {
        &&& self.probe.well_formed()
        &&& forall|j: int| 0 <= j < self.report.len() ==> (#[trigger] self.report[j]).holds_network()
    }

    /// The scan before anything is done: at the first VLAN of the range, with
    /// an empty report. Over an empty range it is finished at once.
    pub open spec fn start(settings: SettingsView) -> ScanView {
        ScanView {
            probe: ProbeView::start(
                settings.interface,
                settings.vlan_check_range_start,
                settings.dhcp_wait_time,
            ),
            range_end: settings.vlan_check_range_end,
            finished: settings.vlan_check_range_start > settings.vlan_check_range_end,
            report: Seq::empty(),
        }
    }

    /// What the scan asks of its driver: what its probe asks, until the range
    /// is exhausted.
    pub open spec fn action(self) -> ActionView {
        if self.finished {
            ActionView::Finish
        } else {
            self.probe.action()
        }
    }

    /// The scan after an event. The event goes to the probe. When that ends the
    /// probe, its outcome is added to the report if it is present, and the
    /// scan moves to the next VLAN ID, or is finished after the last.
    pub open spec fn step(self, event: EventView) -> ScanView {
        if self.finished {
            self
        } else {
            let probe = self.probe.step(event);
            if probe.phase == ProbePhase::Done {
                let report = match probe.outcome {
                    Some(info) => self.report.push(info),
                    None => self.report,
                };
                if probe.vlan_id < self.range_end {
                    ScanView {
                        probe: ProbeView::start(
                            probe.interface,
                            (probe.vlan_id + 1) as u32,
                            probe.wait_time,
                        ),
                        report,
                        ..self
                    }
                } else {
                    ScanView {
                        probe: ProbeView { outcome: None, ..probe },
                        finished: true,
                        report,
                        ..self
                    }
                }
            } else {
                ScanView { probe, ..self }
            }
        }
    }

    /// The scan after a run of events.
    pub open spec fn run(self, events: Seq<EventView>) -> ScanView
        decreases events.len(),
    {
        if events.len() == 0 {
            self
        } else {
            self.run(events.drop_last()).step(events.last())
        }
    }

    /// Whether a run of events is what a driver reports that performs each
    /// action the scan asks for and reports it: every event answers the action
    /// that was pending when it came.
    pub open spec fn driven_by(self, events: Seq<EventView>) -> bool
        decreases events.len(),
    {
        events.len() == 0 || {
            let before = self.run(events.drop_last());
            &&& self.driven_by(events.drop_last())
            &&& !before.finished
            &&& before.probe.answered_by(events.last())
        }
    }
}

impl Scan {
    /// Starts a scan with the given settings.
    pub fn start(settings: &Settings) -> (s: Scan)
        ensures
            s@ == ScanView::start(settings@),
            s@.well_formed(),
    {
        let s = Scan {
            probe: Probe::new(
                settings.interface.as_str(),
                settings.vlan_check_range_start,
                settings.dhcp_wait_time,
            ),
            range_end: settings.vlan_check_range_end,
            finished: settings.vlan_check_range_start > settings.vlan_check_range_end,
            report: Vec::new(),
        };
        assert(s@.report =~= Seq::empty());
        s
    }

    /// What the driver is to do next.
    pub fn action(&self) -> (a: Action)
        ensures
            a@ == self@.action(),
    {
        if self.finished {
            Action::Finish
        } else {
            self.probe.action()
        }
    }

    /// Takes the driver's report of the last action.
    pub fn advance(&mut self, event: Event)
        ensures
            final(self)@ == old(self)@.step(event@),
            old(self)@.well_formed() ==> final(self)@.well_formed(),
    {
        if self.finished {
            return ;
        }
        self.probe.advance(event);
        match self.probe.phase {
            ProbePhase::Done => {
                let ghost before = report_view(self.report@);
                match self.probe.outcome.take() {
                    Some(info) => {
                        self.report.push(info);
                        assert(report_view(self.report@) =~= before.push(info@));
                    },
                    None => {},
                }
                if self.probe.vlan_id < self.range_end {
                    let next = Probe::new(
                        self.probe.interface.as_str(),
                        self.probe.vlan_id + 1,
                        self.probe.wait_time,
                    );
                    self.probe = next;
                } else {
                    self.finished = true;
                }
            },
            _ => {},
        }
    }

    /// Whether the whole range has been probed.
    pub fn is_finished(&self) -> (r: bool)
        ensures
            r == self@.finished,
    {
        self.finished
    }

    /// Hands out the report.
    pub fn into_report(self) -> (r: Vec<VlanInfo>)
        ensures
            report_view(r@) == self@.report,
    {
        self.report
    }
}

/// The action that a scan asks for after `k` events: for each VLAN ID of the
/// range, in ascending order, the creation command, the activation command,
/// the delay and the address query; after the last, nothing more.
pub open spec fn scripted_action(settings: SettingsView, k: nat) -> ActionView {
    let vlan_id = (settings.vlan_check_range_start + k / 4) as nat;
    if k >= 4 * settings.vlan_count() {
        ActionView::Finish
    } else if k % 4 == 0 {
        ActionView::Run(create_command(settings.interface, vlan_id))
    } else if k % 4 == 1 {
        ActionView::Run(activate_command(settings.interface, vlan_id))
    } else if k % 4 == 2 {
        ActionView::Sleep(settings.dhcp_wait_time as u64)
    } else {
        ActionView::Run(query_command(settings.interface, vlan_id))
    }
}

/// The seconds of delay among the first `k` actions of the script.
pub open spec fn scripted_wait(settings: SettingsView, k: nat) -> nat
    decreases k,
{
    if k == 0 {
        0
    } else {
        scripted_wait(settings, (k - 1) as nat) + match scripted_action(settings, (k - 1) as nat) {
            ActionView::Sleep(seconds) => seconds as nat,
            _ => 0,
        }
    }
}

/// The phase of a probe that has heard `k` events.
pub open spec fn phase_after(k: nat) -> ProbePhase {
    if k % 4 == 0 {
        ProbePhase::Create
    } else if k % 4 == 1 {
        ProbePhase::Activate
    } else if k % 4 == 2 {
        ProbePhase::Wait
    } else {
        ProbePhase::Query
    }
}

/// The probe that a scan is at after `k` events.
pub open spec fn scripted_probe(settings: SettingsView, k: nat) -> ProbeView {
    ProbeView {
        interface: settings.interface,
        vlan_id: (settings.vlan_check_range_start + k / 4) as u32,
        wait_time: settings.dhcp_wait_time,
        phase: phase_after(k),
        outcome: None,
    }
}

/// The outcome of the probe of the `i`-th VLAN of the range, as the events of
/// a scan decide it: by the report of that VLAN's address query.
pub open spec fn outcome_in(settings: SettingsView, events: Seq<EventView>, i: int) -> Option<
    VlanInfoView,
> {
    probe_outcome(
        (settings.vlan_check_range_start + i) as u32,
        events[4 * i + 3]->Completed_0,
    )
}

/// The present outcomes of the first `n` VLANs of the range, in the order of
/// the VLAN IDs.
pub open spec fn present_outcomes(settings: SettingsView, events: Seq<EventView>, n: nat) -> Seq<
    VlanInfoView,
>
    decreases n,
{
    if n == 0 {
        Seq::empty()
    } else {
        let earlier = present_outcomes(settings, events, (n - 1) as nat);
        match outcome_in(settings, events, n - 1) {
            Some(info) => earlier.push(info),
            None => earlier,
        }
    }
}

proof fn lemma_present_outcomes_of_prefix(
    settings: SettingsView,
    events: Seq<EventView>,
    longer: Seq<EventView>,
    n: nat,
)
    requires
        4 * n <= events.len() <= longer.len(),
        forall|j: int| 0 <= j < events.len() ==> events[j] == longer[j],
    ensures
        present_outcomes(settings, events, n) == present_outcomes(settings, longer, n),
    decreases n,
{
    if n > 0 {
        lemma_present_outcomes_of_prefix(settings, events, longer, (n - 1) as nat);
    }
}

proof fn lemma_present_outcomes_ordered(settings: SettingsView, events: Seq<EventView>, n: nat)
    requires
        n <= settings.vlan_count(),
    ensures
        forall|j: int|
            0 <= j < present_outcomes(settings, events, n).len() ==> {
                let info = #[trigger] present_outcomes(settings, events, n)[j];
                let i = info.vlan_id - settings.vlan_check_range_start;
                &&& 0 <= i < n
                &&& outcome_in(settings, events, i) == Some(info)
            },
        forall|j: int, l: int|
            0 <= j < l < present_outcomes(settings, events, n).len() ==> (
            #[trigger] present_outcomes(settings, events, n)[j]).vlan_id < (
            #[trigger] present_outcomes(settings, events, n)[l]).vlan_id,
        forall|i: int|
            0 <= i < n ==> (#[trigger] outcome_in(settings, events, i) matches Some(info)
                ==> present_outcomes(settings, events, n).contains(info)),
    decreases n,
{
    if n > 0 {
        let m = (n - 1) as nat;
        lemma_present_outcomes_ordered(settings, events, m);
        let earlier = present_outcomes(settings, events, m);
        let all = present_outcomes(settings, events, n);
        match outcome_in(settings, events, n - 1) {
            Some(info) => {
                assert forall|i: int| 0 <= i < n implies (#[trigger] outcome_in(
                    settings,
                    events,
                    i,
                ) matches Some(found) ==> all.contains(found)) by {
                    if let Some(found) = outcome_in(settings, events, i) {
                        if i < m {
                            let j = choose|j: int| 0 <= j < earlier.len() && earlier[j] == found;
                            assert(all[j] == found);
                        } else {
                            assert(all[earlier.len() as int] == found);
                        }
                    }
                }
            },
            None => {},
        }
    }
}

proof fn lemma_driven_scan(settings: SettingsView, events: Seq<EventView>)
    requires
        ScanView::start(settings).driven_by(events),
    ensures
        events.len() <= 4 * settings.vlan_count(),
        ScanView::start(settings).run(events).range_end == settings.vlan_check_range_end,
        ScanView::start(settings).run(events).finished == (events.len() == 4
            * settings.vlan_count()),
        !ScanView::start(settings).run(events).finished ==> ScanView::start(settings).run(
            events,
        ).probe == scripted_probe(settings, events.len()),
        ScanView::start(settings).run(events).report == present_outcomes(
            settings,
            events,
            events.len() / 4,
        ),
    decreases events.len(),
{
    let k = events.len();
    if k > 0 {
        let earlier = events.drop_last();
        lemma_driven_scan(settings, earlier);
        lemma_present_outcomes_of_prefix(settings, earlier, events, (k - 1) as nat / 4);
        let before = ScanView::start(settings).run(earlier);
        assert(before.probe == scripted_probe(settings, (k - 1) as nat));
    }
}

/// A scan probes every VLAN ID of its range once, in ascending order, and
/// nothing else: whatever the commands report, the action that a driven scan
/// asks for after `k` events is the `k`-th action of the script, which goes
/// through the range from its first ID to its last and has four actions for
/// each. After four events for each ID the scan is finished, and not before.
pub proof fn lemma_scan_follows_script(settings: SettingsView, events: Seq<EventView>)
    requires
        ScanView::start(settings).driven_by(events),
    ensures
        events.len() <= 4 * settings.vlan_count(),
        ScanView::start(settings).run(events).action() == scripted_action(settings, events.len()),
        ScanView::start(settings).run(events).finished == (events.len() == 4
            * settings.vlan_count()),
{
    lemma_driven_scan(settings, events);
}

/// A scan waits the delay once for each VLAN ID of its range: the delays of
/// the whole script add up to the number of IDs times the delay.
pub proof fn lemma_scan_waits_once_per_vlan(settings: SettingsView)
    ensures
        scripted_wait(settings, 4 * settings.vlan_count()) == settings.total_wait(),
{
    lemma_scripted_wait(settings, settings.vlan_count());
}

proof fn lemma_scripted_wait(settings: SettingsView, n: nat)
    requires
        n <= settings.vlan_count(),
    ensures
        scripted_wait(settings, 4 * n) == n * (settings.dhcp_wait_time as nat),
    decreases n,
{
    if n > 0 {
        let m = (n - 1) as nat;
        lemma_scripted_wait(settings, m);
        reveal_with_fuel(scripted_wait, 5);
        assert(scripted_wait(settings, 4 * n) == scripted_wait(settings, 4 * m)
            + settings.dhcp_wait_time as nat);
        assert(n * (settings.dhcp_wait_time as nat) == m * (settings.dhcp_wait_time as nat)
            + settings.dhcp_wait_time as nat) by (nonlinear_arith)
            requires
                n == m + 1,
        ;
    } else {
        assert(n * (settings.dhcp_wait_time as nat) == 0) by (nonlinear_arith)
            requires
                n == 0,
        ;
    }
}

/// The report of a finished scan holds exactly the present probe outcomes, in
/// ascending order of the VLAN IDs: each entry is the outcome of the probe of
/// its VLAN, the IDs rise strictly, every present outcome is an entry, and a
/// VLAN whose probe found nothing has no entry.
pub proof fn lemma_report_holds_present_outcomes(settings: SettingsView, events: Seq<EventView>)
    requires
        ScanView::start(settings).driven_by(events),
        events.len() == 4 * settings.vlan_count(),
    ensures
        ({
            let report = ScanView::start(settings).run(events).report;
            let first = settings.vlan_check_range_start;
            let last = settings.vlan_check_range_end;
            &&& report == present_outcomes(settings, events, settings.vlan_count())
            &&& forall|j: int|
                0 <= j < report.len() ==> first <= (#[trigger] report[j]).vlan_id <= last
                    && outcome_in(settings, events, report[j].vlan_id - first) == Some(report[j])
            &&& forall|j: int, l: int|
                0 <= j < l < report.len() ==> (#[trigger] report[j]).vlan_id < (
                #[trigger] report[l]).vlan_id
            &&& forall|i: int|
                0 <= i < settings.vlan_count() ==> (#[trigger] outcome_in(settings, events, i) matches Some(
                    info,
                ) ==> report.contains(info))
            &&& forall|i: int, j: int|
                #![trigger outcome_in(settings, events, i), report[j]]
                0 <= i < settings.vlan_count() && 0 <= j < report.len() && outcome_in(
                    settings,
                    events,
                    i,
                ) is None ==> report[j].vlan_id != first + i
        }),
{
    lemma_driven_scan(settings, events);
    lemma_present_outcomes_ordered(settings, events, settings.vlan_count());
}

} // verus!
