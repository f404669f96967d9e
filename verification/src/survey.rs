//! The whole report: every section, in catalogue order, from one snapshot of
//! the facts collected on a host.

use vstd::prelude::*;
use crate::catalogue::{
    audit_section, numa, numa_section, others, others_section, power_section, power_states,
    syscall_audit,
};
use crate::dhcp::{dhcp_section, disable_dhcp_after_boot};
use crate::interrupts::{interrupt_optimizations, moderation_section};
use crate::locality::{locality_section, perfect_locality, texts};
use crate::mitigations::{mitigations, mitigations_section};
use crate::netfilter::{network, network_section};
use crate::polling::{busy_polling, polling_section};
use crate::route::{default_network_interface, resolve_interface};
use crate::verdict::{text_view, CheckResult, ProbeError, Section, SectionView};

verus! {

/// The raw facts of one run, as they were collected.
#[derive(Debug, PartialEq, Eq)]
pub struct Snapshot {
    /// The process whose CPU pinning is asked about, if any.
    pub pid: Option<u64>,
    /// The kernel command line.
    pub cmdline: Result<String, ProbeError>,
    /// The listing of loaded modules.
    pub modules: Result<String, ProbeError>,
    /// The affinity report of the process `pid`.
    pub affinity: Result<String, ProbeError>,
    /// The routing table.
    pub route: Result<String, ProbeError>,
    /// The CPU bitmaps of the default interface's transmit queues, in queue
    /// order up to the first queue that does not exist.
    pub xps_queues: Vec<String>,
    /// The coalescing report of the default interface.
    pub coalescing: Result<String, ProbeError>,
    /// The kernel's setting for busy polling.
    pub busy_poll: Result<String, ProbeError>,
    /// The listing of packet sockets with their processes.
    pub sockets: Result<String, ProbeError>,
    /// The address listing of the default interface.
    pub addresses: Result<String, ProbeError>,
}

/// What a `Snapshot` is, mathematically.
pub struct SnapshotView {
    pub pid: Option<u64>,
    pub cmdline: Result<Seq<char>, ProbeError>,
    pub modules: Result<Seq<char>, ProbeError>,
    pub affinity: Result<Seq<char>, ProbeError>,
    pub route: Result<Seq<char>, ProbeError>,
    pub xps_queues: Seq<Seq<char>>,
    pub coalescing: Result<Seq<char>, ProbeError>,
    pub busy_poll: Result<Seq<char>, ProbeError>,
    pub sockets: Result<Seq<char>, ProbeError>,
    pub addresses: Result<Seq<char>, ProbeError>,
}

impl View for Snapshot {
    type V = SnapshotView;

    open spec fn view(&self) -> SnapshotView {
        SnapshotView {
            pid: self.pid,
            cmdline: text_view(self.cmdline),
            modules: text_view(self.modules),
            affinity: text_view(self.affinity),
            route: text_view(self.route),
            xps_queues: texts(self.xps_queues@),
            coalescing: text_view(self.coalescing),
            busy_poll: text_view(self.busy_poll),
            sockets: text_view(self.sockets),
            addresses: text_view(self.addresses),
        }
    }
}

/// The report for a snapshot: ten sections in catalogue order. The default
/// interface is resolved from the routing table and handed to each section
/// that depends on it.
pub open spec fn report_of(snapshot: SnapshotView) -> Seq<SectionView> {
    let interface = resolve_interface(snapshot.route);
    seq![
        power_section(),
        numa_section(),
        mitigations_section(snapshot.cmdline),
        network_section(snapshot.modules),
        locality_section(snapshot.pid, snapshot.affinity, interface, snapshot.xps_queues),
        audit_section(),
        moderation_section(interface, snapshot.coalescing),
        polling_section(snapshot.busy_poll),
        dhcp_section(snapshot.sockets, interface, snapshot.addresses),
        others_section(),
    ]
}

/// The views of a sequence of sections.
pub open spec fn section_views(sections: Seq<Section>) -> Seq<SectionView> {
    sections.map_values(|s: Section| s@)
}

/// The line that closes every report.
pub fn usage_hint() -> (hint: &'static str)
    ensures
        hint@ == "Use --help to get help."@,
{
    "Use --help to get help."
}

/// Evaluates every check against one snapshot and returns the sections in
/// catalogue order.
pub fn survey(snapshot: &Snapshot) -> (report: Vec<Section>)
    ensures
        section_views(report@) == report_of(snapshot@),
        report.len() == 10,
        forall|k: int| 0 <= k < 10 ==> (#[trigger] report[k])@ == report_of(snapshot@)[k],
{
    let interface = default_network_interface(&snapshot.route);
    let mut report: Vec<Section> = Vec::new();
    report.push(power_states());
    report.push(numa());
    report.push(mitigations(&snapshot.cmdline));
    report.push(network(&snapshot.modules));
    report.push(
        perfect_locality(snapshot.pid, &snapshot.affinity, &interface, &snapshot.xps_queues),
    );
    report.push(syscall_audit());
    report.push(interrupt_optimizations(&interface, &snapshot.coalescing));
    report.push(busy_polling(&snapshot.busy_poll));
    report.push(disable_dhcp_after_boot(&snapshot.sockets, &interface, &snapshot.addresses));
    report.push(others());
    assert(section_views(report@) =~= report_of(snapshot@));
    report
}

/// Two snapshots that hold the same facts have the same report, section by
/// section and check by check.
pub proof fn lemma_survey_is_repeatable(first: Snapshot, second: Snapshot)
    requires
        first@ == second@,
    ensures
        report_of(first@) == report_of(second@),
{
}

/// Each section depends on its own facts alone: two snapshots that agree on
/// the facts behind a section agree on that section, whatever became of the
/// other facts.
pub proof fn lemma_sections_depend_on_their_facts(a: SnapshotView, b: SnapshotView)
    ensures
        report_of(a).len() == 10 && report_of(b).len() == 10,
        report_of(a)[0] == report_of(b)[0],
        report_of(a)[1] == report_of(b)[1],
        a.cmdline == b.cmdline ==> report_of(a)[2] == report_of(b)[2],
        a.modules == b.modules ==> report_of(a)[3] == report_of(b)[3],
        a.pid == b.pid && a.affinity == b.affinity && a.route == b.route && a.xps_queues
            == b.xps_queues ==> report_of(a)[4] == report_of(b)[4],
        report_of(a)[5] == report_of(b)[5],
        a.route == b.route && a.coalescing == b.coalescing ==> report_of(a)[6] == report_of(b)[6],
        a.busy_poll == b.busy_poll ==> report_of(a)[7] == report_of(b)[7],
        a.sockets == b.sockets && a.route == b.route && a.addresses == b.addresses ==> report_of(
            a,
        )[8] == report_of(b)[8],
        report_of(a)[9] == report_of(b)[9],
{
}

/// Whether every check of a section is unknown.
pub open spec fn all_unknown(section: SectionView) -> bool {
    forall|i: int|
        0 <= i < section.checks.len() ==> (#[trigger] section.checks[i]).result
            == CheckResult::Unknown
}

/// A coalescing report that could not be collected leaves both checks on
/// interrupt moderation unknown and changes no other section.
pub proof fn lemma_coalescing_failure_is_isolated(
    snapshot: SnapshotView,
    failure: ProbeError,
    report: Seq<char>,
)
    ensures
        ({
            let failed = SnapshotView { coalescing: Err(failure), ..snapshot };
            let collected = SnapshotView { coalescing: Ok(report), ..snapshot };
            &&& report_of(failed).len() == 10
            &&& report_of(failed)[6].checks.len() == 2
            &&& all_unknown(report_of(failed)[6])
            &&& forall|k: int|
                0 <= k < 10 && k != 6 ==> report_of(failed)[k] == report_of(collected)[k]
        }),
{
}

} // verus!
