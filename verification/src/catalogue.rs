//! The recommendations for which no portable probe exists. Their checks are
//! always unknown.

use vstd::prelude::*;
use crate::verdict::{unknown_checks, CheckResult, Section, SectionView};

verus! {

/// The section on power and frequency control.
pub open spec fn power_section() -> SectionView {
    SectionView {
        title: "Power & Frequency Control"@,
        checks: unknown_checks(seq!["intel_pstate or amd-pstate"@, ""@]),
    }
}

/// The section on NUMA.
pub open spec fn numa_section() -> SectionView {
    SectionView {
        title: "NUMA"@,
        checks: unknown_checks(seq!["NUMA affinity"@, "NUMA misses"@, "NUMA foreign"@]),
    }
}

/// The section on syscall auditing.
pub open spec fn audit_section() -> SectionView {
    SectionView {
        title: "Disable Syscall Auditing"@,
        checks: unknown_checks(seq!["Syscall auditing"@]),
    }
}

/// The section on options that might not work.
pub open spec fn others_section() -> SectionView {
    SectionView {
        title: "Options That Might Not Work"@,
        checks: unknown_checks(
            seq![
                "Disabling Generic Received Offload"@,
                "Change TCP congestion control algorithm"@,
                "Transparent huge pages"@,
            ],
        ),
    }
}

/// The checks on power and frequency control.
pub fn power_states() -> (section: Section)
    ensures
        section@ == power_section(),
{
    let mut section = Section::new("Power & Frequency Control");
    section.push("intel_pstate or amd-pstate", CheckResult::Unknown);
    section.push("", CheckResult::Unknown);
    assert(section@.checks =~= power_section().checks);
    section
}

/// The checks on NUMA.
pub fn numa() -> (section: Section)
    ensures
        section@ == numa_section(),
{
    let mut section = Section::new("NUMA");
    section.push("NUMA affinity", CheckResult::Unknown);
    section.push("NUMA misses", CheckResult::Unknown);
    section.push("NUMA foreign", CheckResult::Unknown);
    assert(section@.checks =~= numa_section().checks);
    section
}

/// The check on syscall auditing.
pub fn syscall_audit() -> (section: Section)
    ensures
        section@ == audit_section(),
{
    let mut section = Section::new("Disable Syscall Auditing");
    section.push("Syscall auditing", CheckResult::Unknown);
    assert(section@.checks =~= audit_section().checks);
    section
}

/// The checks on options that might not work.
pub fn others() -> (section: Section)
    ensures
        section@ == others_section(),
{
    let mut section = Section::new("Options That Might Not Work");
    section.push("Disabling Generic Received Offload", CheckResult::Unknown);
    section.push("Change TCP congestion control algorithm", CheckResult::Unknown);
    section.push("Transparent huge pages", CheckResult::Unknown);
    assert(section@.checks =~= others_section().checks);
    section
}

} // verus!
