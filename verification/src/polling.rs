//! Kernel settings as `sysctl` prints them, and the setting for busy polling.

use vstd::prelude::*;
use vstd::string::*;
use crate::text::{chars_of, range_equals, trim_end, trim_end_len};
use crate::verdict::{
    text_view, verdict_of, CheckResult, CheckView, ProbeError, Section, SectionView,
};

verus! {

/// The line that `sysctl` prints for a setting `key` with value `value`.
pub open spec fn sysctl_line(key: Seq<char>, value: Seq<char>) -> Seq<char> {
    key + " = "@ + value
}

/// Whether the output of `sysctl`, without its trailing white space, is the
/// line for `key` with value `value`.
pub open spec fn sysctl_is(output: Seq<char>, key: Seq<char>, value: Seq<char>) -> bool {
    trim_end(output) == sysctl_line(key, value)
}

/// Tests whether the output of `sysctl` shows `key` set to `value`.
pub fn sysctl_matches(output: &str, key: &str, value: &str) -> (same: bool)
    ensures
        same == sysctl_is(output@, key@, value@),
{
    let chars = chars_of(output);
    let end: usize = trim_end_len(&chars);
    let mut expected = chars_of(key);
    let mut middle = chars_of(" = ");
    let mut tail = chars_of(value);
    expected.append(&mut middle);
    expected.append(&mut tail);
    range_equals(&chars, 0, end, &expected)
}

/// The line that shows busy polling switched on.
pub proof fn lemma_busy_poll_line()
    ensures
        sysctl_line("net.core.busy_poll"@, "1"@) == "net.core.busy_poll = 1"@,
{
    reveal_strlit("net.core.busy_poll");
    reveal_strlit(" = ");
    reveal_strlit("1");
    reveal_strlit("net.core.busy_poll = 1");
    assert(sysctl_line("net.core.busy_poll"@, "1"@) =~= "net.core.busy_poll = 1"@);
}

/// The title of the section on busy polling.
pub open spec fn polling_title() -> Seq<char> {
    "Busy Polling"@
}

/// The verdict on busy polling: satisfied when the output of `sysctl` is
/// `net.core.busy_poll = 1` once its trailing white space is left out,
/// unknown where the output could not be collected.
pub open spec fn busy_poll_verdict(output: Result<Seq<char>, ProbeError>) -> CheckResult {
    match output {
        Ok(text) => verdict_of(trim_end(text) == "net.core.busy_poll = 1"@),
        Err(_) => CheckResult::Unknown,
    }
}

/// The section on busy polling.
pub open spec fn polling_section(output: Result<Seq<char>, ProbeError>) -> SectionView {
    SectionView {
        title: polling_title(),
        checks: seq![
            CheckView { name: "net.core.busy_poll=1"@, result: busy_poll_verdict(output) },
            CheckView { name: "SO_ATTACH_REUSEPORT_CBPF"@, result: CheckResult::Unknown },
        ],
    }
}

/// Evaluates the checks on busy polling from the output of
/// `sysctl net.core.busy_poll`.
pub fn busy_polling(output: &Result<String, ProbeError>) -> (section: Section)
    ensures
        section@ == polling_section(text_view(*output)),
{
    let verdict = match output {
        Ok(text) => {
            proof {
                lemma_busy_poll_line();
            }
            CheckResult::from_bool(sysctl_matches(text.as_str(), "net.core.busy_poll", "1"))
        },
        Err(_) => CheckResult::Unknown,
    };
    let mut section = Section::new("Busy Polling");
    section.push("net.core.busy_poll=1", verdict);
    section.push("SO_ATTACH_REUSEPORT_CBPF", CheckResult::Unknown);
    assert(section@.checks =~= polling_section(text_view(*output)).checks);
    section
}

} // verus!
