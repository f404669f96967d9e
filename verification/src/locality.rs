//! CPU pinning of a process and transmit packet steering of the default
//! interface.

use vstd::prelude::*;
use vstd::string::*;
use crate::number::{count_ones, parse_range, parse_unsigned, popcount};
use crate::text::{
    chars_of, has_substring, last_token_span, lemma_tokens_nonempty, lines, occurs_at,
    range_contains, spans_cut, split_lines, tokens, trim_end_len, trimmed_len,
};
use crate::verdict::{
    text_view, verdict_of, verdict_of_fact, CheckResult, CheckView, ProbeError, Section,
    SectionView,
};

verus! {

/// Whether a line of an affinity report announces the current mask.
pub open spec fn is_affinity_line(line: Seq<char>) -> bool {
    has_substring(line, "current affinity mask:"@)
}

/// Index of the first line at or after `from` that announces the current
/// mask, or the number of lines where there is none.
pub open spec fn first_affinity_line(ls: Seq<Seq<char>>, from: int) -> int
    decreases ls.len() - from,
{
    if from >= ls.len() {
        ls.len() as int
    } else if is_affinity_line(ls[from]) {
        from
    } else {
        first_affinity_line(ls, from + 1)
    }
}

/// The affinity mask that a report states: the last token of the first line
/// that announces the mask, read as a hexadecimal numeral of 64 bits. A
/// report without such a line, or with another last token, states none.
pub open spec fn affinity_mask(report: Seq<char>) -> Result<u64, ProbeError> {
    let ls = lines(report);
    let k = first_affinity_line(ls, 0);
    if k < ls.len() {
        match parse_unsigned(tokens(ls[k]).last(), 16, u64::MAX as int) {
            Some(mask) => Ok(mask as u64),
            None => Err(ProbeError::ParseFailure),
        }
    } else {
        Err(ProbeError::ParseFailure)
    }
}

/// Whether a mask pins its process to one CPU: exactly one bit is set.
pub open spec fn is_pinned(mask: u64) -> bool {
    popcount(mask as nat) == 1
}

/// Whether a collected affinity report shows a process pinned to one CPU.
pub open spec fn pinning_fact(report: Result<Seq<char>, ProbeError>) -> Result<bool, ProbeError> {
    match report {
        Ok(text) => match affinity_mask(text) {
            Ok(mask) => Ok(is_pinned(mask)),
            Err(e) => Err(e),
        },
        Err(e) => Err(e),
    }
}

/// Reads the affinity mask out of an affinity report.
pub fn parse_affinity_mask(report: &str) -> (found: Result<u64, ProbeError>)
    ensures
        found == affinity_mask(report@),
{
    let chars = chars_of(report);
    let phrase = chars_of("current affinity mask:");
    let spans = split_lines(&chars);
    let ghost ls = lines(chars@);
    let mut i: usize = 0;
    while i < spans.len()
        invariant
            i <= spans.len(),
            chars@ == report@,
            phrase@ == "current affinity mask:"@,
            ls == lines(chars@),
            spans_cut(spans@, chars@, ls),
            first_affinity_line(ls, 0) == first_affinity_line(ls, i as int),
        decreases spans.len() - i,
    {
        let line = spans[i];
        assert(line.fits(chars@));
        assert(line.of(chars@) == ls[i as int]);
        if range_contains(&chars, line.start, line.end, &phrase) {
            proof {
                reveal_strlit("current affinity mask:");
                let at = choose|at: int| occurs_at(ls[i as int], phrase@, at);
                assert(ls[i as int].subrange(at, at + 22)[0] == 'c');
                lemma_tokens_nonempty(ls[i as int], at);
            }
            // The phrase itself makes for a token, so the line has a last one.
            match last_token_span(&chars, line.start, line.end) {
                Some(span) => {
                    return match parse_range(&chars, span.start, span.end, 16, u64::MAX) {
                        Some(mask) => Ok(mask),
                        None => Err(ProbeError::ParseFailure),
                    };
                },
                None => {
                    return Err(ProbeError::ParseFailure);
                },
            }
        }
        i += 1;
    }
    Err(ProbeError::ParseFailure)
}

/// Tests whether a mask has exactly one bit set.
pub fn mask_is_pinned(mask: u64) -> (pinned: bool)
    ensures
        pinned == is_pinned(mask),
{
    count_ones(mask) == 1
}

/// Decides from a collected affinity report whether the process is pinned
/// to one CPU.
pub fn cpu_pinning(report: &Result<String, ProbeError>) -> (fact: Result<bool, ProbeError>)
    ensures
        fact == pinning_fact(text_view(*report)),
{
    match report {
        Ok(text) => match parse_affinity_mask(text.as_str()) {
            Ok(mask) => Ok(mask_is_pinned(mask)),
            Err(e) => Err(e),
        },
        Err(e) => Err(*e),
    }
}

/// Whether a transmit queue's CPU bitmap has a bit set: some character
/// before its trailing white space is not `0`.
pub open spec fn bitmap_has_bit(bitmap: Seq<char>) -> bool {
    exists|i: int| 0 <= i < trimmed_len(bitmap, bitmap.len() as int) && bitmap[i] != '0'
}

/// The texts of a sequence of strings.
pub open spec fn texts(strings: Seq<String>) -> Seq<Seq<char>> {
    strings.map_values(|s: String| s@)
}

/// Whether transmit packet steering is in use: some queue's bitmap has a bit
/// set.
pub open spec fn xps_enabled(queues: Seq<Seq<char>>) -> bool {
    exists|q: int| 0 <= q < queues.len() && #[trigger] bitmap_has_bit(queues[q])
}

/// Tests one queue's CPU bitmap for a set bit.
pub fn bitmap_is_set(bitmap: &str) -> (set: bool)
    ensures
        set == bitmap_has_bit(bitmap@),
{
    let chars = chars_of(bitmap);
    let end: usize = trim_end_len(&chars);
    let mut i: usize = 0;
    while i < end
        invariant
            i <= end <= chars.len(),
            chars@ == bitmap@,
            end == trimmed_len(chars@, chars.len() as int),
            forall|j: int| 0 <= j < i ==> chars@[j] == '0',
        decreases end - i,
    {
        if chars[i] != '0' {
            return true;
        }
        i += 1;
    }
    false
}

/// Scans the CPU bitmaps of the transmit queues, in queue order, for a set
/// bit. No queue at all means no steering.
pub fn scan_xps(queues: &Vec<String>) -> (enabled: bool)
    ensures
        enabled == xps_enabled(texts(queues@)),
{
    let mut q: usize = 0;
    while q < queues.len()
        invariant
            q <= queues.len(),
            forall|j: int| 0 <= j < q ==> !bitmap_has_bit(#[trigger] texts(queues@)[j]),
        decreases queues.len() - q,
    {
        if bitmap_is_set(queues[q].as_str()) {
            assert(bitmap_has_bit(texts(queues@)[q as int]));
            return true;
        }
        q += 1;
    }
    false
}

/// The title of the section on locality.
pub open spec fn locality_title() -> Seq<char> {
    "Perfect Locality"@
}

/// The verdict on transmit packet steering: unknown where the default
/// interface could not be resolved, else by the scan of its queues.
pub open spec fn xps_verdict(
    interface: Result<Seq<char>, ProbeError>,
    queues: Seq<Seq<char>>,
) -> CheckResult {
    match interface {
        Ok(_) => verdict_of(xps_enabled(queues)),
        Err(_) => CheckResult::Unknown,
    }
}

/// The checks that the section on locality holds whether or not a process
/// was named.
pub open spec fn locality_tail(
    interface: Result<Seq<char>, ProbeError>,
    queues: Seq<Seq<char>>,
) -> Seq<CheckView> {
    seq![
        CheckView { name: "SO_ATTACH_REUSEPORT_CBPF"@, result: CheckResult::Unknown },
        CheckView {
            name: "RSS: Receive Side Scailing - disable irqbalance"@,
            result: CheckResult::Unknown,
        },
        CheckView {
            name: "RSS: Receive Side Scailing - set affinity"@,
            result: CheckResult::Unknown,
        },
        CheckView { name: "XPS: Transmit Packet Steering"@, result: xps_verdict(interface, queues) },
        CheckView {
            name: "Use the NUMA node that PCIe NIC is attached to"@,
            result: CheckResult::Unknown,
        },
    ]
}

/// The section on locality. The check on CPU pinning comes first and is
/// there only where a process was named; it is unknown where the affinity
/// report could not be collected or read.
pub open spec fn locality_section(
    pid: Option<u64>,
    affinity: Result<Seq<char>, ProbeError>,
    interface: Result<Seq<char>, ProbeError>,
    queues: Seq<Seq<char>>,
) -> SectionView {
    let head = match pid {
        Some(_) => seq![
            CheckView { name: "CPU Pinning"@, result: verdict_of_fact(pinning_fact(affinity)) },
        ],
        None => Seq::empty(),
    };
    SectionView { title: locality_title(), checks: head + locality_tail(interface, queues) }
}

/// Evaluates the checks on locality: CPU pinning of the process `pid` from
/// its affinity report, and transmit packet steering from the CPU bitmaps of
/// the default interface's transmit queues, given in queue order up to the
/// first queue that does not exist.
pub fn perfect_locality(
    pid: Option<u64>,
    affinity: &Result<String, ProbeError>,
    interface: &Result<String, ProbeError>,
    queues: &Vec<String>,
) -> (section: Section)
    ensures
        section@ == locality_section(
            pid,
            text_view(*affinity),
            text_view(*interface),
            texts(queues@),
        ),
{
    let mut section = Section::new("Perfect Locality");
    if pid.is_some() {
        section.push("CPU Pinning", CheckResult::from_fact(cpu_pinning(affinity)));
    }
    let xps = match interface {
        Ok(_) => CheckResult::from_bool(scan_xps(queues)),
        Err(_) => CheckResult::Unknown,
    };
    section.push("SO_ATTACH_REUSEPORT_CBPF", CheckResult::Unknown);
    section.push("RSS: Receive Side Scailing - disable irqbalance", CheckResult::Unknown);
    section.push("RSS: Receive Side Scailing - set affinity", CheckResult::Unknown);
    section.push("XPS: Transmit Packet Steering", xps);
    section.push("Use the NUMA node that PCIe NIC is attached to", CheckResult::Unknown);
    assert(section@.checks =~= locality_section(
        pid,
        text_view(*affinity),
        text_view(*interface),
        texts(queues@),
    ).checks);
    section
}

} // verus!
