//! Interrupt moderation of the default interface, read from its coalescing
//! report.

use vstd::prelude::*;
use vstd::string::*;
use crate::number::{parse_range, parse_unsigned};
use crate::text::{
    chars_of, has_prefix, lines, range_equals, range_has_prefix, spans_cut, split_lines,
};
use crate::verdict::{
    text_view, unknown_checks, verdict_of, verdict_of_fact, CheckResult, CheckView, ProbeError,
    Section, SectionView,
};

verus! {

/// The transmit delay, in microseconds, from which coalescing counts as
/// high.
pub const HIGH_TX_USECS: u32 = 256;

/// Whether a line of a coalescing report says that adaptive receive
/// coalescing is on.
pub open spec fn is_adaptive_rx_line(line: Seq<char>) -> bool {
    line == "Adaptive RX: on"@
}

/// Whether a line of a coalescing report is about the transmit delay: it
/// begins with `tx-usecs: `.
pub open spec fn is_tx_usecs_line(line: Seq<char>) -> bool {
    has_prefix(line, "tx-usecs: "@)
}

/// The transmit delay that a line about it states: what follows
/// `tx-usecs: ` up to the end of the line, read as a decimal numeral of 32
/// bits. There is none where that is no such numeral.
pub open spec fn tx_usecs_of(line: Seq<char>) -> Option<int> {
    parse_unsigned(line.subrange("tx-usecs: "@.len() as int, line.len() as int), 10, u32::MAX as int)
}

/// Whether a line is about the transmit delay and states none that can be
/// read.
pub open spec fn is_garbled_tx_line(line: Seq<char>) -> bool {
    is_tx_usecs_line(line) && tx_usecs_of(line) is None
}

/// Whether a line states a transmit delay of at least the threshold.
pub open spec fn is_high_tx_line(line: Seq<char>) -> bool {
    is_tx_usecs_line(line) && match tx_usecs_of(line) {
        Some(usecs) => usecs >= HIGH_TX_USECS,
        None => false,
    }
}

/// Whether some line of the report says that adaptive receive coalescing is
/// on.
pub open spec fn adaptive_rx(report: Seq<char>) -> bool {
    exists|k: int| 0 <= k < lines(report).len() && is_adaptive_rx_line(#[trigger] lines(report)[k])
}

/// Whether some line of the report is about the transmit delay and cannot
/// be read.
pub open spec fn has_garbled_tx_line(report: Seq<char>) -> bool {
    exists|k: int| 0 <= k < lines(report).len() && is_garbled_tx_line(#[trigger] lines(report)[k])
}

/// Whether some line of the report states a high transmit delay.
pub open spec fn has_high_tx_line(report: Seq<char>) -> bool {
    exists|k: int| 0 <= k < lines(report).len() && is_high_tx_line(#[trigger] lines(report)[k])
}

/// Whether the report states a high transmit delay. One line about the
/// delay that cannot be read makes the whole report fail to parse, also
/// where another line states a delay; otherwise the answer is whether some
/// line states a delay of at least the threshold, and a report without any
/// line about the delay states no high one.
pub open spec fn high_tx_usecs(report: Seq<char>) -> Result<bool, ProbeError> {
    if has_garbled_tx_line(report) {
        Err(ProbeError::ParseFailure)
    } else {
        Ok(has_high_tx_line(report))
    }
}

/// The two signals of a coalescing report.
#[derive(Clone, Copy, Debug, PartialEq, Eq)]
pub struct Moderation {
    pub adaptive_rx: bool,
    pub high_tx_usecs: Result<bool, ProbeError>,
}

/// Reads the two moderation signals out of a coalescing report.
pub fn parse_moderation(report: &str) -> (signals: Moderation)
    ensures
        signals.adaptive_rx == adaptive_rx(report@),
        signals.high_tx_usecs == high_tx_usecs(report@),
{
    let chars = chars_of(report);
    let adaptive = chars_of("Adaptive RX: on");
    let prefix = chars_of("tx-usecs: ");
    let spans = split_lines(&chars);
    let ghost ls = lines(chars@);
    let mut adaptive_seen = false;
    let mut high_seen = false;
    let mut garbled_seen = false;
    let mut i: usize = 0;
    while i < spans.len()
        invariant
            i <= spans.len(),
            chars@ == report@,
            adaptive@ == "Adaptive RX: on"@,
            prefix@ == "tx-usecs: "@,
            ls == lines(chars@),
            spans_cut(spans@, chars@, ls),
            adaptive_seen == (exists|k: int| 0 <= k < i && is_adaptive_rx_line(#[trigger] ls[k])),
            high_seen == (exists|k: int| 0 <= k < i && is_high_tx_line(#[trigger] ls[k])),
            garbled_seen == (exists|k: int| 0 <= k < i && is_garbled_tx_line(#[trigger] ls[k])),
        decreases spans.len() - i,
    {
        let line = spans[i];
        assert(line.fits(chars@));
        assert(line.of(chars@) == ls[i as int]);
        let ghost adaptive_was = adaptive_seen;
        let ghost high_was = high_seen;
        let ghost garbled_was = garbled_seen;
        if range_equals(&chars, line.start, line.end, &adaptive) {
            adaptive_seen = true;
        }
        if range_has_prefix(&chars, line.start, line.end, &prefix) {
            assert(chars@.subrange(line.start + prefix.len(), line.end as int) =~= ls[i as int].subrange(
                prefix.len() as int,
                ls[i as int].len() as int,
            ));
            match parse_range(&chars, line.start + prefix.len(), line.end, 10, 0xFFFF_FFFF) {
                Some(usecs) => {
                    if usecs >= HIGH_TX_USECS as u64 {
                        high_seen = true;
                    }
                },
                None => {
                    garbled_seen = true;
                },
            }
        }
        proof {
            assert(adaptive_seen == (adaptive_was || is_adaptive_rx_line(ls[i as int])));
            assert(high_seen == (high_was || is_high_tx_line(ls[i as int])));
            assert(garbled_seen == (garbled_was || is_garbled_tx_line(ls[i as int])));
        }
        i += 1;
    }
    let high_tx_usecs = if garbled_seen {
        Err(ProbeError::ParseFailure)
    } else {
        Ok(high_seen)
    };
    Moderation { adaptive_rx: adaptive_seen, high_tx_usecs }
}

/// The names of the two checks on interrupt moderation, in report order.
pub open spec fn moderation_names() -> Seq<Seq<char>> {
    seq!["adaptive-rx or high rx-usecs"@, "high tx-usecs"@]
}

/// The title of the section on interrupt moderation: it names the default
/// interface where that was resolved.
pub open spec fn moderation_title(interface: Result<Seq<char>, ProbeError>) -> Seq<char> {
    match interface {
        Ok(name) => "Interrupt Moderation - "@ + name,
        Err(_) => "Interrupt Moderation"@,
    }
}

/// The section on interrupt moderation. Both checks are unknown where the
/// default interface could not be resolved or the coalescing report could
/// not be collected; the check on the transmit delay is unknown as well
/// where the report's statement of the delay cannot be read.
pub open spec fn moderation_section(
    interface: Result<Seq<char>, ProbeError>,
    report: Result<Seq<char>, ProbeError>,
) -> SectionView {
    SectionView {
        title: moderation_title(interface),
        checks: match (interface, report) {
            (Ok(_), Ok(text)) => seq![
                CheckView {
                    name: "adaptive-rx or high rx-usecs"@,
                    result: verdict_of(adaptive_rx(text)),
                },
                CheckView { name: "high tx-usecs"@, result: verdict_of_fact(high_tx_usecs(text)) },
            ],
            _ => unknown_checks(moderation_names()),
        },
    }
}

/// Evaluates the checks on interrupt moderation from the coalescing report
/// of the default interface.
pub fn interrupt_optimizations(
    interface: &Result<String, ProbeError>,
    report: &Result<String, ProbeError>,
) -> (section: Section)
    ensures
        section@ == moderation_section(text_view(*interface), text_view(*report)),
{
    let mut section = match interface {
        Ok(name) => {
            let mut title = String::from_str("Interrupt Moderation - ");
            title.append(name.as_str());
            Section::new(title.as_str())
        },
        Err(_) => Section::new("Interrupt Moderation"),
    };
    match (interface, report) {
        (Ok(_), Ok(text)) => {
            let signals = parse_moderation(text.as_str());
            section.push(
                "adaptive-rx or high rx-usecs",
                CheckResult::from_bool(signals.adaptive_rx),
            );
            section.push("high tx-usecs", CheckResult::from_fact(signals.high_tx_usecs));
            assert(section@.checks =~= moderation_section(
                text_view(*interface),
                text_view(*report),
            ).checks);
        },
        _ => {
            section.push("adaptive-rx or high rx-usecs", CheckResult::Unknown);
            section.push("high tx-usecs", CheckResult::Unknown);
            assert(section@.checks =~= unknown_checks(moderation_names()));
        },
    }
    section
}

} // verus!
