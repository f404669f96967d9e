//! Kernel boot parameters and the speculative-execution mitigations that they
//! switch off.

use vstd::prelude::*;
use crate::text::{
    chars_of, copy_range, lemma_tokens_are_runs, split_tokens, stands_as_token, tokens,
};
use crate::token_set::TokenSet;
use crate::verdict::{
    text_view, unknown_checks, verdict_of, CheckResult, CheckView, ProbeError, Section,
    SectionView,
};

verus! {

/// The set of whitespace-delimited tokens of a kernel command line.
pub open spec fn param_set(cmdline: Seq<char>) -> Set<Seq<char>> {
    tokens(cmdline).to_set()
}

/// A name is a boot parameter of a command line exactly when it stands there
/// verbatim, set off by white space or the ends of the line.
pub proof fn lemma_param_membership(cmdline: Seq<char>, name: Seq<char>)
    ensures
        param_set(cmdline).contains(name) <==> stands_as_token(cmdline, name),
{
    lemma_tokens_are_runs(cmdline, name);
}

/// Parses a kernel command line into its set of boot parameters.
pub fn kernel_params(cmdline: &str) -> (params: TokenSet)
    ensures
        params.wf(),
        params@ == param_set(cmdline@),
{
    let chars = chars_of(cmdline);
    let spans = split_tokens(&chars, 0, chars.len());
    let ghost pieces = tokens(chars@);
    assert(chars@.subrange(0, chars.len() as int) =~= chars@);
    let mut params = TokenSet::new();
    let mut i: usize = 0;
    while i < spans.len()
        invariant
            i <= spans.len(),
            pieces == tokens(chars@),
            crate::text::spans_cut(spans@, chars@, pieces),
            params.wf(),
            params@ == pieces.take(i as int).to_set(),
        decreases spans.len() - i,
    {
        let span = spans[i];
        assert(span.fits(chars@));
        let name = copy_range(&chars, span.start, span.end);
        params.insert(name);
        proof {
            assert(pieces.take(i + 1) =~= pieces.take(i as int).push(pieces[i as int]));
            pieces.take(i as int).lemma_push_to_set_commute(pieces[i as int]);
        }
        i += 1;
    }
    assert(pieces.take(i as int) =~= pieces);
    params
}

/// The title of the section on mitigations.
pub open spec fn mitigations_title() -> Seq<char> {
    "Disable Speculative Execution Mitigations"@
}

/// The names of the six checks on mitigations, in report order.
pub open spec fn mitigation_names() -> Seq<Seq<char>> {
    seq![
        "mitigations=off"@,
        "Spectre v1 + SWAPGS"@,
        "Spectre v2"@,
        "Spectre v3/Meltdown"@,
        "MDS/Zombieload"@,
        "TSX Asynchronous Abort"@,
    ]
}

/// The boot parameter that satisfies each check by itself, in report order.
pub open spec fn mitigation_flags() -> Seq<Seq<char>> {
    seq![
        "mitigations=off"@,
        "nospectre_v1"@,
        "nospectre_v2"@,
        "pti=off"@,
        "mds=off"@,
        "tsx_async_abort=off"@,
    ]
}

/// The six checks for a set of boot parameters: each is satisfied by the
/// global switch `mitigations=off` or by its own parameter.
pub open spec fn mitigation_checks(params: Set<Seq<char>>) -> Seq<CheckView> {
    Seq::new(
        6,
        |i: int|
            CheckView {
                name: mitigation_names()[i],
                result: verdict_of(
                    params.contains("mitigations=off"@) || params.contains(mitigation_flags()[i]),
                ),
            },
    )
}

/// The section on mitigations for a collected kernel command line. Where
/// the command line could not be collected, every check is unknown.
pub open spec fn mitigations_section(cmdline: Result<Seq<char>, ProbeError>) -> SectionView {
    SectionView {
        title: mitigations_title(),
        checks: match cmdline {
            Ok(text) => mitigation_checks(param_set(text)),
            Err(_) => unknown_checks(mitigation_names()),
        },
    }
}

/// With the global switch among the parameters all six checks are
/// satisfied, whatever else is or is not among them.
pub proof fn lemma_global_switch_satisfies_all(params: Set<Seq<char>>)
    requires
        params.contains("mitigations=off"@),
    ensures
        mitigation_checks(params).len() == 6,
        forall|i: int|
            0 <= i < 6 ==> (#[trigger] mitigation_checks(params)[i]).result
                == CheckResult::Satisfied,
{
}

/// A command line on which `mitigations=off` stands as a parameter has all
/// six checks satisfied, whatever else it holds.
pub proof fn lemma_global_switch_on_cmdline(cmdline: Seq<char>)
    requires
        stands_as_token(cmdline, "mitigations=off"@),
    ensures
        mitigations_section(Ok(cmdline)).checks.len() == 6,
        forall|i: int|
            0 <= i < 6 ==> (#[trigger] mitigations_section(Ok(cmdline)).checks[i]).result
                == CheckResult::Satisfied,
{
    lemma_param_membership(cmdline, "mitigations=off"@);
    lemma_global_switch_satisfies_all(param_set(cmdline));
}

/// Evaluates the checks on speculative-execution mitigations from the
/// content of the kernel command line.
pub fn mitigations(cmdline: &Result<String, ProbeError>) -> (section: Section)
    ensures
        section@ == mitigations_section(text_view(*cmdline)),
{
    let mut section = Section::new("Disable Speculative Execution Mitigations");
    match cmdline {
        Ok(text) => {
            let params = kernel_params(text.as_str());
            let all = params.contains("mitigations=off");
            section.push("mitigations=off", CheckResult::from_bool(all));
            section.push(
                "Spectre v1 + SWAPGS",
                CheckResult::from_bool(all || params.contains("nospectre_v1")),
            );
            section.push("Spectre v2", CheckResult::from_bool(all || params.contains("nospectre_v2")));
            section.push(
                "Spectre v3/Meltdown",
                CheckResult::from_bool(all || params.contains("pti=off")),
            );
            section.push("MDS/Zombieload", CheckResult::from_bool(all || params.contains("mds=off")));
            section.push(
                "TSX Asynchronous Abort",
                CheckResult::from_bool(all || params.contains("tsx_async_abort=off")),
            );
            assert(section@.checks =~= mitigation_checks(param_set(text@)));
        },
        Err(_) => {
            section.push("mitigations=off", CheckResult::Unknown);
            section.push("Spectre v1 + SWAPGS", CheckResult::Unknown);
            section.push("Spectre v2", CheckResult::Unknown);
            section.push("Spectre v3/Meltdown", CheckResult::Unknown);
            section.push("MDS/Zombieload", CheckResult::Unknown);
            section.push("TSX Asynchronous Abort", CheckResult::Unknown);
            assert(section@.checks =~= unknown_checks(mitigation_names()));
        },
    }
    section
}

} // verus!
