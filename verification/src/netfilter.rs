//! Loaded kernel modules and the packet-filter modules among them.

use vstd::prelude::*;
use crate::text::{chars_of, copy_range, first_token, first_token_span, lines, spans_cut, split_lines};
use crate::token_set::TokenSet;
use crate::verdict::{
    text_view, unknown_checks, verdict_of, CheckResult, CheckView, ProbeError, Section,
    SectionView,
};

verus! {

/// The names that stand first on one of the given lines.
pub open spec fn first_tokens(ls: Seq<Seq<char>>) -> Set<Seq<char>> {
    Set::new(|name: Seq<char>| exists|k: int| 0 <= k < ls.len() && #[trigger] first_token(ls[k]) == Some(name))
}

/// The set of modules that a module listing names: the first token of each
/// of its lines. Lines without a token name none.
pub open spec fn module_set(listing: Seq<char>) -> Set<Seq<char>> {
    first_tokens(lines(listing))
}

/// A name is in the module set of a listing exactly when it is the first
/// token of one of the listing's lines; standing later on a line does not
/// make it a member.
pub proof fn lemma_module_membership(listing: Seq<char>, name: Seq<char>)
    ensures
        module_set(listing).contains(name) <==> exists|k: int|
            0 <= k < lines(listing).len() && #[trigger] first_token(lines(listing)[k]) == Some(
                name,
            ),
{
}

/// One more line adds its first token, if it has one, and nothing else.
proof fn lemma_first_tokens_step(ls: Seq<Seq<char>>, i: int)
    requires
        0 <= i < ls.len(),
    ensures
        first_tokens(ls.take(i + 1)) == match first_token(ls[i]) {
            Some(name) => first_tokens(ls.take(i)).insert(name),
            None => first_tokens(ls.take(i)),
        },
{
    let before = first_tokens(ls.take(i));
    let after = first_tokens(ls.take(i + 1));
    let expected = match first_token(ls[i]) {
        Some(name) => before.insert(name),
        None => before,
    };
    assert forall|name: Seq<char>| after.contains(name) <==> expected.contains(name) by {
        if after.contains(name) {
            let k = choose|k: int|
                0 <= k < ls.take(i + 1).len() && #[trigger] first_token(ls.take(i + 1)[k]) == Some(
                    name,
                );
            if k < i {
                assert(first_token(ls.take(i)[k]) == Some(name));
            }
        }
        if expected.contains(name) {
            if before.contains(name) {
                let k = choose|k: int|
                    0 <= k < ls.take(i).len() && #[trigger] first_token(ls.take(i)[k]) == Some(name);
                assert(first_token(ls.take(i + 1)[k]) == Some(name));
            } else {
                assert(first_token(ls.take(i + 1)[i]) == Some(name));
            }
        }
    }
    assert(after =~= expected);
}

/// Parses a module listing into the set of loaded modules.
pub fn loaded_modules(listing: &str) -> (modules: TokenSet)
    ensures
        modules.wf(),
        modules@ == module_set(listing@),
{
    let chars = chars_of(listing);
    let spans = split_lines(&chars);
    let ghost ls = lines(chars@);
    let mut modules = TokenSet::new();
    let mut i: usize = 0;
    assert(first_tokens(ls.take(0)) =~= Set::<Seq<char>>::empty());
    while i < spans.len()
        invariant
            i <= spans.len(),
            ls == lines(chars@),
            spans_cut(spans@, chars@, ls),
            modules.wf(),
            modules@ == first_tokens(ls.take(i as int)),
        decreases spans.len() - i,
    {
        let line = spans[i];
        assert(line.fits(chars@));
        proof {
            lemma_first_tokens_step(ls, i as int);
        }
        match first_token_span(&chars, line.start, line.end) {
            Some(span) => {
                let name = copy_range(&chars, span.start, span.end);
                modules.insert(name);
            },
            None => {},
        }
        i += 1;
    }
    assert(ls.take(i as int) =~= ls);
    modules
}

/// The title of the section on packet-filter modules.
pub open spec fn network_title() -> Seq<char> {
    "Disable Iptables"@
}

/// The names of the four checks on packet-filter modules, in report order.
pub open spec fn netfilter_names() -> Seq<Seq<char>> {
    seq!["ip_tables"@, "ip6_tables"@, "arp_tables"@, "ebtables"@]
}

/// The four checks for a set of loaded modules. `ip_tables` and
/// `ip6_tables` are satisfied when the module is absent, `arp_tables` and
/// `ebtables` when it is present.
pub open spec fn netfilter_checks(modules: Set<Seq<char>>) -> Seq<CheckView> {
    seq![
        CheckView { name: "ip_tables"@, result: verdict_of(!modules.contains("ip_tables"@)) },
        CheckView { name: "ip6_tables"@, result: verdict_of(!modules.contains("ip6_tables"@)) },
        CheckView { name: "arp_tables"@, result: verdict_of(modules.contains("arp_tables"@)) },
        CheckView { name: "ebtables"@, result: verdict_of(modules.contains("ebtables"@)) },
    ]
}

/// All four checks are satisfied exactly when `arp_tables` and `ebtables`
/// are loaded and `ip_tables` and `ip6_tables` are not.
pub proof fn lemma_netfilter_polarity(modules: Set<Seq<char>>)
    ensures
        netfilter_checks(modules).len() == 4,
        (forall|i: int|
            0 <= i < 4 ==> (#[trigger] netfilter_checks(modules)[i]).result
                == CheckResult::Satisfied) <==> (!modules.contains("ip_tables"@)
            && !modules.contains("ip6_tables"@) && modules.contains("arp_tables"@)
            && modules.contains("ebtables"@)),
{
    let checks = netfilter_checks(modules);
    if forall|i: int| 0 <= i < 4 ==> (#[trigger] checks[i]).result == CheckResult::Satisfied {
        assert(checks[0].result == CheckResult::Satisfied);
        assert(checks[1].result == CheckResult::Satisfied);
        assert(checks[2].result == CheckResult::Satisfied);
        assert(checks[3].result == CheckResult::Satisfied);
    }
}

/// The section on packet-filter modules for a collected module listing.
/// Where the listing could not be collected, every check is unknown.
pub open spec fn network_section(listing: Result<Seq<char>, ProbeError>) -> SectionView {
    SectionView {
        title: network_title(),
        checks: match listing {
            Ok(text) => netfilter_checks(module_set(text)),
            Err(_) => unknown_checks(netfilter_names()),
        },
    }
}

/// Evaluates the checks on packet-filter modules from the content of the
/// module listing.
pub fn network(listing: &Result<String, ProbeError>) -> (section: Section)
    ensures
        section@ == network_section(text_view(*listing)),
{
    let mut section = Section::new("Disable Iptables");
    match listing {
        Ok(text) => {
            let modules = loaded_modules(text.as_str());
            section.push("ip_tables", CheckResult::from_bool(!modules.contains("ip_tables")));
            section.push("ip6_tables", CheckResult::from_bool(!modules.contains("ip6_tables")));
            section.push("arp_tables", CheckResult::from_bool(modules.contains("arp_tables")));
            section.push("ebtables", CheckResult::from_bool(modules.contains("ebtables")));
            assert(section@.checks =~= netfilter_checks(module_set(text@)));
        },
        Err(_) => {
            section.push("ip_tables", CheckResult::Unknown);
            section.push("ip6_tables", CheckResult::Unknown);
            section.push("arp_tables", CheckResult::Unknown);
            section.push("ebtables", CheckResult::Unknown);
            assert(section@.checks =~= unknown_checks(netfilter_names()));
        },
    }
    section
}

} // verus!
