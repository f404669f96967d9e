//! Traces of DHCP after boot: a running client, and an address with a
//! limited lifetime.

use vstd::prelude::*;
use crate::text::{any_line_contains, some_line_contains};
use crate::verdict::{
    text_view, verdict_of, CheckResult, CheckView, ProbeError, Section, SectionView,
};

verus! {

/// Whether a listing of packet sockets shows a DHCP client: some line holds
/// `dhclient`.
pub open spec fn has_dhcp_client(sockets: Seq<char>) -> bool {
    some_line_contains(sockets, "dhclient"@)
}

/// Whether the addresses of an interface live forever: no line of their
/// listing holds `sec`, the mark of a remaining lifetime.
pub open spec fn lifetime_is_forever(addresses: Seq<char>) -> bool {
    !some_line_contains(addresses, "sec"@)
}

/// Tests a listing of packet sockets for a DHCP client.
pub fn dhcp_client_running(sockets: &str) -> (running: bool)
    ensures
        running == has_dhcp_client(sockets@),
{
    any_line_contains(sockets, "dhclient")
}

/// Tests the address listing of an interface for unlimited lifetimes.
pub fn address_is_permanent(addresses: &str) -> (permanent: bool)
    ensures
        permanent == lifetime_is_forever(addresses@),
{
    !any_line_contains(addresses, "sec")
}

/// The title of the section on DHCP.
pub open spec fn dhcp_title() -> Seq<char> {
    "Disable DHCP"@
}

/// The verdict on the DHCP client: satisfied when none is running, unknown
/// where the socket listing could not be collected.
pub open spec fn client_verdict(sockets: Result<Seq<char>, ProbeError>) -> CheckResult {
    match sockets {
        Ok(text) => verdict_of(!has_dhcp_client(text)),
        Err(_) => CheckResult::Unknown,
    }
}

/// The verdict on the address lifetime: unknown where the default interface
/// could not be resolved or its addresses could not be collected.
pub open spec fn lifetime_verdict(
    interface: Result<Seq<char>, ProbeError>,
    addresses: Result<Seq<char>, ProbeError>,
) -> CheckResult {
    match (interface, addresses) {
        (Ok(_), Ok(text)) => verdict_of(lifetime_is_forever(text)),
        _ => CheckResult::Unknown,
    }
}

/// The section on DHCP.
pub open spec fn dhcp_section(
    sockets: Result<Seq<char>, ProbeError>,
    interface: Result<Seq<char>, ProbeError>,
    addresses: Result<Seq<char>, ProbeError>,
) -> SectionView {
    SectionView {
        title: dhcp_title(),
        checks: seq![
            CheckView { name: "No DHCP client after boot"@, result: client_verdict(sockets) },
            CheckView {
                name: "Set the lifetime of IP to forever"@,
                result: lifetime_verdict(interface, addresses),
            },
        ],
    }
}

/// Evaluates the checks on DHCP from the listing of packet sockets and the
/// address listing of the default interface.
pub fn disable_dhcp_after_boot(
    sockets: &Result<String, ProbeError>,
    interface: &Result<String, ProbeError>,
    addresses: &Result<String, ProbeError>,
) -> (section: Section)
    ensures
        section@ == dhcp_section(
            text_view(*sockets),
            text_view(*interface),
            text_view(*addresses),
        ),
{
    let client = match sockets {
        Ok(text) => CheckResult::from_bool(!dhcp_client_running(text.as_str())),
        Err(_) => CheckResult::Unknown,
    };
    let lifetime = match (interface, addresses) {
        (Ok(_), Ok(text)) => CheckResult::from_bool(address_is_permanent(text.as_str())),
        _ => CheckResult::Unknown,
    };
    let mut section = Section::new("Disable DHCP");
    section.push("No DHCP client after boot", client);
    section.push("Set the lifetime of IP to forever", lifetime);
    assert(section@.checks =~= dhcp_section(
        text_view(*sockets),
        text_view(*interface),
        text_view(*addresses),
    ).checks);
    section
}

} // verus!
