use latency_probe::dhcp::{address_is_permanent, dhcp_client_running, disable_dhcp_after_boot};
use latency_probe::interrupts::{
    interrupt_optimizations, parse_moderation, Moderation, HIGH_TX_USECS,
};
use latency_probe::locality::{
    bitmap_is_set, cpu_pinning, mask_is_pinned, parse_affinity_mask, perfect_locality, scan_xps,
};
use latency_probe::mitigations::{kernel_params, mitigations};
use latency_probe::netfilter::{loaded_modules, network};
use latency_probe::polling::{busy_polling, sysctl_matches};
use latency_probe::route::{default_network_interface, parse_default_interface};
use latency_probe::token_set::TokenSet;
use latency_probe::verdict::{check, Check, CheckResult, ProbeError, Section};

use latency_probe::verdict::CheckResult::{Satisfied, Unknown, Violated};

fn ok(text: &str) -> Result<String, ProbeError> {
    Ok(text.to_string())
}

fn failed() -> Result<String, ProbeError> {
    Err(ProbeError::CollectionFailure)
}

fn results(section: &Section) -> Vec<CheckResult> {
    section.checks.iter().map(|check| check.result).collect()
}

fn names(section: &Section) -> Vec<&str> {
    section.checks.iter().map(|check| check.name.as_str()).collect()
}

fn strings(items: &[&str]) -> Vec<String> {
    items.iter().map(|item| item.to_string()).collect()
}

#[test]
fn kernel_parameters_are_the_tokens_of_the_command_line() {
    let params =
        kernel_params("BOOT_IMAGE=/vmlinuz-6.1 root=/dev/sda1 ro  quiet\tnospectre_v2 pti=off\n");
    assert!(params.contains("BOOT_IMAGE=/vmlinuz-6.1"));
    assert!(params.contains("ro"));
    assert!(params.contains("quiet"));
    assert!(params.contains("nospectre_v2"));
    assert!(params.contains("pti=off"));
    assert!(!params.contains("nospectre_v1"));
    assert!(!params.contains("pti"));
    assert!(!params.contains("off"));
    assert!(!params.contains("root=/dev/sda1 ro"));
    assert!(!params.contains(""));
    assert_eq!(params.len(), 6);
}

#[test]
fn a_parameter_given_twice_is_held_once() {
    let params = kernel_params("quiet quiet splash quiet");
    assert_eq!(params.len(), 2);
    assert!(params.contains("quiet"));
    assert!(params.contains("splash"));
    assert_eq!(kernel_params("").len(), 0);
    assert_eq!(kernel_params(" \n").len(), 0);
}

#[test]
fn token_set_insert_and_contains() {
    let mut set = TokenSet::new();
    assert_eq!(set.len(), 0);
    assert!(!set.contains("a"));
    set.insert(vec!['a']);
    set.insert(vec!['b', 'c']);
    set.insert(vec!['a']);
    assert_eq!(set.len(), 2);
    assert!(set.contains("a"));
    assert!(set.contains("bc"));
    assert!(set.contains_chars(&vec!['b', 'c']));
    assert!(!set.contains("b"));
}

#[test]
fn the_global_switch_satisfies_all_six_checks() {
    let section = mitigations(&ok("root=/dev/sda1 mitigations=off quiet\n"));
    assert_eq!(section.title, "Disable Speculative Execution Mitigations");
    assert_eq!(
        names(&section),
        vec![
            "mitigations=off",
            "Spectre v1 + SWAPGS",
            "Spectre v2",
            "Spectre v3/Meltdown",
            "MDS/Zombieload",
            "TSX Asynchronous Abort",
        ]
    );
    assert_eq!(results(&section), vec![Satisfied; 6]);
    let with_flags = mitigations(&ok("mitigations=off nospectre_v1 mds=off"));
    assert_eq!(results(&with_flags), vec![Satisfied; 6]);
}

#[test]
fn without_the_global_switch_each_flag_counts_alone() {
    let section = mitigations(&ok("quiet nospectre_v1 pti=off tsx_async_abort=off"));
    assert_eq!(
        results(&section),
        vec![Violated, Satisfied, Violated, Satisfied, Violated, Satisfied]
    );
    let other = mitigations(&ok("nospectre_v2 mds=off"));
    assert_eq!(results(&other), vec![Violated, Violated, Satisfied, Violated, Satisfied, Violated]);
    let none = mitigations(&ok("quiet splash"));
    assert_eq!(results(&none), vec![Violated; 6]);
}

#[test]
fn a_flag_inside_another_token_does_not_count() {
    let section = mitigations(&ok("xmitigations=off mitigations=offx nospectre_v1=1 opti=off"));
    assert_eq!(results(&section), vec![Violated; 6]);
}

#[test]
fn an_unreadable_command_line_leaves_the_mitigations_unknown() {
    let section = mitigations(&failed());
    assert_eq!(section.title, "Disable Speculative Execution Mitigations");
    assert_eq!(results(&section), vec![Unknown; 6]);
    assert_eq!(names(&section)[5], "TSX Asynchronous Abort");
}

#[test]
fn modules_are_the_first_tokens_of_the_lines() {
    let listing = "ip_tables 32768 0 - Live 0xffffffffc0a5d000\n\
                   x_tables 53248 1 ip_tables, Live 0xffffffffc0a4a000\n\
                   \n\
                   \t nf_nat 57344 2 ebtables,arp_tables Live 0x0\n";
    let modules = loaded_modules(listing);
    assert!(modules.contains("ip_tables"));
    assert!(modules.contains("x_tables"));
    assert!(modules.contains("nf_nat"));
    assert!(!modules.contains("Live"));
    assert!(!modules.contains("32768"));
    assert!(!modules.contains("ip_tables,"));
    assert!(!modules.contains("ebtables"));
    assert!(!modules.contains("ebtables,arp_tables"));
    assert_eq!(modules.len(), 3);
}

#[test]
fn a_name_that_only_follows_on_a_line_is_no_module() {
    let modules = loaded_modules("bridge 1 0 ebtables Live\nstp 1 1 bridge Live\n");
    assert!(modules.contains("bridge"));
    assert!(modules.contains("stp"));
    assert!(!modules.contains("ebtables"));
    assert_eq!(loaded_modules("").len(), 0);
}

#[test]
fn netfilter_polarity_with_arp_and_eb_tables_loaded() {
    let section = network(&ok("arp_tables 16384 0 - Live 0x0\nebtables 36864 0 - Live 0x0\n"));
    assert_eq!(section.title, "Disable Iptables");
    assert_eq!(names(&section), vec!["ip_tables", "ip6_tables", "arp_tables", "ebtables"]);
    assert_eq!(results(&section), vec![Satisfied, Satisfied, Satisfied, Satisfied]);
}

#[test]
fn netfilter_polarity_with_ip_tables_loaded() {
    let section = network(&ok("ip_tables 32768 0 - Live 0x0\n"));
    assert_eq!(results(&section), vec![Violated, Satisfied, Violated, Violated]);
    let both = network(&ok("ip6_tables 1 0\nip_tables 1 0\nebtables 1 0\n"));
    assert_eq!(results(&both), vec![Violated, Violated, Violated, Satisfied]);
}

#[test]
fn an_unreadable_module_listing_leaves_netfilter_unknown() {
    let section = network(&Err(ProbeError::CollectionFailure));
    assert_eq!(names(&section), vec!["ip_tables", "ip6_tables", "arp_tables", "ebtables"]);
    assert_eq!(results(&section), vec![Unknown; 4]);
}

#[test]
fn the_default_interface_is_the_last_token_of_the_default_line() {
    let table = "Kernel IP routing table\n\
                 Destination     Gateway         Genmask         Flags Metric Ref    Use Iface\n\
                 default         _gateway        0.0.0.0         UG    100    0        0 enp3s0\n\
                 10.0.0.0        0.0.0.0         255.255.255.0   U     100    0        0 enp3s0\n\
                 default         other           0.0.0.0         UG    200    0        0 wlan0\n";
    assert_eq!(parse_default_interface(table), Ok("enp3s0".to_string()));
    assert_eq!(default_network_interface(&ok(table)), Ok("enp3s0".to_string()));
    assert_eq!(parse_default_interface("default\tgw 0 eth1  \r\n"), Ok("eth1".to_string()));
    assert_eq!(parse_default_interface("default via 10.0.0.1 dev \u{e9}th0"), Ok("\u{e9}th0".to_string()));
}

#[test]
fn a_table_without_a_default_line_has_no_default_route() {
    assert_eq!(parse_default_interface(""), Err(ProbeError::NoDefaultRoute));
    assert_eq!(
        parse_default_interface("Destination Gateway Iface\n10.0.0.0 0.0.0.0 eth0\n"),
        Err(ProbeError::NoDefaultRoute)
    );
    assert_eq!(parse_default_interface("defaults x eth0\n"), Err(ProbeError::NoDefaultRoute));
    assert_eq!(parse_default_interface(" default x eth0\n"), Err(ProbeError::NoDefaultRoute));
    assert_eq!(parse_default_interface("default"), Err(ProbeError::NoDefaultRoute));
    assert_eq!(parse_default_interface("Default gw eth0"), Err(ProbeError::NoDefaultRoute));
}

#[test]
fn a_routing_table_that_was_not_collected_keeps_its_failure() {
    assert_eq!(default_network_interface(&failed()), Err(ProbeError::CollectionFailure));
    assert_eq!(
        default_network_interface(&Err(ProbeError::ParseFailure)),
        Err(ProbeError::ParseFailure)
    );
    assert_eq!(default_network_interface(&ok("nothing")), Err(ProbeError::NoDefaultRoute));
}

#[test]
fn the_affinity_mask_is_the_last_token_of_its_line() {
    assert_eq!(parse_affinity_mask("pid 4242's current affinity mask: 1\n"), Ok(0x1));
    assert_eq!(parse_affinity_mask("pid 4242's current affinity mask: 3\n"), Ok(0x3));
    assert_eq!(parse_affinity_mask("pid 4242's current affinity mask: 0\n"), Ok(0x0));
    assert_eq!(parse_affinity_mask("pid 1's current affinity mask: ffff\n"), Ok(0xffff));
    assert_eq!(
        parse_affinity_mask("noise\npid 1's current affinity mask: 8\npid 2's current affinity mask: f\n"),
        Ok(0x8)
    );
    assert_eq!(parse_affinity_mask("current affinity mask: ffffffffffffffff"), Ok(u64::MAX));
}

#[test]
fn an_affinity_report_of_another_shape_fails_to_parse() {
    assert_eq!(parse_affinity_mask(""), Err(ProbeError::ParseFailure));
    assert_eq!(
        parse_affinity_mask("taskset: failed to get pid 1's affinity\n"),
        Err(ProbeError::ParseFailure)
    );
    assert_eq!(
        parse_affinity_mask("pid 1's current affinity mask: 0x3\n"),
        Err(ProbeError::ParseFailure)
    );
    assert_eq!(
        parse_affinity_mask("pid 1's current affinity mask:\n"),
        Err(ProbeError::ParseFailure)
    );
    assert_eq!(
        parse_affinity_mask("pid 1's current affinity mask: 10000000000000000\n"),
        Err(ProbeError::ParseFailure)
    );
}

#[test]
fn a_mask_with_one_bit_is_pinned() {
    assert!(mask_is_pinned(0x1));
    assert!(!mask_is_pinned(0x3));
    assert!(!mask_is_pinned(0x0));
    assert!(mask_is_pinned(0x8000_0000_0000_0000));
    assert!(!mask_is_pinned(u64::MAX));
}

#[test]
fn cpu_pinning_from_a_collected_report() {
    assert_eq!(cpu_pinning(&ok("pid 7's current affinity mask: 1\n")), Ok(true));
    assert_eq!(cpu_pinning(&ok("pid 7's current affinity mask: 3\n")), Ok(false));
    assert_eq!(cpu_pinning(&ok("pid 7's current affinity mask: 0\n")), Ok(false));
    assert_eq!(cpu_pinning(&ok("pid 7's current affinity mask: 40\n")), Ok(true));
    assert_eq!(cpu_pinning(&ok("no such process")), Err(ProbeError::ParseFailure));
    assert_eq!(cpu_pinning(&failed()), Err(ProbeError::CollectionFailure));
}

#[test]
fn xps_scan_over_queue_bitmaps() {
    assert!(scan_xps(&strings(&["0", "1", "0"])));
    assert!(!scan_xps(&strings(&["0", "0", "0"])));
    assert!(scan_xps(&strings(&["4"])));
    assert!(scan_xps(&strings(&["0", "0", "4"])));
    assert!(scan_xps(&strings(&["4", "0", "0"])));
    assert!(!scan_xps(&strings(&[])));
    assert!(!scan_xps(&strings(&["00000000\n", "0\n", ""])));
    assert!(scan_xps(&strings(&["00000000\n", "00000100\n"])));
}

#[test]
fn a_bitmap_is_set_when_a_character_is_not_zero() {
    assert!(!bitmap_is_set("0"));
    assert!(!bitmap_is_set("0000\n"));
    assert!(!bitmap_is_set(""));
    assert!(!bitmap_is_set("\n"));
    assert!(bitmap_is_set("1"));
    assert!(bitmap_is_set("00f0\n"));
    assert!(bitmap_is_set("00000000,00000000\n"));
    assert!(bitmap_is_set("0 0\n"));
}

#[test]
fn locality_with_a_pinned_process() {
    let section = perfect_locality(
        Some(7),
        &ok("pid 7's current affinity mask: 4\n"),
        &ok("eth0"),
        &strings(&["00\n", "02\n"]),
    );
    assert_eq!(section.title, "Perfect Locality");
    assert_eq!(
        names(&section),
        vec![
            "CPU Pinning",
            "SO_ATTACH_REUSEPORT_CBPF",
            "RSS: Receive Side Scailing - disable irqbalance",
            "RSS: Receive Side Scailing - set affinity",
            "XPS: Transmit Packet Steering",
            "Use the NUMA node that PCIe NIC is attached to",
        ]
    );
    assert_eq!(results(&section), vec![Satisfied, Unknown, Unknown, Unknown, Satisfied, Unknown]);
}

#[test]
fn locality_without_a_process_omits_the_pinning_check() {
    let section =
        perfect_locality(None, &ok("pid 7's current affinity mask: 1\n"), &ok("eth0"), &strings(&["0\n"]));
    assert_eq!(
        names(&section),
        vec![
            "SO_ATTACH_REUSEPORT_CBPF",
            "RSS: Receive Side Scailing - disable irqbalance",
            "RSS: Receive Side Scailing - set affinity",
            "XPS: Transmit Packet Steering",
            "Use the NUMA node that PCIe NIC is attached to",
        ]
    );
    assert_eq!(results(&section), vec![Unknown, Unknown, Unknown, Violated, Unknown]);
}

#[test]
fn locality_degrades_to_unknown_on_failures() {
    let section = perfect_locality(
        Some(1),
        &failed(),
        &Err(ProbeError::NoDefaultRoute),
        &strings(&[]),
    );
    assert_eq!(results(&section), vec![Unknown; 6]);
    let unpinned = perfect_locality(
        Some(1),
        &ok("pid 1's current affinity mask: ff\n"),
        &ok("eth0"),
        &strings(&[]),
    );
    assert_eq!(results(&unpinned), vec![Violated, Unknown, Unknown, Unknown, Violated, Unknown]);
    let garbled = perfect_locality(Some(1), &ok("garbled"), &ok("eth0"), &strings(&["1"]));
    assert_eq!(results(&garbled), vec![Unknown, Unknown, Unknown, Unknown, Satisfied, Unknown]);
}

#[test]
fn moderation_signals_are_read_line_by_line() {
    let report = "Coalesce parameters for eth0:\n\
                  Adaptive RX: on\n\
                  rx-usecs: 3\n\
                  tx-usecs: 256\n";
    assert_eq!(parse_moderation(report), Moderation { adaptive_rx: true, high_tx_usecs: Ok(true) });
    assert_eq!(
        parse_moderation("Adaptive RX: off\ntx-usecs: 255\n"),
        Moderation { adaptive_rx: false, high_tx_usecs: Ok(false) }
    );
    assert_eq!(
        parse_moderation("Adaptive RX: on\r\ntx-usecs: 1000\r\n"),
        Moderation { adaptive_rx: true, high_tx_usecs: Ok(true) }
    );
    assert_eq!(parse_moderation(""), Moderation { adaptive_rx: false, high_tx_usecs: Ok(false) });
}

#[test]
fn the_adaptive_line_must_match_exactly() {
    assert!(!parse_moderation("Adaptive RX: on  TX: off\n").adaptive_rx);
    assert!(!parse_moderation(" Adaptive RX: on\n").adaptive_rx);
    assert!(!parse_moderation("Adaptive RX: on \n").adaptive_rx);
    assert!(!parse_moderation("adaptive rx: on\n").adaptive_rx);
    assert!(parse_moderation("x\nAdaptive RX: on").adaptive_rx);
}

#[test]
fn the_transmit_delay_threshold_is_256() {
    assert_eq!(HIGH_TX_USECS, 256);
    assert_eq!(parse_moderation("tx-usecs: 0\n").high_tx_usecs, Ok(false));
    assert_eq!(parse_moderation("tx-usecs: 255\n").high_tx_usecs, Ok(false));
    assert_eq!(parse_moderation("tx-usecs: 256\n").high_tx_usecs, Ok(true));
    assert_eq!(parse_moderation("tx-usecs: 257\n").high_tx_usecs, Ok(true));
    assert_eq!(parse_moderation("tx-usecs: 4294967295\n").high_tx_usecs, Ok(true));
    assert_eq!(parse_moderation("tx-usecs: +300\n").high_tx_usecs, Ok(true));
    assert_eq!(parse_moderation("tx-usecs: 8\ntx-usecs: 512\ntx-usecs: 8\n").high_tx_usecs, Ok(true));
    assert_eq!(parse_moderation("tx-usecs: 8\ntx-usecs: 16\n").high_tx_usecs, Ok(false));
}

#[test]
fn a_transmit_delay_that_is_no_numeral_fails_to_parse() {
    let garbled = Err(ProbeError::ParseFailure);
    assert_eq!(parse_moderation("tx-usecs: n/a\n").high_tx_usecs, garbled);
    assert_eq!(parse_moderation("tx-usecs: 4294967296\n").high_tx_usecs, garbled);
    assert_eq!(parse_moderation("tx-usecs: 300 \n").high_tx_usecs, garbled);
    assert_eq!(parse_moderation("tx-usecs:  300\n").high_tx_usecs, garbled);
    assert_eq!(parse_moderation("tx-usecs: \n").high_tx_usecs, garbled);
    assert_eq!(parse_moderation("tx-usecs: -1\n").high_tx_usecs, garbled);
    assert_eq!(parse_moderation("tx-usecs: n/a\ntx-usecs: 300\n").high_tx_usecs, garbled);
    assert_eq!(parse_moderation("tx-usecs: 300\ntx-usecs: n/a\n").high_tx_usecs, garbled);
    assert_eq!(parse_moderation("tx-usecs: 8\ntx-usecs: n/a\n").high_tx_usecs, garbled);
}

#[test]
fn a_line_without_the_prefix_says_nothing_of_the_transmit_delay() {
    assert_eq!(parse_moderation("tx-usecs:300\n").high_tx_usecs, Ok(false));
    assert_eq!(parse_moderation("tx-usecs:\n").high_tx_usecs, Ok(false));
    assert_eq!(parse_moderation("rx-usecs: 300\n").high_tx_usecs, Ok(false));
    assert_eq!(parse_moderation("rx-usecs: n/a\n").high_tx_usecs, Ok(false));
    assert_eq!(parse_moderation(" tx-usecs: 300\n").high_tx_usecs, Ok(false));
    assert_eq!(parse_moderation("Adaptive RX: on\n").high_tx_usecs, Ok(false));
}

#[test]
fn an_unreadable_transmit_delay_leaves_its_check_unknown() {
    let section = interrupt_optimizations(&ok("eth0"), &ok("Adaptive RX: on\ntx-usecs: n/a\n"));
    assert_eq!(section.title, "Interrupt Moderation - eth0");
    assert_eq!(names(&section), vec!["adaptive-rx or high rx-usecs", "high tx-usecs"]);
    assert_eq!(results(&section), vec![Satisfied, Unknown]);
    let off = interrupt_optimizations(&ok("eth0"), &ok("Adaptive RX: off\ntx-usecs: n/a\n"));
    assert_eq!(results(&off), vec![Violated, Unknown]);
    let mixed = interrupt_optimizations(&ok("eth0"), &ok("tx-usecs: 512\ntx-usecs: n/a\n"));
    assert_eq!(results(&mixed), vec![Violated, Unknown]);
    let absent = interrupt_optimizations(&ok("eth0"), &ok("rx-usecs: 3\n"));
    assert_eq!(results(&absent), vec![Violated, Violated]);
}

#[test]
fn the_moderation_section_names_the_interface() {
    let section =
        interrupt_optimizations(&ok("enp3s0"), &ok("Adaptive RX: on\ntx-usecs: 10\n"));
    assert_eq!(section.title, "Interrupt Moderation - enp3s0");
    assert_eq!(names(&section), vec!["adaptive-rx or high rx-usecs", "high tx-usecs"]);
    assert_eq!(results(&section), vec![Satisfied, Violated]);
}

#[test]
fn a_failed_coalescing_report_leaves_both_checks_unknown() {
    let section = interrupt_optimizations(&ok("eth0"), &failed());
    assert_eq!(section.title, "Interrupt Moderation - eth0");
    assert_eq!(names(&section), vec!["adaptive-rx or high rx-usecs", "high tx-usecs"]);
    assert_eq!(results(&section), vec![Unknown, Unknown]);
    let unresolved =
        interrupt_optimizations(&Err(ProbeError::NoDefaultRoute), &ok("Adaptive RX: on\n"));
    assert_eq!(unresolved.title, "Interrupt Moderation");
    assert_eq!(results(&unresolved), vec![Unknown, Unknown]);
}

#[test]
fn sysctl_output_is_compared_without_trailing_white_space() {
    assert!(sysctl_matches("net.core.busy_poll = 1\n", "net.core.busy_poll", "1"));
    assert!(sysctl_matches("net.core.busy_poll = 1", "net.core.busy_poll", "1"));
    assert!(sysctl_matches("net.core.busy_poll = 1 \t\r\n", "net.core.busy_poll", "1"));
    assert!(!sysctl_matches("net.core.busy_poll = 10\n", "net.core.busy_poll", "1"));
    assert!(!sysctl_matches("net.core.busy_poll = 0\n", "net.core.busy_poll", "1"));
    assert!(!sysctl_matches("net.core.busy_poll=1\n", "net.core.busy_poll", "1"));
    assert!(!sysctl_matches(" net.core.busy_poll = 1\n", "net.core.busy_poll", "1"));
    assert!(!sysctl_matches("", "net.core.busy_poll", "1"));
    assert!(sysctl_matches("vm.swappiness = 60\n", "vm.swappiness", "60"));
}

#[test]
fn busy_polling_section() {
    let on = busy_polling(&ok("net.core.busy_poll = 1\n"));
    assert_eq!(on.title, "Busy Polling");
    assert_eq!(names(&on), vec!["net.core.busy_poll=1", "SO_ATTACH_REUSEPORT_CBPF"]);
    assert_eq!(results(&on), vec![Satisfied, Unknown]);
    assert_eq!(results(&busy_polling(&ok("net.core.busy_poll = 0\n"))), vec![Violated, Unknown]);
    assert_eq!(results(&busy_polling(&ok("net.core.busy_poll = 50\n"))), vec![Violated, Unknown]);
    assert_eq!(results(&busy_polling(&failed())), vec![Unknown, Unknown]);
}

#[test]
fn dhcp_client_and_lifetime_signals() {
    let sockets = "Netid State  Recv-Q Send-Q Local Address:Port Peer Address:Port Process\n\
                   p_raw UNCONN 0      0      *:eth0           *     users:((\"dhclient\",pid=612,fd=5))\n";
    assert!(dhcp_client_running(sockets));
    assert!(!dhcp_client_running("Netid State Recv-Q Send-Q\n"));
    assert!(!dhcp_client_running(""));
    let leased = "2: eth0: <BROADCAST,MULTICAST,UP,LOWER_UP> mtu 1500\n    \
                  inet 10.0.0.5/24 brd 10.0.0.255 scope global dynamic eth0\n       \
                  valid_lft 86047sec preferred_lft 86047sec\n";
    let fixed = "2: eth0: <BROADCAST,MULTICAST,UP,LOWER_UP> mtu 1500\n    \
                 inet 10.0.0.5/24 brd 10.0.0.255 scope global eth0\n       \
                 valid_lft forever preferred_lft forever\n";
    assert!(!address_is_permanent(leased));
    assert!(address_is_permanent(fixed));
    assert!(address_is_permanent(""));
}

#[test]
fn dhcp_section() {
    let section = disable_dhcp_after_boot(
        &ok("p_raw UNCONN users:((\"dhclient\",pid=1))\n"),
        &ok("eth0"),
        &ok("valid_lft forever preferred_lft forever\n"),
    );
    assert_eq!(section.title, "Disable DHCP");
    assert_eq!(
        names(&section),
        vec!["No DHCP client after boot", "Set the lifetime of IP to forever"]
    );
    assert_eq!(results(&section), vec![Violated, Satisfied]);
    let other =
        disable_dhcp_after_boot(&ok("nothing\n"), &ok("eth0"), &ok("valid_lft 100sec\n"));
    assert_eq!(results(&other), vec![Satisfied, Violated]);
}

#[test]
fn dhcp_section_degrades_to_unknown_on_failures() {
    let section = disable_dhcp_after_boot(&failed(), &ok("eth0"), &failed());
    assert_eq!(results(&section), vec![Unknown, Unknown]);
    let unresolved = disable_dhcp_after_boot(
        &ok("quiet\n"),
        &Err(ProbeError::NoDefaultRoute),
        &ok("valid_lft forever\n"),
    );
    assert_eq!(results(&unresolved), vec![Satisfied, Unknown]);
}

#[test]
fn verdicts_from_signals() {
    assert_eq!(CheckResult::from_bool(true), Satisfied);
    assert_eq!(CheckResult::from_bool(false), Violated);
    assert_eq!(CheckResult::from_option(Some(true)), Satisfied);
    assert_eq!(CheckResult::from_option(Some(false)), Violated);
    assert_eq!(CheckResult::from_option(None), Unknown);
    assert_eq!(CheckResult::from_fact(Ok(true)), Satisfied);
    assert_eq!(CheckResult::from_fact(Ok(false)), Violated);
    assert_eq!(CheckResult::from_fact(Err(ProbeError::CollectionFailure)), Unknown);
    assert_eq!(CheckResult::from_fact(Err(ProbeError::ParseFailure)), Unknown);
    assert_eq!(CheckResult::from_fact(Err(ProbeError::NoDefaultRoute)), Unknown);
    assert_eq!(Satisfied.to_option(), Some(true));
    assert_eq!(Violated.to_option(), Some(false));
    assert_eq!(Unknown.to_option(), None);
}

#[test]
fn a_check_from_an_optional_signal() {
    assert_eq!(check("CPU Pinning", Some(true)), Check::new("CPU Pinning", Satisfied));
    assert_eq!(check("CPU Pinning", Some(false)), Check::new("CPU Pinning", Violated));
    assert_eq!(check("NUMA misses", None), Check::new("NUMA misses", Unknown));
    let unnamed = check("", None);
    assert_eq!(unnamed.name, "");
    assert_eq!(unnamed.result, Unknown);
    let pinned = check("CPU Pinning", Some(true));
    assert_eq!(pinned.name, "CPU Pinning");
    assert_eq!(pinned.result, Satisfied);
    assert_eq!(check("x", Some(false)).result, Violated);
}

#[test]
fn sections_keep_their_checks_in_insertion_order() {
    let mut section = Section::new("Title");
    assert_eq!(section.title, "Title");
    assert!(section.checks.is_empty());
    section.push("first", Unknown);
    section.push("second", Satisfied);
    section.push("first", Violated);
    assert_eq!(
        section.checks,
        vec![Check::new("first", Unknown), Check::new("second", Satisfied), Check::new("first", Violated)]
    );
}
