//! Where the facts come from: the pseudo-files to read and the utilities to
//! run, each with its fixed arguments.

use vstd::prelude::*;
use vstd::string::*;

verus! {

/// The decimal digit for a number below ten.
pub open spec fn digit_char(d: nat) -> char {
    if d == 0 {
        '0'
    } else if d == 1 {
        '1'
    } else if d == 2 {
        '2'
    } else if d == 3 {
        '3'
    } else if d == 4 {
        '4'
    } else if d == 5 {
        '5'
    } else if d == 6 {
        '6'
    } else if d == 7 {
        '7'
    } else if d == 8 {
        '8'
    } else {
        '9'
    }
}

/// The decimal numeral of `n`, without leading zeros.
pub open spec fn decimal(n: nat) -> Seq<char>
    decreases n,
{
    if n < 10 {
        seq![digit_char(n)]
    } else {
        decimal(n / 10).push(digit_char(n % 10))
    }
}

/// The numeral of one digit.
fn digit_text(d: u64) -> (text: &'static str)
    requires
        d < 10,
    ensures
        text@ == seq![digit_char(d as nat)],
{
    proof {
        reveal_strlit("0");
        reveal_strlit("1");
        reveal_strlit("2");
        reveal_strlit("3");
        reveal_strlit("4");
        reveal_strlit("5");
        reveal_strlit("6");
        reveal_strlit("7");
        reveal_strlit("8");
        reveal_strlit("9");
    }
    let text = if d == 0 {
        "0"
    } else if d == 1 {
        "1"
    } else if d == 2 {
        "2"
    } else if d == 3 {
        "3"
    } else if d == 4 {
        "4"
    } else if d == 5 {
        "5"
    } else if d == 6 {
        "6"
    } else if d == 7 {
        "7"
    } else if d == 8 {
        "8"
    } else {
        "9"
    };
    assert(text@ =~= seq![digit_char(d as nat)]);
    text
}

/// Appends the decimal numeral of `n` to `out`.
pub fn append_decimal(out: &mut String, n: u64)
    ensures
        final(out)@ == old(out)@ + decimal(n as nat),
    decreases n,
{
    if n >= 10 {
        append_decimal(out, n / 10);
    }
    out.append(digit_text(n % 10));
    assert(out@ =~= old(out)@ + decimal(n as nat));
}

/// The decimal numeral of `n`.
pub fn decimal_string(n: u64) -> (text: String)
    ensures
        text@ == decimal(n as nat),
{
    let mut text = String::new();
    append_decimal(&mut text, n);
    assert(Seq::<char>::empty() + decimal(n as nat) =~= decimal(n as nat));
    text
}

/// A utility to run: its program and its arguments.
#[derive(Debug, PartialEq, Eq)]
pub struct Invocation {
    pub program: String,
    pub args: Vec<String>,
}

/// What an `Invocation` is, mathematically.
pub struct InvocationView {
    pub program: Seq<char>,
    pub args: Seq<Seq<char>>,
}

impl View for Invocation {
    type V = InvocationView;

    open spec fn view(&self) -> InvocationView {
        InvocationView { program: self.program@, args: self.args@.map_values(|a: String| a@) }
    }
}

impl Invocation {
    /// The program `program` without arguments.
    pub fn new(program: &str) -> (call: Invocation)
        ensures
            call@ == (InvocationView { program: program@, args: Seq::empty() }),
    {
        let call = Invocation { program: program.to_owned(), args: Vec::new() };
        assert(call@.args =~= Seq::empty());
        call
    }

    /// Adds `arg` behind the arguments already there.
    pub fn arg(&mut self, arg: &str)
        ensures
            final(self)@.program == old(self)@.program,
            final(self)@.args == old(self)@.args.push(arg@),
    {
        self.args.push(arg.to_owned());
        assert(self@.args =~= old(self)@.args.push(arg@));
    }
}

/// The pseudo-file that holds the kernel command line.
pub fn cmdline_path() -> (path: &'static str)
    ensures
        path@ == "/proc/cmdline"@,
{
    "/proc/cmdline"
}

/// The pseudo-file that lists the loaded modules.
pub fn modules_path() -> (path: &'static str)
    ensures
        path@ == "/proc/modules"@,
{
    "/proc/modules"
}

/// The path of the CPU bitmap of a transmit queue.
pub open spec fn xps_path(interface: Seq<char>, queue: nat) -> Seq<char> {
    "/sys/class/net/"@ + interface + "/queues/tx-"@ + decimal(queue) + "/xps_cpus"@
}

/// The pseudo-file that holds the CPU bitmap of transmit queue `queue` of
/// `interface`.
pub fn xps_cpus_path(interface: &str, queue: u64) -> (path: String)
    ensures
        path@ == xps_path(interface@, queue as nat),
{
    let mut path = String::from_str("/sys/class/net/");
    path.append(interface);
    path.append("/queues/tx-");
    append_decimal(&mut path, queue);
    path.append("/xps_cpus");
    path
}

/// Prints the routing table: `route`.
pub fn route_command() -> (call: Invocation)
    ensures
        call@ == (InvocationView { program: "route"@, args: Seq::empty() }),
{
    Invocation::new("route")
}

/// Prints the affinity of a process: `taskset -p <pid>`.
pub fn taskset_command(pid: u64) -> (call: Invocation)
    ensures
        call@ == (InvocationView { program: "taskset"@, args: seq!["-p"@, decimal(pid as nat)] }),
{
    let mut call = Invocation::new("taskset");
    call.arg("-p");
    let numeral = decimal_string(pid);
    call.arg(numeral.as_str());
    assert(call@.args =~= seq!["-p"@, decimal(pid as nat)]);
    call
}

/// Prints the coalescing settings of an interface: `ethtool -c <interface>`.
pub fn ethtool_command(interface: &str) -> (call: Invocation)
    ensures
        call@ == (InvocationView { program: "ethtool"@, args: seq!["-c"@, interface@] }),
{
    let mut call = Invocation::new("ethtool");
    call.arg("-c");
    call.arg(interface);
    assert(call@.args =~= seq!["-c"@, interface@]);
    call
}

/// Prints the setting for busy polling: `sysctl net.core.busy_poll`.
pub fn sysctl_command() -> (call: Invocation)
    ensures
        call@ == (InvocationView { program: "sysctl"@, args: seq!["net.core.busy_poll"@] }),
{
    let mut call = Invocation::new("sysctl");
    call.arg("net.core.busy_poll");
    assert(call@.args =~= seq!["net.core.busy_poll"@]);
    call
}

/// Lists the packet sockets with their processes:
/// `/usr/bin/ss --packet --processes`.
pub fn ss_command() -> (call: Invocation)
    ensures
        call@ == (InvocationView {
            program: "/usr/bin/ss"@,
            args: seq!["--packet"@, "--processes"@],
        }),
{
    let mut call = Invocation::new("/usr/bin/ss");
    call.arg("--packet");
    call.arg("--processes");
    assert(call@.args =~= seq!["--packet"@, "--processes"@]);
    call
}

/// Lists the addresses of an interface: `ip addr show <interface>`.
pub fn ip_addr_command(interface: &str) -> (call: Invocation)
    ensures
        call@ == (InvocationView { program: "ip"@, args: seq!["addr"@, "show"@, interface@] }),
{
    let mut call = Invocation::new("ip");
    call.arg("addr");
    call.arg("show");
    call.arg(interface);
    assert(call@.args =~= seq!["addr"@, "show"@, interface@]);
    call
}

} // verus!
