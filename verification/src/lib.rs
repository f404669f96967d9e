//! Read-only survey of a Linux host's low-latency tuning.
//!
//! The parsers turn raw system text (pseudo-files and the output of
//! diagnostic utilities) into facts; the probes reduce the facts to
//! tri-state verdicts, grouped into sections in a fixed order. Collecting the
//! text is left to the caller: every function here is a function of the text
//! it is given, and a text that could not be collected leaves the checks
//! that need it unknown without touching the others.

pub mod catalogue;
pub mod command;
pub mod dhcp;
pub mod interrupts;
pub mod locality;
pub mod mitigations;
pub mod netfilter;
pub mod number;
pub mod polling;
pub mod route;
pub mod survey;
pub mod text;
pub mod token_set;
pub mod verdict;
