//! The report model: tri-state verdicts, named checks and ordered sections.

use vstd::prelude::*;
use vstd::string::*;

verus! {

/// Why a fact could not be obtained or understood.
#[derive(Clone, Copy, Debug, PartialEq, Eq, Structural)]
pub enum ProbeError {
    /// The file or command behind the fact could not be read or run.
    CollectionFailure,
    /// The text was obtained but does not have the expected shape.
    ParseFailure,
    /// The routing table names no default route.
    NoDefaultRoute,
}

impl ProbeError {
    pub open spec fn spec_message(self) -> Seq<char> {
        match self {
            ProbeError::CollectionFailure => "the fact could not be collected"@,
            ProbeError::ParseFailure => "the collected text has an unexpected shape"@,
            ProbeError::NoDefaultRoute => "the routing table has no default route"@,
        }
    }

    /// A sentence that says what went wrong.
    pub fn message(self) -> (text: String)
        ensures
            text@ == self.spec_message(),
    {
        match self {
            ProbeError::CollectionFailure => "the fact could not be collected".to_owned(),
            ProbeError::ParseFailure => "the collected text has an unexpected shape".to_owned(),
            ProbeError::NoDefaultRoute => "the routing table has no default route".to_owned(),
        }
    }
}

/// The outcome of one tuning check.
#[derive(Clone, Copy, Debug, PartialEq, Eq, Structural)]
pub enum CheckResult {
    /// The recommendation is in effect.
    Satisfied,
    /// The recommendation is not in effect.
    Violated,
    /// Nothing could be established about the recommendation.
    Unknown,
}

/// The colour class under which a verdict is shown.
#[derive(Clone, Copy, Debug, PartialEq, Eq, Structural)]
pub enum Tone {
    Green,
    Red,
    Yellow,
}

/// The verdict that a boolean signal stands for.
pub open spec fn verdict_of(flag: bool) -> CheckResult {
    if flag {
        CheckResult::Satisfied
    } else {
        CheckResult::Violated
    }
}

/// The verdict that a signal stands for when obtaining it may have failed.
pub open spec fn verdict_of_fact(fact: Result<bool, ProbeError>) -> CheckResult {
    match fact {
        Ok(flag) => verdict_of(flag),
        Err(_) => CheckResult::Unknown,
    }
}

/// The verdict that an optional boolean stands for: absence means unknown.
pub open spec fn verdict_of_option(flag: Option<bool>) -> CheckResult {
    match flag {
        Some(b) => verdict_of(b),
        None => CheckResult::Unknown,
    }
}

/// The characters of a collected text, or the failure to collect it.
pub open spec fn text_view(fact: Result<String, ProbeError>) -> Result<Seq<char>, ProbeError> {
    match fact {
        Ok(text) => Ok(text@),
        Err(e) => Err(e),
    }
}

/// Checks with the given names, in order, all with verdict `Unknown`.
pub open spec fn unknown_checks(names: Seq<Seq<char>>) -> Seq<CheckView> {
    names.map_values(|name: Seq<char>| CheckView { name, result: CheckResult::Unknown })
}

impl CheckResult {
    /// `Satisfied` for `true`, `Violated` for `false`.
    pub fn from_bool(flag: bool) -> (r: CheckResult)
        ensures
            r == verdict_of(flag),
    {
        if flag {
            CheckResult::Satisfied
        } else {
            CheckResult::Violated
        }
    }

    /// The verdict of a signal whose collection or parsing may have failed:
    /// any failure degrades to `Unknown`.
    pub fn from_fact(fact: Result<bool, ProbeError>) -> (r: CheckResult)
        ensures
            r == verdict_of_fact(fact),
    {
        match fact {
            Ok(flag) => CheckResult::from_bool(flag),
            Err(_) => CheckResult::Unknown,
        }
    }

    /// The verdict of an optional boolean.
    pub fn from_option(flag: Option<bool>) -> (r: CheckResult)
        ensures
            r == verdict_of_option(flag),
    {
        match flag {
            Some(b) => CheckResult::from_bool(b),
            None => CheckResult::Unknown,
        }
    }

    /// The optional boolean that a verdict stands for.
    pub fn to_option(self) -> (r: Option<bool>)
        ensures
            verdict_of_option(r) == self,
    {
        match self {
            CheckResult::Satisfied => Some(true),
            CheckResult::Violated => Some(false),
            CheckResult::Unknown => None,
        }
    }

    pub open spec fn spec_symbol(self) -> char {
        match self {
            CheckResult::Satisfied => '\u{2714}',
            CheckResult::Violated => '\u{2717}',
            CheckResult::Unknown => '?',
        }
    }

    /// The mark printed in front of a check: a check mark, a ballot cross or
    /// a question mark.
    pub fn symbol(self) -> (c: char)
        ensures
            c == self.spec_symbol(),
    {
        match self {
            CheckResult::Satisfied => '\u{2714}',
            CheckResult::Violated => '\u{2717}',
            CheckResult::Unknown => '?',
        }
    }

    pub open spec fn spec_tone(self) -> Tone {
        match self {
            CheckResult::Satisfied => Tone::Green,
            CheckResult::Violated => Tone::Red,
            CheckResult::Unknown => Tone::Yellow,
        }
    }

    /// The colour class of the mark.
    pub fn tone(self) -> (t: Tone)
        ensures
            t == self.spec_tone(),
    {
        match self {
            CheckResult::Satisfied => Tone::Green,
            CheckResult::Violated => Tone::Red,
            CheckResult::Unknown => Tone::Yellow,
        }
    }
}

/// One tuning recommendation with its verdict.
#[derive(Clone, Debug, PartialEq, Eq)]
pub struct Check {
    pub name: String,
    pub result: CheckResult,
}

/// What a `Check` is, mathematically.
pub struct CheckView {
    pub name: Seq<char>,
    pub result: CheckResult,
}

impl View for Check {
    type V = CheckView;

    open spec fn view(&self) -> CheckView {
        CheckView { name: self.name@, result: self.result }
    }
}

impl Check {
    /// A check called `name` with verdict `result`.
    pub fn new(name: &str, result: CheckResult) -> (c: Check)
        ensures
            c@ == (CheckView { name: name@, result }),
    {
        Check { name: name.to_owned(), result }
    }
}

/// The check called `name` for an optional boolean signal: `Some(true)` is
/// satisfied, `Some(false)` violated, and `None` unknown.
pub fn check(name: &str, value: Option<bool>) -> (c: Check)
    ensures
        c@ == (CheckView { name: name@, result: verdict_of_option(value) }),
{
    Check::new(name, CheckResult::from_option(value))
}

/// A titled group of checks; their order is the order of the catalogue.
#[derive(Clone, Debug, PartialEq, Eq)]
pub struct Section {
    pub title: String,
    pub checks: Vec<Check>,
}

/// What a `Section` is, mathematically.
pub struct SectionView {
    pub title: Seq<char>,
    pub checks: Seq<CheckView>,
}

impl View for Section {
    type V = SectionView;

    open spec fn view(&self) -> SectionView {
        SectionView { title: self.title@, checks: self.checks@.map_values(|c: Check| c@) }
    }
}

impl Section {
    /// A section called `title` without checks.
    pub fn new(title: &str) -> (s: Section)
        ensures
            s@ == (SectionView { title: title@, checks: Seq::empty() }),
    {
        let s = Section { title: title.to_owned(), checks: Vec::new() };
        assert(s@.checks =~= Seq::empty());
        s
    }

    /// Appends a check; the checks already present keep their places.
    pub fn push(&mut self, name: &str, result: CheckResult)
        ensures
            final(self)@.title == old(self)@.title,
            final(self)@.checks == old(self)@.checks.push(CheckView { name: name@, result }),
    {
        let c = Check::new(name, result);
        self.checks.push(c);
        assert(self@.checks =~= old(self)@.checks.push(CheckView { name: name@, result }));
    }
}

} // verus!
