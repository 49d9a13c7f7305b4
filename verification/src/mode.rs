//! The kinds of test the load tester can run, and the ways to reach the
//! target through a proxy.

use vstd::prelude::*;

verus! {

/// The attack that the load tester performs.
#[derive(Debug, Clone, Copy, PartialEq, Eq, Structural)]
pub enum TestMode {
    SlowHeaders,
    SlowBody,
    RangeAttack,
    SlowRead,
}

impl TestMode {
    /// The command-line flag that selects this mode.
    pub open spec fn flag_spec(self) -> Seq<char> {
        match self {
            TestMode::SlowHeaders => "-H"@,
            TestMode::SlowBody => "-B"@,
            TestMode::RangeAttack => "-R"@,
            TestMode::SlowRead => "-X"@,
        }
    }

    /// The text that names this mode to a person.
    pub open spec fn label_spec(self) -> Seq<char> {
        match self {
            TestMode::SlowHeaders => "Slow Headers (Slowloris)  -H"@,
            TestMode::SlowBody => "Slow Body (R-U-Dead-Yet)  -B"@,
            TestMode::RangeAttack => "Range Attack (Apache Killer)  -R"@,
            TestMode::SlowRead => "Slow Read  -X"@,
        }
    }

    pub fn flag(&self) -> (flag: &'static str)
        ensures
            flag@ == self.flag_spec(),
    {
        match self {
            TestMode::SlowHeaders => "-H",
            TestMode::SlowBody => "-B",
            TestMode::RangeAttack => "-R",
            TestMode::SlowRead => "-X",
        }
    }

    pub fn label(&self) -> (label: &'static str)
        ensures
            label@ == self.label_spec(),
    {
        match self {
            TestMode::SlowHeaders => "Slow Headers (Slowloris)  -H",
            TestMode::SlowBody => "Slow Body (R-U-Dead-Yet)  -B",
            TestMode::RangeAttack => "Range Attack (Apache Killer)  -R",
            TestMode::SlowRead => "Slow Read  -X",
        }
    }
}

/// How the load tester reaches the target: directly, with all traffic
/// through an HTTP proxy, or with only the probe connection through one.
#[derive(Debug, Clone, Copy, PartialEq, Eq, Structural)]
pub enum ProxyMode {
    /// No proxy.
    Direct,
    Http,
    Probe,
}

impl ProxyMode {
    /// The command-line flag that carries the proxy address in this mode,
    /// if the mode uses a proxy at all.
    pub open spec fn flag_spec(self) -> Option<Seq<char>> {
        match self {
            ProxyMode::Direct => None,
            ProxyMode::Http => Some("-d"@),
            ProxyMode::Probe => Some("-e"@),
        }
    }

    pub fn flag(&self) -> (flag: Option<&'static str>)
        ensures
            flag is Some == self.flag_spec() is Some,
            flag matches Some(f) ==> self.flag_spec() == Some(f@),
    {
        match self {
            ProxyMode::Direct => None,
            ProxyMode::Http => Some("-d"),
            ProxyMode::Probe => Some("-e"),
        }
    }
}

} // verus!
