//! Outcome levels of a native operation and the translation of native status codes.

use core::cmp::Ordering;
use libc::c_int;
use vstd::prelude::*;
use vstd::std_specs::cmp::PartialOrdSpecImpl;

verus! {

/// Ordered outcome of an operation: `Success < Warning < Error < Severe`.
///
/// `Warning` and `Error` describe the quality of the markup and are ordinary
/// results. `Severe` means that the native library itself failed.
#[derive(Debug, Clone, Copy, PartialEq, Eq, Structural)]
pub enum TidySeverity {
    Success,
    Warning,
    Error,
    Severe,
}

impl TidySeverity {
    /// The severity that a native status code stands for.
    pub open spec fn of_status(code: int) -> TidySeverity {
        if code == 0 {
            TidySeverity::Success
        } else if code == 1 {
            TidySeverity::Warning
        } else if code == 2 {
            TidySeverity::Error
        } else {
            TidySeverity::Severe
        }
    }

    /// Position in the order of severities, from 0 for `Success` to 3 for `Severe`.
    pub open spec fn rank(self) -> int {
        match self {
            TidySeverity::Success => 0,
            TidySeverity::Warning => 1,
            TidySeverity::Error => 2,
            TidySeverity::Severe => 3,
        }
    }

    /// The name under which a severity is printed.
    pub open spec fn name(self) -> Seq<char> {
        match self {
            TidySeverity::Success => "Success"@,
            TidySeverity::Warning => "Warning"@,
            TidySeverity::Error => "Error"@,
            TidySeverity::Severe => "Severe"@,
        }
    }

    /// Translates a native status code: 0, 1 and 2 are `Success`, `Warning` and `Error`,
    /// every other code is `Severe`.
    pub fn from_status(code: c_int) -> (severity: TidySeverity)
        ensures
            severity == Self::of_status(code as int),
    {
        if code == 0 {
            TidySeverity::Success
        } else if code == 1 {
            TidySeverity::Warning
        } else if code == 2 {
            TidySeverity::Error
        } else {
            TidySeverity::Severe
        }
    }

    /// Position in the order of severities.
    pub fn level(&self) -> (level: u8)
        ensures
            level == self.rank(),
    {
        match self {
            TidySeverity::Success => 0,
            TidySeverity::Warning => 1,
            TidySeverity::Error => 2,
            TidySeverity::Severe => 3,
        }
    }

    /// The printed form of a severity, which is its name.
    pub fn to_string(&self) -> (text: String)
        ensures
            text@ == self.name(),
    {
        match self {
            TidySeverity::Success => String::from_str("Success"),
            TidySeverity::Warning => String::from_str("Warning"),
            TidySeverity::Error => String::from_str("Error"),
            TidySeverity::Severe => String::from_str("Severe"),
        }
    }
}

impl PartialOrd for TidySeverity {
    fn partial_cmp(&self, other: &Self) -> (order: Option<Ordering>) {
        let left: u8 = self.level();
        let right: u8 = other.level();
        if left < right {
            Some(Ordering::Less)
        } else if left == right {
            Some(Ordering::Equal)
        } else {
            Some(Ordering::Greater)
        }
    }
}

impl PartialOrdSpecImpl for TidySeverity {
    open spec fn obeys_partial_cmp_spec() -> bool {
        true
    }

    open spec fn partial_cmp_spec(&self, other: &Self) -> Option<Ordering> {
        if self.rank() < other.rank() {
            Some(Ordering::Less)
        } else if self.rank() == other.rank() {
            Some(Ordering::Equal)
        } else {
            Some(Ordering::Greater)
        }
    }
}

/// The order of severities is the order of their ranks, and it is total: two
/// severities of one rank are the same severity.
pub proof fn lemma_severity_order(a: TidySeverity, b: TidySeverity)
    ensures
        a.rank() == b.rank() <==> a == b,
        0 <= a.rank() <= 3,
        TidySeverity::Success.rank() < TidySeverity::Warning.rank(),
        TidySeverity::Warning.rank() < TidySeverity::Error.rank(),
        TidySeverity::Error.rank() < TidySeverity::Severe.rank(),
{
}

/// A status code is reported as `Severe` exactly when it is none of 0, 1 and 2, and
/// the three codes map to three different severities in rising order.
pub proof fn lemma_status_translation(code: int)
    ensures
        TidySeverity::of_status(code) == TidySeverity::Severe <==> !(0 <= code <= 2),
        0 <= code <= 2 ==> TidySeverity::of_status(code).rank() == code,
{
}

} // verus!
