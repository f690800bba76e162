//! Severities of log events and the total order between them.

use std::cmp::Ordering;
use vstd::prelude::*;
use vstd::std_specs::cmp::PartialOrdSpecImpl;

verus! {

/// How urgent a log event is. The order is `Debug < Info < Warning < Error`.
#[derive(Clone, Copy, Debug, PartialEq, Eq, Structural, Hash)]
pub enum LogSeverity {
    Debug,
    Info,
    Warning,
    Error,
}

/// A log event as the notification bar receives it.
#[derive(Clone, Debug)]
pub struct LogEntry {
    pub severity: LogSeverity,
    pub content: String,
}

impl LogSeverity {
    /// Position of the severity in the order, counted from `Debug`.
    pub open spec fn rank(self) -> int {
        match self {
            LogSeverity::Debug => 0,
            LogSeverity::Info => 1,
            LogSeverity::Warning => 2,
            LogSeverity::Error => 3,
        }
    }

    /// `self >= other` in the severity order.
    pub open spec fn at_least(self, other: LogSeverity) -> bool {
        self.rank() >= other.rank()
    }

    /// The order between two severities, as `partial_cmp` reports it.
    pub open spec fn ordering(self, other: LogSeverity) -> Ordering {
        if self.rank() < other.rank() {
            Ordering::Less
        } else if self.rank() == other.rank() {
            Ordering::Equal
        } else {
            Ordering::Greater
        }
    }

    /// Executable counterpart of [`LogSeverity::rank`].
    pub fn level(self) -> (r: u8)
        ensures
            r == self.rank(),
    {
        match self {
            LogSeverity::Debug => 0,
            LogSeverity::Info => 1,
            LogSeverity::Warning => 2,
            LogSeverity::Error => 3,
        }
    }
}

impl PartialOrd for LogSeverity {
    fn partial_cmp(&self, other: &Self) -> (r: Option<Ordering>) {
        let a: u8 = self.level();
        let b: u8 = other.level();
        if a < b {
            Some(Ordering::Less)
        } else if a == b {
            Some(Ordering::Equal)
        } else {
            Some(Ordering::Greater)
        }
    }
}

impl PartialOrdSpecImpl for LogSeverity {
    open spec fn obeys_partial_cmp_spec() -> bool {
        true
    }

    open spec fn partial_cmp_spec(&self, other: &Self) -> Option<Ordering> {
        Some(self.ordering(*other))
    }
}

/// The severity order is total: it is reflexive, antisymmetric and
/// transitive, and any two severities are comparable.
pub proof fn lemma_severity_order_is_total(a: LogSeverity, b: LogSeverity, c: LogSeverity)
    ensures
        a.at_least(a),
        a.at_least(b) || b.at_least(a),
        a.at_least(b) && b.at_least(a) ==> a == b,
        a.at_least(b) && b.at_least(c) ==> a.at_least(c),
        LogSeverity::Error.at_least(a),
        a.at_least(LogSeverity::Debug),
{
}

} // verus!
