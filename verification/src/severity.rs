//! Severity tiers and the threshold rule that assigns them.

use vstd::prelude::*;

verus! {

/// How urgent a number of pending updates is, from least to most.
#[derive(Clone, Copy, Debug, PartialEq, Eq, Structural)]
pub enum Severity {
    NoUpdates,
    Normal,
    Warning,
    Critical,
}

impl Severity {
    /// Position of the tier in the order `NoUpdates < Normal < Warning < Critical`.
    pub open spec fn rank(self) -> nat {
        match self {
            Severity::NoUpdates => 0,
            Severity::Normal => 1,
            Severity::Warning => 2,
            Severity::Critical => 3,
        }
    }
}

/// The tier of `count` pending updates under the two thresholds.
///
/// The rules are tried in order, so a configuration whose critical
/// threshold does not exceed its warning threshold simply has no
/// `Warning` tier: counts below the warning threshold stay `Normal`
/// and every other non-zero count is `Critical`.
pub open spec fn severity_of(count: nat, warning_threshold: nat, critical_threshold: nat) -> Severity {
    if count == 0 {
        Severity::NoUpdates
    } else if count < warning_threshold {
        Severity::Normal
    } else if count < critical_threshold {
        Severity::Warning
    } else {
        Severity::Critical
    }
}

/// Classifies a number of pending updates against the configured thresholds.
pub fn classify(count: usize, warning_threshold: u32, critical_threshold: u32) -> (severity: Severity)
    ensures
        severity == severity_of(count as nat, warning_threshold as nat, critical_threshold as nat),
{
    let count: u64 = count as u64;
    if count == 0 {
        Severity::NoUpdates
    } else if count < warning_threshold as u64 {
        Severity::Normal
    } else if count < critical_threshold as u64 {
        Severity::Warning
    } else {
        Severity::Critical
    }
}

/// A larger count never gets a lower tier, whatever the thresholds are.
pub proof fn lemma_severity_monotonic(
    lower: nat,
    higher: nat,
    warning_threshold: nat,
    critical_threshold: nat,
)
    requires
        lower <= higher,
    ensures
        severity_of(lower, warning_threshold, critical_threshold).rank() <= severity_of(
            higher,
            warning_threshold,
            critical_threshold,
        ).rank(),
{
}

/// No pending updates is `NoUpdates` under every pair of thresholds.
pub proof fn lemma_severity_of_zero(warning_threshold: nat, critical_threshold: nat)
    ensures
        severity_of(0, warning_threshold, critical_threshold) == Severity::NoUpdates,
{
}

/// The largest count below the warning threshold is still `Normal`.
pub proof fn lemma_severity_just_below_warning(warning_threshold: nat, critical_threshold: nat)
    requires
        warning_threshold > 1,
    ensures
        severity_of((warning_threshold - 1) as nat, warning_threshold, critical_threshold)
            == Severity::Normal,
{
}

/// A count equal to the warning threshold is `Warning`, where that tier
/// exists: the threshold is positive and lies below the critical one.
pub proof fn lemma_severity_at_warning(warning_threshold: nat, critical_threshold: nat)
    requires
        0 < warning_threshold < critical_threshold,
    ensures
        severity_of(warning_threshold, warning_threshold, critical_threshold)
            == Severity::Warning,
{
}

/// The largest count below the critical threshold is still `Warning`,
/// provided that count is not zero.
pub proof fn lemma_severity_just_below_critical(warning_threshold: nat, critical_threshold: nat)
    requires
        critical_threshold > warning_threshold,
        critical_threshold > 1,
    ensures
        severity_of((critical_threshold - 1) as nat, warning_threshold, critical_threshold)
            == Severity::Warning,
{
}

/// A count equal to the critical threshold is `Critical`, provided the
/// threshold is positive and not below the warning threshold.
pub proof fn lemma_severity_at_critical(warning_threshold: nat, critical_threshold: nat)
    requires
        0 < critical_threshold,
        warning_threshold <= critical_threshold,
    ensures
        severity_of(critical_threshold, warning_threshold, critical_threshold)
            == Severity::Critical,
{
}

/// With a positive warning threshold below the critical one, the four
/// tiers are exactly the four bands that the thresholds cut out.
pub proof fn lemma_severity_bands(count: nat, warning_threshold: nat, critical_threshold: nat)
    requires
        0 < warning_threshold <= critical_threshold,
    ensures
        severity_of(count, warning_threshold, critical_threshold) == Severity::NoUpdates
            <==> count == 0,
        severity_of(count, warning_threshold, critical_threshold) == Severity::Normal
            <==> 0 < count < warning_threshold,
        severity_of(count, warning_threshold, critical_threshold) == Severity::Warning
            <==> warning_threshold <= count < critical_threshold,
        severity_of(count, warning_threshold, critical_threshold) == Severity::Critical
            <==> count >= critical_threshold,
{
}

} // verus!
