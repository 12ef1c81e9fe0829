//! System health scoring: individual checks, their scores, and the overall
//! assessment that combines them.
use vstd::prelude::*;

use crate::disk::traits::DiskHealth;
use crate::error::SimonError;
use crate::num::{dec, dec_signed, push_dec, push_dec_signed};
use crate::text::{chars_of, eq_chars, extend_str, owned, string_of};

verus! {

#[verifier::external_type_specification]
#[verifier::external_body]
pub struct ExSystemTime(std::time::SystemTime);

/// `SystemTime` is `Copy`: its `clone` (std's `Clone for SystemTime`) hands
/// back the same instant.
pub assume_specification[<std::time::SystemTime as Clone>::clone](t: &std::time::SystemTime) -> (r: std::time::SystemTime)
    ensures
        r == *t,
;

/// Health status level
#[derive(Debug, Clone, Copy, PartialEq, Eq, PartialOrd, Ord, Structural)]
pub enum HealthStatus {
    /// Everything is fine
    Healthy,
    /// Minor issues, system functioning normally
    Good,
    /// Some concerns, may need attention
    Warning,
    /// Significant issues that need addressing
    Critical,
    /// Unable to determine status
    Unknown,
}

pub open spec fn status_label(s: HealthStatus) -> Seq<char> {
    match s {
        HealthStatus::Healthy => "\u{2713} Healthy"@,
        HealthStatus::Good => "\u{25CF} Good"@,
        HealthStatus::Warning => "\u{26A0} Warning"@,
        HealthStatus::Critical => "\u{2717} Critical"@,
        HealthStatus::Unknown => "? Unknown"@,
    }
}

/// The score a check contributes for its status.
pub open spec fn status_score(s: HealthStatus) -> u8 {
    match s {
        HealthStatus::Healthy => 100,
        HealthStatus::Good => 85,
        HealthStatus::Warning => 50,
        HealthStatus::Critical => 10,
        HealthStatus::Unknown => 0,
    }
}

impl HealthStatus {
    /// The text under which the status is shown.
    pub fn label(&self) -> (s: &'static str)
        ensures
            s@ == status_label(*self),
    {
        match self {
            HealthStatus::Healthy => "\u{2713} Healthy",
            HealthStatus::Good => "\u{25CF} Good",
            HealthStatus::Warning => "\u{26A0} Warning",
            HealthStatus::Critical => "\u{2717} Critical",
            HealthStatus::Unknown => "? Unknown",
        }
    }
}

/// Individual health check result
#[derive(Debug, Clone)]
pub struct HealthCheck {
    /// Name of the check
    pub name: String,
    /// Category of the check
    pub category: String,
    /// Status of this check
    pub status: HealthStatus,
    /// Score contribution (0-100)
    pub score: u8,
    /// Human-readable message
    pub message: String,
    /// Current value (for metrics), as the bit pattern of an `f64`
    pub value: Option<u64>,
    /// Threshold that triggered warning/critical, as the bit pattern of an `f64`
    pub threshold: Option<u64>,
}

impl HealthCheck {
    /// Create a new health check
    pub fn new(name: &str, category: &str) -> (c: Self)
        ensures
            c.name@ == name@,
            c.category@ == category@,
            c.status == HealthStatus::Unknown,
            c.score == 0,
            c.message@ == Seq::<char>::empty(),
            c.value is None,
            c.threshold is None,
    {
        HealthCheck {
            name: owned(name),
            category: owned(category),
            status: HealthStatus::Unknown,
            score: 0,
            message: String::new(),
            value: None,
            threshold: None,
        }
    }

    /// Set status and generate score
    pub fn with_status(self, status: HealthStatus, message: &str) -> (c: Self)
        ensures
            c.name == self.name,
            c.category == self.category,
            c.status == status,
            c.score == status_score(status),
            c.message@ == message@,
            c.value == self.value,
            c.threshold == self.threshold,
    {
        let score: u8 = match status {
            HealthStatus::Healthy => 100,
            HealthStatus::Good => 85,
            HealthStatus::Warning => 50,
            HealthStatus::Critical => 10,
            HealthStatus::Unknown => 0,
        };
        HealthCheck { status, message: owned(message), score, ..self }
    }

    /// Set value and threshold (each given as the bit pattern of an `f64`)
    pub fn with_value(self, value: u64, threshold: Option<u64>) -> (c: Self)
        ensures
            c.name == self.name,
            c.category == self.category,
            c.status == self.status,
            c.score == self.score,
            c.message == self.message,
            c.value == Some(value),
            c.threshold == threshold,
    {
        HealthCheck { value: Some(value), threshold, ..self }
    }
}

/// Overall system health assessment
#[derive(Debug, Clone)]
pub struct SystemHealth {
    /// Overall health status
    pub status: HealthStatus,
    /// Overall health score (0-100)
    pub score: u8,
    /// Individual health checks
    pub checks: Vec<HealthCheck>,
    /// Number of healthy checks
    pub healthy_count: usize,
    /// Number of warning checks
    pub warning_count: usize,
    /// Number of critical checks
    pub critical_count: usize,
    /// Timestamp of check
    pub timestamp: std::time::SystemTime,
}

/// How many checks have the given status.
pub open spec fn count_status(cs: Seq<HealthCheck>, st: HealthStatus) -> nat
    decreases cs.len(),
{
    if cs.len() == 0 {
        0
    } else {
        count_status(cs.drop_last(), st) + if cs.last().status == st {
            1nat
        } else {
            0nat
        }
    }
}

/// The sum of the checks' scores.
pub open spec fn score_sum(cs: Seq<HealthCheck>) -> nat
    decreases cs.len(),
{
    if cs.len() == 0 {
        0
    } else {
        score_sum(cs.drop_last()) + (cs.last().score as nat)
    }
}

/// The overall status: critical if any check is, else warning if any check
/// is, else good when good checks outnumber healthy ones, else healthy, and
/// unknown when there is no check at all.
pub open spec fn overall_status(cs: Seq<HealthCheck>) -> HealthStatus {
    if count_status(cs, HealthStatus::Critical) > 0 {
        HealthStatus::Critical
    } else if count_status(cs, HealthStatus::Warning) > 0 {
        HealthStatus::Warning
    } else if count_status(cs, HealthStatus::Good) > count_status(cs, HealthStatus::Healthy) {
        HealthStatus::Good
    } else if cs.len() > 0 {
        HealthStatus::Healthy
    } else {
        HealthStatus::Unknown
    }
}

/// The overall score: the average of the check scores rounded down
/// (the count taken as a `u32`, the quotient as a `u8`), 0 without checks.
pub open spec fn overall_score(cs: Seq<HealthCheck>) -> nat {
    if cs.len() == 0 {
        0
    } else {
        (score_sum(cs) / (cs.len() % 0x1_0000_0000)) % 256
    }
}

/// A check that has been rated: its status is known and its score is the
/// one its status earns (as `with_status` and the check builders give).
pub open spec fn is_rated(c: HealthCheck) -> bool {
    c.status != HealthStatus::Unknown && c.score == status_score(c.status)
}

/// An assessment of rated checks, fewer than 2^32 of them, as
/// `from_checks` builds it.
pub open spec fn is_rated_assessment(h: SystemHealth) -> bool {
    &&& assessment_of(h, h.checks@)
    &&& h.checks@.len() < 0x1_0000_0000
    &&& forall|i: int| 0 <= i < h.checks@.len() ==> is_rated(#[trigger] h.checks@[i])
}

/// Whether some check has the given status.
pub open spec fn has_status(cs: Seq<HealthCheck>, st: HealthStatus) -> bool {
    exists|i: int| 0 <= i < cs.len() && (#[trigger] cs[i]).status == st
}

/// The checks whose status asks for attention.
pub open spec fn is_issue(s: HealthStatus) -> bool {
    s == HealthStatus::Warning || s == HealthStatus::Critical
}

/// The contents of a vector of references to checks.
pub open spec fn deref_all(v: Seq<&HealthCheck>) -> Seq<HealthCheck> {
    v.map_values(|c: &HealthCheck| *c)
}

/// The assessment built from a list of checks.
pub open spec fn assessment_of(h: SystemHealth, cs: Seq<HealthCheck>) -> bool {
    &&& h.checks@ == cs
    &&& h.status == overall_status(cs)
    &&& h.score == overall_score(cs)
    &&& h.healthy_count == count_status(cs, HealthStatus::Healthy) + count_status(
        cs,
        HealthStatus::Good,
    )
    &&& h.warning_count == count_status(cs, HealthStatus::Warning)
    &&& h.critical_count == count_status(cs, HealthStatus::Critical)
}

proof fn lemma_count_le_len(cs: Seq<HealthCheck>, st: HealthStatus)
    ensures
        count_status(cs, st) <= cs.len(),
    decreases cs.len(),
{
    if cs.len() > 0 {
        lemma_count_le_len(cs.drop_last(), st);
    }
}

proof fn lemma_counts_partition(cs: Seq<HealthCheck>)
    ensures
        count_status(cs, HealthStatus::Healthy) + count_status(cs, HealthStatus::Good)
            + count_status(cs, HealthStatus::Warning) + count_status(cs, HealthStatus::Critical)
            + count_status(cs, HealthStatus::Unknown) == cs.len(),
    decreases cs.len(),
{
    if cs.len() > 0 {
        lemma_counts_partition(cs.drop_last());
    }
}

proof fn lemma_score_sum_bound(cs: Seq<HealthCheck>, m: nat)
    requires
        forall|i: int| 0 <= i < cs.len() ==> cs[i].score <= m,
    ensures
        score_sum(cs) <= m * cs.len(),
    decreases cs.len(),
{
    if cs.len() > 0 {
        lemma_score_sum_bound(cs.drop_last(), m);
        assert(score_sum(cs) <= m * (cs.len() - 1) + m);
        assert(m * (cs.len() - 1) + m == m * cs.len()) by (nonlinear_arith);
    }
}

impl SystemHealth {
    /// The assessment of the given checks, stamped with the given time.
    pub fn from_checks(checks: Vec<HealthCheck>, timestamp: std::time::SystemTime) -> (h:
        SystemHealth)
        requires
            score_sum(checks@) <= u32::MAX,
            checks@.len() > 0 ==> checks@.len() % 0x1_0000_0000 != 0,
        ensures
            assessment_of(h, checks@),
            h.timestamp == timestamp,
            checks@.len() < 0x1_0000_0000 && (forall|i: int|
                0 <= i < checks@.len() ==> is_rated(#[trigger] checks@[i])) ==> is_rated_assessment(
                h,
            ),
            h.critical_count > 0 ==> h.status == HealthStatus::Critical,
            h.critical_count == 0 && h.warning_count > 0 ==> h.status == HealthStatus::Warning,
            h.critical_count == 0 && h.warning_count == 0 && count_status(
                checks@,
                HealthStatus::Good,
            ) > count_status(checks@, HealthStatus::Healthy) ==> h.status == HealthStatus::Good,
            h.critical_count == 0 && h.warning_count == 0 && count_status(
                checks@,
                HealthStatus::Good,
            ) <= count_status(checks@, HealthStatus::Healthy) && checks@.len() > 0 ==> h.status
                == HealthStatus::Healthy,
            checks@.len() == 0 ==> h.status == HealthStatus::Unknown && h.score == 0,
    {
        let mut healthy: usize = 0;
        let mut good: usize = 0;
        let mut warning: usize = 0;
        let mut critical: usize = 0;
        let mut total: u32 = 0;
        let mut i: usize = 0;
        while i < checks.len()
            invariant
                i <= checks@.len(),
                healthy == count_status(checks@.take(i as int), HealthStatus::Healthy),
                good == count_status(checks@.take(i as int), HealthStatus::Good),
                warning == count_status(checks@.take(i as int), HealthStatus::Warning),
                critical == count_status(checks@.take(i as int), HealthStatus::Critical),
                total == score_sum(checks@.take(i as int)),
                score_sum(checks@) <= u32::MAX,
            decreases checks@.len() - i,
        {
            let ghost before = checks@.take(i as int);
            assert(checks@.take(i + 1).drop_last() =~= before);
            proof {
                lemma_count_le_len(before, HealthStatus::Healthy);
                lemma_count_le_len(before, HealthStatus::Good);
                lemma_count_le_len(before, HealthStatus::Warning);
                lemma_count_le_len(before, HealthStatus::Critical);
                lemma_score_sum_prefix(checks@, i as int + 1);
            }
            match checks[i].status {
                HealthStatus::Healthy => healthy = healthy + 1,
                HealthStatus::Good => good = good + 1,
                HealthStatus::Warning => warning = warning + 1,
                HealthStatus::Critical => critical = critical + 1,
                HealthStatus::Unknown => {},
            }
            total = total + checks[i].score as u32;
            i = i + 1;
        }
        assert(checks@.take(checks@.len() as int) =~= checks@);
        let n = checks.len();
        let avg: u8 = if n > 0 {
            let d = (n as u64 % 0x1_0000_0000u64) as u32;
            let q: u32 = total / d;
            assert(q as u8 == q % 256) by (bit_vector);
            q as u8
        } else {
            0
        };
        let status = if critical > 0 {
            HealthStatus::Critical
        } else if warning > 0 {
            HealthStatus::Warning
        } else if good > healthy {
            HealthStatus::Good
        } else if n > 0 {
            HealthStatus::Healthy
        } else {
            HealthStatus::Unknown
        };
        proof {
            lemma_counts_partition(checks@);
        }
        SystemHealth {
            status,
            score: avg,
            checks,
            healthy_count: healthy + good,
            warning_count: warning,
            critical_count: critical,
            timestamp,
        }
    }

    /// Get only checks with issues (warning or critical)
    pub fn issues(&self) -> (r: Vec<&HealthCheck>)
        ensures
            deref_all(r@) == self.checks@.filter(|c: HealthCheck| is_issue(c.status)),
    {
        let mut r: Vec<&HealthCheck> = Vec::new();
        let mut i: usize = 0;
        while i < self.checks.len()
            invariant
                i <= self.checks@.len(),
                deref_all(r@) == self.checks@.take(i as int).filter(
                    |c: HealthCheck| is_issue(c.status),
                ),
            decreases self.checks@.len() - i,
        {
            let c = &self.checks[i];
            proof {
                assert(self.checks@.take(i + 1).drop_last() =~= self.checks@.take(i as int));
                reveal_with_fuel(Seq::filter, 1);
            }
            if c.status == HealthStatus::Warning || c.status == HealthStatus::Critical {
                r.push(c);
                assert(deref_all(r@) =~= self.checks@.take(i + 1).filter(
                    |c: HealthCheck| is_issue(c.status),
                ));
            } else {
                assert(deref_all(r@) =~= self.checks@.take(i + 1).filter(
                    |c: HealthCheck| is_issue(c.status),
                ));
            }
            i = i + 1;
        }
        assert(self.checks@.take(self.checks@.len() as int) =~= self.checks@);
        r
    }

    /// Get checks by category
    pub fn by_category(&self, category: &str) -> (r: Vec<&HealthCheck>)
        ensures
            deref_all(r@) == self.checks@.filter(|c: HealthCheck| c.category@ == category@),
    {
        let want = chars_of(category);
        let mut r: Vec<&HealthCheck> = Vec::new();
        let mut i: usize = 0;
        while i < self.checks.len()
            invariant
                i <= self.checks@.len(),
                want@ == category@,
                deref_all(r@) == self.checks@.take(i as int).filter(
                    |c: HealthCheck| c.category@ == category@,
                ),
            decreases self.checks@.len() - i,
        {
            let c = &self.checks[i];
            proof {
                assert(self.checks@.take(i + 1).drop_last() =~= self.checks@.take(i as int));
                reveal_with_fuel(Seq::filter, 1);
            }
            let cat = chars_of(c.category.as_str());
            if eq_chars(&cat, &want) {
                r.push(c);
                assert(deref_all(r@) =~= self.checks@.take(i + 1).filter(
                    |c: HealthCheck| c.category@ == category@,
                ));
            } else {
                assert(deref_all(r@) =~= self.checks@.take(i + 1).filter(
                    |c: HealthCheck| c.category@ == category@,
                ));
            }
            i = i + 1;
        }
        assert(self.checks@.take(self.checks@.len() as int) =~= self.checks@);
        r
    }

    /// Check if system has any critical issues
    pub fn has_critical(&self) -> (b: bool)
        ensures
            b == (self.critical_count > 0),
    {
        self.critical_count > 0
    }

    /// Check if system has any warnings
    pub fn has_warnings(&self) -> (b: bool)
        ensures
            b == (self.warning_count > 0),
    {
        self.warning_count > 0
    }

    /// Get a quick summary string
    pub fn summary(&self) -> (s: String)
        ensures
            s@ == summary_text(*self),
    {
        let mut v: Vec<char> = Vec::new();
        extend_str(&mut v, self.status.label());
        extend_str(&mut v, " - Score: ");
        push_dec(&mut v, self.score as u64);
        extend_str(&mut v, "/100 (");
        push_dec(&mut v, self.healthy_count as u64);
        extend_str(&mut v, " healthy, ");
        push_dec(&mut v, self.warning_count as u64);
        extend_str(&mut v, " warning, ");
        push_dec(&mut v, self.critical_count as u64);
        extend_str(&mut v, " critical)");
        string_of(v)
    }
}

proof fn lemma_score_sum_prefix(cs: Seq<HealthCheck>, k: int)
    requires
        0 <= k <= cs.len(),
    ensures
        score_sum(cs.take(k)) <= score_sum(cs),
    decreases cs.len() - k,
{
    if k < cs.len() {
        lemma_score_sum_prefix(cs, k + 1);
        assert(cs.take(k + 1).drop_last() =~= cs.take(k));
    } else {
        assert(cs.take(k) =~= cs);
    }
}

/// `"{status} - Score: {score}/100 ({healthy} healthy, {warning} warning, {critical} critical)"`.
pub open spec fn summary_text(h: SystemHealth) -> Seq<char> {
    status_label(h.status) + " - Score: "@ + dec(h.score as nat) + "/100 ("@ + dec(
        h.healthy_count as nat,
    ) + " healthy, "@ + dec(h.warning_count as nat) + " warning, "@ + dec(
        h.critical_count as nat,
    ) + " critical)"@
}

/// Quick health check - returns overall status
pub fn quick_health_check(check: Result<SystemHealth, SimonError>) -> (s: HealthStatus)
    ensures
        s == (match check {
            Ok(h) => h.status,
            Err(_) => HealthStatus::Unknown,
        }),
        check matches Ok(h) ==> (is_rated_assessment(h) ==> (s == HealthStatus::Unknown) == (
        h.checks@.len() == 0)),
{
    proof {
        if check is Ok && is_rated_assessment(check->Ok_0) {
            lemma_rated_assessment(check->Ok_0);
        }
    }
    match check {
        Ok(h) => h.status,
        Err(_) => HealthStatus::Unknown,
    }
}

/// Get health score (0-100)
pub fn health_score(check: Result<SystemHealth, SimonError>) -> (s: u8)
    ensures
        s == (match check {
            Ok(h) => h.score,
            Err(_) => 0,
        }),
        check matches Ok(h) ==> (is_rated_assessment(h) ==> s <= 100 && (s == 0) == (
        h.checks@.len() == 0) && (h.checks@.len() > 0 ==> s >= 10)),
{
    proof {
        if check is Ok && is_rated_assessment(check->Ok_0) {
            lemma_rated_assessment(check->Ok_0);
        }
    }
    match check {
        Ok(h) => h.score,
        Err(_) => 0,
    }
}

/// Check if system has critical issues
pub fn has_critical_issues(check: Result<SystemHealth, SimonError>) -> (b: bool)
    ensures
        b == (match check {
            Ok(h) => h.critical_count > 0,
            Err(_) => false,
        }),
        check matches Ok(h) ==> (is_rated_assessment(h) ==> b == has_status(
            h.checks@,
            HealthStatus::Critical,
        ) && (b == (h.status == HealthStatus::Critical))),
{
    proof {
        if check is Ok && is_rated_assessment(check->Ok_0) {
            lemma_rated_assessment(check->Ok_0);
        }
    }
    match check {
        Ok(h) => h.has_critical(),
        Err(_) => false,
    }
}

// ---------------------------------------------------------------------------
// Checks built from integer readings
// ---------------------------------------------------------------------------
/// The status of a GPU temperature: critical at or above the critical
/// threshold, warning at or above the warning threshold, good from 70°C,
/// healthy below (thresholds taken as `i32`).
pub open spec fn gpu_temperature_status(temp: i32, warning: u32, critical: u32) -> HealthStatus {
    if temp >= critical as i32 {
        HealthStatus::Critical
    } else if temp >= warning as i32 {
        HealthStatus::Warning
    } else if temp >= 70 {
        HealthStatus::Good
    } else {
        HealthStatus::Healthy
    }
}

pub open spec fn gpu_temperature_message(idx: nat, temp: i32, st: HealthStatus) -> Seq<char> {
    "GPU"@ + dec(idx) + match st {
        HealthStatus::Critical => " temperature critical: "@,
        HealthStatus::Warning => " temperature elevated: "@,
        HealthStatus::Good => " temperature warm: "@,
        _ => " temperature normal: "@,
    } + dec_signed(temp as int) + "\u{B0}C"@
}

/// The check of a GPU's temperature (without its value).
pub fn gpu_temperature_check(idx: usize, temp: i32, warning: u32, critical: u32) -> (c:
    HealthCheck)
    ensures
        c.name@ == "GPU"@ + dec(idx as nat) + " Temperature"@,
        c.category@ == "GPU"@,
        c.status == gpu_temperature_status(temp, warning, critical),
        c.score == status_score(c.status),
        c.message@ == gpu_temperature_message(idx as nat, temp, c.status),
        c.value is None,
        c.threshold is None,
{
    let status = if temp >= critical as i32 {
        HealthStatus::Critical
    } else if temp >= warning as i32 {
        HealthStatus::Warning
    } else if temp >= 70 {
        HealthStatus::Good
    } else {
        HealthStatus::Healthy
    };
    let mut m: Vec<char> = Vec::new();
    extend_str(&mut m, "GPU");
    push_dec(&mut m, idx as u64);
    match status {
        HealthStatus::Critical => extend_str(&mut m, " temperature critical: "),
        HealthStatus::Warning => extend_str(&mut m, " temperature elevated: "),
        HealthStatus::Good => extend_str(&mut m, " temperature warm: "),
        _ => extend_str(&mut m, " temperature normal: "),
    }
    push_dec_signed(&mut m, temp as i64);
    extend_str(&mut m, "\u{B0}C");
    assert(m@ =~= gpu_temperature_message(idx as nat, temp, status));
    let mut n: Vec<char> = Vec::new();
    extend_str(&mut n, "GPU");
    push_dec(&mut n, idx as u64);
    extend_str(&mut n, " Temperature");
    let message = string_of(m);
    let name = string_of(n);
    HealthCheck::new(name.as_str(), "GPU").with_status(status, message.as_str())
}

/// The status of a GPU's utilization: fully used counts as good, the rest
/// as healthy.
pub open spec fn gpu_utilization_status(util: u8) -> HealthStatus {
    if util >= 95 {
        HealthStatus::Good
    } else {
        HealthStatus::Healthy
    }
}

pub open spec fn gpu_utilization_message(idx: nat, util: u8) -> Seq<char> {
    "GPU"@ + dec(idx) + if util >= 95 {
        " fully utilized: "@
    } else if util >= 50 {
        " active: "@
    } else {
        " idle/low usage: "@
    } + dec(util as nat) + "%"@
}

/// The check of a GPU's utilization (without its value).
pub fn gpu_utilization_check(idx: usize, util: u8) -> (c: HealthCheck)
    ensures
        c.name@ == "GPU"@ + dec(idx as nat) + " Utilization"@,
        c.category@ == "GPU"@,
        c.status == gpu_utilization_status(util),
        c.score == status_score(c.status),
        c.message@ == gpu_utilization_message(idx as nat, util),
        c.value is None,
        c.threshold is None,
{
    let status = if util >= 95 {
        HealthStatus::Good
    } else {
        HealthStatus::Healthy
    };
    let mut m: Vec<char> = Vec::new();
    extend_str(&mut m, "GPU");
    push_dec(&mut m, idx as u64);
    if util >= 95 {
        extend_str(&mut m, " fully utilized: ");
    } else if util >= 50 {
        extend_str(&mut m, " active: ");
    } else {
        extend_str(&mut m, " idle/low usage: ");
    }
    push_dec(&mut m, util as u64);
    extend_str(&mut m, "%");
    assert(m@ =~= gpu_utilization_message(idx as nat, util));
    let mut n: Vec<char> = Vec::new();
    extend_str(&mut n, "GPU");
    push_dec(&mut n, idx as u64);
    extend_str(&mut n, " Utilization");
    let message = string_of(m);
    let name = string_of(n);
    HealthCheck::new(name.as_str(), "GPU").with_status(status, message.as_str())
}

/// The status and message text (after `Disk {name} health: `) of a disk's
/// own health report; an unknown report gives no check.
pub open spec fn disk_health_outcome(h: DiskHealth) -> Option<(HealthStatus, Seq<char>)> {
    match h {
        DiskHealth::Healthy => Some((HealthStatus::Healthy, "OK"@)),
        DiskHealth::Warning => Some((HealthStatus::Warning, "Warning"@)),
        DiskHealth::Critical => Some((HealthStatus::Critical, "Critical!"@)),
        DiskHealth::Failed => Some((HealthStatus::Critical, "FAILED!"@)),
        DiskHealth::Unknown => None,
    }
}

/// The check of a disk's health report, none when the report is unknown.
pub fn disk_health_check(disk_name: &str, health: DiskHealth) -> (r: Option<HealthCheck>)
    ensures
        match disk_health_outcome(health) {
            None => r is None,
            Some((st, tail)) => r matches Some(c) && c.name@ == "Disk "@ + disk_name@ + " Health"@
                && c.category@ == "Storage"@ && c.status == st && c.score == status_score(st)
                && c.message@ == "Disk "@ + disk_name@ + " health: "@ + tail && c.value is None
                && c.threshold is None,
        },
{
    let (status, tail) = match health {
        DiskHealth::Healthy => (HealthStatus::Healthy, "OK"),
        DiskHealth::Warning => (HealthStatus::Warning, "Warning"),
        DiskHealth::Critical => (HealthStatus::Critical, "Critical!"),
        DiskHealth::Failed => (HealthStatus::Critical, "FAILED!"),
        DiskHealth::Unknown => {
            return None;
        },
    };
    let mut m: Vec<char> = Vec::new();
    extend_str(&mut m, "Disk ");
    extend_str(&mut m, disk_name);
    extend_str(&mut m, " health: ");
    extend_str(&mut m, tail);
    let mut n: Vec<char> = Vec::new();
    extend_str(&mut n, "Disk ");
    extend_str(&mut n, disk_name);
    extend_str(&mut n, " Health");
    let message = string_of(m);
    let name = string_of(n);
    Some(HealthCheck::new(name.as_str(), "Storage").with_status(status, message.as_str()))
}

/// Only filesystems larger than 1 GB get a space check.
pub fn gets_space_check(total_size: u64) -> (b: bool)
    ensures
        b == (total_size > 1_000_000_000),
{
    total_size > 1_000_000_000
}

// ---------------------------------------------------------------------------
// Laws
// ---------------------------------------------------------------------------
proof fn lemma_score_sum_lower(cs: Seq<HealthCheck>, m: nat)
    requires
        forall|i: int| 0 <= i < cs.len() ==> cs[i].score >= m,
    ensures
        score_sum(cs) >= m * cs.len(),
    decreases cs.len(),
{
    if cs.len() > 0 {
        assert forall|i: int| 0 <= i < cs.drop_last().len() implies cs.drop_last()[i].score >= m by {
            assert(cs.drop_last()[i] == cs[i]);
        }
        lemma_score_sum_lower(cs.drop_last(), m);
        assert(m * (cs.len() - 1) + m == m * cs.len()) by (nonlinear_arith);
    }
}

/// A status is counted exactly when some check has it.
proof fn lemma_count_positive(cs: Seq<HealthCheck>, st: HealthStatus)
    ensures
        (count_status(cs, st) > 0) == has_status(cs, st),
    decreases cs.len(),
{
    if cs.len() > 0 {
        let init = cs.drop_last();
        lemma_count_positive(init, st);
        if has_status(init, st) {
            let i = choose|i: int| 0 <= i < init.len() && (#[trigger] init[i]).status == st;
            assert(cs[i] == init[i]);
        }
        if has_status(cs, st) && cs.last().status != st {
            let i = choose|i: int| 0 <= i < cs.len() && (#[trigger] cs[i]).status == st;
            assert(i < cs.len() - 1);
            assert(init[i] == cs[i]);
        }
        if cs.last().status == st {
            assert(cs[cs.len() - 1].status == st);
        }
    }
}

/// The assessment of rated checks: its counts add up to the number of
/// checks; without checks its score is 0 and its status unknown; with checks
/// its score lies between 10 and 100 and its status is known; it counts a
/// critical check exactly when some check is critical, and that is exactly
/// when its overall status is critical.
pub proof fn lemma_rated_assessment(h: SystemHealth)
    requires
        is_rated_assessment(h),
    ensures
        h.healthy_count + h.warning_count + h.critical_count == h.checks@.len(),
        h.checks@.len() == 0 ==> h.score == 0 && h.status == HealthStatus::Unknown,
        h.checks@.len() > 0 ==> 10 <= h.score <= 100 && h.status != HealthStatus::Unknown,
        (h.critical_count > 0) == has_status(h.checks@, HealthStatus::Critical),
        (h.critical_count > 0) == (h.status == HealthStatus::Critical),
{
    let cs = h.checks@;
    lemma_assessment_counts(h, cs);
    lemma_count_positive(cs, HealthStatus::Unknown);
    lemma_count_positive(cs, HealthStatus::Critical);
    if has_status(cs, HealthStatus::Unknown) {
        let i = choose|i: int| 0 <= i < cs.len() && (#[trigger] cs[i]).status == HealthStatus::Unknown;
        assert(is_rated(cs[i]));
    }
    if cs.len() > 0 {
        assert forall|i: int| 0 <= i < cs.len() implies cs[i].score <= 100 && cs[i].score >= 10 by {
            assert(is_rated(cs[i]));
        }
        lemma_score_sum_bound(cs, 100);
        lemma_score_sum_lower(cs, 10);
        let n = cs.len();
        assert(n % 0x1_0000_0000 == n);
        assert(10 <= score_sum(cs) / n <= 100) by (nonlinear_arith)
            requires
                score_sum(cs) <= 100 * n,
                score_sum(cs) >= 10 * n,
                n > 0,
        ;
    }
}

/// The overall score of checks that each score at most 100 is at most 100
/// (as long as there are fewer than 2^32 checks).
pub proof fn lemma_overall_score_at_most_100(cs: Seq<HealthCheck>)
    requires
        cs.len() < 0x1_0000_0000,
        forall|i: int| 0 <= i < cs.len() ==> cs[i].score <= 100,
    ensures
        overall_score(cs) <= 100,
{
    if cs.len() > 0 {
        lemma_score_sum_bound(cs, 100);
        let n = cs.len();
        assert(n % 0x1_0000_0000 == n);
        assert(score_sum(cs) / n <= 100) by (nonlinear_arith)
            requires
                score_sum(cs) <= 100 * n,
                n > 0,
        ;
    }
}

/// The overall status is critical exactly when some check is critical, and
/// the counts of healthy (with good), warning, critical and unknown checks add
/// up to the number of checks.
pub proof fn lemma_assessment_counts(h: SystemHealth, cs: Seq<HealthCheck>)
    requires
        assessment_of(h, cs),
    ensures
        (h.status == HealthStatus::Critical) == (h.critical_count > 0),
        (h.status == HealthStatus::Unknown) == (cs.len() == 0),
        h.healthy_count + h.warning_count + h.critical_count + count_status(
            cs,
            HealthStatus::Unknown,
        ) == cs.len(),
{
    lemma_counts_partition(cs);
}

/// The overall status without a critical or warning check: good exactly
/// when good checks strictly outnumber healthy ones, healthy otherwise (when
/// there is a check). So adding a healthy check never turns a healthy
/// overall status into anything else, and a tie between good and healthy
/// checks is healthy.
pub proof fn lemma_overall_status_good_vs_healthy(cs: Seq<HealthCheck>)
    requires
        count_status(cs, HealthStatus::Critical) == 0,
        count_status(cs, HealthStatus::Warning) == 0,
        cs.len() > 0,
    ensures
        (overall_status(cs) == HealthStatus::Good) == (count_status(cs, HealthStatus::Good)
            > count_status(cs, HealthStatus::Healthy)),
        (overall_status(cs) == HealthStatus::Healthy) == (count_status(cs, HealthStatus::Good)
            <= count_status(cs, HealthStatus::Healthy)),
        overall_status(cs) == HealthStatus::Healthy ==> overall_status(
            cs.push(HealthCheck { status: HealthStatus::Healthy, ..cs[0] }),
        ) == HealthStatus::Healthy,
{
    let c = HealthCheck { status: HealthStatus::Healthy, ..cs[0] };
    assert(cs.push(c).drop_last() =~= cs);
}

/// Any critical check makes the overall status critical; otherwise any
/// warning check makes it a warning.
pub proof fn lemma_overall_status_worst_first(cs: Seq<HealthCheck>, i: int)
    requires
        0 <= i < cs.len(),
    ensures
        cs[i].status == HealthStatus::Critical ==> overall_status(cs) == HealthStatus::Critical,
        cs[i].status == HealthStatus::Warning ==> overall_status(cs) == HealthStatus::Critical
            || overall_status(cs) == HealthStatus::Warning,
{
    lemma_count_positive(cs, HealthStatus::Critical);
    lemma_count_positive(cs, HealthStatus::Warning);
}

/// The overall score of checks (each scoring at most 100) is their average
/// score rounded down: the score times the number of checks is at most the
/// sum of the scores, and one more would exceed it.
pub proof fn lemma_overall_score_is_average(cs: Seq<HealthCheck>)
    requires
        0 < cs.len() < 0x1_0000_0000,
        forall|i: int| 0 <= i < cs.len() ==> cs[i].score <= 100,
    ensures
        overall_score(cs) * cs.len() <= score_sum(cs) < (overall_score(cs) + 1) * cs.len(),
{
    lemma_score_sum_bound(cs, 100);
    let n = cs.len();
    let t = score_sum(cs);
    assert(n % 0x1_0000_0000 == n);
    assert(t / n <= 100) by (nonlinear_arith)
        requires
            t <= 100 * n,
            n > 0,
    ;
    assert((t / n) % 256 == t / n);
    assert((t / n) * n <= t < (t / n + 1) * n) by (nonlinear_arith)
        requires
            n > 0,
    ;
}

/// A check scores 100 when healthy, 85 when good, 50 on a warning, 10 when
/// critical and nothing when its status is unknown; a better status always
/// scores strictly more.
pub proof fn lemma_status_scores(a: HealthStatus, b: HealthStatus)
    ensures
        a == HealthStatus::Healthy ==> status_score(a) == 100,
        a == HealthStatus::Good ==> status_score(a) == 85,
        a == HealthStatus::Warning ==> status_score(a) == 50,
        a == HealthStatus::Critical ==> status_score(a) == 10,
        a == HealthStatus::Unknown ==> status_score(a) == 0,
        status_rank(a) < status_rank(b) ==> status_score(b) < status_score(a),
{
}

/// A GPU temperature at or above the critical threshold is critical; at or
/// above the warning threshold (and below the critical one) a warning; from
/// 70°C (below both thresholds) good; below that healthy.
pub proof fn lemma_gpu_temperature_thresholds(temp: i32, warning: u32, critical: u32)
    requires
        warning <= i32::MAX,
        critical <= i32::MAX,
    ensures
        temp >= critical ==> gpu_temperature_status(temp, warning, critical)
            == HealthStatus::Critical,
        warning <= temp < critical ==> gpu_temperature_status(temp, warning, critical)
            == HealthStatus::Warning,
        70 <= temp && temp < warning && temp < critical ==> gpu_temperature_status(
            temp,
            warning,
            critical,
        ) == HealthStatus::Good,
        temp < 70 && temp < warning && temp < critical ==> gpu_temperature_status(
            temp,
            warning,
            critical,
        ) == HealthStatus::Healthy,
{
}

/// A GPU's utilization only ever reads good (from 95%) or healthy: a busy
/// GPU is no health concern.
pub proof fn lemma_gpu_utilization_never_a_concern(util: u8)
    ensures
        util >= 95 ==> gpu_utilization_status(util) == HealthStatus::Good,
        util < 95 ==> gpu_utilization_status(util) == HealthStatus::Healthy,
{
}

/// A disk's own report: OK is healthy, a warning a warning, critical and
/// failed critical, and an unknown report gives no check.
pub proof fn lemma_disk_health_statuses(h: DiskHealth)
    ensures
        h == DiskHealth::Healthy ==> (disk_health_outcome(h) matches Some((st, _)) && st
            == HealthStatus::Healthy),
        h == DiskHealth::Warning ==> (disk_health_outcome(h) matches Some((st, _)) && st
            == HealthStatus::Warning),
        h == DiskHealth::Critical ==> (disk_health_outcome(h) matches Some((st, _)) && st
            == HealthStatus::Critical),
        h == DiskHealth::Failed ==> (disk_health_outcome(h) matches Some((st, _)) && st
            == HealthStatus::Critical),
        (h == DiskHealth::Unknown) == (disk_health_outcome(h) is None),
{
}

/// A hotter GPU never gets a better temperature status (in the order
/// healthy, good, warning, critical), whatever the thresholds.
pub proof fn lemma_gpu_temperature_status_monotone(t1: i32, t2: i32, warning: u32, critical: u32)
    requires
        t1 <= t2,
    ensures
        status_rank(gpu_temperature_status(t1, warning, critical)) <= status_rank(
            gpu_temperature_status(t2, warning, critical),
        ),
{
}

/// The order of the statuses, from healthy to unknown.
pub open spec fn status_rank(s: HealthStatus) -> nat {
    match s {
        HealthStatus::Healthy => 0,
        HealthStatus::Good => 1,
        HealthStatus::Warning => 2,
        HealthStatus::Critical => 3,
        HealthStatus::Unknown => 4,
    }
}

/// A later status in the order never earns a check a higher score.
pub proof fn lemma_status_score_antitone(a: HealthStatus, b: HealthStatus)
    requires
        status_rank(a) <= status_rank(b),
    ensures
        status_score(b) <= status_score(a),
{
}

// ---------------------------------------------------------------------------
// Assembling an assessment
// ---------------------------------------------------------------------------
/// The grade a percentage reading earns against its thresholds (graded by
/// the caller, in floating point).
#[derive(Debug, Clone, Copy, PartialEq, Eq, Structural)]
pub enum Grade {
    /// Below the level that counts as moderate
    Healthy,
    /// Moderate
    Good,
    /// At or above the warning threshold
    Warning,
    /// At or above the critical threshold
    Critical,
}

/// The status a grade gives a check.
pub open spec fn grade_status(g: Grade) -> HealthStatus {
    match g {
        Grade::Healthy => HealthStatus::Healthy,
        Grade::Good => HealthStatus::Good,
        Grade::Warning => HealthStatus::Warning,
        Grade::Critical => HealthStatus::Critical,
    }
}

/// A percentage reading graded against its thresholds: the check's name,
/// category, grade and message, the reading and the warning threshold (each
/// as the bit pattern of an `f64`).
#[derive(Debug, Clone)]
pub struct GradedReading {
    /// Name of the check
    pub name: String,
    /// Category of the check
    pub category: String,
    /// The grade the reading earns
    pub grade: Grade,
    /// Human-readable message
    pub message: String,
    /// The reading
    pub value: u64,
    /// The warning threshold
    pub threshold: Option<u64>,
}

/// What one GPU reported: its temperature (with the bit pattern of the
/// reading as an `f64`), its graded memory use when its memory size is
/// known, and its utilization (with its `f64` bit pattern).
#[derive(Debug, Clone)]
pub struct GpuReading {
    /// Temperature (°C) and its bit pattern
    pub temperature: Option<(i32, u64)>,
    /// Graded memory use
    pub memory: Option<GradedReading>,
    /// Utilization (percent)
    pub utilization: u8,
    /// The bit pattern of the utilization
    pub utilization_bits: u64,
}

/// A mounted filesystem of a disk: its size and its graded use.
#[derive(Debug, Clone)]
pub struct MountReading {
    /// Total size in bytes
    pub total: u64,
    /// Graded use of its space
    pub usage: GradedReading,
}

/// What one disk reported: its health, when that could be read, and its
/// mounted filesystems (not looked at when its health is unknown).
#[derive(Debug, Clone)]
pub struct DiskReading {
    /// Disk name
    pub name: String,
    /// Health report
    pub health: Option<DiskHealth>,
    /// Mounted filesystems
    pub mounts: Vec<MountReading>,
}

/// Everything an assessment is built from: graded CPU, memory and swap
/// readings, one entry per GPU in detection order (`None` when its figures
/// could not be read), the disks, and the GPU temperature thresholds (with
/// the warning threshold's `f64` bit pattern).
#[derive(Debug, Clone)]
pub struct HealthReadings {
    /// CPU usage
    pub cpu: Option<GradedReading>,
    /// Memory usage
    pub memory: Option<GradedReading>,
    /// Swap usage (only when there is swap)
    pub swap: Option<GradedReading>,
    /// The GPUs
    pub gpus: Vec<Option<GpuReading>>,
    /// The disks
    pub disks: Vec<DiskReading>,
    /// GPU temperature warning threshold (°C)
    pub gpu_temp_warning: u32,
    /// GPU temperature critical threshold (°C)
    pub gpu_temp_critical: u32,
    /// The warning threshold as the bit pattern of an `f64`
    pub gpu_temp_warning_bits: u64,
}

/// A check's fields as plain values: name, category, status, score,
/// message, value and threshold.
pub open spec fn check_view(c: HealthCheck) -> (
    Seq<char>,
    Seq<char>,
    HealthStatus,
    u8,
    Seq<char>,
    Option<u64>,
    Option<u64>,
) {
    (c.name@, c.category@, c.status, c.score, c.message@, c.value, c.threshold)
}

pub open spec fn check_views(cs: Seq<HealthCheck>) -> Seq<
    (Seq<char>, Seq<char>, HealthStatus, u8, Seq<char>, Option<u64>, Option<u64>),
> {
    cs.map_values(|c: HealthCheck| check_view(c))
}

/// The check of a graded reading.
pub open spec fn graded_view(g: GradedReading) -> (
    Seq<char>,
    Seq<char>,
    HealthStatus,
    u8,
    Seq<char>,
    Option<u64>,
    Option<u64>,
) {
    (
        g.name@,
        g.category@,
        grade_status(g.grade),
        status_score(grade_status(g.grade)),
        g.message@,
        Some(g.value),
        g.threshold,
    )
}

/// The check of a graded reading, when there is one.
pub open spec fn opt_graded_views(o: Option<GradedReading>) -> Seq<
    (Seq<char>, Seq<char>, HealthStatus, u8, Seq<char>, Option<u64>, Option<u64>),
> {
    match o {
        Some(g) => seq![graded_view(g)],
        None => Seq::empty(),
    }
}

/// The checks of the GPU at `idx`: its temperature (when reported), its
/// memory (when graded) and its utilization.
pub open spec fn gpu_views(idx: nat, g: GpuReading, warning: u32, critical: u32, warning_bits: u64) -> Seq<
    (Seq<char>, Seq<char>, HealthStatus, u8, Seq<char>, Option<u64>, Option<u64>),
> {
    let temp = match g.temperature {
        Some((t, bits)) => {
            let st = gpu_temperature_status(t, warning, critical);
            seq![
                (
                    "GPU"@ + dec(idx) + " Temperature"@,
                    "GPU"@,
                    st,
                    status_score(st),
                    gpu_temperature_message(idx, t, st),
                    Some(bits),
                    Some(warning_bits),
                ),
            ]
        },
        None => Seq::empty(),
    };
    let ust = gpu_utilization_status(g.utilization);
    temp + opt_graded_views(g.memory) + seq![
        (
            "GPU"@ + dec(idx) + " Utilization"@,
            "GPU"@,
            ust,
            status_score(ust),
            gpu_utilization_message(idx, g.utilization),
            Some(g.utilization_bits),
            None,
        ),
    ]
}

/// The checks of the GPUs, each by its position in detection order.
pub open spec fn all_gpu_views(gs: Seq<Option<GpuReading>>, warning: u32, critical: u32, warning_bits: u64) -> Seq<
    (Seq<char>, Seq<char>, HealthStatus, u8, Seq<char>, Option<u64>, Option<u64>),
>
    decreases gs.len(),
{
    if gs.len() == 0 {
        Seq::empty()
    } else {
        all_gpu_views(gs.drop_last(), warning, critical, warning_bits) + match gs.last() {
            Some(g) => gpu_views((gs.len() - 1) as nat, g, warning, critical, warning_bits),
            None => Seq::empty(),
        }
    }
}

/// The space checks of the mounted filesystems over 1 GB.
pub open spec fn mount_views(ms: Seq<MountReading>) -> Seq<
    (Seq<char>, Seq<char>, HealthStatus, u8, Seq<char>, Option<u64>, Option<u64>),
>
    decreases ms.len(),
{
    if ms.len() == 0 {
        Seq::empty()
    } else {
        mount_views(ms.drop_last()) + if ms.last().total > 1_000_000_000 {
            seq![graded_view(ms.last().usage)]
        } else {
            Seq::empty()
        }
    }
}

/// The checks of a disk: its health (when reported), then its mounted
/// filesystems. A disk whose health is reported as unknown gives no check
/// at all.
pub open spec fn disk_views(d: DiskReading) -> Seq<
    (Seq<char>, Seq<char>, HealthStatus, u8, Seq<char>, Option<u64>, Option<u64>),
> {
    match d.health {
        Some(h) => match disk_health_outcome(h) {
            Some((st, tail)) => seq![
                (
                    "Disk "@ + d.name@ + " Health"@,
                    "Storage"@,
                    st,
                    status_score(st),
                    "Disk "@ + d.name@ + " health: "@ + tail,
                    None,
                    None,
                ),
            ] + mount_views(d.mounts@),
            None => Seq::empty(),
        },
        None => mount_views(d.mounts@),
    }
}

pub open spec fn all_disk_views(ds: Seq<DiskReading>) -> Seq<
    (Seq<char>, Seq<char>, HealthStatus, u8, Seq<char>, Option<u64>, Option<u64>),
>
    decreases ds.len(),
{
    if ds.len() == 0 {
        Seq::empty()
    } else {
        all_disk_views(ds.drop_last()) + disk_views(ds.last())
    }
}

/// The checks of an assessment, in order: CPU, memory, swap, each GPU,
/// each disk.
pub open spec fn expected_checks(r: HealthReadings) -> Seq<
    (Seq<char>, Seq<char>, HealthStatus, u8, Seq<char>, Option<u64>, Option<u64>),
> {
    opt_graded_views(r.cpu) + opt_graded_views(r.memory) + opt_graded_views(r.swap) + all_gpu_views(
        r.gpus@,
        r.gpu_temp_warning,
        r.gpu_temp_critical,
        r.gpu_temp_warning_bits,
    ) + all_disk_views(r.disks@)
}

/// The sum of the scores of some checks.
pub open spec fn views_score_sum(
    vs: Seq<(Seq<char>, Seq<char>, HealthStatus, u8, Seq<char>, Option<u64>, Option<u64>)>,
) -> nat
    decreases vs.len(),
{
    if vs.len() == 0 {
        0
    } else {
        views_score_sum(vs.drop_last()) + (vs.last().3 as nat)
    }
}

/// The scores of the checks add up within a `u32` and their count is not
/// a multiple of 2^32 (the assessment sums and averages in `u32`).
pub open spec fn assessment_fits(r: HealthReadings) -> bool {
    let vs = expected_checks(r);
    views_score_sum(vs) <= u32::MAX && (vs.len() > 0 ==> vs.len() % 0x1_0000_0000 != 0)
}

/// Every check is rated.
pub open spec fn all_rated(cs: Seq<HealthCheck>) -> bool {
    forall|i: int| 0 <= i < cs.len() ==> is_rated(#[trigger] cs[i])
}

proof fn lemma_views_push(cs: Seq<HealthCheck>, c: HealthCheck)
    ensures
        check_views(cs.push(c)) == check_views(cs).push(check_view(c)),
        all_rated(cs) && is_rated(c) ==> all_rated(cs.push(c)),
{
    assert(check_views(cs.push(c)) =~= check_views(cs).push(check_view(c)));
    if all_rated(cs) && is_rated(c) {
        assert forall|i: int| 0 <= i < cs.push(c).len() implies is_rated(#[trigger] cs.push(c)[i]) by {
            if i < cs.len() {
                assert(cs.push(c)[i] == cs[i]);
            }
        }
    }
}

proof fn lemma_score_sum_views(cs: Seq<HealthCheck>)
    ensures
        score_sum(cs) == views_score_sum(check_views(cs)),
    decreases cs.len(),
{
    if cs.len() > 0 {
        lemma_score_sum_views(cs.drop_last());
        assert(check_views(cs.drop_last()) =~= check_views(cs).drop_last());
    }
}

fn grade_status_exec(g: Grade) -> (s: HealthStatus)
    ensures
        s == grade_status(g),
{
    match g {
        Grade::Healthy => HealthStatus::Healthy,
        Grade::Good => HealthStatus::Good,
        Grade::Warning => HealthStatus::Warning,
        Grade::Critical => HealthStatus::Critical,
    }
}

/// The check of a graded reading.
pub fn graded_check(g: &GradedReading) -> (c: HealthCheck)
    ensures
        check_view(c) == graded_view(*g),
        is_rated(c),
        c.name@ == g.name@,
        c.category@ == g.category@,
        c.status == grade_status(g.grade),
        c.score == status_score(c.status),
        c.message@ == g.message@,
        c.value == Some(g.value),
        c.threshold == g.threshold,
{
    HealthCheck::new(g.name.as_str(), g.category.as_str()).with_status(
        grade_status_exec(g.grade),
        g.message.as_str(),
    ).with_value(g.value, g.threshold)
}

fn push_graded(v: &mut Vec<HealthCheck>, o: &Option<GradedReading>)
    ensures
        check_views(final(v)@) == check_views(old(v)@) + opt_graded_views(*o),
        all_rated(old(v)@) ==> all_rated(final(v)@),
{
    match o {
        Some(g) => {
            let c = graded_check(g);
            proof {
                lemma_views_push(v@, c);
            }
            v.push(c);
            assert(check_views(old(v)@).push(check_view(c)) =~= check_views(old(v)@)
                + opt_graded_views(*o));
        },
        None => {
            assert(check_views(old(v)@) + opt_graded_views(*o) =~= check_views(old(v)@));
        },
    }
}

fn push_gpu(
    v: &mut Vec<HealthCheck>,
    idx: usize,
    g: &GpuReading,
    warning: u32,
    critical: u32,
    warning_bits: u64,
)
    ensures
        check_views(final(v)@) == check_views(old(v)@) + gpu_views(
            idx as nat,
            *g,
            warning,
            critical,
            warning_bits,
        ),
        all_rated(old(v)@) ==> all_rated(final(v)@),
{
    let ghost v0 = v@;
    let ghost temp_part = match g.temperature {
        Some((t, bits)) => {
            let st = gpu_temperature_status(t, warning, critical);
            seq![
                (
                    "GPU"@ + dec(idx as nat) + " Temperature"@,
                    "GPU"@,
                    st,
                    status_score(st),
                    gpu_temperature_message(idx as nat, t, st),
                    Some(bits),
                    Some(warning_bits),
                ),
            ]
        },
        None => Seq::empty(),
    };
    match g.temperature {
        Some((t, bits)) => {
            let c = gpu_temperature_check(idx, t, warning, critical).with_value(
                bits,
                Some(warning_bits),
            );
            proof {
                lemma_views_push(v@, c);
            }
            v.push(c);
        },
        None => {},
    }
    assert(check_views(v@) =~= check_views(v0) + temp_part);
    let ghost v1 = v@;
    push_graded(v, &g.memory);
    let u = gpu_utilization_check(idx, g.utilization).with_value(g.utilization_bits, None);
    proof {
        lemma_views_push(v@, u);
    }
    v.push(u);
    assert(check_views(v@) =~= check_views(v0) + gpu_views(
        idx as nat,
        *g,
        warning,
        critical,
        warning_bits,
    ));
}

fn push_disk(v: &mut Vec<HealthCheck>, d: &DiskReading)
    ensures
        check_views(final(v)@) == check_views(old(v)@) + disk_views(*d),
        all_rated(old(v)@) ==> all_rated(final(v)@),
{
    let ghost v0 = v@;
    let ghost health_part = match d.health {
        Some(h) => match disk_health_outcome(h) {
            Some((st, tail)) => seq![
                (
                    "Disk "@ + d.name@ + " Health"@,
                    "Storage"@,
                    st,
                    status_score(st),
                    "Disk "@ + d.name@ + " health: "@ + tail,
                    None::<u64>,
                    None::<u64>,
                ),
            ],
            None => Seq::empty(),
        },
        None => Seq::empty(),
    };
    match d.health {
        Some(h) => match disk_health_check(d.name.as_str(), h) {
            Some(c) => {
                proof {
                    lemma_views_push(v@, c);
                }
                v.push(c);
            },
            None => {
                assert(check_views(v0) + disk_views(*d) =~= check_views(v0));
                return;
            },
        },
        None => {},
    }
    assert(check_views(v@) =~= check_views(v0) + health_part);
    let ghost v1 = v@;
    let mut i: usize = 0;
    while i < d.mounts.len()
        invariant
            i <= d.mounts@.len(),
            check_views(v@) == check_views(v1) + mount_views(d.mounts@.take(i as int)),
            all_rated(v0) ==> all_rated(v@),
        decreases d.mounts@.len() - i,
    {
        let m = &d.mounts[i];
        assert(d.mounts@.take(i + 1).drop_last() =~= d.mounts@.take(i as int));
        if gets_space_check(m.total) {
            let c = graded_check(&m.usage);
            proof {
                lemma_views_push(v@, c);
            }
            v.push(c);
        }
        assert(check_views(v@) =~= check_views(v1) + mount_views(d.mounts@.take(i + 1)));
        i = i + 1;
    }
    assert(d.mounts@.take(i as int) =~= d.mounts@);
    assert(check_views(v@) =~= check_views(v0) + disk_views(*d));
}

/// The checks of an assessment, in order: CPU, memory and swap when
/// graded, then for each GPU its temperature, memory and utilization, then
/// for each disk its health and the space of its filesystems over 1 GB.
/// Every check is rated.
pub fn build_checks(r: &HealthReadings) -> (cs: Vec<HealthCheck>)
    ensures
        check_views(cs@) == expected_checks(*r),
        all_rated(cs@),
{
    let mut v: Vec<HealthCheck> = Vec::new();
    assert(check_views(v@) =~= Seq::empty());
    push_graded(&mut v, &r.cpu);
    push_graded(&mut v, &r.memory);
    push_graded(&mut v, &r.swap);
    let ghost base = v@;
    let mut i: usize = 0;
    while i < r.gpus.len()
        invariant
            i <= r.gpus@.len(),
            check_views(v@) == check_views(base) + all_gpu_views(
                r.gpus@.take(i as int),
                r.gpu_temp_warning,
                r.gpu_temp_critical,
                r.gpu_temp_warning_bits,
            ),
            all_rated(v@),
        decreases r.gpus@.len() - i,
    {
        assert(r.gpus@.take(i + 1).drop_last() =~= r.gpus@.take(i as int));
        match &r.gpus[i] {
            Some(g) => {
                push_gpu(&mut v, i, g, r.gpu_temp_warning, r.gpu_temp_critical, r.gpu_temp_warning_bits);
            },
            None => {},
        }
        assert(check_views(v@) =~= check_views(base) + all_gpu_views(
            r.gpus@.take(i + 1),
            r.gpu_temp_warning,
            r.gpu_temp_critical,
            r.gpu_temp_warning_bits,
        ));
        i = i + 1;
    }
    assert(r.gpus@.take(i as int) =~= r.gpus@);
    let ghost mid = v@;
    let mut j: usize = 0;
    while j < r.disks.len()
        invariant
            j <= r.disks@.len(),
            check_views(v@) == check_views(mid) + all_disk_views(r.disks@.take(j as int)),
            all_rated(v@),
        decreases r.disks@.len() - j,
    {
        assert(r.disks@.take(j + 1).drop_last() =~= r.disks@.take(j as int));
        push_disk(&mut v, &r.disks[j]);
        assert(check_views(v@) =~= check_views(mid) + all_disk_views(r.disks@.take(j + 1)));
        j = j + 1;
    }
    assert(r.disks@.take(j as int) =~= r.disks@);
    assert(check_views(v@) =~= expected_checks(*r));
    v
}

/// Whether the scores of some checks add up within a `u32` and their count
/// is not a multiple of 2^32.
pub fn checks_fit(cs: &Vec<HealthCheck>) -> (b: bool)
    ensures
        b == (score_sum(cs@) <= u32::MAX && (cs@.len() > 0 ==> cs@.len() % 0x1_0000_0000 != 0)),
{
    let mut total: u64 = 0;
    let mut i: usize = 0;
    while i < cs.len()
        invariant
            i <= cs@.len(),
            total == score_sum(cs@.take(i as int)),
            total <= u32::MAX,
        decreases cs@.len() - i,
    {
        assert(cs@.take(i + 1).drop_last() =~= cs@.take(i as int));
        total = total + cs[i].score as u64;
        if total > 0xffff_ffff {
            proof {
                lemma_score_sum_prefix(cs@, i + 1);
            }
            return false;
        }
        i = i + 1;
    }
    assert(cs@.take(i as int) =~= cs@);
    let n = cs.len() as u64;
    n == 0 || n % 0x1_0000_0000 != 0
}

/// Whether the readings' assessment fits (see `assessment_fits`).
pub fn readings_fit(r: &HealthReadings) -> (b: bool)
    ensures
        b == assessment_fits(*r),
{
    let cs = build_checks(r);
    proof {
        lemma_score_sum_views(cs@);
    }
    checks_fit(&cs)
}

impl SystemHealth {
    /// The assessment of the readings, stamped with the given time: the
    /// checks `build_checks` gives, combined as `from_checks` does. Every
    /// check is rated, so its counts add up to the number of checks; with no
    /// check its score is 0 and its status unknown, otherwise its score lies
    /// between 10 and 100 and its status is known; and it counts a critical
    /// check exactly when some check is critical, which is exactly when its
    /// overall status is critical.
    pub fn assess(r: &HealthReadings, timestamp: std::time::SystemTime) -> (h: SystemHealth)
        requires
            assessment_fits(*r),
        ensures
            check_views(h.checks@) == expected_checks(*r),
            assessment_of(h, h.checks@),
            h.timestamp == timestamp,
            is_rated_assessment(h),
            all_rated(h.checks@),
            h.healthy_count + h.warning_count + h.critical_count == h.checks@.len(),
            h.checks@.len() == 0 ==> h.score == 0 && h.status == HealthStatus::Unknown,
            h.checks@.len() > 0 ==> 10 <= h.score <= 100 && h.status != HealthStatus::Unknown,
            (h.critical_count > 0) == has_status(h.checks@, HealthStatus::Critical),
            (h.critical_count > 0) == (h.status == HealthStatus::Critical),
    {
        let cs = build_checks(r);
        proof {
            lemma_score_sum_views(cs@);
            assert forall|i: int| 0 <= i < cs@.len() implies cs@[i].score >= 10 by {
                assert(is_rated(cs@[i]));
            }
            lemma_score_sum_lower(cs@, 10);
        }
        let h = SystemHealth::from_checks(cs, timestamp);
        proof {
            lemma_rated_assessment(h);
        }
        h
    }
}

/// Each grade gives the status of the same name.
pub proof fn lemma_grade_statuses(g: Grade)
    ensures
        g == Grade::Healthy ==> grade_status(g) == HealthStatus::Healthy,
        g == Grade::Good ==> grade_status(g) == HealthStatus::Good,
        g == Grade::Warning ==> grade_status(g) == HealthStatus::Warning,
        g == Grade::Critical ==> grade_status(g) == HealthStatus::Critical,
        grade_status(g) != HealthStatus::Unknown,
{
}

/// The checks of one GPU: first its temperature (named `GPU{idx}
/// Temperature`, in the GPU category, rated by the thresholds, with the
/// reading's and the warning threshold's bit patterns), when reported;
/// then its graded memory use, when graded; last its utilization (named
/// `GPU{idx} Utilization`, with the reading's bit pattern and no threshold).
pub proof fn lemma_gpu_checks(idx: nat, g: GpuReading, warning: u32, critical: u32, wb: u64)
    ensures
        ({
            let vs = gpu_views(idx, g, warning, critical, wb);
            let t: nat = if g.temperature is Some {
                1
            } else {
                0
            };
            let m: nat = if g.memory is Some {
                1
            } else {
                0
            };
            &&& vs.len() == t + m + 1
            &&& (g.temperature matches Some((temp, bits)) ==> vs[0] == (
                "GPU"@ + dec(idx) + " Temperature"@,
                "GPU"@,
                gpu_temperature_status(temp, warning, critical),
                status_score(gpu_temperature_status(temp, warning, critical)),
                gpu_temperature_message(idx, temp, gpu_temperature_status(temp, warning, critical)),
                Some(bits),
                Some(wb),
            ))
            &&& (g.memory matches Some(gm) ==> vs[t as int] == graded_view(gm))
            &&& vs[vs.len() - 1] == (
                "GPU"@ + dec(idx) + " Utilization"@,
                "GPU"@,
                gpu_utilization_status(g.utilization),
                status_score(gpu_utilization_status(g.utilization)),
                gpu_utilization_message(idx, g.utilization),
                Some(g.utilization_bits),
                None::<u64>,
            )
        }),
{
}

/// The checks of one disk: none when its health is reported unknown;
/// otherwise its health check (when reported), then one space check for
/// each mounted filesystem over 1 GB, in order.
pub proof fn lemma_disk_checks(d: DiskReading)
    ensures
        d.health is Some && disk_health_outcome(d.health->0) is None ==> disk_views(d).len() == 0,
        d.health is None ==> disk_views(d) == mount_views(d.mounts@),
        d.health is Some && disk_health_outcome(d.health->0) is Some ==> disk_views(d).len() == 1
            + mount_views(d.mounts@).len() && disk_views(d)[0].0 == "Disk "@ + d.name@ + " Health"@,
{
}

/// The space checks of mounted filesystems: appending one over 1 GB adds
/// its graded check at the end, appending one of at most 1 GB adds nothing.
pub proof fn lemma_mount_checks(ms: Seq<MountReading>, m: MountReading)
    ensures
        m.total > 1_000_000_000 ==> mount_views(ms.push(m)) == mount_views(ms).push(
            graded_view(m.usage),
        ),
        m.total <= 1_000_000_000 ==> mount_views(ms.push(m)) == mount_views(ms),
{
    assert(ms.push(m).drop_last() =~= ms);
    assert(mount_views(ms) + seq![graded_view(m.usage)] =~= mount_views(ms).push(
        graded_view(m.usage),
    ));
    assert(mount_views(ms) + Seq::empty() =~= mount_views(ms));
}

/// The checks of an assessment start with the CPU, memory and swap checks,
/// in that order, each present exactly when its reading is.
pub proof fn lemma_assessment_starts_with_cpu_memory_swap(r: HealthReadings)
    ensures
        expected_checks(r).subrange(
            0,
            (opt_graded_views(r.cpu).len() + opt_graded_views(r.memory).len() + opt_graded_views(
                r.swap,
            ).len()) as int,
        ) == opt_graded_views(r.cpu) + opt_graded_views(r.memory) + opt_graded_views(r.swap),
        r.cpu matches Some(g) ==> expected_checks(r)[0] == graded_view(g),
        r.cpu is None && r.memory is Some ==> expected_checks(r)[0] == graded_view(r.memory->0),
{
    let a = opt_graded_views(r.cpu) + opt_graded_views(r.memory) + opt_graded_views(r.swap);
    let rest = all_gpu_views(r.gpus@, r.gpu_temp_warning, r.gpu_temp_critical, r.gpu_temp_warning_bits)
        + all_disk_views(r.disks@);
    assert(expected_checks(r) =~= a + rest);
    assert((a + rest).subrange(0, a.len() as int) =~= a);
}

} // verus!
