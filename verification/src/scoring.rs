//! Scoring unit: reduces a list of weighted findings to a bounded risk score.
//!
//! The score of a finding list is the mean of `confidence * severity_weight`
//! over all findings, rescaled to milli-points on the 0..=100 scale and
//! clamped at 100.0.  A lane-chunked path processes findings a fixed number
//! at a time with a per-chunk reduction, mirroring a vectorized
//! multiply-and-horizontal-add; a scalar path accumulates one at a time.
//! Both return exactly the same value, which `lemma_chunk_total_eq` states
//! once and for all lane widths.

use vstd::prelude::*;
use crate::models::{
    FindingView, RiskFinding, Severity, findings_view, findings_wf, CONFIDENCE_MAX_BP,
    SCORE_MAX_MILLI,
};

verus! {

/// Severity weight in hundredths: Info 0.10 up to Critical 1.00.
pub open spec fn weight_centi(s: Severity) -> int {
    match s {
        Severity::Info => 10,
        Severity::Low => 25,
        Severity::Medium => 50,
        Severity::High => 75,
        Severity::Critical => 100,
    }
}

/// Executable severity weight.
pub fn severity_weight(s: Severity) -> (r: u32)
    ensures
        r == weight_centi(s),
{
    match s {
        Severity::Info => 10,
        Severity::Low => 25,
        Severity::Medium => 50,
        Severity::High => 75,
        Severity::Critical => 100,
    }
}

/// Weighted contribution of one finding: confidence in basis points times
/// severity weight in hundredths.
pub open spec fn contribution(f: FindingView) -> int {
    f.confidence * weight_centi(f.severity)
}

/// Sum of the contributions of a finding sequence.
pub open spec fn total_weight(s: Seq<FindingView>) -> int
    decreases s.len(),
{
    if s.len() == 0 {
        0
    } else {
        total_weight(s.drop_last()) + contribution(s.last())
    }
}

/// Risk score of a finding sequence, in milli-points: the mean contribution,
/// rescaled and clamped at 100.0.  An empty sequence scores 0.
pub open spec fn score_milli_spec(s: Seq<FindingView>) -> int {
    if s.len() == 0 {
        0
    } else {
        let raw = total_weight(s) / (10 * s.len() as int);
        if raw > SCORE_MAX_MILLI as int {
            SCORE_MAX_MILLI as int
        } else {
            raw
        }
    }
}

/// The sum of contributions splits at any cut point.
pub proof fn lemma_total_weight_split(s: Seq<FindingView>, k: int)
    requires
        0 <= k <= s.len(),
    ensures
        total_weight(s) == total_weight(s.take(k)) + total_weight(s.skip(k)),
    decreases s.len(),
{
    if k == s.len() {
        assert(s.take(k) =~= s);
        assert(s.skip(k) =~= Seq::<FindingView>::empty());
    } else {
        let dl = s.drop_last();
        lemma_total_weight_split(dl, k);
        assert(dl.take(k) =~= s.take(k));
        assert(s.skip(k).drop_last() =~= dl.skip(k));
        assert(s.skip(k).last() == s.last());
        assert(s.skip(k).len() > 0);
    }
}

/// Sum of contributions of one chunk of at most `lane` findings, followed by
/// the rest: the shape of the vectorized reduction.
pub open spec fn chunk_total(s: Seq<FindingView>, lane: int) -> int
    decreases s.len(),
{
    if lane < 1 || s.len() < lane {
        total_weight(s)
    } else {
        total_weight(s.take(lane)) + chunk_total(s.skip(lane), lane)
    }
}

/// The lane-chunked reduction agrees exactly with the plain sum, for every
/// finding list and every lane width: the vectorized and the scalar scoring
/// paths compute the same score.
pub proof fn lemma_chunk_total_eq(s: Seq<FindingView>, lane: int)
    ensures
        chunk_total(s, lane) == total_weight(s),
    decreases s.len(),
{
    if lane >= 1 && s.len() >= lane {
        lemma_total_weight_split(s, lane);
        lemma_chunk_total_eq(s.skip(lane), lane);
    }
}

/// Every contribution of a well-formed finding is within one scale unit.
proof fn lemma_contribution_bound(f: FindingView)
    requires
        0 <= f.confidence <= CONFIDENCE_MAX_BP,
    ensures
        0 <= contribution(f) <= 1000000,
{
}

/// The total weight of a well-formed finding sequence is bounded by its
/// length times the largest single contribution.
proof fn lemma_total_weight_bound(s: Seq<FindingView>)
    requires
        forall|i: int| 0 <= i < s.len() ==> 0 <= (#[trigger] s[i]).confidence <= CONFIDENCE_MAX_BP,
    ensures
        0 <= total_weight(s) <= s.len() * 1000000,
    decreases s.len(),
{
    if s.len() > 0 {
        lemma_total_weight_bound(s.drop_last());
        lemma_contribution_bound(s.last());
    }
}

/// A well-formed finding list never scores above the scale: the clamp in
/// `score_milli_spec` is a safety net, not a working part.
pub proof fn lemma_score_in_scale(s: Seq<FindingView>)
    requires
        forall|i: int| 0 <= i < s.len() ==> 0 <= (#[trigger] s[i]).confidence <= CONFIDENCE_MAX_BP,
    ensures
        0 <= score_milli_spec(s) <= SCORE_MAX_MILLI,
{
    if s.len() > 0 {
        lemma_total_weight_bound(s);
        let n = s.len() as int;
        assert(total_weight(s) / (10 * n) >= 0) by (nonlinear_arith)
            requires total_weight(s) >= 0 && n >= 1;
        assert(total_weight(s) / (10 * n) <= 100000) by (nonlinear_arith)
            requires 0 <= total_weight(s) <= n * 1000000 && n >= 1;
    }
}

/// Contribution of one finding, as executable arithmetic.
fn finding_contribution(f: &RiskFinding) -> (r: u64)
    requires
        f.wf(),
    ensures
        r == contribution(f@),
        r <= 1000000,
{
    let w = severity_weight(f.severity);
    proof {
        assert(f.confidence * weight_centi(f.severity) <= 1000000) by (nonlinear_arith)
            requires
                0 <= f.confidence <= 10000,
                0 <= weight_centi(f.severity) <= 100,
        ;
    }
    (f.confidence as u64) * (w as u64)
}

/// Scalar scoring path: one finding at a time.
pub fn calculate_risk_score_scalar(findings: &Vec<RiskFinding>) -> (r: u32)
    requires
        findings_wf(findings@),
    ensures
        r == score_milli_spec(findings_view(findings@)),
        r <= SCORE_MAX_MILLI,
{
    let ghost view = findings_view(findings@);
    if findings.len() == 0 {
        return 0;
    }
    let mut acc: u128 = 0;
    let mut i: usize = 0;
    while i < findings.len()
        invariant
            i <= findings.len(),
            view == findings_view(findings@),
            view.len() == findings.len(),
            findings_wf(findings@),
            acc == total_weight(view.take(i as int)),
            acc <= (i as int) * 1000000,
        decreases findings.len() - i,
    {
        let c = finding_contribution(&findings[i]);
        proof {
            assert(view.take(i + 1).drop_last() =~= view.take(i as int));
            assert(view.take(i + 1).last() == view[i as int]);
        }
        acc = acc + c as u128;
        i = i + 1;
    }
    proof {
        assert(view.take(findings.len() as int) =~= view);
    }
    finish_score(acc, findings.len(), Ghost(view))
}

/// Divide the accumulated total by the finding count and clamp.
fn finish_score(acc: u128, n: usize, view: Ghost<Seq<FindingView>>) -> (r: u32)
    requires
        n >= 1,
        view@.len() == n,
        acc == total_weight(view@),
    ensures
        r == score_milli_spec(view@),
        r <= SCORE_MAX_MILLI,
{
    let raw = acc / (10 * n as u128);
    if raw > SCORE_MAX_MILLI as u128 {
        SCORE_MAX_MILLI
    } else {
        raw as u32
    }
}

/// Lane-chunked scoring path: processes `lane` findings at a time with a
/// per-chunk reduction, then the remainder one at a time.  Behaviorally
/// identical to the scalar path (`lemma_chunk_total_eq`).
pub fn calculate_risk_score_lanes(findings: &Vec<RiskFinding>, lane: usize) -> (r: u32)
    requires
        findings_wf(findings@),
        1 <= lane <= 64,
    ensures
        r == score_milli_spec(findings_view(findings@)),
        r <= SCORE_MAX_MILLI,
{
    let ghost view = findings_view(findings@);
    if findings.len() == 0 {
        return 0;
    }
    let len = findings.len();
    let mut acc: u128 = 0;
    let mut i: usize = 0;
    while lane <= len - i
        invariant
            1 <= lane <= 64,
            i <= len,
            len == findings.len(),
            view == findings_view(findings@),
            view.len() == len,
            findings_wf(findings@),
            acc == total_weight(view.take(i as int)),
            acc <= (i as int) * 1000000,
        decreases len - i,
    {
        // One chunk: multiply each of the `lane` entries, reduce to a single
        // chunk sum, then fold the chunk sum into the running total.
        let mut chunk: u64 = 0;
        let mut j: usize = 0;
        while j < lane
            invariant
                1 <= lane <= 64,
                j <= lane,
                i + lane <= len,
                len == findings.len(),
                view == findings_view(findings@),
                view.len() == len,
                findings_wf(findings@),
                chunk == total_weight(view.subrange(i as int, i + j)),
                chunk <= (j as int) * 1000000,
            decreases lane - j,
        {
            let c = finding_contribution(&findings[i + j]);
            proof {
                assert(view.subrange(i as int, i + j + 1).drop_last() =~= view.subrange(
                    i as int,
                    i + j,
                ));
                assert(view.subrange(i as int, i + j + 1).last() == view[i + j]);
            }
            chunk = chunk + c;
            j = j + 1;
        }
        proof {
            lemma_total_weight_split(view.take(i + lane as int), i as int);
            assert(view.take(i + lane as int).take(i as int) =~= view.take(i as int));
            assert(view.take(i + lane as int).skip(i as int) =~= view.subrange(
                i as int,
                i + lane,
            ));
        }
        acc = acc + chunk as u128;
        i = i + lane;
    }
    while i < len
        invariant
            i <= len,
            len == findings.len(),
            view == findings_view(findings@),
            view.len() == len,
            findings_wf(findings@),
            acc == total_weight(view.take(i as int)),
            acc <= (i as int) * 1000000,
        decreases len - i,
    {
        let c = finding_contribution(&findings[i]);
        proof {
            assert(view.take(i + 1).drop_last() =~= view.take(i as int));
            assert(view.take(i + 1).last() == view[i as int]);
        }
        acc = acc + c as u128;
        i = i + 1;
    }
    proof {
        assert(view.take(len as int) =~= view);
    }
    finish_score(acc, len, Ghost(view))
}

/// Calculate the risk score of a finding list.  The lane width of the fast
/// path is proven behaviorally invisible, so the widest lane is used
/// unconditionally.
pub fn calculate_risk_score(findings: &Vec<RiskFinding>) -> (r: u32)
    requires
        findings_wf(findings@),
    ensures
        r == score_milli_spec(findings_view(findings@)),
        r <= SCORE_MAX_MILLI,
{
    calculate_risk_score_lanes(findings, 8)
}

} // verus!
