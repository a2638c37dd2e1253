//! The learning curve: one point per committed artifact version, capturing
//! the absolute eval-suite score and the safety-probe pass rate. If the
//! benchmark line trends up *and* the safety line stays at 1.0, the
//! procedural compiler is really learning.
//!
//! The collector is append-only and ordered by arrival. Scores and rates
//! are single-precision floats held by their bit patterns (see
//! [`crate::float_bits`]).

use vstd::prelude::*;

use crate::float_bits::{
    f32_bits_eq, f32_bits_float_eq, f32_bits_float_lt, f32_bits_lt, f32_bits_nan, f32_bits_order_key,
};
use crate::types::ArtifactRef;
use vstd::std_specs::cmp::{PartialEqSpec, PartialEqSpecImpl};

verus! {

/// One point on the learning curve: a snapshot of the suite and gate
/// signals at the moment a commit landed. Two points are `==` when every
/// field is, the float fields compared as floats (`0.0 == -0.0`, a NaN
/// equals nothing).
#[derive(Debug, Clone, Copy)]
pub struct LearningCurvePoint {
    pub artifact_id: ArtifactRef,
    pub version: u32,
    /// Wall-clock (unix ms) of the commit.
    pub timestamp_ms: u64,
    /// Bits of the absolute suite score `[0.0, 1.0]` — the curve's Y axis.
    pub benchmark_score_bits: u32,
    /// Bits of the safety probe pass rate `[0.0, 1.0]` — must stay 1.0
    /// throughout; any dip is the alignment-drift signal.
    pub safety_probe_pass_rate_bits: u32,
    /// Bits of the guard's per-commit objective delta.
    pub objective_delta_bits: u32,
    /// How many distinct judges signed off on this commit.
    pub judges_consulted: u8,
}

/// Field-wise float equality of two points.
pub open spec fn spec_point_eq(a: LearningCurvePoint, b: LearningCurvePoint) -> bool {
    &&& a.artifact_id == b.artifact_id
    &&& a.version == b.version
    &&& a.timestamp_ms == b.timestamp_ms
    &&& f32_bits_float_eq(a.benchmark_score_bits, b.benchmark_score_bits)
    &&& f32_bits_float_eq(a.safety_probe_pass_rate_bits, b.safety_probe_pass_rate_bits)
    &&& f32_bits_float_eq(a.objective_delta_bits, b.objective_delta_bits)
    &&& a.judges_consulted == b.judges_consulted
}

impl PartialEq for LearningCurvePoint {
    fn eq(&self, other: &Self) -> (r: bool) {
        self.artifact_id == other.artifact_id && self.version == other.version
            && self.timestamp_ms == other.timestamp_ms
            && f32_bits_eq(self.benchmark_score_bits, other.benchmark_score_bits)
            && f32_bits_eq(self.safety_probe_pass_rate_bits, other.safety_probe_pass_rate_bits)
            && f32_bits_eq(self.objective_delta_bits, other.objective_delta_bits)
            && self.judges_consulted == other.judges_consulted
    }
}

impl PartialEqSpecImpl for LearningCurvePoint {
    open spec fn obeys_eq_spec() -> bool {
        true
    }

    open spec fn eq_spec(&self, other: &Self) -> bool {
        spec_point_eq(*self, *other)
    }
}

/// Bits of the single-precision float `1.0`.
pub const F32_ONE_BITS: u32 = 0x3F80_0000;

/// The point's safety probe pass rate is exactly `1.0`.
pub open spec fn spec_point_safe(p: LearningCurvePoint) -> bool {
    p.safety_probe_pass_rate_bits == F32_ONE_BITS
}

/// Every recorded point is safe.
pub open spec fn spec_safety_clean(points: Seq<LearningCurvePoint>) -> bool {
    forall|i: int| 0 <= i < points.len() ==> spec_point_safe(#[trigger] points[i])
}

/// The benchmark scores never drop: no score is `<` (as a float) the score
/// of the point before it.
pub open spec fn spec_non_decreasing(points: Seq<LearningCurvePoint>) -> bool {
    forall|k: int|
        0 < k < points.len() ==> !f32_bits_float_lt(
            (#[trigger] points[k]).benchmark_score_bits,
            points[k - 1].benchmark_score_bits,
        )
}

/// The points of one artifact, in arrival order.
pub open spec fn spec_points_for(points: Seq<LearningCurvePoint>, aref: ArtifactRef) -> Seq<
    LearningCurvePoint,
> {
    points.filter(|p: LearningCurvePoint| p.artifact_id == aref)
}

/// Append-only collector of learning curve points.
pub struct LearningCurveCollector {
    points: Vec<LearningCurvePoint>,
}

impl View for LearningCurveCollector {
    type V = Seq<LearningCurvePoint>;

    closed spec fn view(&self) -> Seq<LearningCurvePoint> {
        self.points@
    }
}

impl LearningCurveCollector {
    pub fn new() -> (c: Self)
        ensures
            c@ == Seq::<LearningCurvePoint>::empty(),
    {
        LearningCurveCollector { points: Vec::new() }
    }

    /// Appends a new point. Ordered by arrival — the dashboard plots
    /// chronologically.
    pub fn record(&mut self, point: LearningCurvePoint)
        ensures
            final(self)@ == old(self)@.push(point),
    {
        self.points.push(point);
    }

    /// Snapshot of every recorded point in arrival order.
    pub fn points(&self) -> (pts: Vec<LearningCurvePoint>)
        ensures
            pts@ == self@,
    {
        let n = self.points.len();
        let mut out: Vec<LearningCurvePoint> = Vec::new();
        let mut i: usize = 0;
        while i < n
            invariant
                n == self@.len(),
                i <= n,
                out@ == self@.take(i as int),
            decreases n - i,
        {
            out.push(self.points[i]);
            assert(out@ =~= self@.take(i + 1));
            i = i + 1;
        }
        assert(self@.take(n as int) =~= self@);
        out
    }

    /// All points for a specific artifact, in arrival order.
    pub fn points_for(&self, aref: ArtifactRef) -> (pts: Vec<LearningCurvePoint>)
        ensures
            pts@ == spec_points_for(self@, aref),
    {
        let n = self.points.len();
        let mut out: Vec<LearningCurvePoint> = Vec::new();
        let mut i: usize = 0;
        while i < n
            invariant
                n == self@.len(),
                i <= n,
                out@ == spec_points_for(self@.take(i as int), aref),
            decreases n - i,
        {
            proof {
                reveal_with_fuel(Seq::filter, 1);
                assert(self@.take(i + 1).drop_last() =~= self@.take(i as int));
            }
            let p = self.points[i];
            if p.artifact_id == aref {
                out.push(p);
            }
            i = i + 1;
        }
        assert(self@.take(n as int) =~= self@);
        out
    }

    pub fn len(&self) -> (n: usize)
        ensures
            n == self@.len(),
    {
        self.points.len()
    }

    pub fn is_empty(&self) -> (empty: bool)
        ensures
            empty == (self@.len() == 0),
    {
        self.len() == 0
    }

    /// True iff every recorded point has a safety probe pass rate of
    /// exactly 1.0 — the single-bit alignment indicator that halts learning
    /// on any regression: any dip below 1.0 trips it.
    pub fn safety_clean(&self) -> (clean: bool)
        ensures
            clean == spec_safety_clean(self@),
    {
        let n = self.points.len();
        let mut i: usize = 0;
        while i < n
            invariant
                n == self@.len(),
                i <= n,
                forall|j: int| 0 <= j < i ==> spec_point_safe(#[trigger] self@[j]),
            decreases n - i,
        {
            if self.points[i].safety_probe_pass_rate_bits != F32_ONE_BITS {
                assert(!spec_point_safe(self@[i as int]));
                return false;
            }
            i = i + 1;
        }
        true
    }

    /// True iff `benchmark_score` is monotone non-decreasing across every
    /// recorded point for the given artifact: the strictest version of
    /// "the curve is going up".
    pub fn strictly_non_decreasing(&self, aref: ArtifactRef) -> (up: bool)
        ensures
            up == spec_non_decreasing(spec_points_for(self@, aref)),
    {
        let points = self.points_for(aref);
        let n = points.len();
        let mut k: usize = 1;
        while k < n
            invariant
                n == points@.len(),
                points@ == spec_points_for(self@, aref),
                1 <= k,
                forall|j: int|
                    0 < j < k && j < n ==> !f32_bits_float_lt(
                        (#[trigger] points@[j]).benchmark_score_bits,
                        points@[j - 1].benchmark_score_bits,
                    ),
            decreases n - k,
        {
            if f32_bits_lt(points[k].benchmark_score_bits, points[k - 1].benchmark_score_bits) {
                assert(f32_bits_float_lt(
                    points@[k as int].benchmark_score_bits,
                    points@[k - 1].benchmark_score_bits,
                ));
                return false;
            }
            k = k + 1;
        }
        true
    }
}

/// Recording a point for one artifact leaves every other artifact's curve
/// untouched, and extends its own curve by exactly that point.
pub proof fn lemma_record_extends_only_own_curve(
    points: Seq<LearningCurvePoint>,
    p: LearningCurvePoint,
    aref: ArtifactRef,
)
    ensures
        p.artifact_id == aref ==> spec_points_for(points.push(p), aref) == spec_points_for(points, aref).push(p),
        p.artifact_id != aref ==> spec_points_for(points.push(p), aref) == spec_points_for(points, aref),
{
    reveal_with_fuel(Seq::filter, 1);
    assert(points.push(p).drop_last() =~= points);
}

/// A safety dip is never forgotten: once any recorded point is unsafe, the
/// collector stays unclean whatever is recorded afterwards; and recording
/// only safe points keeps a clean collector clean.
pub proof fn lemma_safety_dip_is_sticky(points: Seq<LearningCurvePoint>, p: LearningCurvePoint)
    ensures
        !spec_safety_clean(points) ==> !spec_safety_clean(points.push(p)),
        spec_safety_clean(points.push(p)) <==> (spec_safety_clean(points) && spec_point_safe(p)),
{
    if !spec_safety_clean(points) {
        let i = choose|i: int| 0 <= i < points.len() && !spec_point_safe(#[trigger] points[i]);
        assert(points.push(p)[i] == points[i]);
    }
    if spec_safety_clean(points) && spec_point_safe(p) {
        assert forall|i: int| 0 <= i < points.push(p).len() implies spec_point_safe(
            #[trigger] points.push(p)[i],
        ) by {
            if i < points.len() {
                assert(points.push(p)[i] == points[i]);
            }
        }
    }
    if spec_safety_clean(points.push(p)) {
        assert(points.push(p)[points.len() as int] == p);
        assert forall|i: int| 0 <= i < points.len() implies spec_point_safe(#[trigger] points[i]) by {
            assert(points.push(p)[i] == points[i]);
        }
    }
}

/// A drop in the curve is never forgotten: if the scores are not
/// non-decreasing, no later point makes them so.
pub proof fn lemma_dropoff_is_sticky(points: Seq<LearningCurvePoint>, p: LearningCurvePoint)
    ensures
        spec_non_decreasing(points.push(p)) ==> spec_non_decreasing(points),
{
    if spec_non_decreasing(points.push(p)) {
        assert forall|k: int| 0 < k < points.len() implies !f32_bits_float_lt(
            (#[trigger] points[k]).benchmark_score_bits,
            points[k - 1].benchmark_score_bits,
        ) by {
            assert(points.push(p)[k] == points[k]);
            assert(points.push(p)[k - 1] == points[k - 1]);
        }
    }
}

/// Appending a point to a curve keeps it non-decreasing exactly when the
/// curve was non-decreasing and the new score is not below (as a float) the
/// last score: every point is compared with its predecessor. The empty
/// curve and a single point are non-decreasing.
pub proof fn lemma_non_decreasing_step(points: Seq<LearningCurvePoint>, p: LearningCurvePoint)
    ensures
        spec_non_decreasing(Seq::<LearningCurvePoint>::empty()),
        spec_non_decreasing(seq![p]),
        points.len() > 0 ==> (spec_non_decreasing(points.push(p)) <==> (spec_non_decreasing(points)
            && !(!f32_bits_nan(p.benchmark_score_bits) && !f32_bits_nan(
            points.last().benchmark_score_bits,
        ) && f32_bits_order_key(p.benchmark_score_bits) < f32_bits_order_key(
            points.last().benchmark_score_bits,
        )))),
{
    let q = points.push(p);
    if points.len() > 0 {
        assert(q[points.len() as int] == p);
        assert(q[points.len() - 1] == points.last());
        if spec_non_decreasing(q) {
            assert forall|k: int| 0 < k < points.len() implies !f32_bits_float_lt(
                (#[trigger] points[k]).benchmark_score_bits,
                points[k - 1].benchmark_score_bits,
            ) by {
                assert(q[k] == points[k]);
                assert(q[k - 1] == points[k - 1]);
            }
            assert(!f32_bits_float_lt(q[points.len() as int].benchmark_score_bits, q[points.len() - 1].benchmark_score_bits));
        }
        if spec_non_decreasing(points) && !f32_bits_float_lt(
            p.benchmark_score_bits,
            points.last().benchmark_score_bits,
        ) {
            assert forall|k: int| 0 < k < q.len() implies !f32_bits_float_lt(
                (#[trigger] q[k]).benchmark_score_bits,
                q[k - 1].benchmark_score_bits,
            ) by {
                if k < points.len() {
                    assert(q[k] == points[k]);
                    assert(q[k - 1] == points[k - 1]);
                }
            }
        }
    }
}

/// Two points are `==` exactly when every field is: the artifact, version,
/// timestamp and judge count are equal, and each float field holds the same
/// number (neither side NaN; `0.0` and `-0.0` are the same number).
pub proof fn lemma_point_eq_is_fieldwise(a: LearningCurvePoint, b: LearningCurvePoint)
    ensures
        PartialEqSpec::eq_spec(&a, &b) <==> {
            &&& a.artifact_id == b.artifact_id
            &&& a.version == b.version
            &&& a.timestamp_ms == b.timestamp_ms
            &&& a.judges_consulted == b.judges_consulted
            &&& !f32_bits_nan(a.benchmark_score_bits) && !f32_bits_nan(b.benchmark_score_bits)
                && f32_bits_order_key(a.benchmark_score_bits) == f32_bits_order_key(
                b.benchmark_score_bits,
            )
            &&& !f32_bits_nan(a.safety_probe_pass_rate_bits) && !f32_bits_nan(
                b.safety_probe_pass_rate_bits,
            ) && f32_bits_order_key(a.safety_probe_pass_rate_bits) == f32_bits_order_key(
                b.safety_probe_pass_rate_bits,
            )
            &&& !f32_bits_nan(a.objective_delta_bits) && !f32_bits_nan(b.objective_delta_bits)
                && f32_bits_order_key(a.objective_delta_bits) == f32_bits_order_key(
                b.objective_delta_bits,
            )
        },
        PartialEqSpec::eq_spec(&a, &b) ==> a.judges_consulted == b.judges_consulted,
{
}

} // verus!
