//! The procedural-memory compiler: turns batches of agent outcomes into
//! improved, versioned policy artifacts through a reflective loop —
//! reflect → propose K candidates → shadow-evaluate → guard → commit.
//!
//! The hard rule, encoded: nothing procedural commits without passing
//! [`EvalReport::is_committable`]. The guard always consults that strict
//! baseline first and emits [`RejectReason::BaselineFailed`] when it trips;
//! configurable thresholds can only add rejection reasons on top of it,
//! never weaken it (see the `with_baseline` constructor of [`Verdict`]).
//!
//! This module holds the decisions of a compile pass: the verdict of each
//! candidate, the choice of the winner (the first committable candidate),
//! and the events a pass appends to the log. Proposing candidates and
//! shadow-evaluating them are done by the services that drive the pass.

use vstd::prelude::*;
use vstd::string::StringExecFns;

use crate::event::{spec_is_committable, EvalReport, Event};
use crate::types::ProposalId;

verus! {

/// What triggers a compile pass: a count- or time-based outcome batch.
#[derive(Debug, Clone)]
pub struct CompileTrigger {
    pub min_batch: usize,
    pub max_age_secs: u64,
}

impl Default for CompileTrigger {
    fn default() -> (t: Self)
        ensures
            t.min_batch == 32,
            t.max_age_secs == 3600,
    {
        CompileTrigger { min_batch: 32, max_age_secs: 3600 }
    }
}

// ---------------------------------------------------------------------------
// Gate verdicts
// ---------------------------------------------------------------------------

/// Why the guard refused a candidate.
#[derive(Debug, Clone, Copy, PartialEq, Eq, Structural)]
pub enum RejectReason {
    /// The strict baseline ([`EvalReport::is_committable`]) failed.
    BaselineFailed,
    CanariesFailing,
    SafetyProbeFailed,
    ObjectiveRegression,
    ReplayRegression,
    InsufficientJudges,
}

/// Short name of a rejection reason, as it appears in the audit trail.
pub open spec fn spec_reason_name(r: RejectReason) -> Seq<char> {
    match r {
        RejectReason::BaselineFailed => "baseline"@,
        RejectReason::CanariesFailing => "canaries"@,
        RejectReason::SafetyProbeFailed => "safety"@,
        RejectReason::ObjectiveRegression => "objective"@,
        RejectReason::ReplayRegression => "replay"@,
        RejectReason::InsufficientJudges => "judges"@,
    }
}

fn reason_name(r: RejectReason) -> (name: &'static str)
    ensures
        name@ == spec_reason_name(r),
{
    match r {
        RejectReason::BaselineFailed => "baseline",
        RejectReason::CanariesFailing => "canaries",
        RejectReason::SafetyProbeFailed => "safety",
        RejectReason::ObjectiveRegression => "objective",
        RejectReason::ReplayRegression => "replay",
        RejectReason::InsufficientJudges => "judges",
    }
}

/// The guard's decision on one shadow report.
#[derive(Debug, Clone)]
pub struct Verdict {
    pub committable: bool,
    pub reasons: Vec<RejectReason>,
}

/// Reasons of a verdict, with `BaselineFailed` first when the strict
/// baseline trips, then the reasons of the configurable thresholds.
pub open spec fn spec_verdict_reasons(report: EvalReport, threshold_reasons: Seq<RejectReason>) -> Seq<
    RejectReason,
> {
    if spec_is_committable(report) {
        threshold_reasons
    } else {
        seq![RejectReason::BaselineFailed] + threshold_reasons
    }
}

/// A verdict is sound for a report when it commits exactly when it has no
/// rejection reason, and commits only reports that clear the baseline.
pub open spec fn spec_verdict_sound(v: Verdict, report: EvalReport) -> bool {
    &&& v.committable == (v.reasons@.len() == 0)
    &&& v.committable ==> spec_is_committable(report)
}

impl Verdict {
    /// Combines the strict baseline with the rejection reasons of the
    /// configurable thresholds: the baseline is consulted first, and the
    /// verdict is committable only when no reason at all was raised.
    pub fn with_baseline(report: &EvalReport, threshold_reasons: Vec<RejectReason>) -> (v: Verdict)
        ensures
            v.reasons@ == spec_verdict_reasons(*report, threshold_reasons@),
            v.committable == (v.reasons@.len() == 0),
            spec_verdict_sound(v, *report),
    {
        let mut reasons: Vec<RejectReason> = Vec::new();
        if !report.is_committable() {
            reasons.push(RejectReason::BaselineFailed);
        }
        let mut extra = threshold_reasons;
        reasons.append(&mut extra);
        let committable = reasons.len() == 0;
        Verdict { committable, reasons }
    }
}

/// However weak the configurable thresholds are — even when they raise no
/// reason at all — a guarded verdict commits only a report that clears the
/// strict baseline, and a failing baseline is always reported first.
pub proof fn lemma_configurable_gates_cannot_bypass_baseline(
    report: EvalReport,
    threshold_reasons: Seq<RejectReason>,
)
    ensures
        spec_verdict_reasons(report, threshold_reasons).len() == 0 ==> spec_is_committable(report),
        !spec_is_committable(report) ==> spec_verdict_reasons(report, threshold_reasons)[0]
            == RejectReason::BaselineFailed,
{
}

// ---------------------------------------------------------------------------
// Compile passes
// ---------------------------------------------------------------------------

/// A set of candidate revisions of an artifact, proposed by reflection.
#[derive(Debug, Clone)]
pub struct Proposal<A> {
    pub id: ProposalId,
    pub candidates: Vec<A>,
}

/// One row of compile output — the candidate, its shadow report, and the
/// guard's verdict on it.
#[derive(Debug, Clone)]
pub struct CandidateOutcome<A> {
    pub candidate: A,
    pub report: EvalReport,
    pub verdict: Verdict,
}

impl<A> CandidateOutcome<A> {
    pub fn committable(&self) -> (ok: bool)
        ensures
            ok == self.verdict.committable,
    {
        self.verdict.committable
    }
}

/// Full compile-pass result: the proposal, every candidate's outcome, and
/// the index of the winning row (the first committable one).
pub struct CompileResult<A> {
    pub proposal: Proposal<A>,
    pub outcomes: Vec<CandidateOutcome<A>>,
    /// Index into `outcomes` of the first committable candidate, if any.
    pub winner_idx: Option<usize>,
}

/// `w` is the index of the first committable row of `outcomes`, or `None`
/// when no row is committable.
pub open spec fn spec_first_committable<A>(outcomes: Seq<CandidateOutcome<A>>, w: Option<usize>) -> bool {
    match w {
        Some(i) => {
            &&& i < outcomes.len()
            &&& outcomes[i as int].verdict.committable
            &&& forall|j: int| 0 <= j < i ==> !(#[trigger] outcomes[j]).verdict.committable
        },
        None => forall|j: int| 0 <= j < outcomes.len() ==> !(#[trigger] outcomes[j]).verdict.committable,
    }
}

impl<A: Clone> CompileResult<A> {
    /// Rows are clones of the proposal's candidates taken in order, every
    /// verdict is sound for its report, and the winner is the first
    /// committable row.
    pub open spec fn wf(&self) -> bool {
        &&& self.outcomes@.len() <= self.proposal.candidates@.len()
        &&& forall|i: int|
            0 <= i < self.outcomes@.len() ==> cloned(
                self.proposal.candidates@[i],
                #[trigger] self.outcomes@[i].candidate,
            )
        &&& forall|i: int|
            0 <= i < self.outcomes@.len() ==> spec_verdict_sound(
                #[trigger] self.outcomes@[i].verdict,
                self.outcomes@[i].report,
            )
        &&& spec_first_committable(self.outcomes@, self.winner_idx)
    }

    /// Starts a compile pass over `proposal`, with no candidate evaluated.
    pub fn start(proposal: Proposal<A>) -> (r: Self)
        ensures
            r.proposal == proposal,
            r.outcomes@.len() == 0,
            r.winner_idx is None,
            r.wf(),
    {
        CompileResult { proposal, outcomes: Vec::new(), winner_idx: None }
    }

    /// Records the next candidate: its shadow report and the rejection
    /// reasons of the configurable thresholds. The guard combines them with
    /// the strict baseline; the first committable candidate becomes the
    /// winner.
    pub fn record_candidate(&mut self, report: EvalReport, threshold_reasons: Vec<RejectReason>)
        requires
            old(self).outcomes@.len() < old(self).proposal.candidates@.len(),
        ensures
            old(self).wf() ==> final(self).wf(),
            cloned(
                old(self).proposal.candidates@[old(self).outcomes@.len() as int],
                final(self).outcomes@.last().candidate,
            ),
            final(self).outcomes@.last().verdict.committable
                == (final(self).outcomes@.last().verdict.reasons@.len() == 0),
            final(self).proposal == old(self).proposal,
            final(self).outcomes@.len() == old(self).outcomes@.len() + 1,
            forall|i: int|
                0 <= i < old(self).outcomes@.len() ==> final(self).outcomes@[i]
                    == old(self).outcomes@[i],
            final(self).outcomes@.last().report == report,
            final(self).outcomes@.last().verdict.reasons@ == spec_verdict_reasons(
                report,
                threshold_reasons@,
            ),
            final(self).winner_idx == (if old(self).winner_idx is None
                && final(self).outcomes@.last().verdict.committable {
                Some(old(self).outcomes@.len() as usize)
            } else {
                old(self).winner_idx
            }),
    {
        let i = self.outcomes.len();
        let candidate = self.proposal.candidates[i].clone();
        let verdict = Verdict::with_baseline(&report, threshold_reasons);
        let committable = verdict.committable;
        self.outcomes.push(CandidateOutcome { candidate, report, verdict });
        if committable && self.winner_idx.is_none() {
            self.winner_idx = Some(i);
        }
        assert(forall|j: int| 0 <= j < i ==> self.outcomes@[j] == old(self).outcomes@[j]);
    }
}

/// Nothing procedural commits without passing the strict baseline: in a
/// compile result built by [`CompileResult::start`] and
/// [`CompileResult::record_candidate`], the winner's report is committable
/// and no earlier candidate cleared the guard.
pub proof fn lemma_winner_clears_baseline<A: Clone>(r: CompileResult<A>)
    requires
        r.wf(),
    ensures
        r.winner_idx matches Some(w) ==> spec_is_committable(r.outcomes@[w as int].report),
        r.winner_idx matches Some(w) ==> forall|j: int|
            0 <= j < w ==> !(#[trigger] r.outcomes@[j]).verdict.committable,
        r.winner_idx is None ==> forall|j: int|
            0 <= j < r.outcomes@.len() ==> !(#[trigger] r.outcomes@[j]).verdict.committable,
{
    if let Some(w) = r.winner_idx {
        assert(spec_verdict_sound(r.outcomes@[w as int].verdict, r.outcomes@[w as int].report));
    }
}

impl<A> CompileResult<A> {
    /// Index of the next candidate to shadow-evaluate, or `None` once every
    /// candidate of the proposal has an outcome.
    pub fn next_candidate(&self) -> (next: Option<usize>)
        ensures
            next == (if self.outcomes@.len() < self.proposal.candidates@.len() {
                Some(self.outcomes@.len() as usize)
            } else {
                None
            }),
    {
        if self.outcomes.len() < self.proposal.candidates.len() {
            Some(self.outcomes.len())
        } else {
            None
        }
    }

    /// Did any candidate clear the guard?
    pub fn has_winner(&self) -> (r: bool)
        ensures
            r == self.winner_idx is Some,
    {
        self.winner_idx.is_some()
    }

    /// The winning candidate's outcome, if one exists.
    pub fn winner(&self) -> (r: Option<&CandidateOutcome<A>>)
        ensures
            r is Some <==> (self.winner_idx is Some && self.winner_idx->0 < self.outcomes@.len()),
            r matches Some(o) ==> *o == self.outcomes@[self.winner_idx->0 as int],
    {
        match self.winner_idx {
            Some(i) => {
                if i < self.outcomes.len() {
                    Some(&self.outcomes[i])
                } else {
                    None
                }
            },
            None => None,
        }
    }
}

// ---------------------------------------------------------------------------
// The compiler
// ---------------------------------------------------------------------------

/// The compiler's own settings: the batch trigger, the configurable gate
/// thresholds `G`, and how many candidates reflection proposes per pass.
pub struct ProceduralCompiler<G> {
    pub trigger: CompileTrigger,
    /// Configurable guard thresholds.
    pub gates: G,
    /// "Propose K candidates" — number of revisions per pass.
    pub candidates_per_artifact: usize,
}

/// Order in which a pass records its candidates: the winner, if any, is
/// swapped to the front (the replayed store activates index 0).
pub open spec fn spec_proposed_order<A>(candidates: Seq<A>, winner: Option<usize>) -> Seq<A> {
    match winner {
        Some(i) => if i == 0 {
            candidates
        } else {
            candidates.update(0, candidates[i as int]).update(i as int, candidates[0])
        },
        None => candidates,
    }
}

/// The winner that a pass commits: the recorded winner, provided its report
/// clears the strict baseline; otherwise nothing is committed.
pub open spec fn spec_committed_winner<A>(outcomes: Seq<CandidateOutcome<A>>, winner: Option<usize>) -> Option<usize> {
    match winner {
        Some(w) => if spec_is_committable(outcomes[w as int].report) {
            Some(w)
        } else {
            None
        },
        None => None,
    }
}

/// The proposal event records exactly the candidates that were tried:
/// the reordering only brings the winner to the front.
pub proof fn lemma_proposed_order_is_permutation<A>(candidates: Seq<A>, winner: Option<usize>)
    requires
        winner matches Some(w) ==> w < candidates.len(),
    ensures
        spec_proposed_order(candidates, winner).len() == candidates.len(),
        spec_proposed_order(candidates, winner).to_multiset() == candidates.to_multiset(),
        winner matches Some(w) ==> spec_proposed_order(candidates, winner)[0] == candidates[w as int],
{
    broadcast use {
        vstd::seq_lib::to_multiset_update,
        vstd::multiset::group_multiset_properties,
        vstd::multiset::group_multiset_axioms,
        vstd::seq_lib::to_multiset_contains,
    };

    if let Some(w) = winner {
        let s1 = candidates.update(0, candidates[w as int]);
        let s2 = s1.update(w as int, candidates[0]);
        assert(s1[w as int] == candidates[w as int]);
        assert(s1.to_multiset() == candidates.to_multiset().insert(candidates[w as int]).remove(
            candidates[0],
        ));
        assert(s2.to_multiset() == s1.to_multiset().insert(candidates[0]).remove(
            candidates[w as int],
        ));
        let m = candidates.to_multiset();
        let a = candidates[w as int];
        let b = candidates[0];
        assert(candidates.contains(a));
        assert(candidates.contains(b));
        assert(m.count(a) > 0);
        assert(m.count(b) > 0);
        assert forall|x: A| #[trigger] s2.to_multiset().count(x) == m.count(x) by {
            assert(m.insert(a).count(b) > 0);
        }
        assert(s2.to_multiset() =~= m);
    }
}

fn swap_to_front<T>(v: &mut Vec<T>, idx: usize)
    requires
        0 < idx < old(v)@.len(),
    ensures
        final(v)@ == old(v)@.update(0, old(v)@[idx as int]).update(idx as int, old(v)@[0]),
{
    let at_idx = v.remove(idx);
    let first = v.remove(0);
    v.insert(0, at_idx);
    v.insert(idx, first);
    assert(v@ =~= old(v)@.update(0, old(v)@[idx as int]).update(idx as int, old(v)@[0]));
}

impl<G> ProceduralCompiler<G> {
    /// A compiler with the default batch trigger.
    pub fn new(gates: G, candidates_per_artifact: usize) -> (c: Self)
        ensures
            c.trigger.min_batch == 32,
            c.trigger.max_age_secs == 3600,
            c.gates == gates,
            c.candidates_per_artifact == candidates_per_artifact,
    {
        ProceduralCompiler { trigger: CompileTrigger::default(), gates, candidates_per_artifact }
    }

    /// Overrides the guard thresholds, keeping every other setting.
    pub fn with_gates(self, gates: G) -> (c: Self)
        ensures
            c.gates == gates,
            c.trigger == self.trigger,
            c.candidates_per_artifact == self.candidates_per_artifact,
    {
        ProceduralCompiler { trigger: self.trigger, gates, candidates_per_artifact: self.candidates_per_artifact }
    }

    /// The two events that land a compile pass in the log, in append order.
    ///
    /// Both paths first record `ProceduralProposed`, so every attempt is in
    /// the audit log. With a winner whose report clears the strict baseline,
    /// the winner is swapped to index 0 and `ProceduralCommitted` carries
    /// its report; otherwise the candidates keep their order and
    /// `ProceduralRejected` carries the per-candidate rejection reasons.
    /// Nothing commits without passing [`EvalReport::is_committable`].
    pub fn apply_events<M, O, A: Clone>(&self, result: CompileResult<A>) -> (events: Vec<
        Event<M, O, A>,
    >)
        requires
            result.winner_idx matches Some(w) ==> w < result.outcomes@.len() && (w == 0 || w
                < result.proposal.candidates@.len()),
        ensures
            events@.len() == 2,
            events@[0] matches Event::ProceduralProposed { proposal, artifacts } && proposal
                == result.proposal.id && artifacts@ == spec_proposed_order(
                result.proposal.candidates@,
                spec_committed_winner(result.outcomes@, result.winner_idx),
            ),
            match spec_committed_winner(result.outcomes@, result.winner_idx) {
                Some(w) => events@[1] matches Event::ProceduralCommitted { proposal, report }
                    && proposal == result.proposal.id && report
                    == result.outcomes@[w as int].report,
                None => events@[1] matches Event::ProceduralRejected { proposal, reason }
                    && proposal == result.proposal.id && reason@ == spec_rejection_text(
                    result.outcomes@,
                ),
            },
            events@[1] matches Event::ProceduralCommitted { report, .. } ==> spec_is_committable(
                report,
            ),
            result.wf() ==> spec_committed_winner(result.outcomes@, result.winner_idx)
                == result.winner_idx,
    {
        proof {
            if result.wf() {
                if let Some(w) = result.winner_idx {
                    assert(spec_verdict_sound(
                        result.outcomes@[w as int].verdict,
                        result.outcomes@[w as int].report,
                    ));
                }
            }
        }
        let proposal_id = result.proposal.id;
        let CompileResult { proposal, outcomes, winner_idx } = result;
        let mut artifacts = proposal.candidates;
        let committed: Option<usize> = match winner_idx {
            Some(idx) => if outcomes[idx].report.is_committable() {
                Some(idx)
            } else {
                None
            },
            None => None,
        };
        let decision = match committed {
            Some(idx) => {
                if idx > 0 {
                    swap_to_front(&mut artifacts, idx);
                }
                Event::ProceduralCommitted { proposal: proposal_id, report: outcomes[idx].report }
            },
            None => {
                let reason = render_rejection_reasons(&outcomes);
                Event::ProceduralRejected { proposal: proposal_id, reason }
            },
        };
        let mut events: Vec<Event<M, O, A>> = Vec::new();
        events.push(Event::ProceduralProposed { proposal: proposal_id, artifacts });
        events.push(decision);
        events
    }
}

// ---------------------------------------------------------------------------
// The rejection audit line
// ---------------------------------------------------------------------------

/// The character of decimal digit `d`.
pub open spec fn spec_digit_char(d: nat) -> char {
    (d + 48) as char
}

/// Decimal representation of `n`, without leading zeros.
pub open spec fn spec_decimal(n: nat) -> Seq<char>
    decreases n,
{
    if n < 10 {
        seq![spec_digit_char(n)]
    } else {
        spec_decimal(n / 10) + seq![spec_digit_char(n % 10)]
    }
}

/// Reason names joined by `,`.
pub open spec fn spec_reason_list(rs: Seq<RejectReason>) -> Seq<char>
    decreases rs.len(),
{
    if rs.len() == 0 {
        Seq::empty()
    } else if rs.len() == 1 {
        spec_reason_name(rs[0])
    } else {
        spec_reason_list(rs.drop_last()) + seq![','] + spec_reason_name(rs.last())
    }
}

/// `c{i}=[name,name,…]` for the candidate at index `i`.
pub open spec fn spec_candidate_entry<A>(i: nat, o: CandidateOutcome<A>) -> Seq<char> {
    seq!['c'] + spec_decimal(i) + seq!['=', '['] + spec_reason_list(o.verdict.reasons@) + seq![']']
}

/// The entries of all candidates, joined by single spaces.
pub open spec fn spec_candidate_entries<A>(outcomes: Seq<CandidateOutcome<A>>) -> Seq<char>
    decreases outcomes.len(),
{
    if outcomes.len() == 0 {
        Seq::empty()
    } else if outcomes.len() == 1 {
        spec_candidate_entry(0, outcomes[0])
    } else {
        spec_candidate_entries(outcomes.drop_last()) + seq![' '] + spec_candidate_entry(
            (outcomes.len() - 1) as nat,
            outcomes.last(),
        )
    }
}

/// The human-readable reason of a `ProceduralRejected` event.
pub open spec fn spec_rejection_text<A>(outcomes: Seq<CandidateOutcome<A>>) -> Seq<char> {
    if outcomes.len() == 0 {
        "no candidates evaluated"@
    } else {
        spec_candidate_entries(outcomes)
    }
}

#[verifier::external_body]
fn push_char(s: &mut String, c: char)
    ensures
        final(s)@ == old(s)@.push(c),
{
    s.push(c)
}

fn push_decimal(s: &mut String, n: usize)
    ensures
        final(s)@ == old(s)@ + spec_decimal(n as nat),
    decreases n,
{
    if n >= 10 {
        push_decimal(s, n / 10);
    }
    let d: u8 = (n % 10) as u8;
    let c: char = (d + 48u8) as char;
    assert(c == spec_digit_char((n % 10) as nat));
    push_char(s, c);
    assert(s@ =~= old(s)@ + spec_decimal(n as nat));
}

fn push_reason_list(s: &mut String, reasons: &Vec<RejectReason>)
    ensures
        final(s)@ == old(s)@ + spec_reason_list(reasons@),
{
    let n = reasons.len();
    let mut k: usize = 0;
    while k < n
        invariant
            n == reasons@.len(),
            k <= n,
            s@ == old(s)@ + spec_reason_list(reasons@.take(k as int)),
        decreases n - k,
    {
        if k > 0 {
            push_char(s, ',');
        }
        s.append(reason_name(reasons[k]));
        assert(reasons@.take(k + 1).drop_last() =~= reasons@.take(k as int));
        assert(s@ =~= old(s)@ + spec_reason_list(reasons@.take(k + 1)));
        k = k + 1;
    }
    assert(reasons@.take(n as int) =~= reasons@);
}

/// Formats the per-candidate rejection reasons into a single line for the
/// `ProceduralRejected` event: the human-readable audit trail.
fn render_rejection_reasons<A>(outcomes: &Vec<CandidateOutcome<A>>) -> (text: String)
    ensures
        text@ == spec_rejection_text(outcomes@),
{
    if outcomes.len() == 0 {
        return "no candidates evaluated".to_owned();
    }
    let n = outcomes.len();
    let mut s = String::new();
    let mut i: usize = 0;
    while i < n
        invariant
            n == outcomes@.len(),
            0 < n,
            i <= n,
            s@ == spec_candidate_entries(outcomes@.take(i as int)),
        decreases n - i,
    {
        if i > 0 {
            push_char(&mut s, ' ');
        }
        push_char(&mut s, 'c');
        push_decimal(&mut s, i);
        push_char(&mut s, '=');
        push_char(&mut s, '[');
        push_reason_list(&mut s, &outcomes[i].verdict.reasons);
        push_char(&mut s, ']');
        assert(outcomes@.take(i + 1).drop_last() =~= outcomes@.take(i as int));
        assert(s@ =~= spec_candidate_entries(outcomes@.take(i + 1)));
        i = i + 1;
    }
    assert(outcomes@.take(n as int) =~= outcomes@);
    s
}

/// Logging a pass moves at most two candidates. Without a committed winner
/// the candidates are recorded exactly as proposed, so the recorded
/// artifacts line up with `c0`, `c1`, … of the rejection line. With a winner
/// at index `w`, the winner is at the front, the front candidate takes index
/// `w`, and every other position keeps its own candidate.
pub proof fn lemma_proposed_order_positions<A>(candidates: Seq<A>, winner: Option<usize>)
    requires
        winner matches Some(w) ==> w < candidates.len(),
    ensures
        spec_proposed_order(candidates, None) == candidates,
        spec_proposed_order(candidates, winner).len() == candidates.len(),
        winner matches Some(w) ==> spec_proposed_order(candidates, winner)[0] == candidates[w as int]
            && spec_proposed_order(candidates, winner)[w as int] == candidates[0],
        forall|i: int|
            0 < i < candidates.len() && (winner is None || i != winner->0) ==> #[trigger] spec_proposed_order(
                candidates,
                winner,
            )[i] == candidates[i],
{
}

} // verus!
