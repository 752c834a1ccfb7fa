use vstd::prelude::*;
use crate::catalog::{BypsEngine, Variation, VariationView, variation_views};
use crate::classify::{Classification, Reason, Tolerance, classify, classify_spec};
use crate::error::BypsError;

verus! {

/// The response to the unmodified target: status and body size.
#[derive(Clone, Copy, Debug, PartialEq, Eq, Structural)]
pub struct Baseline {
    pub status: u16,
    pub size: u64,
}

/// What probing one variation gave.
#[derive(Clone, Copy, Debug, PartialEq, Eq, Structural)]
pub enum Observation {
    /// A response with this status and body size.
    Answered { status: u16, size: u64 },
    /// The request could not be sent or its response not read.
    TransportFailed,
    /// No response within the timeout.
    TimedOut,
}

/// The verdict on one observation.
pub open spec fn judge(tol: Tolerance, base: Baseline, o: Observation) -> (Classification, Reason) {
    match o {
        Observation::Answered { status, size } => classify_spec(tol, base.status, base.size, status, size),
        _ => (Classification::Inconclusive, Reason::TransportError),
    }
}

/// No two reports name the same variation.
pub open spec fn ids_distinct(outs: Seq<(usize, Observation)>) -> bool {
    forall|a: int, b: int| 0 <= a < b < outs.len() ==> outs[a].0 != outs[b].0
}

/// What was reported for variation `i`; a transport failure where nothing
/// was.
pub open spec fn observed_at(outs: Seq<(usize, Observation)>, i: nat) -> Observation {
    if exists|p: (usize, Observation)| outs.contains(p) && p.0 == i {
        (choose|p: (usize, Observation)| outs.contains(p) && p.0 == i).1
    } else {
        Observation::TransportFailed
    }
}

/// The outcome for one variation.
#[derive(Debug)]
pub struct ProbeResult {
    pub variation: Variation,
    pub observation: Observation,
    pub classification: Classification,
    pub reason: Reason,
}

pub struct ProbeResultView {
    pub variation: VariationView,
    pub observation: Observation,
    pub classification: Classification,
    pub reason: Reason,
}

impl View for ProbeResult {
    type V = ProbeResultView;

    open spec fn view(&self) -> ProbeResultView {
        ProbeResultView {
            variation: self.variation@,
            observation: self.observation,
            classification: self.classification,
            reason: self.reason,
        }
    }
}

pub open spec fn result_views(rs: Seq<ProbeResult>) -> Seq<ProbeResultView> {
    rs.map_values(|r: ProbeResult| r@)
}

/// The result for variation `v` given everything reported.
pub open spec fn result_for(
    tol: Tolerance,
    base: Baseline,
    v: VariationView,
    outs: Seq<(usize, Observation)>,
    i: nat,
) -> ProbeResultView {
    let o = observed_at(outs, i);
    ProbeResultView { variation: v, observation: o, classification: judge(tol, base, o).0, reason: judge(tol, base, o).1 }
}

/// The results of a run, one per variation, in generation order.
pub open spec fn results_of(
    tol: Tolerance,
    base: Baseline,
    vs: Seq<VariationView>,
    outs: Seq<(usize, Observation)>,
) -> Seq<ProbeResultView> {
    Seq::new(vs.len(), |i: int| result_for(tol, base, vs[i], outs, vs[i].id))
}

/// How many results are bypasses.
pub open spec fn bypass_count(rs: Seq<ProbeResultView>) -> nat
    decreases rs.len(),
{
    if rs.len() == 0 {
        0
    } else {
        bypass_count(rs.drop_last()) + if rs.last().classification == Classification::Bypass { 1nat } else { 0nat }
    }
}

/// The aggregate of one run.
#[derive(Debug)]
pub struct RunSummary {
    pub baseline: Baseline,
    pub total_tested: usize,
    pub successful_bypasses: usize,
    /// Every result that is not a bypass: no bypass, and inconclusive.
    pub failed_attempts: usize,
    pub results: Vec<ProbeResult>,
}

/// Where an observation is reported for each variation, whatever the order
/// the reports came in, the results are the same and in id order.
pub proof fn lemma_report_order_irrelevant(
    tol: Tolerance,
    base: Baseline,
    vs: Seq<VariationView>,
    first: Seq<(usize, Observation)>,
    second: Seq<(usize, Observation)>,
)
    requires
        first.to_multiset() == second.to_multiset(),
        ids_distinct(first),
        ids_distinct(second),
    ensures
        results_of(tol, base, vs, first) == results_of(tol, base, vs, second),
{
    assert forall|p: (usize, Observation)| first.contains(p) <==> second.contains(p) by {
        vstd::seq_lib::to_multiset_contains(first, p);
        vstd::seq_lib::to_multiset_contains(second, p);
    }
    assert forall|i: nat| observed_at(first, i) == observed_at(second, i) by {
        if exists|p: (usize, Observation)| first.contains(p) && p.0 == i {
            let p1 = choose|p: (usize, Observation)| first.contains(p) && p.0 == i;
            let p2 = choose|p: (usize, Observation)| second.contains(p) && p.0 == i;
            assert(second.contains(p1));
            assert(first.contains(p2));
            let a = choose|a: int| 0 <= a < first.len() && first[a] == p1;
            let b = choose|b: int| 0 <= b < first.len() && first[b] == p2;
            assert(a == b);
        }
    }
    assert(results_of(tol, base, vs, first) =~= results_of(tol, base, vs, second));
}

/// Results come in the order of the variations: where each variation's id is
/// its position, so is each result's.
pub proof fn lemma_results_in_id_order(
    tol: Tolerance,
    base: Baseline,
    vs: Seq<VariationView>,
    outs: Seq<(usize, Observation)>,
)
    requires
        forall|i: int| 0 <= i < vs.len() ==> #[trigger] vs[i].id == i,
    ensures
        results_of(tol, base, vs, outs).len() == vs.len(),
        forall|i: int| 0 <= i < vs.len() ==> #[trigger] results_of(tol, base, vs, outs)[i].variation.id == i,
{
}

/// Where ids are distinct, the report for variation `i` is the one that
/// names it.
pub proof fn lemma_observed_at_unique(outs: Seq<(usize, Observation)>, j: int)
    requires
        ids_distinct(outs),
        0 <= j < outs.len(),
    ensures
        observed_at(outs, outs[j].0 as nat) == outs[j].1,
{
    let i = outs[j].0 as nat;
    assert(outs.contains(outs[j]));
    let p = choose|p: (usize, Observation)| outs.contains(p) && p.0 == i;
    let a = choose|a: int| 0 <= a < outs.len() && outs[a] == p;
    assert(a == j);
}

/// Where no report names variation `i`, it counts as a transport failure.
pub proof fn lemma_observed_at_missing(outs: Seq<(usize, Observation)>, i: nat)
    requires
        forall|j: int| 0 <= j < outs.len() ==> outs[j].0 != i,
    ensures
        observed_at(outs, i) == Observation::TransportFailed,
{
    assert forall|p: (usize, Observation)| outs.contains(p) implies p.0 != i by {
        let a = choose|a: int| 0 <= a < outs.len() && outs[a] == p;
    }
}

/// The verdict on an observation, against the baseline.
pub fn judge_observation(tol: &Tolerance, base: Baseline, o: Observation) -> (r: (Classification, Reason))
    ensures
        r == judge(*tol, base, o),
{
    match o {
        Observation::Answered { status, size } => classify(tol, base.status, base.size, status, size),
        _ => (Classification::Inconclusive, Reason::TransportError),
    }
}

/// What was reported for the variation whose id is `id`; a transport
/// failure where nothing was.
pub fn observation_for(observed: &Vec<(usize, Observation)>, id: usize) -> (r: Observation)
    requires
        ids_distinct(observed@),
    ensures
        r == observed_at(observed@, id as nat),
{
    let mut k: usize = 0;
    while k < observed.len()
        invariant
            ids_distinct(observed@),
            k <= observed@.len(),
            forall|j: int| 0 <= j < k ==> observed@[j].0 != id,
        decreases observed@.len() - k,
    {
        if observed[k].0 == id {
            proof {
                lemma_observed_at_unique(observed@, k as int);
            }
            return observed[k].1;
        }
        k = k + 1;
    }
    proof {
        lemma_observed_at_missing(observed@, id as nat);
    }
    Observation::TransportFailed
}

/// The results of a run, from the variations tested, the baseline, and what
/// each probe reported (variation id and observation, in any order).
pub fn summarize(
    tol: &Tolerance,
    base: Baseline,
    variations: &Vec<Variation>,
    observed: &Vec<(usize, Observation)>,
) -> (r: RunSummary)
    requires
        ids_distinct(observed@),
    ensures
        r.baseline == base,
        result_views(r.results@) == results_of(*tol, base, variation_views(variations@), observed@),
        r.total_tested == variations@.len(),
        r.successful_bypasses == bypass_count(result_views(r.results@)),
        r.total_tested == r.successful_bypasses + r.failed_attempts,
{
    let n = variations.len();
    let ghost vs = variation_views(variations@);
    let ghost spec_rs = results_of(*tol, base, vs, observed@);
    let mut results: Vec<ProbeResult> = Vec::new();
    let mut bypasses: usize = 0;
    let mut j: usize = 0;
    while j < n
        invariant
            n == variations@.len(),
            vs == variation_views(variations@),
            spec_rs == results_of(*tol, base, vs, observed@),
            ids_distinct(observed@),
            j <= n,
            result_views(results@) == spec_rs.take(j as int),
            bypasses == bypass_count(spec_rs.take(j as int)),
            bypasses <= j,
        decreases n - j,
    {
        let o = observation_for(observed, variations[j].id);
        let (c, why) = judge_observation(tol, base, o);
        let ghost before = results@;
        results.push(ProbeResult { variation: variations[j].duplicate(), observation: o, classification: c, reason: why });
        proof {
            assert(spec_rs.take(j + 1).drop_last() =~= spec_rs.take(j as int));
            assert(vs[j as int] == variations@[j as int]@);
            assert(result_views(results@) =~= result_views(before).push(results@.last()@));
        }
        if c == Classification::Bypass {
            bypasses = bypasses + 1;
        }
        j = j + 1;
    }
    proof {
        assert(spec_rs.take(n as int) =~= spec_rs);
    }
    RunSummary {
        baseline: base,
        total_tested: n,
        successful_bypasses: bypasses,
        failed_attempts: n - bypasses,
        results,
    }
}

} // verus!
