use vstd::prelude::*;
use crate::catalog::{apply_rule, emit_upto, emitted, BypsEngine, Variation, VariationView, variation_views};
use crate::classify::{is_allowed, is_denial, Classification, Reason};
use crate::generator::{candidates, dedup_cap, has_request};
use crate::request::{base_request, query_part};
use crate::run::{lemma_observed_at_unique, ProbeResultView};
use crate::strategy::{breadth_ceiling, breadth_of};
use crate::table::{affix_spec, catalog_rules, path_table};
use crate::classify::Tolerance;
use crate::error::BypsError;
use crate::generator::{generated, truncated};
use crate::request::{Target, TargetView, parse_url};
use crate::run::{Baseline, Observation, RunSummary, ids_distinct, results_of, result_views, bypass_count, summarize};
use crate::strategy::{Strategy, strategy_name};
use crate::technique::{Technique, parse_selection, selection_ok, selection_of, split_commas, technique_name, is_technique_name, first_unknown_at};

verus! {

/// The engine's release.
pub const VERSION: &'static str = "0.1.0";

/// Generates variations of a target's request and judges probe results.
pub struct Engine {
    pub registry: BypsEngine,
    pub tolerance: Tolerance,
}

/// The variations generated for one target.
#[derive(Debug)]
pub struct ScanReport {
    pub target: Target,
    pub strategy: Strategy,
    pub variations: Vec<Variation>,
}

/// The strategy called `name`, if any.
pub open spec fn strategy_named(name: Seq<char>) -> Option<Strategy> {
    if exists|s: Strategy| strategy_name(s) == name {
        Some(choose|s: Strategy| strategy_name(s) == name)
    } else {
        None
    }
}

pub proof fn lemma_strategy_named(s: Strategy)
    ensures
        strategy_named(strategy_name(s)) == Some(s),
{
    let c = choose|c: Strategy| strategy_name(c) == strategy_name(s);
    reveal_strlit("fast");
    reveal_strlit("balanced");
    reveal_strlit("thorough");
    reveal_strlit("stealth");
    assert(strategy_name(c)[0] == strategy_name(s)[0]);
    assert(c == s);
}

/// How a scan over `url`, `techniques` and `strategy` ends: the variations
/// it yields, or the first input found invalid (the URL, then the
/// techniques, then the strategy).
pub open spec fn scan_ok(url: Seq<char>, techniques: Seq<char>, strategy: Seq<char>) -> bool {
    parse_url(url) is Some && selection_ok(techniques) && strategy_named(strategy) is Some
}

impl Engine {
    pub open spec fn wf(&self) -> bool {
        self.registry.wf()
    }

    /// An engine with the built-in registry and the default tolerance.
    pub fn new() -> (r: Engine)
        ensures
            r.wf(),
            forall|t: Technique| #[trigger] r.registry.rules_of(t) == crate::table::catalog_rules(t),
            r.tolerance == (Tolerance { absolute: crate::classify::DEFAULT_TOLERANCE_BYTES, percent: crate::classify::DEFAULT_TOLERANCE_PERCENT }),
    {
        Engine { registry: BypsEngine::standard(), tolerance: Tolerance::standard() }
    }

    /// The engine's release.
    pub fn version() -> (r: &'static str)
        ensures
            r == VERSION,
    {
        VERSION
    }

    /// Resolves a strategy name.
    fn strategy(name: &str) -> (r: Result<Strategy, BypsError>)
        ensures
            r matches Ok(s) ==> strategy_named(name@) == Some(s),
            r is Err ==> strategy_named(name@) is None,
            r matches Err(e) ==> (e matches BypsError::UnknownStrategy(n) && n@ == name@),
    {
        match Strategy::from_name(name) {
            Some(s) => {
                proof {
                    lemma_strategy_named(s);
                }
                Ok(s)
            },
            None => Err(BypsError::UnknownStrategy(name.to_owned())),
        }
    }

    /// The variations for `url` from the techniques selected by
    /// `techniques` (`all`, or names separated by commas) under the strategy
    /// called `strategy`.
    pub fn scan(&self, url: &str, techniques: &str, strategy: &str) -> (r: Result<ScanReport, BypsError>)
        requires
            self.wf(),
        ensures
            r is Ok <==> scan_ok(url@, techniques@, strategy@),
            r matches Ok(rep) ==> {
                &&& Some(rep.target@) == parse_url(url@)
                &&& Some(rep.strategy) == strategy_named(strategy@)
                &&& variation_views(rep.variations@) == generated(self.registry, rep.target@, selection_of(techniques@), rep.strategy)
            },
            parse_url(url@) is None ==> (r matches Err(BypsError::InvalidUrl(u)) && u@ == url@),
            parse_url(url@) is Some && !selection_ok(techniques@) ==> (r matches Err(e) && (e is UnknownTechnique || e is EmptyTechniqueSet)),
            parse_url(url@) is Some ==> (r matches Err(BypsError::UnknownTechnique(n)) ==> exists|i: int|
                first_unknown_at(split_commas(techniques@), i) && split_commas(techniques@)[i] == n@),
            parse_url(url@) is Some ==> (r matches Err(BypsError::EmptyTechniqueSet) ==> forall|i: int|
                0 <= i < split_commas(techniques@).len() ==> split_commas(techniques@)[i].len() == 0),
            parse_url(url@) is Some && selection_ok(techniques@) && strategy_named(strategy@) is None ==>
                (r matches Err(BypsError::UnknownStrategy(n)) && n@ == strategy@),
    {
        let target = Target::parse(url)?;
        let sel = parse_selection(techniques)?;
        let s = Engine::strategy(strategy)?;
        let variations = self.registry.generate(&target, &sel, s);
        Ok(ScanReport { target, strategy: s, variations })
    }

    /// The variations one technique, named `technique`, yields for `url`
    /// under the balanced strategy.
    pub fn test_technique(&self, url: &str, technique: &str) -> (r: Result<ScanReport, BypsError>)
        requires
            self.wf(),
        ensures
            r is Ok <==> parse_url(url@) is Some && is_technique_name(technique@),
            r matches Ok(rep) ==> {
                &&& Some(rep.target@) == parse_url(url@)
                &&& rep.strategy == Strategy::Balanced
                &&& exists|t: Technique| technique_name(t) == technique@ && variation_views(rep.variations@)
                    == generated(self.registry, rep.target@, seq![t], Strategy::Balanced)
            },
            parse_url(url@) is None ==> (r matches Err(BypsError::InvalidUrl(u)) && u@ == url@),
            parse_url(url@) is Some && !is_technique_name(technique@) ==>
                (r matches Err(BypsError::UnknownTechnique(n)) && n@ == technique@),
    {
        let target = Target::parse(url)?;
        let t = match Technique::from_name(technique) {
            Some(t) => t,
            None => {
                return Err(BypsError::UnknownTechnique(technique.to_owned()));
            },
        };
        let sel = vec![t];
        assert(sel@ =~= seq![t]);
        let variations = self.registry.generate(&target, &sel, Strategy::Balanced);
        Ok(ScanReport { target, strategy: Strategy::Balanced, variations })
    }

    /// The variations a run over `url` tests: those of `scan`, cut to the
    /// first `max_tests` (all of them where `max_tests` is 0).
    pub fn plan(&self, url: &str, techniques: &str, strategy: &str, max_tests: usize) -> (r: Result<ScanReport, BypsError>)
        requires
            self.wf(),
        ensures
            r is Ok <==> scan_ok(url@, techniques@, strategy@),
            r matches Ok(rep) ==> {
                &&& Some(rep.target@) == parse_url(url@)
                &&& Some(rep.strategy) == strategy_named(strategy@)
                &&& variation_views(rep.variations@) == truncated(
                    generated(self.registry, rep.target@, selection_of(techniques@), rep.strategy),
                    max_tests as nat,
                )
            },
            parse_url(url@) is None ==> (r matches Err(BypsError::InvalidUrl(u)) && u@ == url@),
            parse_url(url@) is Some && !selection_ok(techniques@) ==> (r matches Err(e) && (e is UnknownTechnique || e is EmptyTechniqueSet)),
            parse_url(url@) is Some ==> (r matches Err(BypsError::UnknownTechnique(n)) ==> exists|i: int|
                first_unknown_at(split_commas(techniques@), i) && split_commas(techniques@)[i] == n@),
            parse_url(url@) is Some ==> (r matches Err(BypsError::EmptyTechniqueSet) ==> forall|i: int|
                0 <= i < split_commas(techniques@).len() ==> split_commas(techniques@)[i].len() == 0),
            parse_url(url@) is Some && selection_ok(techniques@) && strategy_named(strategy@) is None ==>
                (r matches Err(BypsError::UnknownStrategy(n)) && n@ == strategy@),
    {
        let mut rep = self.scan(url, techniques, strategy)?;
        if max_tests > 0 && max_tests < rep.variations.len() {
            let ghost before = rep.variations@;
            rep.variations.truncate(max_tests);
            assert(variation_views(rep.variations@) =~= variation_views(before).take(max_tests as int));
        }
        Ok(rep)
    }

    /// The summary of a run over the variations of `report`: `baseline` is
    /// the response to the unmodified target or why none came, `observed`
    /// what each probe gave, by variation id, in any order.
    pub fn test_variations(
        &self,
        report: &ScanReport,
        baseline: Result<Baseline, String>,
        observed: &Vec<(usize, Observation)>,
    ) -> (r: Result<RunSummary, BypsError>)
        requires
            ids_distinct(observed@),
        ensures
            baseline is Err ==> (r matches Err(BypsError::BaselineUnreachable(m)) && m == baseline->Err_0),
            baseline matches Ok(b) ==> (r matches Ok(sum) && {
                &&& sum.baseline == b
                &&& result_views(sum.results@) == results_of(self.tolerance, b, variation_views(report.variations@), observed@)
                &&& sum.total_tested == report.variations@.len()
                &&& sum.successful_bypasses == bypass_count(result_views(sum.results@))
                &&& sum.total_tested == sum.successful_bypasses + sum.failed_attempts
            }),
    {
        match baseline {
            Err(m) => Err(BypsError::BaselineUnreachable(m)),
            Ok(b) => Ok(summarize(&self.tolerance, b, &report.variations, observed)),
        }
    }
}

} // verus!

verus! {

/// The first `k` rules of a technique emit a prefix of what more rules emit.
proof fn lemma_emit_prefix(t: TargetView, tech: Technique, rules: Seq<crate::catalog::Rule>, b: nat, k: nat)
    requires
        1 <= k <= rules.len(),
        emit_upto(t, tech, rules, b, 1).len() == 1,
    ensures
        emit_upto(t, tech, rules, b, k).len() >= 1,
        emit_upto(t, tech, rules, b, k)[0] == emit_upto(t, tech, rules, b, 1)[0],
    decreases k,
{
    if k > 1 {
        lemma_emit_prefix(t, tech, rules, b, (k - 1) as nat);
    }
}

/// The first candidate is always kept, as variation 0.
proof fn lemma_dedup_first(c: Seq<VariationView>, cap: nat)
    requires
        c.len() >= 1,
        cap >= 1,
    ensures
        dedup_cap(c, cap).len() >= 1,
        dedup_cap(c, cap)[0] == (VariationView { id: 0, ..c[0] }),
    decreases c.len(),
{
    if c.len() > 1 {
        lemma_dedup_first(c.drop_last(), cap);
        assert(c.drop_last()[0] == c[0]);
    } else {
        assert(c.drop_last().len() == 0);
        assert(dedup_cap(c.drop_last(), cap).len() == 0);
        assert(!has_request(dedup_cap(c.drop_last(), cap), c.last()));
        assert(c.last() == c[0]);
    }
}

/// A bypass among the results is counted.
proof fn lemma_bypass_counted(rs: Seq<ProbeResultView>, i: int)
    requires
        0 <= i < rs.len(),
        rs[i].classification == Classification::Bypass,
    ensures
        bypass_count(rs) >= 1,
    decreases rs.len(),
{
    if i < rs.len() - 1 {
        lemma_bypass_counted(rs.drop_last(), i);
    }
}

/// The variations a run of path_bypass alone tests.
pub open spec fn path_bypass_run(e: Engine, t: TargetView, s: Strategy, max_tests: nat) -> Seq<VariationView> {
    truncated(generated(e.registry, t, seq![Technique::PathBypass], s), max_tests)
}

/// With the built-in registry, a path_bypass run first tries the target's
/// path with a trailing slash. Where the baseline was denied and that
/// request is allowed, the run reports it as a status-change bypass.
pub proof fn lemma_trailing_slash_bypass(
    e: Engine,
    t: TargetView,
    s: Strategy,
    max_tests: nat,
    base: Baseline,
    outs: Seq<(usize, Observation)>,
    j: int,
    status: u16,
    size: u64,
)
    requires
        forall|tech: Technique| #[trigger] e.registry.rules_of(tech) == catalog_rules(tech),
        is_denial(base.status),
        is_allowed(status),
        ids_distinct(outs),
        0 <= j < outs.len(),
        outs[j] == (0usize, Observation::Answered { status, size }),
    ensures
        path_bypass_run(e, t, s, max_tests).len() >= 1,
        path_bypass_run(e, t, s, max_tests)[0].technique == Technique::PathBypass,
        path_bypass_run(e, t, s, max_tests)[0].request.path == t.path + "/"@ + query_part(t),
        results_of(e.tolerance, base, path_bypass_run(e, t, s, max_tests), outs)[0].classification
            == Classification::Bypass,
        results_of(e.tolerance, base, path_bypass_run(e, t, s, max_tests), outs)[0].reason == Reason::StatusChange,
        bypass_count(results_of(e.tolerance, base, path_bypass_run(e, t, s, max_tests), outs)) >= 1,
{
    let rules = e.registry.rules_of(Technique::PathBypass);
    assert(rules == path_table());
    let r0 = rules[0];
    assert(r0 == affix_spec("", "/", "trailing slash"));
    reveal_strlit("/");
    reveal_strlit("");
    let req = apply_rule(t, r0);
    assert(req.path == t.path + "/"@ + query_part(t)) by {
        assert(""@ =~= Seq::<char>::empty());
        assert(r0.prefix@ + t.path + r0.suffix@ + query_part(t) =~= t.path + "/"@ + query_part(t));
    }
    assert(req != base_request(t)) by {
        assert(req.path.len() == base_request(t).path.len() + 1);
    }
    let b = breadth_of(s);
    assert(emit_upto(t, Technique::PathBypass, rules, b, 1).len() == 1) by {
        assert(emit_upto(t, Technique::PathBypass, rules, b, 0).len() == 0);
    }
    lemma_emit_prefix(t, Technique::PathBypass, rules, b, rules.len());
    let sel = seq![Technique::PathBypass];
    assert(sel.drop_last() =~= Seq::<Technique>::empty());
    let c = candidates(e.registry, t, sel, b);
    assert(sel.last() == Technique::PathBypass);
    assert(candidates(e.registry, t, sel.drop_last(), b) == Seq::<VariationView>::empty());
    assert(c =~= emitted(t, Technique::PathBypass, rules, b));
    assert(breadth_of(s) >= 8);
    assert(sel.len() == 1);
    assert(breadth_of(s) * 1 >= 1) by (nonlinear_arith)
        requires
            breadth_of(s) >= 8,
    ;
    assert(breadth_ceiling(s, sel.len()) >= 1);
    lemma_dedup_first(c, breadth_ceiling(s, sel.len()));
    let g = generated(e.registry, t, sel, s);
    let vs = path_bypass_run(e, t, s, max_tests);
    assert(vs[0] == g[0]);
    lemma_observed_at_unique(outs, j);
    let rs = results_of(e.tolerance, base, vs, outs);
    assert(rs[0].classification == Classification::Bypass);
    lemma_bypass_counted(rs, 0);
}

} // verus!
