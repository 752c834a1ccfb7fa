use vstd::prelude::*;
use crate::catalog::{BypsEngine, Variation, VariationView, emitted, variation_views, emit_upto, apply_rule};
use crate::request::{Target, TargetView, base_request, same_request};
use crate::strategy::{Strategy, breadth_of, breadth_ceiling};
use crate::technique::Technique;

verus! {

/// What the selected techniques emit, concatenated in selection order, each
/// at most `b` variations.
pub open spec fn candidates(reg: BypsEngine, t: TargetView, sel: Seq<Technique>, b: nat) -> Seq<VariationView>
    decreases sel.len(),
{
    if sel.len() == 0 {
        Seq::empty()
    } else {
        candidates(reg, t, sel.drop_last(), b) + emitted(t, sel.last(), reg.rules_of(sel.last()), b)
    }
}

/// `vs` holds a variation whose request is `x`'s.
pub open spec fn has_request(vs: Seq<VariationView>, x: VariationView) -> bool {
    exists|j: int| 0 <= j < vs.len() && vs[j].request == x.request
}

/// The candidates kept in order, each request once (its first occurrence),
/// at most `cap` of them, with ids by position.
pub open spec fn dedup_cap(c: Seq<VariationView>, cap: nat) -> Seq<VariationView>
    decreases c.len(),
{
    if c.len() == 0 {
        Seq::empty()
    } else {
        let prev = dedup_cap(c.drop_last(), cap);
        let x = c.last();
        if prev.len() >= cap || has_request(prev, x) {
            prev
        } else {
            prev.push(VariationView { id: prev.len(), ..x })
        }
    }
}

/// The variations generated for target `t` by the techniques `sel` under
/// strategy `s`.
pub open spec fn generated(reg: BypsEngine, t: TargetView, sel: Seq<Technique>, s: Strategy) -> Seq<VariationView> {
    dedup_cap(candidates(reg, t, sel, breadth_of(s)), breadth_ceiling(s, sel.len()))
}

/// The first `m` variations of `vs`; all of them where `m` is 0.
pub open spec fn truncated(vs: Seq<VariationView>, m: nat) -> Seq<VariationView> {
    if m == 0 || m >= vs.len() {
        vs
    } else {
        vs.take(m as int)
    }
}

/// What dedup_cap keeps: at most `cap`, ids by position, requests distinct,
/// each from a candidate.
pub proof fn lemma_dedup_cap(c: Seq<VariationView>, cap: nat)
    ensures
        dedup_cap(c, cap).len() <= cap,
        forall|i: int| 0 <= i < dedup_cap(c, cap).len() ==> #[trigger] dedup_cap(c, cap)[i].id == i,
        forall|i: int, j: int|
            0 <= i < j < dedup_cap(c, cap).len() ==> dedup_cap(c, cap)[i].request != dedup_cap(c, cap)[j].request,
        forall|i: int| 0 <= i < dedup_cap(c, cap).len() ==> exists|j: int|
            0 <= j < c.len() && c[j].request == #[trigger] dedup_cap(c, cap)[i].request,
    decreases c.len(),
{
    if c.len() > 0 {
        lemma_dedup_cap(c.drop_last(), cap);
        let prev = dedup_cap(c.drop_last(), cap);
        let r = dedup_cap(c, cap);
        assert forall|i: int| 0 <= i < r.len() implies exists|j: int|
            0 <= j < c.len() && c[j].request == #[trigger] r[i].request by {
            if i < prev.len() {
                let j = choose|j: int| 0 <= j < c.drop_last().len() && c.drop_last()[j].request == prev[i].request;
                assert(c[j] == c.drop_last()[j]);
            } else {
                assert(c[c.len() - 1].request == r[i].request);
            }
        }
    }
}

/// Every emitted variation differs from the unmodified request.
pub proof fn lemma_emit_not_base(t: TargetView, tech: Technique, rules: Seq<crate::catalog::Rule>, b: nat, k: nat)
    ensures
        forall|i: int| 0 <= i < emit_upto(t, tech, rules, b, k).len() ==>
            #[trigger] emit_upto(t, tech, rules, b, k)[i].request != base_request(t),
        emit_upto(t, tech, rules, b, k).len() <= b,
    decreases k,
{
    if k > 0 && k <= rules.len() {
        lemma_emit_not_base(t, tech, rules, b, (k - 1) as nat);
    }
}

/// Every candidate differs from the unmodified request.
pub proof fn lemma_candidates_not_base(reg: BypsEngine, t: TargetView, sel: Seq<Technique>, b: nat)
    ensures
        forall|i: int| 0 <= i < candidates(reg, t, sel, b).len() ==>
            #[trigger] candidates(reg, t, sel, b)[i].request != base_request(t),
    decreases sel.len(),
{
    if sel.len() > 0 {
        lemma_candidates_not_base(reg, t, sel.drop_last(), b);
        let e = emitted(t, sel.last(), reg.rules_of(sel.last()), b);
        lemma_emit_not_base(t, sel.last(), reg.rules_of(sel.last()), b, reg.rules_of(sel.last()).len());
        let p = candidates(reg, t, sel.drop_last(), b);
        assert forall|i: int| 0 <= i < candidates(reg, t, sel, b).len() implies
            #[trigger] candidates(reg, t, sel, b)[i].request != base_request(t) by {
            if i >= p.len() {
                assert(candidates(reg, t, sel, b)[i] == e[i - p.len()]);
            }
        }
    }
}

/// A run never yields more variations than the strategy's ceiling for the
/// number of techniques selected.
pub proof fn lemma_generated_within_ceiling(reg: BypsEngine, t: TargetView, sel: Seq<Technique>, s: Strategy)
    ensures
        generated(reg, t, sel, s).len() <= breadth_ceiling(s, sel.len()),
{
    lemma_dedup_cap(candidates(reg, t, sel, breadth_of(s)), breadth_ceiling(s, sel.len()));
}

/// No generated variation requests exactly what the unmodified target
/// would.
pub proof fn lemma_generated_never_base(reg: BypsEngine, t: TargetView, sel: Seq<Technique>, s: Strategy)
    ensures
        forall|i: int| 0 <= i < generated(reg, t, sel, s).len() ==>
            #[trigger] generated(reg, t, sel, s)[i].request != base_request(t),
{
    let c = candidates(reg, t, sel, breadth_of(s));
    lemma_candidates_not_base(reg, t, sel, breadth_of(s));
    lemma_dedup_cap(c, breadth_ceiling(s, sel.len()));
    let g = generated(reg, t, sel, s);
    assert forall|i: int| 0 <= i < g.len() implies #[trigger] g[i].request != base_request(t) by {
        let j = choose|j: int| 0 <= j < c.len() && c[j].request == g[i].request;
        assert(c[j].request != base_request(t));
    }
}

/// Generated variations carry their position as id, and no two of them
/// request the same thing.
pub proof fn lemma_generated_ids_and_distinct(reg: BypsEngine, t: TargetView, sel: Seq<Technique>, s: Strategy)
    ensures
        forall|i: int| 0 <= i < generated(reg, t, sel, s).len() ==> #[trigger] generated(reg, t, sel, s)[i].id == i,
        forall|i: int, j: int| 0 <= i < j < generated(reg, t, sel, s).len() ==>
            generated(reg, t, sel, s)[i].request != generated(reg, t, sel, s)[j].request,
{
    lemma_dedup_cap(candidates(reg, t, sel, breadth_of(s)), breadth_ceiling(s, sel.len()));
}

/// Two generations from the same registry, target, selection and strategy
/// yield the same variations in the same order.
pub proof fn lemma_generation_deterministic(
    reg: BypsEngine,
    t: TargetView,
    sel: Seq<Technique>,
    s: Strategy,
    first: Seq<Variation>,
    second: Seq<Variation>,
)
    requires
        variation_views(first) == generated(reg, t, sel, s),
        variation_views(second) == generated(reg, t, sel, s),
    ensures
        variation_views(first) == variation_views(second),
        first.len() == second.len(),
        forall|i: int| 0 <= i < first.len() ==> #[trigger] first[i]@ == second[i]@,
{
    assert(variation_views(first).len() == first.len());
    assert(variation_views(second).len() == second.len());
    assert forall|i: int| 0 <= i < first.len() implies #[trigger] first[i]@ == second[i]@ by {
        assert(variation_views(first)[i] == first[i]@);
        assert(variation_views(second)[i] == second[i]@);
    }
}

/// Limiting a run to its first `m` tests keeps exactly the first `m` of the
/// variations an unlimited run would test.
pub proof fn lemma_truncation_prefix(vs: Seq<VariationView>, m: nat)
    requires
        m > 0,
    ensures
        truncated(vs, m) == truncated(vs, 0).take(if m < vs.len() { m as int } else { vs.len() as int }),
{
    assert(vs.take(vs.len() as int) =~= vs);
}

impl BypsEngine {
    /// The variations generated for target `t` by the techniques `sel`
    /// under strategy `s`.
    pub fn generate(&self, t: &Target, sel: &Vec<Technique>, s: Strategy) -> (r: Vec<Variation>)
        requires
            self.wf(),
        ensures
            variation_views(r@) == generated(*self, t@, sel@, s),
    {
        let b = s.breadth();
        let mut all: Vec<Variation> = Vec::new();
        let mut i: usize = 0;
        while i < sel.len()
            invariant
                self.wf(),
                b == breadth_of(s),
                i <= sel@.len(),
                variation_views(all@) == candidates(*self, t@, sel@.take(i as int), b as nat),
            decreases sel@.len() - i,
        {
            let mut e = self.emit(t, sel[i], b);
            let ghost before = all@;
            let ghost ev = e@;
            all.append(&mut e);
            proof {
                assert(sel@.take(i + 1).drop_last() =~= sel@.take(i as int));
                assert(sel@.take(i + 1).last() == sel@[i as int]);
                assert(variation_views(all@) =~= variation_views(before) + variation_views(ev));
            }
            i = i + 1;
        }
        assert(sel@.take(i as int) =~= sel@);
        let bw: u128 = b as u128;
        let n: u128 = sel.len() as u128;
        assert(bw * n <= 32 * 0xffff_ffff_ffff_ffffu128) by (nonlinear_arith)
            requires
                bw <= 32,
                n <= 0xffff_ffff_ffff_ffffu128,
        ;
        let cap: u128 = bw * n;
        let mut out: Vec<Variation> = Vec::new();
        let mut k: usize = 0;
        while k < all.len()
            invariant
                cap == breadth_ceiling(s, sel@.len()),
                k <= all@.len(),
                variation_views(out@) == dedup_cap(variation_views(all@).take(k as int), cap as nat),
            decreases all@.len() - k,
        {
            let ghost c = variation_views(all@).take(k + 1);
            proof {
                assert(c.drop_last() =~= variation_views(all@).take(k as int));
                assert(c.last() == all@[k as int]@);
            }
            if (out.len() as u128) < cap {
                let mut seen = false;
                let mut j: usize = 0;
                while j < out.len()
                    invariant
                        j <= out@.len(),
                        k < all@.len(),
                        seen == exists|m: int| 0 <= m < j && out@[m]@.request == all@[k as int]@.request,
                    decreases out@.len() - j,
                {
                    if same_request(&out[j].request, &all[k].request) {
                        seen = true;
                    }
                    j = j + 1;
                }
                proof {
                    let vo = variation_views(out@);
                    if seen {
                        let m = choose|m: int| 0 <= m < j && out@[m]@.request == all@[k as int]@.request;
                        assert(vo[m].request == c.last().request);
                    } else {
                        assert forall|m: int| 0 <= m < vo.len() implies vo[m].request != c.last().request by {
                            assert(vo[m] == out@[m]@);
                        }
                    }
                    assert(seen == has_request(vo, c.last()));
                }
                if !seen {
                    let ghost before = out@;
                    let mut v = all[k].duplicate();
                    v.id = out.len();
                    out.push(v);
                    assert(variation_views(out@) =~= variation_views(before).push(
                        VariationView { id: before.len() as nat, ..c.last() },
                    ));
                }
            }
            k = k + 1;
        }
        assert(variation_views(all@).take(k as int) =~= variation_views(all@));
        out
    }
}

} // verus!
