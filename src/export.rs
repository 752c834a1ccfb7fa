use vstd::prelude::*;
use crate::catalog::{Variation, VariationView, variation_views};
use crate::classify::{reason_text, Classification};
use crate::engine::ScanReport;
use crate::json::{json_quoted, write_quoted};
use crate::layout::{decimal_text, push_decimal};
use crate::report::push_chars;
use crate::request::{query_part, Scheme, TargetView};
use crate::run::{Observation, ProbeResult, ProbeResultView, RunSummary, result_views};
use crate::technique::technique_name;

verus! {

/// The absolute URL of a target, fragment dropped.
pub open spec fn target_url(t: TargetView) -> Seq<char> {
    (if t.scheme == Scheme::Http { "http://"@ } else { "https://"@ }) + t.authority + t.path + query_part(t)
}

/// `"key":`
pub open spec fn key(k: Seq<char>) -> Seq<char> {
    json_quoted(k) + seq![':']
}

/// One variation in a scan document.
pub open spec fn variation_json(v: VariationView) -> Seq<char> {
    seq!['{'] + key("id"@) + decimal_text(v.id) + seq![','] + key("technique"@) + json_quoted(technique_name(v.technique))
        + seq![','] + key("description"@) + json_quoted(v.description) + seq![','] + key("method"@) + json_quoted(
        v.request.method,
    ) + seq![','] + key("url"@) + json_quoted(v.request.path) + seq!['}']
}

/// Items separated by commas.
pub open spec fn variations_json(vs: Seq<VariationView>, k: nat) -> Seq<char>
    decreases k,
{
    if k == 0 || k > vs.len() {
        Seq::empty()
    } else if k == 1 {
        variation_json(vs[0])
    } else {
        variations_json(vs, (k - 1) as nat) + seq![','] + variation_json(vs[k - 1])
    }
}

/// The document of a scan: target URL, variations, and when it was made.
pub open spec fn scan_json(t: TargetView, vs: Seq<VariationView>, timestamp: Seq<char>) -> Seq<char> {
    seq!['{'] + key("url"@) + json_quoted(target_url(t)) + seq![','] + key("variations"@) + seq!['[']
        + variations_json(vs, vs.len()) + seq![']', ','] + key("timestamp"@) + json_quoted(timestamp) + seq!['}']
}

/// The status a probe result reports: the response status, or `null`.
pub open spec fn status_json(o: Observation) -> Seq<char> {
    match o {
        Observation::Answered { status, size } => decimal_text(status as nat),
        _ => "null"@,
    }
}

/// The identifying members of a probe result.
pub open spec fn result_head(r: ProbeResultView) -> Seq<char> {
    key("id"@) + decimal_text(r.variation.id) + seq![','] + key("variation"@) + json_quoted(r.variation.description)
        + seq![','] + key("technique"@) + json_quoted(technique_name(r.variation.technique)) + seq![','] + key("url"@)
        + json_quoted(r.variation.request.path)
}

/// The outcome members of a probe result.
pub open spec fn result_tail(r: ProbeResultView) -> Seq<char> {
    key("status"@) + status_json(r.observation) + seq![','] + key("bypass"@) + (if r.classification
        == Classification::Bypass {
        "true"@
    } else {
        "false"@
    }) + seq![','] + key("reason"@) + json_quoted(reason_text(r.reason))
}

/// One probe result in a run document.
pub open spec fn result_json(r: ProbeResultView) -> Seq<char> {
    seq!['{'] + result_head(r) + seq![','] + result_tail(r) + seq!['}']
}

pub open spec fn results_json(rs: Seq<ProbeResultView>, k: nat) -> Seq<char>
    decreases k,
{
    if k == 0 || k > rs.len() {
        Seq::empty()
    } else if k == 1 {
        result_json(rs[0])
    } else {
        results_json(rs, (k - 1) as nat) + seq![','] + result_json(rs[k - 1])
    }
}

/// The baseline and count members of a run document.
pub open spec fn run_head(s: RunSummary) -> Seq<char> {
    key("baseline"@) + seq!['{'] + key("status"@) + decimal_text(s.baseline.status as nat) + seq![','] + key("size"@)
        + decimal_text(s.baseline.size as nat) + seq!['}', ','] + key("summary"@) + seq!['{'] + key("total_tested"@)
        + decimal_text(s.total_tested as nat) + seq![','] + key("successful_bypasses"@) + decimal_text(
        s.successful_bypasses as nat,
    ) + seq![','] + key("failed_attempts"@) + decimal_text(s.failed_attempts as nat) + seq!['}']
}

/// The document of a run: baseline, counts, and one entry per result.
pub open spec fn run_json(s: RunSummary) -> Seq<char> {
    let rs = result_views(s.results@);
    seq!['{'] + run_head(s) + seq![','] + key("variations"@) + seq!['['] + results_json(rs, rs.len()) + seq![']', '}']
}

fn push_key(out: &mut Vec<char>, k: &str)
    ensures
        final(out)@ == old(out)@ + key(k@),
{
    let ghost start = out@;
    write_quoted(&k.to_owned(), out);
    out.push(':');
    assert(out@ =~= start + key(k@));
}

fn push_u64(n: u64, out: &mut Vec<char>)
    ensures
        final(out)@ == old(out)@ + decimal_text(n as nat),
    decreases n,
{
    if n >= 10 {
        push_u64(n / 10, out);
    }
    out.push(((n % 10 + 48) as u8) as char);
}

fn push_variation(v: &Variation, out: &mut Vec<char>)
    ensures
        final(out)@ == old(out)@ + variation_json(v@),
{
    let ghost start = out@;
    out.push('{');
    push_key(out, "id");
    push_decimal(v.id, out);
    out.push(',');
    push_key(out, "technique");
    write_quoted(&v.technique.name().to_owned(), out);
    out.push(',');
    push_key(out, "description");
    write_quoted(&v.description, out);
    out.push(',');
    push_key(out, "method");
    write_quoted(&v.request.method, out);
    out.push(',');
    push_key(out, "url");
    write_quoted(&v.request.path, out);
    out.push('}');
    assert(out@ =~= start + variation_json(v@));
}

fn push_result_head(r: &ProbeResult, out: &mut Vec<char>)
    ensures
        final(out)@ == old(out)@ + result_head(r@),
{
    let ghost start = out@;
    push_key(out, "id");
    push_decimal(r.variation.id, out);
    out.push(',');
    push_key(out, "variation");
    write_quoted(&r.variation.description, out);
    out.push(',');
    push_key(out, "technique");
    write_quoted(&r.variation.technique.name().to_owned(), out);
    out.push(',');
    push_key(out, "url");
    write_quoted(&r.variation.request.path, out);
    assert(out@ =~= start + result_head(r@));
}

fn push_result_tail(r: &ProbeResult, out: &mut Vec<char>)
    ensures
        final(out)@ == old(out)@ + result_tail(r@),
{
    let ghost start = out@;
    push_key(out, "status");
    match r.observation {
        Observation::Answered { status, size } => push_u64(status as u64, out),
        _ => push_chars(out, "null"),
    }
    out.push(',');
    push_key(out, "bypass");
    if r.classification == Classification::Bypass {
        push_chars(out, "true");
    } else {
        push_chars(out, "false");
    }
    out.push(',');
    push_key(out, "reason");
    write_quoted(&r.reason.as_str().to_owned(), out);
    assert(out@ =~= start + result_tail(r@));
}

fn push_result(r: &ProbeResult, out: &mut Vec<char>)
    ensures
        final(out)@ == old(out)@ + result_json(r@),
{
    let ghost start = out@;
    out.push('{');
    push_result_head(r, out);
    out.push(',');
    push_result_tail(r, out);
    out.push('}');
    assert(out@ =~= start + result_json(r@));
}

fn push_run_head(s: &RunSummary, out: &mut Vec<char>)
    ensures
        final(out)@ == old(out)@ + run_head(*s),
{
    let ghost start = out@;
    push_key(out, "baseline");
    out.push('{');
    push_key(out, "status");
    push_u64(s.baseline.status as u64, out);
    out.push(',');
    push_key(out, "size");
    push_u64(s.baseline.size, out);
    out.push('}');
    out.push(',');
    push_key(out, "summary");
    out.push('{');
    push_key(out, "total_tested");
    push_decimal(s.total_tested, out);
    out.push(',');
    push_key(out, "successful_bypasses");
    push_decimal(s.successful_bypasses, out);
    out.push(',');
    push_key(out, "failed_attempts");
    push_decimal(s.failed_attempts, out);
    out.push('}');
    assert(out@ =~= start + run_head(*s));
}

/// The target URL of a report as text.
fn push_target_url(rep: &ScanReport, out: &mut Vec<char>)
    ensures
        final(out)@ == old(out)@ + target_url(rep.target@),
{
    let ghost start = out@;
    match rep.target.scheme {
        Scheme::Http => push_chars(out, "http://"),
        Scheme::Https => push_chars(out, "https://"),
    }
    push_chars(out, rep.target.authority.as_str());
    push_chars(out, rep.target.path.as_str());
    push_chars(out, rep.target.query_part().as_str());
    assert(out@ =~= start + target_url(rep.target@));
}

impl ScanReport {
    /// The report as a JSON document, stamped with `timestamp`.
    pub fn to_json(&self, timestamp: &str) -> (r: String)
        ensures
            r@ == scan_json(self.target@, variation_views(self.variations@), timestamp@),
    {
        let mut out: Vec<char> = Vec::new();
        out.push('{');
        push_key(&mut out, "url");
        let mut url: Vec<char> = Vec::new();
        push_target_url(self, &mut url);
        let us = crate::text::string_of(&url);
        write_quoted(&us, &mut out);
        out.push(',');
        push_key(&mut out, "variations");
        out.push('[');
        let ghost s0 = out@;
        let ghost vs = variation_views(self.variations@);
        let mut i: usize = 0;
        while i < self.variations.len()
            invariant
                vs == variation_views(self.variations@),
                i <= self.variations@.len(),
                out@ == s0 + variations_json(vs, i as nat),
            decreases self.variations@.len() - i,
        {
            if i > 0 {
                out.push(',');
            }
            push_variation(&self.variations[i], &mut out);
            i = i + 1;
        }
        out.push(']');
        out.push(',');
        push_key(&mut out, "timestamp");
        write_quoted(&timestamp.to_owned(), &mut out);
        out.push('}');
        assert(out@ =~= scan_json(self.target@, vs, timestamp@));
        crate::text::string_of(&out)
    }
}

impl RunSummary {
    /// The run as a JSON document.
    pub fn to_json(&self) -> (r: String)
        ensures
            r@ == run_json(*self),
    {
        let mut out: Vec<char> = Vec::new();
        out.push('{');
        push_run_head(self, &mut out);
        out.push(',');
        push_key(&mut out, "variations");
        out.push('[');
        let ghost s0 = out@;
        let ghost rs = result_views(self.results@);
        let mut i: usize = 0;
        while i < self.results.len()
            invariant
                rs == result_views(self.results@),
                i <= self.results@.len(),
                out@ == s0 + results_json(rs, i as nat),
            decreases self.results@.len() - i,
        {
            if i > 0 {
                out.push(',');
            }
            push_result(&self.results[i], &mut out);
            i = i + 1;
        }
        out.push(']');
        out.push('}');
        assert(out@ =~= run_json(*self));
        crate::text::string_of(&out)
    }
}

} // verus!
