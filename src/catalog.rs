use vstd::prelude::*;
use crate::request::{headers_view, query_part, base_request, Header, RequestSpec, RequestView, Target, TargetView, same_request};
use crate::technique::{catalog_order, Technique};

verus! {

/// One mutation of the target's request. Empty texts leave that part as the
/// unmodified request has it.
#[derive(Clone, Copy, Debug)]
pub struct Rule {
    /// Replacement method.
    pub method: &'static str,
    /// Put before the path.
    pub prefix: &'static str,
    /// Put after the path.
    pub suffix: &'static str,
    /// Upper-case the ASCII letters of the path.
    pub upper: bool,
    /// Percent-encode the first character of the path after its leading
    /// slash: 1 once, 2 twice, 3 three times, 4 once with upper-case hex
    /// digits; 0 leaves it.
    pub encode: u8,
    /// Name of an extra header.
    pub header_name: &'static str,
    /// Value of the extra header.
    pub header_value: &'static str,
    /// Request `/` and carry the real path in the extra header instead.
    pub routed: bool,
    /// Replacement `Host` value.
    pub host: &'static str,
    /// Replacement protocol version.
    pub version: &'static str,
    pub description: &'static str,
}

/// Upper case of an ASCII letter; any other character unchanged.
pub open spec fn upper_char(c: char) -> char {
    if 'a' <= c && c <= 'z' {
        ((c as u32 - 32) as u8) as char
    } else {
        c
    }
}

pub open spec fn upper_seq(s: Seq<char>) -> Seq<char> {
    s.map_values(|c: char| upper_char(c))
}

/// Hexadecimal digit of `d`, upper case where `upper`.
pub open spec fn hex_of(d: nat, upper: bool) -> char {
    if d < 10 {
        ((d + 48) as u8) as char
    } else if upper {
        ((d + 55) as u8) as char
    } else {
        ((d + 87) as u8) as char
    }
}

/// An ASCII character percent-encoded `level` times (4: once, upper-case
/// hex).
pub open spec fn percent_encoded(c: char, level: u8) -> Seq<char> {
    (if level == 2 { "%25"@ } else if level == 3 { "%2525"@ } else { "%"@ }) + seq![
        hex_of((c as u32 / 16) as nat, level == 4),
        hex_of((c as u32 % 16) as nat, level == 4),
    ]
}

/// `p` with its second character percent-encoded `level` times, where it is
/// ASCII; `p` itself otherwise.
pub open spec fn encoded_first(p: Seq<char>, level: u8) -> Seq<char> {
    if level == 0 || level > 4 || p.len() < 2 || (p[1] as u32) >= 0x80 {
        p
    } else {
        seq![p[0]] + percent_encoded(p[1], level) + p.skip(2)
    }
}

/// The path of the request that `r` makes of the target, before the query.
pub open spec fn rule_path(t: TargetView, r: Rule) -> Seq<char> {
    if r.routed {
        "/"@
    } else {
        r.prefix@ + (if r.upper { upper_seq(t.path) } else { encoded_first(t.path, r.encode) }) + r.suffix@
    }
}

fn hex_char(d: u32, upper: bool) -> (r: char)
    requires
        d < 16,
    ensures
        r == hex_of(d as nat, upper),
{
    if d < 10 {
        ((d + 48) as u8) as char
    } else if upper {
        ((d + 55) as u8) as char
    } else {
        ((d + 87) as u8) as char
    }
}

/// `s` with its second character percent-encoded `level` times.
pub fn encode_first(s: &String, level: u8) -> (r: String)
    ensures
        r@ == encoded_first(s@, level),
{
    let v = crate::text::chars_of(s.as_str());
    if level == 0 || level > 4 || v.len() < 2 || (v[1] as u32) >= 0x80 {
        return s.clone();
    }
    let mut out: Vec<char> = Vec::new();
    out.push(v[0]);
    out.push('%');
    if level == 2 {
        out.push('2');
        out.push('5');
    } else if level == 3 {
        out.push('2');
        out.push('5');
        out.push('2');
        out.push('5');
    }
    let code = v[1] as u32;
    out.push(hex_char(code / 16, level == 4));
    out.push(hex_char(code % 16, level == 4));
    let mut i: usize = 2;
    let ghost head = out@;
    proof {
        reveal_strlit("%");
        reveal_strlit("%25");
        reveal_strlit("%2525");
        assert(head =~= seq![v@[0]] + percent_encoded(v@[1], level));
    }
    while i < v.len()
        invariant
            2 <= i <= v@.len(),
            out@ == head + v@.subrange(2, i as int),
        decreases v@.len() - i,
    {
        out.push(v[i]);
        i = i + 1;
        assert(out@ =~= head + v@.subrange(2, i as int));
    }
    assert(v@.subrange(2, i as int) =~= v@.skip(2));
    crate::text::string_of(&out)
}

/// The headers of the request that `r` makes of the target.
pub open spec fn rule_headers(t: TargetView, r: Rule) -> Seq<(Seq<char>, Seq<char>)> {
    let host = if r.host@.len() == 0 { t.authority } else { r.host@ };
    let extra = if r.routed { t.path + query_part(t) } else { r.header_value@ };
    if r.header_name@.len() == 0 {
        seq![("Host"@, host)]
    } else {
        seq![("Host"@, host), (r.header_name@, extra)]
    }
}

/// The request that rule `r` makes of the target.
pub open spec fn apply_rule(t: TargetView, r: Rule) -> RequestView {
    RequestView {
        method: if r.method@.len() == 0 { "GET"@ } else { r.method@ },
        path: rule_path(t, r) + query_part(t),
        headers: rule_headers(t, r),
        version: if r.version@.len() == 0 { "HTTP/1.1"@ } else { r.version@ },
    }
}

/// Upper-cases the ASCII letters of `s`.
pub fn upper_ascii(s: &String) -> (r: String)
    ensures
        r@ == upper_seq(s@),
{
    let v = crate::text::chars_of(s.as_str());
    let mut out: Vec<char> = Vec::new();
    let mut i: usize = 0;
    while i < v.len()
        invariant
            v@ == s@,
            i <= v@.len(),
            out@ == upper_seq(v@.take(i as int)),
        decreases v@.len() - i,
    {
        let c = v[i];
        let u = if 'a' <= c && c <= 'z' {
            ((c as u32 - 32) as u8) as char
        } else {
            c
        };
        out.push(u);
        i = i + 1;
        assert(out@ =~= upper_seq(v@.take(i as int)));
    }
    assert(v@.take(i as int) =~= v@);
    crate::text::string_of(&out)
}

impl Rule {
    /// The request this rule makes of `t`.
    pub fn apply(&self, t: &Target) -> (r: RequestSpec)
        ensures
            r@ == apply_rule(t@, *self),
    {
        let method = if self.method.is_empty() { "GET".to_owned() } else { self.method.to_owned() };
        let mut path = if self.routed {
            "/".to_owned()
        } else {
            let mut p = self.prefix.to_owned();
            if self.upper {
                p.append(upper_ascii(&t.path).as_str());
            } else {
                p.append(encode_first(&t.path, self.encode).as_str());
            }
            p.append(self.suffix);
            p
        };
        path.append(t.query_part().as_str());
        let mut headers: Vec<Header> = Vec::new();
        if self.host.is_empty() {
            headers.push(Header::new("Host", t.authority.as_str()));
        } else {
            headers.push(Header::new("Host", self.host));
        }
        if !self.header_name.is_empty() {
            if self.routed {
                let mut v = t.path.clone();
                v.append(t.query_part().as_str());
                headers.push(Header::new(self.header_name, v.as_str()));
            } else {
                headers.push(Header::new(self.header_name, self.header_value));
            }
        }
        let version = if self.version.is_empty() {
            "HTTP/1.1".to_owned()
        } else {
            self.version.to_owned()
        };
        let r = RequestSpec { method, path, headers, version };
        assert(headers_view(r.headers@) =~= rule_headers(t@, *self));
        r
    }
}

} // verus!

verus! {

/// One variation of the target's request.
#[derive(Debug)]
pub struct Variation {
    /// Position in generation order.
    pub id: usize,
    pub technique: Technique,
    pub description: String,
    pub request: RequestSpec,
}

pub struct VariationView {
    pub id: nat,
    pub technique: Technique,
    pub description: Seq<char>,
    pub request: RequestView,
}

impl View for Variation {
    type V = VariationView;

    open spec fn view(&self) -> VariationView {
        VariationView {
            id: self.id as nat,
            technique: self.technique,
            description: self.description@,
            request: self.request@,
        }
    }
}

pub open spec fn variation_views(v: Seq<Variation>) -> Seq<VariationView> {
    v.map_values(|x: Variation| x@)
}

impl RequestSpec {
    /// A copy of this request.
    pub fn duplicate(&self) -> (r: RequestSpec)
        ensures
            r@ == self@,
    {
        let mut headers: Vec<Header> = Vec::new();
        let mut i: usize = 0;
        while i < self.headers.len()
            invariant
                i <= self.headers@.len(),
                headers_view(headers@) == headers_view(self.headers@.take(i as int)),
            decreases self.headers@.len() - i,
        {
            let h = Header { name: self.headers[i].name.clone(), value: self.headers[i].value.clone() };
            assert(h@ == self.headers@[i as int]@);
            let ghost before = headers@;
            headers.push(h);
            assert(self.headers@.take(i + 1) =~= self.headers@.take(i as int).push(self.headers@[i as int]));
            assert(headers_view(headers@) =~= headers_view(before).push(h@));
            assert(headers_view(self.headers@.take(i + 1)) =~= headers_view(self.headers@.take(i as int)).push(self.headers@[i as int]@));
            i = i + 1;
        }
        assert(self.headers@.take(i as int) =~= self.headers@);
        RequestSpec {
            method: self.method.clone(),
            path: self.path.clone(),
            headers,
            version: self.version.clone(),
        }
    }
}

impl Variation {
    /// A copy of this variation.
    pub fn duplicate(&self) -> (r: Variation)
        ensures
            r@ == self@,
    {
        Variation {
            id: self.id,
            technique: self.technique,
            description: self.description.clone(),
            request: self.request.duplicate(),
        }
    }
}

/// The variations that `rules[0..k]` make of the target, leaving out any
/// request equal to the unmodified one and any beyond the first `b`. Their
/// ids are not yet assigned.
pub open spec fn emit_upto(
    t: TargetView,
    tech: Technique,
    rules: Seq<Rule>,
    b: nat,
    k: nat,
) -> Seq<VariationView>
    decreases k,
{
    if k == 0 || k > rules.len() {
        Seq::empty()
    } else {
        let prev = emit_upto(t, tech, rules, b, (k - 1) as nat);
        let r = rules[k - 1];
        let req = apply_rule(t, r);
        if req != base_request(t) && prev.len() < b {
            prev.push(VariationView { id: 0, technique: tech, description: r.description@, request: req })
        } else {
            prev
        }
    }
}

/// The variations one technique emits for the target, at most `b` of them.
pub open spec fn emitted(t: TargetView, tech: Technique, rules: Seq<Rule>, b: nat) -> Seq<VariationView> {
    emit_upto(t, tech, rules, b, rules.len())
}

/// The rules of one technique.
pub struct TechniqueRules {
    pub technique: Technique,
    pub rules: Vec<Rule>,
}

/// The registry of techniques, in registration order, each with its rules.
pub struct BypsEngine {
    pub entries: Vec<TechniqueRules>,
}

/// Position of a technique in registration order.
pub open spec fn catalog_index(t: Technique) -> int {
    match t {
        Technique::PathBypass => 0,
        Technique::HeaderForge => 1,
        Technique::UrlEncoding => 2,
        Technique::Unicode => 3,
        Technique::ProtocolAbuse => 4,
    }
}

impl Technique {
    /// Position of this technique in registration order.
    pub fn index(&self) -> (r: usize)
        ensures
            r == catalog_index(*self),
            catalog_order()[r as int] == *self,
    {
        match self {
            Technique::PathBypass => 0,
            Technique::HeaderForge => 1,
            Technique::UrlEncoding => 2,
            Technique::Unicode => 3,
            Technique::ProtocolAbuse => 4,
        }
    }
}

impl BypsEngine {
    /// One entry per technique, in registration order.
    pub open spec fn wf(&self) -> bool {
        &&& self.entries@.len() == catalog_order().len()
        &&& forall|i: int| 0 <= i < self.entries@.len() ==> self.entries@[i].technique == catalog_order()[i]
    }

    /// The rules registered for `t`.
    pub open spec fn rules_of(&self, t: Technique) -> Seq<Rule> {
        self.entries@[catalog_index(t)].rules@
    }

    /// The variations `tech` emits for `t`, at most `b` of them.
    pub fn emit(&self, t: &Target, tech: Technique, b: usize) -> (r: Vec<Variation>)
        requires
            self.wf(),
        ensures
            variation_views(r@) == emitted(t@, tech, self.rules_of(tech), b as nat),
    {
        let rules = &self.entries[tech.index()].rules;
        let base = t.base_request();
        let mut out: Vec<Variation> = Vec::new();
        let mut k: usize = 0;
        while k < rules.len()
            invariant
                rules@ == self.rules_of(tech),
                base@ == base_request(t@),
                k <= rules@.len(),
                variation_views(out@) == emit_upto(t@, tech, rules@, b as nat, k as nat),
            decreases rules@.len() - k,
        {
            let rule = rules[k];
            let req = rule.apply(t);
            let ghost before = out@;
            if !same_request(&req, &base) && out.len() < b {
                out.push(
                    Variation { id: 0, technique: tech, description: rule.description.to_owned(), request: req },
                );
                assert(variation_views(out@) =~= variation_views(before).push(out@.last()@));
            }
            k = k + 1;
        }
        out
    }
}

} // verus!
