use vstd::prelude::*;
use crate::request::Header;
use crate::text::{chars_of, contains_chars, contains_seq, same_chars};

verus! {

/// One piece of evidence a WAF leaves.
#[derive(Clone, Copy, Debug)]
pub enum Signal {
    /// A response header of this (lower-case) name.
    HeaderPresent(&'static str),
    /// A response header of this (lower-case) name whose value holds the text.
    HeaderContains(&'static str, &'static str),
    /// A response body that holds the text.
    BodyContains(&'static str),
}

/// A vendor and all the signals that identify it.
#[derive(Clone, Debug)]
pub struct WafSignature {
    pub vendor: &'static str,
    pub signals: Vec<Signal>,
}

/// What the probes of the target gathered: response headers and bodies.
#[derive(Clone, Debug)]
pub struct Evidence {
    pub headers: Vec<Header>,
    pub bodies: Vec<String>,
}

/// The vendor recognised, and the signals that matched.
#[derive(Clone, Debug)]
pub struct WafFingerprint {
    pub vendor_name: String,
    pub version_hint: Option<String>,
    pub matched_signals: Vec<String>,
}

/// Lower case of an ASCII letter; any other character unchanged.
pub open spec fn lower_char(c: char) -> char {
    if 'A' <= c && c <= 'Z' {
        ((c as u32 + 32) as u8) as char
    } else {
        c
    }
}

pub open spec fn lower_seq(s: Seq<char>) -> Seq<char> {
    s.map_values(|c: char| lower_char(c))
}

/// Some header is named `name`, letter case aside, and its value holds
/// `needle`.
pub open spec fn header_holds(hs: Seq<Header>, name: Seq<char>, needle: Seq<char>) -> bool {
    exists|i: int| 0 <= i < hs.len() && lower_seq(hs[i].name@) == name && contains_seq(hs[i].value@, needle)
}

pub open spec fn signal_holds(ev: Evidence, s: Signal) -> bool {
    match s {
        Signal::HeaderPresent(n) => header_holds(ev.headers@, n@, Seq::empty()),
        Signal::HeaderContains(n, t) => header_holds(ev.headers@, n@, t@),
        Signal::BodyContains(t) => exists|i: int| 0 <= i < ev.bodies@.len() && contains_seq(ev.bodies@[i]@, t@),
    }
}

/// Every signal of `sig` is in the evidence, and it has at least one.
pub open spec fn vendor_matches(ev: Evidence, sig: WafSignature) -> bool {
    sig.signals@.len() > 0 && forall|k: int| 0 <= k < sig.signals@.len() ==> signal_holds(ev, #[trigger] sig.signals@[k])
}

/// Lower-cases the ASCII letters of `s`.
pub fn lower_ascii(s: &str) -> (r: Vec<char>)
    ensures
        r@ == lower_seq(s@),
{
    let v = chars_of(s);
    let mut out: Vec<char> = Vec::new();
    let mut i: usize = 0;
    while i < v.len()
        invariant
            v@ == s@,
            i <= v@.len(),
            out@ == lower_seq(v@.take(i as int)),
        decreases v@.len() - i,
    {
        let c = v[i];
        let l = if 'A' <= c && c <= 'Z' {
            ((c as u32 + 32) as u8) as char
        } else {
            c
        };
        out.push(l);
        i = i + 1;
        assert(out@ =~= lower_seq(v@.take(i as int)));
    }
    assert(v@.take(i as int) =~= v@);
    out
}

fn header_check(hs: &Vec<Header>, name: &str, needle: &str) -> (r: bool)
    ensures
        r == header_holds(hs@, name@, needle@),
{
    let n = chars_of(name);
    let t = chars_of(needle);
    let mut i: usize = 0;
    while i < hs.len()
        invariant
            n@ == name@,
            t@ == needle@,
            i <= hs@.len(),
            forall|j: int| 0 <= j < i ==> !(lower_seq(hs@[j].name@) == name@ && contains_seq(hs@[j].value@, needle@)),
        decreases hs@.len() - i,
    {
        if same_chars(&lower_ascii(hs[i].name.as_str()), &n) && contains_chars(&chars_of(hs[i].value.as_str()), &t) {
            return true;
        }
        i = i + 1;
    }
    false
}

/// Whether signal `s` is in the evidence.
pub fn check_signal(ev: &Evidence, s: Signal) -> (r: bool)
    ensures
        r == signal_holds(*ev, s),
{
    match s {
        Signal::HeaderPresent(n) => {
            let r = header_check(&ev.headers, n, "");
            proof {
                reveal_strlit("");
                assert(""@ =~= Seq::<char>::empty());
            }
            r
        },
        Signal::HeaderContains(n, t) => header_check(&ev.headers, n, t),
        Signal::BodyContains(t) => {
            let needle = chars_of(t);
            let mut i: usize = 0;
            while i < ev.bodies.len()
                invariant
                    needle@ == t@,
                    s == Signal::BodyContains(t),
                    i <= ev.bodies@.len(),
                    forall|j: int| 0 <= j < i ==> !contains_seq(ev.bodies@[j]@, t@),
                decreases ev.bodies@.len() - i,
            {
                let hay = chars_of(ev.bodies[i].as_str());
                assert(hay@ == ev.bodies@[i as int]@);
                if contains_chars(&hay, &needle) {
                    assert(contains_seq(ev.bodies@[i as int]@, t@));
                    return true;
                }
                i = i + 1;
            }
            false
        },
    }
}

/// Whether every signal of `sig` is in the evidence.
pub fn check_vendor(ev: &Evidence, sig: &WafSignature) -> (r: bool)
    ensures
        r == vendor_matches(*ev, *sig),
{
    if sig.signals.len() == 0 {
        return false;
    }
    let mut k: usize = 0;
    while k < sig.signals.len()
        invariant
            k <= sig.signals@.len(),
            forall|j: int| 0 <= j < k ==> signal_holds(*ev, #[trigger] sig.signals@[j]),
        decreases sig.signals@.len() - k,
    {
        if !check_signal(ev, sig.signals[k]) {
            return false;
        }
        k = k + 1;
    }
    true
}

/// How a report names a signal.
pub open spec fn signal_name(s: Signal) -> Seq<char> {
    match s {
        Signal::HeaderPresent(n) => n@,
        Signal::HeaderContains(n, t) => n@ + ": "@ + t@,
        Signal::BodyContains(t) => t@,
    }
}

/// The text of a signal as reports name it.
pub fn signal_text(s: Signal) -> (r: String)
    ensures
        r@ == signal_name(s),
{
    match s {
        Signal::HeaderPresent(n) => n.to_owned(),
        Signal::HeaderContains(n, t) => {
            let mut r = n.to_owned();
            r.append(": ");
            r.append(t);
            r
        },
        Signal::BodyContains(t) => t.to_owned(),
    }
}

/// Position of the first signature of `table` whose signals are all in the
/// evidence, if any.
pub fn first_match(table: &Vec<WafSignature>, ev: &Evidence) -> (r: Option<usize>)
    ensures
        r matches Some(i) ==> i < table@.len() && vendor_matches(*ev, table@[i as int]) && forall|j: int|
            0 <= j < i ==> !vendor_matches(*ev, #[trigger] table@[j]),
        r is None ==> forall|j: int| 0 <= j < table@.len() ==> !vendor_matches(*ev, #[trigger] table@[j]),
{
    let mut i: usize = 0;
    while i < table.len()
        invariant
            i <= table@.len(),
            forall|j: int| 0 <= j < i ==> !vendor_matches(*ev, #[trigger] table@[j]),
        decreases table@.len() - i,
    {
        if check_vendor(ev, &table[i]) {
            return Some(i);
        }
        i = i + 1;
    }
    None
}

/// The fingerprint of the first vendor of `table` whose signals are all in
/// the evidence; `None` where no vendor's are.
pub fn detect(table: &Vec<WafSignature>, ev: &Evidence) -> (r: Option<WafFingerprint>)
    ensures
        r is None <==> forall|j: int| 0 <= j < table@.len() ==> !vendor_matches(*ev, #[trigger] table@[j]),
        r matches Some(f) ==> exists|i: int|
            0 <= i < table@.len() && vendor_matches(*ev, table@[i]) && f.vendor_name@ == table@[i].vendor@
                && f.matched_signals@.len() == table@[i].signals@.len()
                && (forall|k: int| 0 <= k < f.matched_signals@.len() ==> #[trigger] f.matched_signals@[k]@ == signal_name(
                table@[i].signals@[k],
            )) && f.version_hint is None
                && forall|j: int| 0 <= j < i ==> !vendor_matches(*ev, #[trigger] table@[j]),
{
    match first_match(table, ev) {
        None => None,
        Some(i) => {
            let sig = &table[i];
            let mut matched: Vec<String> = Vec::new();
            let mut k: usize = 0;
            while k < sig.signals.len()
                invariant
                    k <= sig.signals@.len(),
                    matched@.len() == k,
                    forall|m: int| 0 <= m < k ==> #[trigger] matched@[m]@ == signal_name(sig.signals@[m]),
                decreases sig.signals@.len() - k,
            {
                matched.push(signal_text(sig.signals[k]));
                k = k + 1;
            }
            Some(WafFingerprint { vendor_name: sig.vendor.to_owned(), version_hint: None, matched_signals: matched })
        },
    }
}

/// Vendors of the built-in signature table, in matching order.
pub open spec fn signature_vendors() -> Seq<&'static str> {
    seq!["Cloudflare", "AWS WAF", "Akamai", "Imperva Incapsula", "Sucuri", "F5 BIG-IP ASM", "ModSecurity", "Barracuda", "Wordfence"]
}

/// The signals of each vendor of the built-in table, all of which must be
/// present.
pub open spec fn signature_signals() -> Seq<Seq<Signal>> {
    seq![
        seq![Signal::HeaderPresent("cf-ray"), Signal::HeaderContains("server", "cloudflare")],
        seq![Signal::HeaderPresent("x-amzn-requestid"), Signal::BodyContains("Request blocked")],
        seq![Signal::HeaderContains("server", "AkamaiGHost")],
        seq![Signal::HeaderPresent("x-iinfo")],
        seq![Signal::HeaderPresent("x-sucuri-id")],
        seq![Signal::BodyContains("The requested URL was rejected")],
        seq![Signal::BodyContains("Mod_Security")],
        seq![Signal::HeaderContains("set-cookie", "barra_counter_session")],
        seq![Signal::BodyContains("Generated by Wordfence")],
    ]
}

/// The built-in signature table.
pub fn signatures() -> (r: Vec<WafSignature>)
    ensures
        r@.len() == signature_vendors().len(),
        forall|i: int| 0 <= i < r@.len() ==> #[trigger] r@[i].vendor == signature_vendors()[i]
            && r@[i].signals@ == signature_signals()[i],
{
    let mut r: Vec<WafSignature> = Vec::new();
    let signals = vec![Signal::HeaderPresent("cf-ray"), Signal::HeaderContains("server", "cloudflare")];
    assert(signals@ =~= signature_signals()[0]);
    r.push(WafSignature { vendor: "Cloudflare", signals });
    let signals = vec![Signal::HeaderPresent("x-amzn-requestid"), Signal::BodyContains("Request blocked")];
    assert(signals@ =~= signature_signals()[1]);
    r.push(WafSignature { vendor: "AWS WAF", signals });
    let signals = vec![Signal::HeaderContains("server", "AkamaiGHost")];
    assert(signals@ =~= signature_signals()[2]);
    r.push(WafSignature { vendor: "Akamai", signals });
    let signals = vec![Signal::HeaderPresent("x-iinfo")];
    assert(signals@ =~= signature_signals()[3]);
    r.push(WafSignature { vendor: "Imperva Incapsula", signals });
    let signals = vec![Signal::HeaderPresent("x-sucuri-id")];
    assert(signals@ =~= signature_signals()[4]);
    r.push(WafSignature { vendor: "Sucuri", signals });
    let signals = vec![Signal::BodyContains("The requested URL was rejected")];
    assert(signals@ =~= signature_signals()[5]);
    r.push(WafSignature { vendor: "F5 BIG-IP ASM", signals });
    let signals = vec![Signal::BodyContains("Mod_Security")];
    assert(signals@ =~= signature_signals()[6]);
    r.push(WafSignature { vendor: "ModSecurity", signals });
    let signals = vec![Signal::HeaderContains("set-cookie", "barra_counter_session")];
    assert(signals@ =~= signature_signals()[7]);
    r.push(WafSignature { vendor: "Barracuda", signals });
    let signals = vec![Signal::BodyContains("Generated by Wordfence")];
    assert(signals@ =~= signature_signals()[8]);
    r.push(WafSignature { vendor: "Wordfence", signals });
    assert forall|i: int| 0 <= i < r@.len() implies #[trigger] r@[i].vendor == signature_vendors()[i]
        && r@[i].signals@ == signature_signals()[i] by {}
    r
}

} // verus!
