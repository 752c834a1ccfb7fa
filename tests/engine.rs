use byps::classify::{classify, Classification, Reason, Tolerance};
use byps::engine::Engine;
use byps::error::BypsError;
use byps::request::{Scheme, Target};
use byps::run::{Baseline, Observation};
use byps::strategy::Strategy;
use byps::technique::{parse_selection, Technique};

#[test]
fn classify_status_change_is_bypass() {
    let t = Tolerance::standard();
    assert_eq!(classify(&t, 403, 150, 200, 1200), (Classification::Bypass, Reason::StatusChange));
}

#[test]
fn classify_small_size_change_is_no_bypass() {
    let t = Tolerance::standard();
    assert_eq!(classify(&t, 403, 150, 403, 151), (Classification::NoBypass, Reason::MatchesBaseline));
}

#[test]
fn classify_content_change() {
    let t = Tolerance::standard();
    assert_eq!(classify(&t, 403, 150, 403, 900), (Classification::Bypass, Reason::ContentChange));
}

#[test]
fn classify_ambiguous() {
    let t = Tolerance::standard();
    assert_eq!(classify(&t, 403, 150, 500, 150), (Classification::Inconclusive, Reason::AmbiguousSignal));
    assert_eq!(classify(&t, 200, 150, 200, 900), (Classification::Inconclusive, Reason::AmbiguousSignal));
}

#[test]
fn parse_target_parts() {
    let t = Target::parse("https://example.com:8443/admin/panel?x=1#top").unwrap();
    assert_eq!(t.scheme, Scheme::Https);
    assert_eq!(t.authority, "example.com:8443");
    assert_eq!(t.path, "/admin/panel");
    assert_eq!(t.query, "x=1");
    let bare = Target::parse("http://example.com").unwrap();
    assert_eq!(bare.path, "/");
    assert_eq!(bare.query, "");
}

#[test]
fn parse_target_rejects() {
    assert!(matches!(Target::parse("ftp://example.com/"), Err(BypsError::InvalidUrl(_))));
    assert!(matches!(Target::parse("https:///admin"), Err(BypsError::InvalidUrl(_))));
    assert!(matches!(Target::parse("https://exa mple.com/"), Err(BypsError::InvalidUrl(_))));
}

#[test]
fn selection_parsing() {
    assert_eq!(parse_selection("all").unwrap().len(), 5);
    assert_eq!(
        parse_selection("header_forge,path_bypass").unwrap(),
        vec![Technique::PathBypass, Technique::HeaderForge]
    );
    assert_eq!(parse_selection("path_bypass,,").unwrap(), vec![Technique::PathBypass]);
    assert_eq!(parse_selection(",").unwrap_err(), BypsError::EmptyTechniqueSet);
    assert_eq!(parse_selection("").unwrap_err(), BypsError::EmptyTechniqueSet);
    assert_eq!(
        parse_selection("path_bypass,bogus,other").unwrap_err(),
        BypsError::UnknownTechnique("bogus".to_string())
    );
}

#[test]
fn scan_respects_ceiling_and_base() {
    let e = Engine::new();
    for s in ["fast", "balanced", "thorough", "stealth"] {
        let rep = e.scan("https://example.com/admin", "all", s).unwrap();
        let base = rep.target.base_request();
        assert!(rep.variations.len() <= rep.strategy.breadth() * 5);
        for (i, v) in rep.variations.iter().enumerate() {
            assert_eq!(v.id, i);
            assert_ne!(v.request, base);
        }
    }
}

#[test]
fn breadth_ordering() {
    let e = Engine::new();
    let fast = e.scan("https://example.com/admin", "all", "fast").unwrap().variations.len();
    let balanced = e.scan("https://example.com/admin", "all", "balanced").unwrap().variations.len();
    let thorough = e.scan("https://example.com/admin", "all", "thorough").unwrap().variations.len();
    assert!(fast <= balanced && balanced <= thorough);
    assert!(Strategy::Thorough.breadth() >= Strategy::Balanced.breadth());
    assert!(Strategy::Balanced.breadth() >= Strategy::Fast.breadth());
}

#[test]
fn scan_is_deterministic() {
    let e = Engine::new();
    let a = e.scan("https://example.com/admin?q=1", "path_bypass,unicode", "thorough").unwrap();
    let b = e.scan("https://example.com/admin?q=1", "path_bypass,unicode", "thorough").unwrap();
    assert_eq!(a.variations.len(), b.variations.len());
    for (x, y) in a.variations.iter().zip(b.variations.iter()) {
        assert_eq!(x.id, y.id);
        assert_eq!(x.technique, y.technique);
        assert_eq!(x.description, y.description);
        assert_eq!(x.request, y.request);
    }
}

#[test]
fn scan_errors_in_order() {
    let e = Engine::new();
    assert!(matches!(e.scan("not a url", "bogus", "bogus"), Err(BypsError::InvalidUrl(_))));
    assert!(matches!(e.scan("https://a.b/", "bogus", "bogus"), Err(BypsError::UnknownTechnique(_))));
    assert!(matches!(e.scan("https://a.b/", "all", "bogus"), Err(BypsError::UnknownStrategy(_))));
    assert!(matches!(e.test_technique("https://a.b/", "nope"), Err(BypsError::UnknownTechnique(_))));
}

#[test]
fn max_tests_is_a_prefix() {
    let e = Engine::new();
    let all = e.plan("https://example.com/admin", "all", "balanced", 0).unwrap();
    let five = e.plan("https://example.com/admin", "all", "balanced", 5).unwrap();
    assert_eq!(five.variations.len(), 5);
    for i in 0..5 {
        assert_eq!(five.variations[i].request, all.variations[i].request);
        assert_eq!(five.variations[i].id, all.variations[i].id);
    }
}

#[test]
fn trailing_slash_bypass_scenario() {
    let e = Engine::new();
    let rep = e.plan("https://example.com/admin", "path_bypass", "fast", 50).unwrap();
    // A backend that answers 200 only for the trailing-slash path.
    let observed: Vec<(usize, Observation)> = rep
        .variations
        .iter()
        .map(|v| {
            if v.request.path == "/admin/" {
                (v.id, Observation::Answered { status: 200, size: 5000 })
            } else {
                (v.id, Observation::Answered { status: 403, size: 150 })
            }
        })
        .collect();
    let sum = e
        .test_variations(&rep, Ok(Baseline { status: 403, size: 150 }), &observed)
        .unwrap();
    assert!(sum.successful_bypasses >= 1);
    assert_eq!(sum.total_tested, sum.successful_bypasses + sum.failed_attempts);
    let hit = sum
        .results
        .iter()
        .find(|r| r.classification == Classification::Bypass)
        .unwrap();
    assert_eq!(hit.variation.technique.name(), "path_bypass");
    assert_eq!(hit.reason.as_str(), "status_change");
}

#[test]
fn report_order_does_not_depend_on_completion_order() {
    let e = Engine::new();
    let rep = e.plan("https://example.com/admin", "all", "fast", 0).unwrap();
    let forward: Vec<(usize, Observation)> = rep
        .variations
        .iter()
        .map(|v| (v.id, Observation::Answered { status: if v.id % 3 == 0 { 200 } else { 403 }, size: 150 }))
        .collect();
    let mut backward = forward.clone();
    backward.reverse();
    let base = Baseline { status: 403, size: 150 };
    let a = e.test_variations(&rep, Ok(base), &forward).unwrap();
    let b = e.test_variations(&rep, Ok(base), &backward).unwrap();
    assert_eq!(a.results.len(), b.results.len());
    for (i, (x, y)) in a.results.iter().zip(b.results.iter()).enumerate() {
        assert_eq!(x.variation.id, i);
        assert_eq!(x.variation.id, y.variation.id);
        assert_eq!(x.classification, y.classification);
        assert_eq!(x.observation, y.observation);
    }
    assert_eq!(a.successful_bypasses, b.successful_bypasses);
}

#[test]
fn missing_reports_and_failures_are_inconclusive() {
    let e = Engine::new();
    let rep = e.plan("https://example.com/admin", "protocol_abuse", "fast", 3).unwrap();
    let observed = vec![(1usize, Observation::TimedOut)];
    let sum = e.test_variations(&rep, Ok(Baseline { status: 403, size: 150 }), &observed).unwrap();
    assert_eq!(sum.total_tested, 3);
    assert_eq!(sum.successful_bypasses, 0);
    assert_eq!(sum.failed_attempts, 3);
    for r in &sum.results {
        assert_eq!(r.classification, Classification::Inconclusive);
        assert_eq!(r.reason, Reason::TransportError);
    }
    assert_eq!(sum.results[1].observation, Observation::TimedOut);
    assert_eq!(sum.results[0].observation, Observation::TransportFailed);
}

#[test]
fn unreachable_baseline_fails_the_run() {
    let e = Engine::new();
    let rep = e.plan("https://example.com/admin", "all", "fast", 0).unwrap();
    let r = e.test_variations(&rep, Err("refused".to_string()), &Vec::new());
    assert_eq!(r.unwrap_err(), BypsError::BaselineUnreachable("refused".to_string()));
}

use byps::cli::{parse_args, Commands};
use byps::config::Config;
use byps::technique::list_techniques;
use byps::waf::{detect, signatures, Evidence};
use byps::request::Header;

fn words(ws: &[&str]) -> Vec<String> {
    ws.iter().map(|w| w.to_string()).collect()
}

#[test]
fn cli_scan_defaults() {
    let cli = parse_args(&words(&["scan", "https://example.com/admin"])).unwrap();
    assert!(!cli.verbose);
    assert_eq!(cli.output, "terminal");
    assert_eq!(
        cli.command,
        Commands::Scan {
            url: "https://example.com/admin".to_string(),
            techniques: "all".to_string(),
            strategy: "balanced".to_string(),
            output_file: None
        }
    );
}

#[test]
fn cli_exploit_options() {
    let cli = parse_args(&words(&["-v", "exploit", "https://a.b/x", "-t", "path_bypass", "-s", "fast", "-m", "5", "--output", "json"])).unwrap();
    assert!(cli.verbose);
    assert_eq!(cli.output, "json");
    assert_eq!(
        cli.command,
        Commands::Exploit {
            url: "https://a.b/x".to_string(),
            techniques: "path_bypass".to_string(),
            strategy: "fast".to_string(),
            output_file: None,
            max_tests: 5
        }
    );
    let d = parse_args(&words(&["exploit", "https://a.b/x"])).unwrap();
    assert!(matches!(d.command, Commands::Exploit { max_tests: 50, .. }));
}

#[test]
fn cli_rejections() {
    assert!(parse_args(&words(&[])).is_err());
    assert!(parse_args(&words(&["scan"])).is_err());
    assert!(parse_args(&words(&["test", "https://a.b/"])).is_err());
    assert!(parse_args(&words(&["list", "-m", "3"])).is_err());
    assert!(parse_args(&words(&["exploit", "https://a.b/", "-m", "x"])).is_err());
    assert!(parse_args(&words(&["frobnicate"])).is_err());
    assert!(parse_args(&words(&["scan", "https://a.b/", "--bogus"])).is_err());
    let l = parse_args(&words(&["list", "-c", "path"])).unwrap();
    assert_eq!(l.command, Commands::List { category: Some("path".to_string()) });
    let t = parse_args(&words(&["test", "https://a.b/", "--technique", "unicode"])).unwrap();
    assert_eq!(t.command, Commands::Test { url: "https://a.b/".to_string(), technique: "unicode".to_string() });
}

#[test]
fn config_defaults() {
    let c = Config::default();
    assert_eq!(c.timeout, 10);
    assert_eq!(c.retries, 3);
    assert_eq!(c.concurrent, 10);
    assert_eq!(c.verbosity, "info");
    assert_eq!(c.techniques, vec!["path_bypass".to_string(), "header_forge".to_string()]);
    assert_eq!(c.strategy, "balanced");
}

#[test]
fn list_filters_by_name() {
    assert_eq!(list_techniques(None).len(), 5);
    assert_eq!(list_techniques(Some("path")), vec![Technique::PathBypass]);
    assert_eq!(list_techniques(Some("o")).len(), 4);
    assert!(list_techniques(Some("zzz")).is_empty());
}

#[test]
fn waf_detection() {
    let table = signatures();
    let cf = Evidence {
        headers: vec![Header::new("CF-RAY", "abc"), Header::new("Server", "cloudflare")],
        bodies: vec![],
    };
    let f = detect(&table, &cf).unwrap();
    assert_eq!(f.vendor_name, "Cloudflare");
    assert_eq!(f.matched_signals.len(), 2);
    let half = Evidence { headers: vec![Header::new("cf-ray", "abc")], bodies: vec![] };
    assert!(detect(&table, &half).is_none());
    let modsec = Evidence { headers: vec![], bodies: vec!["blocked: Mod_Security rule".to_string()] };
    assert_eq!(detect(&table, &modsec).unwrap().vendor_name, "ModSecurity");
}

#[test]
fn header_forge_and_protocol_variations() {
    let e = Engine::new();
    let rep = e.test_technique("https://example.com/admin?x=1", "header_forge").unwrap();
    let first = &rep.variations[0];
    assert_eq!(first.request.path, "/admin?x=1");
    assert_eq!(first.request.headers[1], Header::new("X-Forwarded-For", "127.0.0.1"));
    let routed = &rep.variations[1];
    assert_eq!(routed.request.path, "/?x=1");
    assert_eq!(routed.request.headers[1], Header::new("X-Original-URL", "/admin?x=1"));
    let p = e.scan("http://example.com/admin", "protocol_abuse,path_bypass", "fast").unwrap();
    assert_eq!(p.variations[0].technique, Technique::PathBypass);
    assert_eq!(p.variations[0].request.path, "/admin/");
    let upper = p.variations.iter().find(|v| v.request.path == "/ADMIN").unwrap();
    assert_eq!(upper.technique, Technique::PathBypass);
    let head = p.variations.iter().find(|v| v.request.method == "HEAD").unwrap();
    assert_eq!(head.technique, Technique::ProtocolAbuse);
}

use byps::classify::{classify_response, ResponseSignature};
use byps::request::parse_status_line;

#[test]
fn classify_from_signatures() {
    let base = ResponseSignature { status_code: 401, body_size: 100, headers: vec![], elapsed_ms: 3 };
    let resp = ResponseSignature { status_code: 302, body_size: 0, headers: vec![], elapsed_ms: 9 };
    assert_eq!(
        classify_response(&Tolerance::standard(), &base, &resp),
        (Classification::Bypass, Reason::StatusChange)
    );
}

#[test]
fn wire_format_of_base_request() {
    let t = Target::parse("http://example.com:8080/admin?a=b").unwrap();
    assert_eq!(
        t.base_request().to_wire(),
        "GET /admin?a=b HTTP/1.1\r\nHost: example.com:8080\r\nConnection: close\r\n\r\n"
    );
}

#[test]
fn status_lines() {
    assert_eq!(parse_status_line("HTTP/1.1 403 Forbidden"), Some(403));
    assert_eq!(parse_status_line("HTTP/1.0 200"), Some(200));
    assert_eq!(parse_status_line("HTTP/1.1 20x OK"), None);
    assert_eq!(parse_status_line("garbage"), None);
}

#[test]
fn scan_document() {
    let e = Engine::new();
    let rep = e.scan("http://example.com/admin", "path_bypass", "fast").unwrap();
    let doc = rep.to_json("T0");
    assert!(doc.starts_with(
        "{\"url\":\"http://example.com/admin\",\"variations\":[{\"id\":0,\"technique\":\"path_bypass\",\"description\":\"trailing slash\",\"method\":\"GET\",\"url\":\"/admin/\"},"
    ));
    assert!(doc.ends_with("],\"timestamp\":\"T0\"}"));
}

#[test]
fn run_document() {
    let e = Engine::new();
    let rep = e.plan("http://example.com/admin", "path_bypass", "fast", 2).unwrap();
    let observed = vec![(0usize, Observation::Answered { status: 200, size: 10 })];
    let sum = e.test_variations(&rep, Ok(Baseline { status: 403, size: 150 }), &observed).unwrap();
    assert_eq!(
        sum.to_json(),
        "{\"baseline\":{\"status\":403,\"size\":150},\"summary\":{\"total_tested\":2,\"successful_bypasses\":1,\"failed_attempts\":1},\"variations\":[{\"id\":0,\"variation\":\"trailing slash\",\"technique\":\"path_bypass\",\"url\":\"/admin/\",\"status\":200,\"bypass\":true,\"reason\":\"status_change\"},{\"id\":1,\"variation\":\"trailing dot segment\",\"technique\":\"path_bypass\",\"url\":\"/admin/.\",\"status\":null,\"bypass\":false,\"reason\":\"transport_error\"}]}"
    );
}

#[test]
fn url_encoding_of_first_character() {
    let e = Engine::new();
    let rep = e.test_technique("http://example.com/zone", "url_encoding").unwrap();
    let paths: Vec<&str> = rep.variations.iter().take(4).map(|v| v.request.path.as_str()).collect();
    assert_eq!(paths, vec!["/%7aone", "/%257aone", "/%7Aone", "/%25257aone"]);
    // Digit-only hex reads the same in either case, and the repeat is dropped.
    let admin = e.test_technique("http://example.com/admin", "url_encoding").unwrap();
    let paths: Vec<&str> = admin.variations.iter().take(3).map(|v| v.request.path.as_str()).collect();
    assert_eq!(paths, vec!["/%61dmin", "/%2561dmin", "/%252561dmin"]);
}

#[test]
fn control_characters_make_an_invalid_url() {
    let e = Engine::new();
    assert_eq!(
        e.scan("https://example.com/ad\0min", "all", "balanced").unwrap_err(),
        BypsError::InvalidUrl("https://example.com/ad\0min".to_string())
    );
    assert!(matches!(e.test_technique("https://ex\0ample.com/admin", "path_bypass"), Err(BypsError::InvalidUrl(_))));
    assert!(matches!(Target::parse("http://example.com/a\u{7f}"), Err(BypsError::InvalidUrl(_))));
    assert!(matches!(Target::parse("http://example.com/a\tb"), Err(BypsError::InvalidUrl(_))));
}

#[test]
fn signature_table_contents() {
    let t = signatures();
    assert_eq!(t.len(), 9);
    assert_eq!(t[0].vendor, "Cloudflare");
    assert_eq!(t[0].signals.len(), 2);
    assert_eq!(t[8].vendor, "Wordfence");
}

#[test]
fn observations_are_matched_by_id() {
    let e = Engine::new();
    let rep = e.plan("https://example.com/admin", "path_bypass", "fast", 3).unwrap();
    let observed = vec![
        (2usize, Observation::Answered { status: 200, size: 1 }),
        (99usize, Observation::Answered { status: 200, size: 1 }),
    ];
    let sum = e.test_variations(&rep, Ok(Baseline { status: 403, size: 150 }), &observed).unwrap();
    assert_eq!(sum.results[2].classification, Classification::Bypass);
    assert_eq!(sum.results[0].reason, Reason::TransportError);
    assert_eq!(sum.successful_bypasses, 1);
}
