use byps::report::{CsvFormatter, HtmlFormatter};

#[test]
fn test_escape_csv() {
    assert_eq!(CsvFormatter::escape_csv("simple"), "simple");
    assert_eq!(CsvFormatter::escape_csv("with,comma"), "\"with,comma\"");
    assert_eq!(CsvFormatter::escape_csv("with\"quote"), "\"with\"\"quote\"");
}

#[test]
fn test_escape_html() {
    assert_eq!(HtmlFormatter::escape_html("simple"), "simple");
    assert_eq!(HtmlFormatter::escape_html("<script>"), "&lt;script&gt;");
    assert_eq!(HtmlFormatter::escape_html("a&b"), "a&amp;b");
}

#[test]
fn escape_csv_newline_is_quoted() {
    assert_eq!(CsvFormatter::escape_csv("a\nb"), "\"a\nb\"");
    assert_eq!(CsvFormatter::escape_csv(""), "");
}

#[test]
fn escape_html_quotes() {
    assert_eq!(HtmlFormatter::escape_html("\"x\" 'y' >"), "&quot;x&quot; &#39;y&#39; &gt;");
}

use byps::report::{JsonFormatter, OutputFormatter};

#[test]
fn test_format_simple_object() {
    let formatter = CsvFormatter;
    let json = r#"{"url":"http://example.com","status":"success"}"#;
    let result = formatter.format(json);
    assert!(result.is_ok());
    let csv = result.unwrap();
    assert!(csv.contains("Key,Value"));
}

#[test]
fn test_format_creates_valid_html() {
    let formatter = HtmlFormatter;
    let json = r#"{"url":"http://example.com","variations":[]}"#;
    let result = formatter.format(json);
    assert!(result.is_ok());
    let html = result.unwrap();
    assert!(html.contains("<!DOCTYPE html>"));
    assert!(html.contains("</html>"));
}

#[test]
fn csv_object_rows_exact() {
    let csv = CsvFormatter
        .format(r#"{"url":"http://example.com","status":"success","n":3,"ok":true,"tags":["a","b,c"]}"#)
        .unwrap();
    assert_eq!(
        csv,
        "Key,Value\nn,3\nok,true\nstatus,success\ntags,\"[\"\"a\"\",\"\"b,c\"\"]\"\nurl,http://example.com\n"
    );
}

#[test]
fn csv_variation_table_exact() {
    let csv = CsvFormatter
        .format(r#"{"variations":["/admin/",{"url":"/a,b","technique":"path_bypass","status":"success"},7]}"#)
        .unwrap();
    assert_eq!(
        csv,
        "Index,URL,Technique,Status\n1,/admin/,variation,unknown\n2,\"/a,b\",path_bypass,success\n3,unknown,variation,unknown\n"
    );
}

#[test]
fn csv_arrays_and_scalars() {
    assert_eq!(CsvFormatter.format("[]").unwrap(), "No data\n");
    assert_eq!(CsvFormatter.format(r#"["x",{"k":null}]"#).unwrap(), "Index,Value\n1,x\n2,\"{\"\"k\"\":null}\"\n");
    assert_eq!(CsvFormatter.format("42").unwrap(), "");
    assert!(matches!(CsvFormatter.format("{not json"), Err(byps::error::BypsError::ParseError(_))));
}

#[test]
fn html_rows_and_cards() {
    let html = HtmlFormatter
        .format(r#"{"url":"http://e.com/<x>","variations":[{"url":"/a","technique":"t","status":"failed"}],"timestamp":"now","mode":"scan"}"#)
        .unwrap();
    assert!(html.contains("<div class=\"value\"><code>http://e.com/&lt;x&gt;</code></div>"));
    assert!(html.contains("<div class=\"label\">Variations Found</div>\n                        <div class=\"value\">1</div>"));
    assert!(html.contains("<td class=\"status-error\">failed</td>"));
    assert!(html.contains("<div class=\"label\">Scan Time</div>"));
    assert!(html.contains("<h2>Additional Information</h2>"));
    assert!(html.contains("<div class=\"label\">mode</div>\n                        <div class=\"value\">scan</div>"));
    assert!(html.ends_with("</html>\n"));
}

#[test]
fn json_pretty_layout() {
    let out = JsonFormatter.format(r#"{"a":[1,{"b":"q\"\n"}],"c":{},"d":[]}"#).unwrap();
    assert_eq!(out, "{\n  \"a\": [\n    1,\n    {\n      \"b\": \"q\\\"\\n\"\n    }\n  ],\n  \"c\": {},\n  \"d\": []\n}");
}
