use vstd::prelude::*;
use crate::error::BypsError;
use crate::json::{json_document, parse_json, pretty, write_pretty, JsonValue};
use crate::layout::{csv_of, csv_table, html_of, html_page};
use crate::text::{chars_of, string_of};

verus! {

/// Appends the characters of `s` to `out`.
pub fn push_chars(out: &mut Vec<char>, s: &str)
    ensures
        final(out)@ == old(out)@ + s@,
{
    let v = chars_of(s);
    let mut i: usize = 0;
    let ghost start = out@;
    while i < v.len()
        invariant
            v@ == s@,
            i <= v@.len(),
            out@ == start + v@.take(i as int),
        decreases v@.len() - i,
    {
        out.push(v[i]);
        i = i + 1;
        assert(out@ =~= start + v@.take(i as int));
    }
    assert(v@.take(i as int) =~= v@);
}

/// `s` with every double quote doubled.
pub open spec fn quotes_doubled(s: Seq<char>) -> Seq<char>
    decreases s.len(),
{
    if s.len() == 0 {
        Seq::empty()
    } else {
        quotes_doubled(s.drop_last()) + if s.last() == '"' { seq!['"', '"'] } else { seq![s.last()] }
    }
}

/// A CSV field needs quoting when it holds a comma, a quote or a newline.
pub open spec fn needs_csv_quotes(s: Seq<char>) -> bool {
    s.contains(',') || s.contains('"') || s.contains('\n')
}

pub open spec fn is_csv_special(c: char) -> bool {
    c == ',' || c == '"' || c == '\n'
}

/// `s` as one CSV field.
pub open spec fn csv_field(s: Seq<char>) -> Seq<char> {
    if needs_csv_quotes(s) {
        seq!['"'] + quotes_doubled(s) + seq!['"']
    } else {
        s
    }
}

/// The HTML entity for a character, or the character itself.
pub open spec fn html_char(c: char) -> Seq<char> {
    if c == '&' {
        "&amp;"@
    } else if c == '<' {
        "&lt;"@
    } else if c == '>' {
        "&gt;"@
    } else if c == '"' {
        "&quot;"@
    } else if c == '\'' {
        "&#39;"@
    } else {
        seq![c]
    }
}

/// `s` with the characters that HTML reserves written as entities.
pub open spec fn html_escaped(s: Seq<char>) -> Seq<char>
    decreases s.len(),
{
    if s.len() == 0 {
        Seq::empty()
    } else {
        html_escaped(s.drop_last()) + html_char(s.last())
    }
}

/// Turns a JSON report into another presentation.
pub trait OutputFormatter {
    fn format(&self, data: &str) -> Result<String, BypsError>;
}

/// Formats reports as CSV.
pub struct CsvFormatter;

/// Formats reports as an HTML page.
pub struct HtmlFormatter;

/// Formats reports as indented JSON.
pub struct JsonFormatter;

/// Reads a JSON report, mapping a parse failure to the library's error.
pub fn read_report(data: &str) -> (r: Result<JsonValue, BypsError>)
    ensures
        r matches Ok(v) ==> json_document(data@) == Some(v),
        r is Err <==> json_document(data@) is None,
        r matches Err(e) ==> e is ParseError,
{
    match parse_json(data) {
        Ok(v) => Ok(v),
        Err(e) => Err(BypsError::ParseError(e.to_string())),
    }
}

impl CsvFormatter {
    /// The CSV table of the JSON report `data`.
    pub fn json_to_csv(&self, data: &str) -> (r: Result<String, BypsError>)
        ensures
            r matches Ok(s) ==> (json_document(data@) matches Some(v) && s@ == csv_of(v)),
            r is Err <==> json_document(data@) is None,
            r matches Err(e) ==> e is ParseError,
    {
        let v = read_report(data)?;
        Ok(csv_table(&v))
    }
}

impl HtmlFormatter {
    /// The HTML page of the JSON report `data`.
    pub fn json_to_html(&self, data: &str) -> (r: Result<String, BypsError>)
        ensures
            r matches Ok(s) ==> (json_document(data@) matches Some(v) && s@ == html_of(v)),
            r is Err <==> json_document(data@) is None,
            r matches Err(e) ==> e is ParseError,
    {
        let v = read_report(data)?;
        Ok(html_page(&v))
    }
}

impl JsonFormatter {
    /// The JSON report `data`, indented two spaces per level.
    pub fn json_to_pretty(&self, data: &str) -> (r: Result<String, BypsError>)
        ensures
            r matches Ok(s) ==> (json_document(data@) matches Some(v) && s@ == pretty(v, 0)),
            r is Err <==> json_document(data@) is None,
            r matches Err(e) ==> e is ParseError,
    {
        let v = read_report(data)?;
        let mut out: Vec<char> = Vec::new();
        write_pretty(&v, &mut out);
        assert(out@ =~= pretty(v, 0));
        Ok(string_of(&out))
    }
}

impl OutputFormatter for CsvFormatter {
    fn format(&self, data: &str) -> Result<String, BypsError> {
        self.json_to_csv(data)
    }
}

impl OutputFormatter for HtmlFormatter {
    fn format(&self, data: &str) -> Result<String, BypsError> {
        self.json_to_html(data)
    }
}

impl OutputFormatter for JsonFormatter {
    fn format(&self, data: &str) -> Result<String, BypsError> {
        self.json_to_pretty(data)
    }
}

impl CsvFormatter {
    /// `s` as one CSV field: quoted, with quotes doubled, where it holds a
    /// comma, a quote or a newline; unchanged otherwise.
    pub fn escape_csv(s: &str) -> (r: String)
        ensures
            r@ == csv_field(s@),
    {
        let v = chars_of(s);
        let mut special = false;
        let mut body: Vec<char> = Vec::new();
        let mut i: usize = 0;
        while i < v.len()
            invariant
                v@ == s@,
                i <= v@.len(),
                body@ == quotes_doubled(v@.take(i as int)),
                special == (exists|k: int| 0 <= k < i && is_csv_special(#[trigger] v@[k])),
            decreases v@.len() - i,
        {
            let c = v[i];
            proof {
                assert(v@.take(i + 1).drop_last() =~= v@.take(i as int));
                assert(v@.take(i + 1).last() == c);
            }
            if c == '"' {
                body.push('"');
                body.push('"');
                special = true;
            } else {
                body.push(c);
                if c == ',' || c == '\n' {
                    special = true;
                }
            }
            assert(body@ =~= quotes_doubled(v@.take(i + 1)));
            i = i + 1;
        }
        assert(v@.take(i as int) =~= v@);
        proof {
            if special {
                let k = choose|k: int| 0 <= k < i && is_csv_special(#[trigger] v@[k]);
                assert(v@.contains(v@[k]));
            } else {
                assert(!v@.contains(','));
                assert(!v@.contains('"'));
                assert(!v@.contains('\n'));
            }
            assert(special == needs_csv_quotes(s@));
        }
        if special {
            let mut out: Vec<char> = Vec::new();
            out.push('"');
            let mut k: usize = 0;
            while k < body.len()
                invariant
                    k <= body@.len(),
                    out@ == seq!['"'] + body@.take(k as int),
                decreases body@.len() - k,
            {
                out.push(body[k]);
                k = k + 1;
                assert(out@ =~= seq!['"'] + body@.take(k as int));
            }
            out.push('"');
            assert(body@.take(k as int) =~= body@);
            assert(out@ =~= seq!['"'] + quotes_doubled(s@) + seq!['"']);
            string_of(&out)
        } else {
            s.to_owned()
        }
    }
}

impl HtmlFormatter {
    /// `s` with `&`, `<`, `>`, `"` and `'` written as HTML entities.
    pub fn escape_html(s: &str) -> (r: String)
        ensures
            r@ == html_escaped(s@),
    {
        let v = chars_of(s);
        let mut out: Vec<char> = Vec::new();
        let mut i: usize = 0;
        while i < v.len()
            invariant
                v@ == s@,
                i <= v@.len(),
                out@ == html_escaped(v@.take(i as int)),
            decreases v@.len() - i,
        {
            let c = v[i];
            proof {
                assert(v@.take(i + 1).drop_last() =~= v@.take(i as int));
                assert(v@.take(i + 1).last() == c);
            }
            if c == '&' {
                push_chars(&mut out, "&amp;");
            } else if c == '<' {
                push_chars(&mut out, "&lt;");
            } else if c == '>' {
                push_chars(&mut out, "&gt;");
            } else if c == '"' {
                push_chars(&mut out, "&quot;");
            } else if c == '\'' {
                push_chars(&mut out, "&#39;");
            } else {
                out.push(c);
            }
            i = i + 1;
        }
        assert(v@.take(i as int) =~= v@);
        string_of(&out)
    }
}

} // verus!
