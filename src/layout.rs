use vstd::prelude::*;
use crate::json::{JsonValue, compact, pretty, write_compact, write_pretty};
use crate::report::{csv_field, html_escaped, push_chars, CsvFormatter, HtmlFormatter};
use crate::page::{
    CARD_CLOSE, CARD_MID, CARD_OPEN, EXTRA_OPEN, GRID_CLOSE, PAGE_FOOT, PAGE_HEAD, ROW_CLASS, ROW_CLOSE, ROW_OPEN,
    ROW_STATUS, ROW_TECHNIQUE, ROW_URL, SUMMARY_OPEN, TABLE_CLOSE, TABLE_OPEN,
};

verus! {

/// The value of the first member of `es` named `key`.
pub open spec fn member(es: Seq<(String, JsonValue)>, key: Seq<char>) -> Option<JsonValue>
    decreases es.len(),
{
    if es.len() == 0 {
        None
    } else if es[0].0@ == key {
        Some(es[0].1)
    } else {
        member(es.drop_first(), key)
    }
}

/// The text of the first member of `es` named `key`, where it is a string.
pub open spec fn member_str(es: Seq<(String, JsonValue)>, key: Seq<char>) -> Option<Seq<char>> {
    match member(es, key) {
        Some(JsonValue::Str(s)) => Some(s@),
        _ => None,
    }
}

pub open spec fn or_unknown(o: Option<Seq<char>>) -> Seq<char> {
    match o {
        Some(s) => s,
        None => "unknown"@,
    }
}

/// Decimal digits of `n`.
pub open spec fn decimal_text(n: nat) -> Seq<char>
    decreases n,
{
    if n < 10 {
        seq![((n + 48) as u8) as char]
    } else {
        decimal_text(n / 10) + seq![((n % 10 + 48) as u8) as char]
    }
}

/// Appends the decimal digits of `n`.
pub fn push_decimal(n: usize, out: &mut Vec<char>)
    ensures
        final(out)@ == old(out)@ + decimal_text(n as nat),
    decreases n,
{
    if n >= 10 {
        push_decimal(n / 10, out);
    }
    out.push(((n % 10 + 48) as u8) as char);
}

/// Finds the first member of `es` named `key`.
pub fn find_member<'a>(es: &'a Vec<(String, JsonValue)>, key: &str) -> (r: Option<&'a JsonValue>)
    ensures
        r matches Some(v) ==> member(es@, key@) == Some(*v),
        r is None ==> member(es@, key@) is None,
{
    let k = crate::text::chars_of(key);
    let mut i: usize = 0;
    assert(es@.skip(0) =~= es@);
    while i < es.len()
        invariant
            k@ == key@,
            i <= es@.len(),
            member(es@, key@) == member(es@.skip(i as int), key@),
        decreases es@.len() - i,
    {
        assert(es@.skip(i as int)[0] == es@[i as int]);
        if crate::text::same_chars(&crate::text::chars_of(es[i].0.as_str()), &k) {
            return Some(&es[i].1);
        }
        assert(es@.skip(i as int).drop_first() =~= es@.skip(i + 1));
        i = i + 1;
    }
    None
}

/// Finds the text of the first member of `es` named `key`, where it is a
/// string.
pub fn find_str<'a>(es: &'a Vec<(String, JsonValue)>, key: &str) -> (r: Option<&'a String>)
    ensures
        r matches Some(s) ==> member_str(es@, key@) == Some(s@),
        r is None ==> member_str(es@, key@) is None,
{
    match find_member(es, key) {
        Some(JsonValue::Str(s)) => Some(s),
        _ => None,
    }
}

fn push_opt_or_unknown(o: Option<&String>, out: &mut Vec<char>, csv: bool)
    ensures
        final(out)@ == old(out)@ + (if csv {
            csv_field(or_unknown(match o { Some(s) => Some(s@), None => None }))
        } else {
            html_escaped(or_unknown(match o { Some(s) => Some(s@), None => None }))
        }),
{
    proof {
        reveal_strlit("unknown");
    }
    let text: &str = match o {
        Some(s) => s.as_str(),
        None => "unknown",
    };
    if csv {
        push_chars(out, CsvFormatter::escape_csv(text).as_str());
    } else {
        push_chars(out, HtmlFormatter::escape_html(text).as_str());
    }
}

// ---------------------------------------------------------------- CSV

/// The three cells of a variation row: variation, technique, status.
pub open spec fn csv_cells(v: JsonValue) -> (Seq<char>, Seq<char>, Seq<char>) {
    match v {
        JsonValue::Str(s) => (s@, "variation"@, "unknown"@),
        JsonValue::Object(es) => (
            or_unknown(member_str(es@, "url"@)),
            or_unknown(member_str(es@, "technique"@)),
            or_unknown(member_str(es@, "status"@)),
        ),
        _ => ("unknown"@, "variation"@, "unknown"@),
    }
}

pub open spec fn csv_variation_rows(vs: Seq<JsonValue>, k: nat) -> Seq<char>
    decreases k,
{
    if k == 0 || k > vs.len() {
        Seq::empty()
    } else {
        let c = csv_cells(vs[k - 1]);
        csv_variation_rows(vs, (k - 1) as nat) + decimal_text(k) + seq![','] + csv_field(c.0) + seq![',']
            + csv_field(c.1) + seq![','] + csv_field(c.2) + seq!['\n']
    }
}

/// How a member's value reads in a cell.
pub open spec fn member_text(v: JsonValue) -> Seq<char> {
    match v {
        JsonValue::Str(s) => s@,
        JsonValue::Number(n) => n@,
        JsonValue::Bool(b) => if b { "true"@ } else { "false"@ },
        _ => compact(v),
    }
}

pub open spec fn csv_member_rows(es: Seq<(String, JsonValue)>, k: nat) -> Seq<char>
    decreases k,
{
    if k == 0 || k > es.len() {
        Seq::empty()
    } else {
        csv_member_rows(es, (k - 1) as nat) + csv_field(es[k - 1].0@) + seq![','] + csv_field(
            member_text(es[k - 1].1),
        ) + seq!['\n']
    }
}

/// How an array item reads in a cell.
pub open spec fn item_text(v: JsonValue) -> Seq<char> {
    match v {
        JsonValue::Str(s) => s@,
        _ => compact(v),
    }
}

pub open spec fn csv_item_rows(items: Seq<JsonValue>, k: nat) -> Seq<char>
    decreases k,
{
    if k == 0 || k > items.len() {
        Seq::empty()
    } else {
        csv_item_rows(items, (k - 1) as nat) + decimal_text(k) + seq![','] + csv_field(item_text(items[k - 1]))
            + seq!['\n']
    }
}

/// The CSV table of a document: one row per variation where it has a
/// `variations` array, one row per member for any other object, one row per
/// item for an array, nothing for a scalar.
pub open spec fn csv_of(v: JsonValue) -> Seq<char> {
    match v {
        JsonValue::Object(es) => match member(es@, "variations"@) {
            Some(JsonValue::Array(vs)) => "Index,URL,Technique,Status\n"@ + csv_variation_rows(vs@, vs@.len()),
            _ => "Key,Value\n"@ + csv_member_rows(es@, es@.len()),
        },
        JsonValue::Array(items) => if items@.len() == 0 {
            "No data\n"@
        } else {
            "Index,Value\n"@ + csv_item_rows(items@, items@.len())
        },
        _ => Seq::empty(),
    }
}

fn push_csv(out: &mut Vec<char>, s: &str)
    ensures
        final(out)@ == old(out)@ + csv_field(s@),
{
    push_chars(out, CsvFormatter::escape_csv(s).as_str());
}

fn push_text_of(v: &JsonValue, out: &mut Vec<char>, csv: bool, items: bool)
    ensures
        final(out)@ == old(out)@ + (if csv {
            csv_field(if items { item_text(*v) } else { member_text(*v) })
        } else {
            html_escaped(pretty_text(*v))
        }),
{
    let mut text: Vec<char> = Vec::new();
    match v {
        JsonValue::Str(s) => push_chars(&mut text, s.as_str()),
        JsonValue::Number(n) if !items => push_chars(&mut text, n.as_str()),
        JsonValue::Bool(b) if !items => if *b { push_chars(&mut text, "true") } else { push_chars(&mut text, "false") },
        _ => if csv { write_compact(v, &mut text) } else { write_pretty(v, &mut text) },
    }
    assert(text@ == (if csv { if items { item_text(*v) } else { member_text(*v) } } else { pretty_text(*v) })) by {
        assert(Seq::<char>::empty() + member_text(*v) =~= member_text(*v));
        assert(Seq::<char>::empty() + item_text(*v) =~= item_text(*v));
        assert(Seq::<char>::empty() + pretty_text(*v) =~= pretty_text(*v));
        assert(Seq::<char>::empty() + compact(*v) =~= compact(*v));
        assert(Seq::<char>::empty() + pretty(*v, 0) =~= pretty(*v, 0));
    }
    let t = crate::text::string_of(&text);
    if csv {
        push_csv(out, t.as_str());
    } else {
        push_chars(out, HtmlFormatter::escape_html(t.as_str()).as_str());
    }
}

fn unknown_or(o: Option<&String>) -> (r: String)
    ensures
        r@ == or_unknown(match o { Some(s) => Some(s@), None => None }),
{
    match o {
        Some(s) => s.clone(),
        None => "unknown".to_owned(),
    }
}

/// The three cells of a variation row.
fn csv_cells_of(v: &JsonValue) -> (r: (String, String, String))
    ensures
        (r.0@, r.1@, r.2@) == csv_cells(*v),
{
    match v {
        JsonValue::Str(s) => (s.clone(), "variation".to_owned(), "unknown".to_owned()),
        JsonValue::Object(o) => (
            unknown_or(find_str(o, "url")),
            unknown_or(find_str(o, "technique")),
            unknown_or(find_str(o, "status")),
        ),
        _ => ("unknown".to_owned(), "variation".to_owned(), "unknown".to_owned()),
    }
}

fn csv_variation_row(i: usize, v: &JsonValue, out: &mut Vec<char>)
    requires
        i < usize::MAX,
    ensures
        final(out)@ == old(out)@ + decimal_text(i as nat + 1) + seq![','] + csv_field(csv_cells(*v).0) + seq![',']
            + csv_field(csv_cells(*v).1) + seq![','] + csv_field(csv_cells(*v).2) + seq!['\n'],
{
    let ghost start = out@;
    let (a, b, c) = csv_cells_of(v);
    push_decimal(i + 1, out);
    out.push(',');
    push_csv(out, a.as_str());
    out.push(',');
    push_csv(out, b.as_str());
    out.push(',');
    push_csv(out, c.as_str());
    out.push('\n');
    assert(out@ =~= start + decimal_text(i as nat + 1) + seq![','] + csv_field(a@) + seq![','] + csv_field(b@)
        + seq![','] + csv_field(c@) + seq!['\n']);
}

/// The CSV table of a document.
pub fn csv_table(v: &JsonValue) -> (r: String)
    ensures
        r@ == csv_of(*v),
{
    let mut out: Vec<char> = Vec::new();
    match v {
        JsonValue::Object(es) => {
            match find_member(es, "variations") {
                Some(JsonValue::Array(vs)) => {
                    push_chars(&mut out, "Index,URL,Technique,Status\n");
                    let mut i: usize = 0;
                    while i < vs.len()
                        invariant
                            i <= vs@.len(),
                            out@ == "Index,URL,Technique,Status\n"@ + csv_variation_rows(vs@, i as nat),
                        decreases vs@.len() - i,
                    {
                        csv_variation_row(i, &vs[i], &mut out);
                        i = i + 1;
                    }
                },
                _ => {
                    push_chars(&mut out, "Key,Value\n");
                    let mut i: usize = 0;
                    while i < es.len()
                        invariant
                            i <= es@.len(),
                            out@ == "Key,Value\n"@ + csv_member_rows(es@, i as nat),
                        decreases es@.len() - i,
                    {
                        push_csv(&mut out, es[i].0.as_str());
                        out.push(',');
                        push_text_of(&es[i].1, &mut out, true, false);
                        out.push('\n');
                        i = i + 1;
                    }
                },
            }
        },
        JsonValue::Array(items) => {
            if items.len() == 0 {
                push_chars(&mut out, "No data\n");
            } else {
                push_chars(&mut out, "Index,Value\n");
                let mut i: usize = 0;
                while i < items.len()
                    invariant
                        i <= items@.len(),
                        out@ == "Index,Value\n"@ + csv_item_rows(items@, i as nat),
                    decreases items@.len() - i,
                {
                    push_decimal(i + 1, &mut out);
                    out.push(',');
                    push_text_of(&items[i], &mut out, true, true);
                    out.push('\n');
                    i = i + 1;
                }
            }
        },
        _ => {},
    }
    crate::text::string_of(&out)
}

/// How a member's value reads on an HTML card.
pub open spec fn pretty_text(v: JsonValue) -> Seq<char> {
    match v {
        JsonValue::Str(s) => s@,
        JsonValue::Number(n) => n@,
        JsonValue::Bool(b) => if b { "true"@ } else { "false"@ },
        _ => pretty(v, 0),
    }
}

// ---------------------------------------------------------------- HTML

/// One summary card.
pub open spec fn card(label: Seq<char>, value: Seq<char>) -> Seq<char> {
    CARD_OPEN@ + label + CARD_MID@ + value + CARD_CLOSE@
}

/// The cells of a variation row: variation, technique, status.
pub open spec fn html_cells(v: JsonValue) -> (Seq<char>, Seq<char>, Seq<char>) {
    match v {
        JsonValue::Object(es) => (
            or_unknown(member_str(es@, "url"@)),
            or_unknown(member_str(es@, "technique"@)),
            or_unknown(member_str(es@, "status"@)),
        ),
        JsonValue::Str(s) => (s@, "variation"@, "unknown"@),
        _ => ("unknown"@, "unknown"@, "unknown"@),
    }
}

/// The style class of a status cell.
pub open spec fn status_class(s: Seq<char>) -> Seq<char> {
    if s == "success"@ {
        "status-success"@
    } else if s == "error"@ || s == "failed"@ {
        "status-error"@
    } else {
        "status-unknown"@
    }
}

pub open spec fn html_row(n: nat, c: (Seq<char>, Seq<char>, Seq<char>)) -> Seq<char> {
    ROW_OPEN@ + decimal_text(n) + ROW_URL@ + html_escaped(c.0) + ROW_TECHNIQUE@ + html_escaped(c.1) + ROW_CLASS@
        + status_class(c.2) + ROW_STATUS@ + html_escaped(c.2) + ROW_CLOSE@
}

pub open spec fn html_rows(vs: Seq<JsonValue>, k: nat) -> Seq<char>
    decreases k,
{
    if k == 0 || k > vs.len() {
        Seq::empty()
    } else {
        html_rows(vs, (k - 1) as nat) + html_row(k, html_cells(vs[k - 1]))
    }
}

/// A member shown under additional information.
pub open spec fn is_extra_key(k: Seq<char>) -> bool {
    k != "url"@ && k != "variations"@ && k != "timestamp"@
}

pub open spec fn extra_cards(es: Seq<(String, JsonValue)>, k: nat) -> Seq<char>
    decreases k,
{
    if k == 0 || k > es.len() {
        Seq::empty()
    } else {
        extra_cards(es, (k - 1) as nat) + if is_extra_key(es[k - 1].0@) {
            card(html_escaped(es[k - 1].0@), html_escaped(pretty_text(es[k - 1].1)))
        } else {
            Seq::empty()
        }
    }
}

pub open spec fn has_extra(es: Seq<(String, JsonValue)>) -> bool {
    exists|i: int| 0 <= i < es.len() && is_extra_key(#[trigger] es[i].0@)
}

/// The summary section of an object report.
pub open spec fn html_summary(es: Seq<(String, JsonValue)>) -> Seq<char> {
    SUMMARY_OPEN@ + (match member_str(es, "url"@) {
        Some(u) => card("Target URL"@, "<code>"@ + html_escaped(u) + "</code>"@),
        None => Seq::empty(),
    }) + (match member(es, "variations"@) {
        Some(JsonValue::Array(vs)) => card("Variations Found"@, decimal_text(vs@.len())),
        _ => Seq::empty(),
    }) + (match member_str(es, "timestamp"@) {
        Some(t) => card("Scan Time"@, html_escaped(t)),
        None => Seq::empty(),
    }) + GRID_CLOSE@
}

/// The report content of an object: summary, variations table, and the
/// other members.
pub open spec fn html_content(es: Seq<(String, JsonValue)>) -> Seq<char> {
    html_summary(es) + (match member(es, "variations"@) {
        Some(JsonValue::Array(vs)) => TABLE_OPEN@ + html_rows(vs@, vs@.len()) + TABLE_CLOSE@,
        _ => Seq::empty(),
    }) + if has_extra(es) {
        EXTRA_OPEN@ + extra_cards(es, es.len()) + GRID_CLOSE@
    } else {
        Seq::empty()
    }
}

/// The HTML page of a document; only an object has content.
pub open spec fn html_of(v: JsonValue) -> Seq<char> {
    PAGE_HEAD@ + (match v {
        JsonValue::Object(es) => html_content(es@),
        _ => Seq::empty(),
    }) + PAGE_FOOT@
}

fn push_html(out: &mut Vec<char>, s: &str)
    ensures
        final(out)@ == old(out)@ + html_escaped(s@),
{
    push_chars(out, HtmlFormatter::escape_html(s).as_str());
}

fn push_card(out: &mut Vec<char>, label: &Vec<char>, value: &Vec<char>)
    ensures
        final(out)@ == old(out)@ + card(label@, value@),
{
    let ghost start = out@;
    push_chars(out, CARD_OPEN);
    push_vec(out, label);
    push_chars(out, CARD_MID);
    push_vec(out, value);
    push_chars(out, CARD_CLOSE);
    assert(out@ =~= start + card(label@, value@));
}

fn push_vec(out: &mut Vec<char>, v: &Vec<char>)
    ensures
        final(out)@ == old(out)@ + v@,
{
    let ghost start = out@;
    let mut i: usize = 0;
    while i < v.len()
        invariant
            i <= v@.len(),
            out@ == start + v@.take(i as int),
        decreases v@.len() - i,
    {
        out.push(v[i]);
        i = i + 1;
        assert(out@ =~= start + v@.take(i as int));
    }
    assert(v@.take(i as int) =~= v@);
}

fn html_cells_of(v: &JsonValue) -> (r: (String, String, String))
    ensures
        (r.0@, r.1@, r.2@) == html_cells(*v),
{
    match v {
        JsonValue::Object(o) => (
            unknown_or(find_str(o, "url")),
            unknown_or(find_str(o, "technique")),
            unknown_or(find_str(o, "status")),
        ),
        JsonValue::Str(s) => (s.clone(), "variation".to_owned(), "unknown".to_owned()),
        _ => ("unknown".to_owned(), "unknown".to_owned(), "unknown".to_owned()),
    }
}

fn status_class_of(s: &String) -> (r: &'static str)
    ensures
        r@ == status_class(s@),
{
    let v = crate::text::chars_of(s.as_str());
    if crate::text::same_chars(&v, &crate::text::chars_of("success")) {
        "status-success"
    } else if crate::text::same_chars(&v, &crate::text::chars_of("error"))
        || crate::text::same_chars(&v, &crate::text::chars_of("failed")) {
        "status-error"
    } else {
        "status-unknown"
    }
}

fn html_row_of(i: usize, v: &JsonValue, out: &mut Vec<char>)
    requires
        i < usize::MAX,
    ensures
        final(out)@ == old(out)@ + html_row(i as nat + 1, html_cells(*v)),
{
    let ghost start = out@;
    let (a, b, c) = html_cells_of(v);
    push_chars(out, ROW_OPEN);
    push_decimal(i + 1, out);
    push_chars(out, ROW_URL);
    push_html(out, a.as_str());
    push_chars(out, ROW_TECHNIQUE);
    push_html(out, b.as_str());
    push_chars(out, ROW_CLASS);
    push_chars(out, status_class_of(&c));
    push_chars(out, ROW_STATUS);
    push_html(out, c.as_str());
    push_chars(out, ROW_CLOSE);
    assert(out@ =~= start + html_row(i as nat + 1, (a@, b@, c@)));
}

fn html_summary_of(es: &Vec<(String, JsonValue)>, out: &mut Vec<char>)
    ensures
        final(out)@ == old(out)@ + html_summary(es@),
{
    let ghost start = out@;
    push_chars(out, SUMMARY_OPEN);
    match find_str(es, "url") {
        Some(u) => {
            let mut val: Vec<char> = Vec::new();
            push_chars(&mut val, "<code>");
            push_html(&mut val, u.as_str());
            push_chars(&mut val, "</code>");
            push_card(out, &crate::text::chars_of("Target URL"), &val);
        },
        None => {},
    }
    match find_member(es, "variations") {
        Some(JsonValue::Array(vs)) => {
            let mut val: Vec<char> = Vec::new();
            push_decimal(vs.len(), &mut val);
            assert(val@ =~= decimal_text(vs@.len()));
            push_card(out, &crate::text::chars_of("Variations Found"), &val);
        },
        _ => {},
    }
    match find_str(es, "timestamp") {
        Some(t) => {
            let mut val: Vec<char> = Vec::new();
            push_html(&mut val, t.as_str());
            assert(val@ =~= html_escaped(t@));
            push_card(out, &crate::text::chars_of("Scan Time"), &val);
        },
        None => {},
    }
    push_chars(out, GRID_CLOSE);
    assert(out@ =~= start + html_summary(es@));
}

fn html_extra_of(es: &Vec<(String, JsonValue)>, out: &mut Vec<char>)
    ensures
        final(out)@ == old(out)@ + (if has_extra(es@) {
            EXTRA_OPEN@ + extra_cards(es@, es@.len()) + GRID_CLOSE@
        } else {
            Seq::empty()
        }),
{
    let ghost start = out@;
    let mut cards: Vec<char> = Vec::new();
    let mut any = false;
    let mut i: usize = 0;
    while i < es.len()
        invariant
            i <= es@.len(),
            cards@ == extra_cards(es@, i as nat),
            any == exists|j: int| 0 <= j < i && is_extra_key(#[trigger] es@[j].0@),
        decreases es@.len() - i,
    {
        let k = crate::text::chars_of(es[i].0.as_str());
        let extra = !(crate::text::same_chars(&k, &crate::text::chars_of("url"))
            || crate::text::same_chars(&k, &crate::text::chars_of("variations"))
            || crate::text::same_chars(&k, &crate::text::chars_of("timestamp")));
        assert(extra == is_extra_key(es@[i as int].0@));
        if extra {
            let mut label: Vec<char> = Vec::new();
            push_html(&mut label, es[i].0.as_str());
            let mut val: Vec<char> = Vec::new();
            push_text_of(&es[i].1, &mut val, false, false);
            assert(label@ =~= html_escaped(es@[i as int].0@));
            assert(val@ =~= html_escaped(pretty_text(es@[i as int].1)));
            push_card(&mut cards, &label, &val);
            any = true;
        } else {
            assert(cards@ =~= extra_cards(es@, i as nat + 1));
        }
        i = i + 1;
    }
    if any {
        push_chars(out, EXTRA_OPEN);
        push_vec(out, &cards);
        push_chars(out, GRID_CLOSE);
        assert(out@ =~= start + (EXTRA_OPEN@ + extra_cards(es@, es@.len()) + GRID_CLOSE@));
    } else {
        assert(out@ =~= start + Seq::<char>::empty());
    }
}

/// The HTML page of a document.
pub fn html_page(v: &JsonValue) -> (r: String)
    ensures
        r@ == html_of(*v),
{
    let mut out: Vec<char> = Vec::new();
    push_chars(&mut out, PAGE_HEAD);
    let ghost s0 = out@;
    match v {
        JsonValue::Object(es) => {
            html_summary_of(es, &mut out);
            let ghost s1 = out@;
            match find_member(es, "variations") {
                Some(JsonValue::Array(vs)) => {
                    push_chars(&mut out, TABLE_OPEN);
                    let ghost s2 = out@;
                    let mut i: usize = 0;
                    while i < vs.len()
                        invariant
                            i <= vs@.len(),
                            out@ == s2 + html_rows(vs@, i as nat),
                        decreases vs@.len() - i,
                    {
                        html_row_of(i, &vs[i], &mut out);
                        i = i + 1;
                    }
                    push_chars(&mut out, TABLE_CLOSE);
                    assert(out@ =~= s1 + (TABLE_OPEN@ + html_rows(vs@, vs@.len()) + TABLE_CLOSE@));
                },
                _ => {},
            }
            html_extra_of(es, &mut out);
            assert(out@ =~= s0 + html_content(es@));
        },
        _ => {},
    }
    push_chars(&mut out, PAGE_FOOT);
    assert(out@ =~= html_of(*v));
    crate::text::string_of(&out)
}

} // verus!
